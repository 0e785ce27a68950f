//! The interleaving of two holders contending for the same one-byte range,
//! driven over the lock table: each holder sees exactly the grants and
//! refusals that advisory locking promises.

use file_guard::{try_lock, Lock, LockError, LockTable};

#[test]
fn test_try_lock() {
    let mut table = LockTable::new();

    // Holder a takes the exclusive lock first.
    let a = try_lock(&mut table, 1, Lock::Exclusive, 0, 1).unwrap();
    assert!(a.is_exclusive());

    // While a holds exclusively, b gets nothing on the range.
    assert_eq!(
        try_lock(&mut table, 2, Lock::Exclusive, 0, 1).unwrap_err(),
        LockError::WouldBlock
    );
    assert_eq!(
        try_lock(&mut table, 2, Lock::Shared, 0, 1).unwrap_err(),
        LockError::WouldBlock
    );

    // a releases, then retakes the range shared.
    a.unlock(&mut table).unwrap();
    let a = try_lock(&mut table, 1, Lock::Shared, 0, 1).unwrap();
    assert!(a.is_shared());

    // b still cannot lock exclusively, but a shared lock is granted now.
    assert_eq!(
        try_lock(&mut table, 2, Lock::Exclusive, 0, 1).unwrap_err(),
        LockError::WouldBlock
    );
    let b = try_lock(&mut table, 2, Lock::Shared, 0, 1).unwrap();
    assert!(b.is_shared());

    a.unlock(&mut table).unwrap();
    b.unlock(&mut table).unwrap();
}
