//! Scenario tests for the locking discipline: what acquisition reports,
//! what contention refuses, and what upgrade, downgrade and release open
//! up for other holders.

use file_guard::{lock, lock_any, try_lock, Lock, LockError, LockTable, Upgrade};

#[test]
fn zero_length_rejected_everywhere() {
    let mut table = LockTable::new();
    assert_eq!(
        lock(&mut table, 1, Lock::Exclusive, 7, 0).unwrap_err(),
        LockError::InvalidInput
    );
    assert_eq!(
        try_lock(&mut table, 1, Lock::Shared, 7, 0).unwrap_err(),
        LockError::InvalidInput
    );
    assert_eq!(lock_any(&mut table, 1, 7, 0).unwrap_err(), LockError::InvalidInput);
    assert_eq!(
        table.acquire(1, Lock::Exclusive, 7, 0).unwrap_err(),
        LockError::InvalidInput
    );
    assert_eq!(table.release(1, 7, 0).unwrap_err(), LockError::InvalidInput);

    // No lock side effect was performed: the range is still free for
    // anybody, and so is every other range.
    assert!(table.can_acquire(2, Lock::Exclusive, 7, 1));
    assert!(table.can_acquire(2, Lock::Exclusive, 0, 100));
}

#[test]
fn guard_reports_requested_range_and_mode() {
    let mut table = LockTable::new();
    let g = try_lock(&mut table, 7, Lock::Shared, 5, 10).unwrap();
    assert_eq!(g.holder(), 7);
    assert_eq!(g.offset(), 5);
    assert_eq!(g.len(), 10);
    assert_eq!(g.range(), 5..15);
    assert_eq!(g.lock_type(), Lock::Shared);
    assert!(g.is_shared());
    assert!(!g.is_exclusive());
    assert!(!g.is_empty());
    g.unlock(&mut table).unwrap();

    // An "any" acquisition on a free range grants exclusive, and the
    // guard records the mode actually granted.
    let g = lock_any(&mut table, 7, 5, 10).unwrap();
    assert_eq!(g.lock_type(), Lock::Exclusive);
    assert_eq!(g.range(), 5..15);
    g.unlock(&mut table).unwrap();
}

#[test]
fn exclusive_excludes_exclusive() {
    let mut table = LockTable::new();
    let first = try_lock(&mut table, 1, Lock::Exclusive, 0, 10).unwrap();
    assert!(first.is_exclusive());
    // Overlapping range, different holder: refused at once.
    assert_eq!(
        try_lock(&mut table, 2, Lock::Exclusive, 5, 10).unwrap_err(),
        LockError::WouldBlock
    );
    first.unlock(&mut table).unwrap();
}

#[test]
fn shared_tolerates_shared_but_blocks_exclusive() {
    let mut table = LockTable::new();
    let a = try_lock(&mut table, 1, Lock::Shared, 0, 10).unwrap();
    let b = try_lock(&mut table, 2, Lock::Shared, 5, 10).unwrap();

    // A third holder's exclusive attempt over the same region fails
    // while any shared holder is active.
    assert_eq!(
        try_lock(&mut table, 3, Lock::Exclusive, 3, 8).unwrap_err(),
        LockError::WouldBlock
    );
    a.unlock(&mut table).unwrap();
    assert_eq!(
        try_lock(&mut table, 3, Lock::Exclusive, 3, 8).unwrap_err(),
        LockError::WouldBlock
    );
    b.unlock(&mut table).unwrap();
    let c = try_lock(&mut table, 3, Lock::Exclusive, 3, 8).unwrap();
    c.unlock(&mut table).unwrap();
}

#[test]
fn upgrade_succeeds_only_without_other_holders() {
    let mut table = LockTable::new();
    let mut a = try_lock(&mut table, 1, Lock::Shared, 0, 10).unwrap();
    let mut b = try_lock(&mut table, 2, Lock::Shared, 0, 10).unwrap();

    // Another holder overlaps: the upgrade fails and the guard's mode is
    // unchanged.
    assert_eq!(a.try_upgrade(&mut table).unwrap_err(), LockError::WouldBlock);
    assert!(a.is_shared());

    // The failed upgrade left the shared lock intact and correctly
    // releasable: after a's release, the range no longer blocks b.
    a.unlock(&mut table).unwrap();
    b.try_upgrade(&mut table).unwrap();
    assert!(b.is_exclusive());
    b.unlock(&mut table).unwrap();
}

#[test]
fn downgrade_opens_shared_and_keeps_exclusive_out() {
    let mut table = LockTable::new();
    let mut a = try_lock(&mut table, 1, Lock::Exclusive, 0, 10).unwrap();
    a.downgrade(&mut table).unwrap();
    assert!(a.is_shared());

    // The shared lock is in effect: another holder's exclusive attempt
    // still fails ...
    assert_eq!(
        try_lock(&mut table, 2, Lock::Exclusive, 0, 10).unwrap_err(),
        LockError::WouldBlock
    );
    // ... and the exclusive lock is really gone: the same holder's shared
    // attempt succeeds.
    let b = try_lock(&mut table, 2, Lock::Shared, 0, 10).unwrap();

    a.unlock(&mut table).unwrap();
    b.unlock(&mut table).unwrap();
}

#[test]
fn unlock_frees_the_identical_range() {
    let mut table = LockTable::new();
    let a = try_lock(&mut table, 1, Lock::Exclusive, 4, 4).unwrap();
    assert_eq!(
        try_lock(&mut table, 2, Lock::Exclusive, 4, 4).unwrap_err(),
        LockError::WouldBlock
    );
    a.unlock(&mut table).unwrap();
    // Immediately after the guard is gone, the identical range is granted
    // exclusively to a different holder.
    let b = try_lock(&mut table, 2, Lock::Exclusive, 4, 4).unwrap();
    b.unlock(&mut table).unwrap();
}

#[test]
fn contended_byte_passes_between_holders() {
    let mut table = LockTable::new();
    // Holder a acquires the exclusive lock on [0, 1) willing to wait; the
    // range is free, so it is granted at once.
    let a = lock(&mut table, 1, Lock::Exclusive, 0, 1).unwrap();
    assert!(a.is_exclusive());
    // Holder b's non-blocking exclusive attempt on [0, 1) is refused.
    assert_eq!(
        try_lock(&mut table, 2, Lock::Exclusive, 0, 1).unwrap_err(),
        LockError::WouldBlock
    );
    // a's guard is destroyed; b retries and succeeds.
    a.unlock(&mut table).unwrap();
    let b = try_lock(&mut table, 2, Lock::Exclusive, 0, 1).unwrap();
    assert!(b.is_exclusive());
    b.unlock(&mut table).unwrap();
}

#[test]
fn lock_any_falls_back_to_shared_on_contention() {
    let mut table = LockTable::new();
    // Another holder already shares the range, so exclusive is
    // unavailable but shared is not.
    let b = try_lock(&mut table, 2, Lock::Shared, 0, 5).unwrap();
    let a = lock_any(&mut table, 1, 0, 5).unwrap();
    assert!(a.is_shared());
    assert_eq!(a.lock_type(), Lock::Shared);
    a.unlock(&mut table).unwrap();
    b.unlock(&mut table).unwrap();
}

#[test]
fn lock_any_propagates_full_contention() {
    let mut table = LockTable::new();
    // An exclusive holder blocks both modes: the fallback shared
    // acquisition is contended too.
    let b = try_lock(&mut table, 2, Lock::Exclusive, 0, 5).unwrap();
    assert_eq!(lock_any(&mut table, 1, 0, 5).unwrap_err(), LockError::WouldBlock);
    b.unlock(&mut table).unwrap();
}
