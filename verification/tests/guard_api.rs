//! Tests of the guard and table surface beyond the contention scenarios:
//! queries, no-op transitions, and release of unheld ranges.

use file_guard::{lock, try_lock, Lock, LockError, LockTable, Upgrade};

#[test]
fn empty_table_grants_anything() {
    let table = LockTable::new();
    assert!(table.can_acquire(1, Lock::Exclusive, 0, u64::MAX));
    assert!(table.can_acquire(1, Lock::Shared, 0, 1));
}

#[test]
fn can_acquire_tracks_the_held_locks() {
    let mut table = LockTable::new();
    let g = try_lock(&mut table, 1, Lock::Exclusive, 10, 10).unwrap();
    assert!(!table.can_acquire(2, Lock::Shared, 15, 1));
    // The holder itself is never in its own way.
    assert!(table.can_acquire(1, Lock::Shared, 15, 1));
    // A disjoint range is free: [20, 21) touches the end without overlap.
    assert!(table.can_acquire(2, Lock::Exclusive, 20, 1));
    g.unlock(&mut table).unwrap();
    assert!(table.can_acquire(2, Lock::Shared, 15, 1));
}

#[test]
fn upgrade_is_a_noop_on_an_exclusive_guard() {
    let mut table = LockTable::new();
    let mut g = try_lock(&mut table, 1, Lock::Exclusive, 0, 4).unwrap();
    g.upgrade(&mut table).unwrap();
    assert!(g.is_exclusive());
    g.unlock(&mut table).unwrap();
}

#[test]
fn downgrade_is_a_noop_on_a_shared_guard() {
    let mut table = LockTable::new();
    let mut g = try_lock(&mut table, 1, Lock::Shared, 0, 4).unwrap();
    g.downgrade(&mut table).unwrap();
    assert!(g.is_shared());
    g.unlock(&mut table).unwrap();
}

#[test]
fn upgrade_waits_but_succeeds_alone() {
    let mut table = LockTable::new();
    let mut g = lock(&mut table, 1, Lock::Shared, 0, 4).unwrap();
    // No other holder: the waiting upgrade is granted at once.
    g.upgrade(&mut table).unwrap();
    assert!(g.is_exclusive());
    assert_eq!(g.range(), 0..4);
    g.unlock(&mut table).unwrap();
}

#[test]
fn blocking_lock_reports_contention_it_cannot_outwait() {
    let mut table = LockTable::new();
    let g = try_lock(&mut table, 1, Lock::Exclusive, 0, 4).unwrap();
    // In the in-process model no concurrent release can end a wait, so
    // the blocking acquisition reports the contention instead.
    assert_eq!(
        lock(&mut table, 2, Lock::Shared, 0, 4).unwrap_err(),
        LockError::WouldBlock
    );
    g.unlock(&mut table).unwrap();
}

#[test]
fn releasing_an_unheld_range_is_a_noop() {
    let mut table = LockTable::new();
    table.release(1, 100, 8).unwrap();
    let g = try_lock(&mut table, 1, Lock::Shared, 100, 8).unwrap();
    // Releasing a different exact range, even an overlapping one, removes
    // nothing: the lock keeps its key.
    table.release(1, 100, 4).unwrap();
    assert!(!table.can_acquire(2, Lock::Exclusive, 100, 8));
    g.unlock(&mut table).unwrap();
    assert!(table.can_acquire(2, Lock::Exclusive, 100, 8));
}

#[test]
fn the_last_byte_of_the_address_space_can_be_locked() {
    let mut table = LockTable::new();
    let g = try_lock(&mut table, 1, Lock::Exclusive, u64::MAX - 1, 1).unwrap();
    assert_eq!(g.range(), (u64::MAX - 1)..u64::MAX);
    assert!(!table.can_acquire(2, Lock::Shared, u64::MAX - 1, 1));
    g.unlock(&mut table).unwrap();
}

#[test]
fn reacquiring_the_same_range_replaces_the_mode() {
    let mut table = LockTable::new();
    // A holder is never in its own way: acquiring the held range again
    // with another mode replaces the lock instead of deadlocking.
    table.acquire(1, Lock::Exclusive, 0, 4).unwrap();
    table.acquire(1, Lock::Shared, 0, 4).unwrap();
    // The exclusive hold is gone: another holder's shared request passes.
    assert!(table.can_acquire(2, Lock::Shared, 0, 4));
    assert!(!table.can_acquire(2, Lock::Exclusive, 0, 4));
    table.release(1, 0, 4).unwrap();
    assert!(table.can_acquire(2, Lock::Exclusive, 0, 4));
}

#[test]
fn guards_of_one_holder_are_independent() {
    let mut table = LockTable::new();
    let a = try_lock(&mut table, 1, Lock::Exclusive, 0, 1).unwrap();
    let b = try_lock(&mut table, 1, Lock::Shared, 1, 1).unwrap();
    assert_eq!(a.range(), 0..1);
    assert_eq!(b.range(), 1..2);
    a.unlock(&mut table).unwrap();
    // Releasing a released only its range; b's lock still stands.
    assert!(table.can_acquire(2, Lock::Exclusive, 0, 1));
    assert!(!table.can_acquire(2, Lock::Exclusive, 1, 1));
    b.unlock(&mut table).unwrap();
}
