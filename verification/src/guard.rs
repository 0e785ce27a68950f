//! The lock guard: the owning handle to one acquired lock.
//!
//! A guard is created only by a successful acquisition, so a guard always
//! stands for a lock that is actually held: its entry is in the table, in
//! the guard's recorded mode, until the guard is consumed by [`FileGuard::unlock`].
//! Mode transitions are fail-safe: they update the recorded mode only when
//! the table granted the new mode, so the record never diverges from what
//! is held.

use vstd::prelude::*;

use crate::errors::LockError;
use crate::ranges::valid_range;
use crate::table::{compatible, consistent, conflicts, granted, released, LockEntry, LockTable};
use crate::Lock;

verus! {

/// The owning handle to one held lock: a holder identity, a byte range,
/// and the mode the range is held in.
///
/// The fields are deliberately inaccessible: a caller can read them but
/// cannot swap the held range or mode behind the table's back.
#[derive(Debug)]
#[must_use]
pub struct FileGuard {
    holder: u64,
    offset: u64,
    len: u64,
    lock: Lock,
}

/// In-place transitions from shared to exclusive mode.
///
/// The two operations differ only in what they ask of a waiting backend:
/// `upgrade` issues a waiting request, `try_upgrade` an immediate one. At
/// the moment of a grant the two coincide, which is what the model states;
/// both are fail-safe, leaving the guard and the table untouched when the
/// new mode is not granted.
pub trait Upgrade {
    /// The table entry this guard stands for.
    spec fn guard_entry(&self) -> LockEntry;

    /// The guard's range is usable as a lock key.
    spec fn guard_wf(&self) -> bool;

    /// Makes the held lock exclusive, waiting for other holders if needed;
    /// a no-op if it already is exclusive.
    fn upgrade(&mut self, table: &mut LockTable) -> (r: Result<(), LockError>)
        requires
            old(self).guard_wf(),
            old(table).wf(),
            old(table)@.contains(old(self).guard_entry()),
        ensures
            final(table).wf(),
            final(self).guard_wf(),
            final(table)@.contains(final(self).guard_entry()),
            final(self).guard_entry().holder == old(self).guard_entry().holder,
            final(self).guard_entry().offset == old(self).guard_entry().offset,
            final(self).guard_entry().len == old(self).guard_entry().len,
            old(self).guard_entry().mode == Lock::Exclusive ==> r == Ok::<(), LockError>(())
                && final(self).guard_entry() == old(self).guard_entry() && final(table)@ == old(
                table,
            )@,
            old(self).guard_entry().mode == Lock::Shared && compatible(
                old(table)@,
                old(self).guard_entry().holder,
                Lock::Exclusive,
                old(self).guard_entry().offset,
                old(self).guard_entry().len,
            ) ==> r == Ok::<(), LockError>(()) && final(self).guard_entry().mode == Lock::Exclusive
                && granted(
                old(table)@,
                final(table)@,
                old(self).guard_entry().holder,
                Lock::Exclusive,
                old(self).guard_entry().offset,
                old(self).guard_entry().len,
            ),
            old(self).guard_entry().mode == Lock::Shared && !compatible(
                old(table)@,
                old(self).guard_entry().holder,
                Lock::Exclusive,
                old(self).guard_entry().offset,
                old(self).guard_entry().len,
            ) ==> r == Err::<(), LockError>(LockError::WouldBlock) && final(self).guard_entry()
                == old(self).guard_entry() && final(table)@ == old(table)@,
    ;

    /// Makes the held lock exclusive without waiting; a no-op if it
    /// already is exclusive. Fails with `WouldBlock` while any other
    /// holder has a lock overlapping the guard's range.
    fn try_upgrade(&mut self, table: &mut LockTable) -> (r: Result<(), LockError>)
        requires
            old(self).guard_wf(),
            old(table).wf(),
            old(table)@.contains(old(self).guard_entry()),
        ensures
            final(table).wf(),
            final(self).guard_wf(),
            final(table)@.contains(final(self).guard_entry()),
            final(self).guard_entry().holder == old(self).guard_entry().holder,
            final(self).guard_entry().offset == old(self).guard_entry().offset,
            final(self).guard_entry().len == old(self).guard_entry().len,
            old(self).guard_entry().mode == Lock::Exclusive ==> r == Ok::<(), LockError>(())
                && final(self).guard_entry() == old(self).guard_entry() && final(table)@ == old(
                table,
            )@,
            old(self).guard_entry().mode == Lock::Shared && compatible(
                old(table)@,
                old(self).guard_entry().holder,
                Lock::Exclusive,
                old(self).guard_entry().offset,
                old(self).guard_entry().len,
            ) ==> r == Ok::<(), LockError>(()) && final(self).guard_entry().mode == Lock::Exclusive
                && granted(
                old(table)@,
                final(table)@,
                old(self).guard_entry().holder,
                Lock::Exclusive,
                old(self).guard_entry().offset,
                old(self).guard_entry().len,
            ),
            old(self).guard_entry().mode == Lock::Shared && !compatible(
                old(table)@,
                old(self).guard_entry().holder,
                Lock::Exclusive,
                old(self).guard_entry().offset,
                old(self).guard_entry().len,
            ) ==> r == Err::<(), LockError>(LockError::WouldBlock) && final(self).guard_entry()
                == old(self).guard_entry() && final(table)@ == old(table)@,
    ;
}

/// Acquires a lock of `mode` on `[offset, offset + len)` for `holder`,
/// willing to wait, and returns the guard that holds it.
///
/// A zero-length range is rejected with `InvalidInput` before the table is
/// touched. In this model a grant happens at the moment of the call, so a
/// request that only a concurrent release could unblock is reported as
/// `WouldBlock`; an OS backend suspends the caller instead.
pub fn lock(table: &mut LockTable, holder: u64, mode: Lock, offset: u64, len: u64) -> (r: Result<
    FileGuard,
    LockError,
>)
    requires
        old(table).wf(),
        offset + len <= u64::MAX,
    ensures
        final(table).wf(),
        len == 0 ==> r == Err::<FileGuard, LockError>(LockError::InvalidInput) && final(table)@
            == old(table)@,
        len != 0 && compatible(old(table)@, holder, mode, offset, len) ==> (r matches Ok(g)
            && g.entry() == (LockEntry { holder, offset, len, mode }) && g.wf() && granted(
            old(table)@,
            final(table)@,
            holder,
            mode,
            offset,
            len,
        ) && g.held_in(final(table)@)),
        len != 0 && !compatible(old(table)@, holder, mode, offset, len) ==> r == Err::<
            FileGuard,
            LockError,
        >(LockError::WouldBlock) && final(table)@ == old(table)@,
{
    match table.acquire(holder, mode, offset, len) {
        Ok(_) => Ok(FileGuard { holder, offset, len, lock: mode }),
        Err(e) => Err(e),
    }
}

/// Acquires a lock of `mode` on `[offset, offset + len)` for `holder`
/// without waiting: on contention it fails with `WouldBlock` at once.
pub fn try_lock(table: &mut LockTable, holder: u64, mode: Lock, offset: u64, len: u64) -> (r:
    Result<FileGuard, LockError>)
    requires
        old(table).wf(),
        offset + len <= u64::MAX,
    ensures
        final(table).wf(),
        len == 0 ==> r == Err::<FileGuard, LockError>(LockError::InvalidInput) && final(table)@
            == old(table)@,
        len != 0 && compatible(old(table)@, holder, mode, offset, len) ==> (r matches Ok(g)
            && g.entry() == (LockEntry { holder, offset, len, mode }) && g.wf() && granted(
            old(table)@,
            final(table)@,
            holder,
            mode,
            offset,
            len,
        ) && g.held_in(final(table)@)),
        len != 0 && !compatible(old(table)@, holder, mode, offset, len) ==> r == Err::<
            FileGuard,
            LockError,
        >(LockError::WouldBlock) && final(table)@ == old(table)@,
{
    match table.acquire(holder, mode, offset, len) {
        Ok(_) => Ok(FileGuard { holder, offset, len, lock: mode }),
        Err(e) => Err(e),
    }
}

/// Acquires exclusively if that is granted at once, and otherwise falls
/// back to a shared acquisition on contention, as
/// [`LockTable::acquire_exclusive_or_shared`] decides. The returned guard
/// records whichever mode was actually granted, so the caller must inspect
/// it: it is not guaranteed to be exclusive.
pub fn lock_any(table: &mut LockTable, holder: u64, offset: u64, len: u64) -> (r: Result<
    FileGuard,
    LockError,
>)
    requires
        old(table).wf(),
        offset + len <= u64::MAX,
    ensures
        final(table).wf(),
        len == 0 ==> r == Err::<FileGuard, LockError>(LockError::InvalidInput) && final(table)@
            == old(table)@,
        len != 0 && compatible(old(table)@, holder, Lock::Exclusive, offset, len) ==> (r matches Ok(
            g,
        ) && g.entry() == (LockEntry { holder, offset, len, mode: Lock::Exclusive }) && g.wf()
            && granted(old(table)@, final(table)@, holder, Lock::Exclusive, offset, len)
            && g.held_in(final(table)@)),
        len != 0 && !compatible(old(table)@, holder, Lock::Exclusive, offset, len) && compatible(
            old(table)@,
            holder,
            Lock::Shared,
            offset,
            len,
        ) ==> (r matches Ok(g) && g.entry() == (LockEntry {
            holder,
            offset,
            len,
            mode: Lock::Shared,
        }) && g.wf() && granted(old(table)@, final(table)@, holder, Lock::Shared, offset, len)
            && g.held_in(final(table)@)),
        len != 0 && !compatible(old(table)@, holder, Lock::Shared, offset, len) ==> r == Err::<
            FileGuard,
            LockError,
        >(LockError::WouldBlock) && final(table)@ == old(table)@,
{
    match table.acquire_exclusive_or_shared(holder, offset, len) {
        Ok(mode) => Ok(FileGuard { holder, offset, len, lock: mode }),
        Err(e) => Err(e),
    }
}

impl FileGuard {
    /// The table entry this guard stands for.
    pub closed spec fn entry(&self) -> LockEntry {
        LockEntry { holder: self.holder, offset: self.offset, len: self.len, mode: self.lock }
    }

    /// The guard's range is usable as a lock key. Every guard built by an
    /// acquisition satisfies this.
    pub open spec fn wf(&self) -> bool {
        valid_range(self.entry().offset, self.entry().len)
    }

    /// The guard's lock is held in the table state `s`.
    pub open spec fn held_in(&self, s: Seq<LockEntry>) -> bool {
        s.contains(self.entry())
    }

    /// The mode the guard's range is held in.
    pub fn lock_type(&self) -> (r: Lock)
        ensures
            r == self.entry().mode,
    {
        self.lock
    }

    /// Whether the guard holds its range shared.
    pub fn is_shared(&self) -> (r: bool)
        ensures
            r == (self.entry().mode == Lock::Shared),
    {
        self.lock == Lock::Shared
    }

    /// Whether the guard holds its range exclusively.
    pub fn is_exclusive(&self) -> (r: bool)
        ensures
            r == (self.entry().mode == Lock::Exclusive),
    {
        self.lock == Lock::Exclusive
    }

    /// The identity of the holder the lock was acquired for.
    pub fn holder(&self) -> (r: u64)
        ensures
            r == self.entry().holder,
    {
        self.holder
    }

    /// Start of the held byte range.
    pub fn offset(&self) -> (r: u64)
        ensures
            r == self.entry().offset,
    {
        self.offset
    }

    /// Length of the held byte range.
    pub fn len(&self) -> (r: u64)
        ensures
            r == self.entry().len,
    {
        self.len
    }

    /// Whether the held range is empty. Acquisition rejects zero-length
    /// ranges, so this is false of every guard it returns.
    pub fn is_empty(&self) -> (r: bool)
        ensures
            r == (self.entry().len == 0),
    {
        self.len == 0
    }

    /// The held range as the half-open interval `[offset, offset + len)`.
    pub fn range(&self) -> (r: core::ops::Range<u64>)
        requires
            self.wf(),
        ensures
            r.start == self.entry().offset,
            r.end == self.entry().offset + self.entry().len,
    {
        self.offset..(self.offset + self.len)
    }

    /// Makes an exclusively held lock shared; a no-op if the guard is
    /// already shared. Because an exclusive lock keeps every other holder
    /// away from the range, the shared grant that replaces it cannot be
    /// contended: a downgrade on a consistent table always succeeds.
    pub fn downgrade(&mut self, table: &mut LockTable) -> (r: Result<(), LockError>)
        requires
            old(self).wf(),
            old(table).wf(),
            old(self).held_in(old(table)@),
        ensures
            final(table).wf(),
            final(self).wf(),
            final(self).held_in(final(table)@),
            r == Ok::<(), LockError>(()),
            final(self).entry().holder == old(self).entry().holder,
            final(self).entry().offset == old(self).entry().offset,
            final(self).entry().len == old(self).entry().len,
            final(self).entry().mode == Lock::Shared,
            old(self).entry().mode == Lock::Shared ==> final(self).entry() == old(self).entry()
                && final(table)@ == old(table)@,
            old(self).entry().mode == Lock::Exclusive ==> granted(
                old(table)@,
                final(table)@,
                old(self).entry().holder,
                Lock::Shared,
                old(self).entry().offset,
                old(self).entry().len,
            ),
    {
        if self.is_exclusive() {
            proof {
                lemma_held_exclusive_leaves_range_free(
                    old(table)@,
                    self.entry(),
                    Lock::Shared,
                );
            }
            match table.acquire(self.holder, Lock::Shared, self.offset, self.len) {
                Ok(_) => {
                    self.lock = Lock::Shared;
                    Ok(())
                },
                Err(e) => Err(e),
            }
        } else {
            Ok(())
        }
    }

    /// Consumes the guard and removes its lock from the table: the
    /// scope-exit release, made explicit so that no path can leak a held
    /// lock past its guard. Releasing a well-formed guard always succeeds.
    pub fn unlock(self, table: &mut LockTable) -> (r: Result<(), LockError>)
        requires
            self.wf(),
            old(table).wf(),
        ensures
            final(table).wf(),
            r == Ok::<(), LockError>(()),
            released(
                old(table)@,
                final(table)@,
                self.entry().holder,
                self.entry().offset,
                self.entry().len,
            ),
    {
        table.release(self.holder, self.offset, self.len)
    }
}

/// While a holder has an exclusive lock in a consistent table, no other
/// holder holds anything overlapping it, so any further request by the
/// same holder on the same range is compatible.
proof fn lemma_held_exclusive_leaves_range_free(s: Seq<LockEntry>, held: LockEntry, mode: Lock)
    requires
        consistent(s),
        s.contains(held),
        held.mode == Lock::Exclusive,
    ensures
        compatible(s, held.holder, mode, held.offset, held.len),
{
    assert forall|e: LockEntry| #[trigger] s.contains(e) implies !conflicts(
        e,
        held.holder,
        mode,
        held.offset,
        held.len,
    ) by {
        assert(!conflicts(e, held.holder, held.mode, held.offset, held.len));
    }
}

impl Upgrade for FileGuard {
    open spec fn guard_entry(&self) -> LockEntry {
        self.entry()
    }

    open spec fn guard_wf(&self) -> bool {
        self.wf()
    }

    fn upgrade(&mut self, table: &mut LockTable) -> (r: Result<(), LockError>) {
        if self.is_shared() {
            match table.acquire(self.holder, Lock::Exclusive, self.offset, self.len) {
                Ok(_) => {
                    self.lock = Lock::Exclusive;
                    Ok(())
                },
                Err(e) => Err(e),
            }
        } else {
            Ok(())
        }
    }

    fn try_upgrade(&mut self, table: &mut LockTable) -> (r: Result<(), LockError>) {
        if self.is_shared() {
            match table.acquire(self.holder, Lock::Exclusive, self.offset, self.len) {
                Ok(_) => {
                    self.lock = Lock::Exclusive;
                    Ok(())
                },
                Err(e) => Err(e),
            }
        } else {
            Ok(())
        }
    }
}

} // verus!
