//! The advisory lock table: the state that actual mutual exclusion rests on.
//!
//! The operating system keeps one table of held byte-range locks per file;
//! that table, not any holder's bookkeeping, decides which requests are
//! granted. This module is a verified model of that table with the
//! normalized contract every backend presents: a request is granted exactly
//! when no other holder has an incompatible overlapping lock, a grant
//! replaces the holder's previous lock on the same exact range (so a mode
//! change appears atomic), and a release removes the holder's lock on the
//! exact range.
//!
//! A grant happens at the moment of the call. The model holds no concurrent
//! actor that could release a lock while a caller waits, so a request that
//! could only be granted after such a release is reported as contention
//! (`WouldBlock`) rather than suspending; with an OS backend, the `wait`
//! flag of the issued request makes the OS itself suspend instead.

use vstd::prelude::*;

use crate::errors::LockError;
use crate::primitive::{lock_any_step, AnyStep};
use crate::ranges::{overlaps, ranges_overlap, valid_range};
use crate::Lock;

verus! {

broadcast use vstd::seq_lib::lemma_seq_contains_after_push;

/// One held lock: a holder's lock of `mode` on `[offset, offset + len)`.
///
/// The holder is a stable identity of the locking party (for the OS table
/// it is the process owning the open file handle).
#[derive(Copy, Clone, PartialEq, Eq, Structural, Debug)]
pub struct LockEntry {
    /// Identity of the party holding the lock.
    pub holder: u64,
    /// Start of the locked byte range.
    pub offset: u64,
    /// Length of the locked byte range.
    pub len: u64,
    /// Mode the range is held in.
    pub mode: Lock,
}

/// The entry's range is usable as a lock key.
pub open spec fn entry_valid(e: LockEntry) -> bool {
    valid_range(e.offset, e.len)
}

/// `e` carries the key that grants and releases go by: `holder`'s lock on
/// exactly `[offset, offset + len)`, in whatever mode.
pub open spec fn is_key(e: LockEntry, holder: u64, offset: u64, len: u64) -> bool {
    e.holder == holder && e.offset == offset && e.len == len
}

/// `e` stands in the way of `holder` locking `[offset, offset + len)` in
/// `mode`: it belongs to a different holder, overlaps the range, and at
/// least one of the two sides is exclusive.
pub open spec fn conflicts(e: LockEntry, holder: u64, mode: Lock, offset: u64, len: u64) -> bool {
    &&& e.holder != holder
    &&& overlaps(e.offset, e.len, offset, len)
    &&& (e.mode == Lock::Exclusive || mode == Lock::Exclusive)
}

/// No lock in `s` stands in the way of the request: it would be granted.
pub open spec fn compatible(
    s: Seq<LockEntry>,
    holder: u64,
    mode: Lock,
    offset: u64,
    len: u64,
) -> bool {
    forall|e: LockEntry| #[trigger] s.contains(e) ==> !conflicts(e, holder, mode, offset, len)
}

/// Every lock in `s` has a usable range.
pub open spec fn all_valid(s: Seq<LockEntry>) -> bool {
    forall|e: LockEntry| #[trigger] s.contains(e) ==> entry_valid(e)
}

/// Mutual exclusion: no lock in `s` conflicts with another lock in `s`
/// read as a request. Equivalently, locks of different holders overlap
/// only when both are shared.
pub open spec fn consistent(s: Seq<LockEntry>) -> bool {
    forall|e1: LockEntry, e2: LockEntry|
        #![trigger s.contains(e1), s.contains(e2)]
        s.contains(e1) && s.contains(e2) ==> !conflicts(e1, e2.holder, e2.mode, e2.offset, e2.len)
}

/// The table after a grant: the holder's lock on the exact range now
/// carries `mode`, whatever mode it had before; every other lock stays.
pub open spec fn granted(
    s_old: Seq<LockEntry>,
    s_new: Seq<LockEntry>,
    holder: u64,
    mode: Lock,
    offset: u64,
    len: u64,
) -> bool {
    forall|e: LockEntry|
        #![trigger s_new.contains(e)]
        #![trigger s_old.contains(e)]
        s_new.contains(e) <==> (s_old.contains(e) && !is_key(e, holder, offset, len)) || e == (
        LockEntry { holder, offset, len, mode })
}

/// The table after a release: the holder's lock on the exact range is
/// gone; every other lock stays.
pub open spec fn released(
    s_old: Seq<LockEntry>,
    s_new: Seq<LockEntry>,
    holder: u64,
    offset: u64,
    len: u64,
) -> bool {
    forall|e: LockEntry|
        #![trigger s_new.contains(e)]
        #![trigger s_old.contains(e)]
        s_new.contains(e) <==> s_old.contains(e) && !is_key(e, holder, offset, len)
}

/// A request that would be granted exclusively would be granted in any
/// mode: whatever conflicts with some request conflicts with the
/// exclusive one.
pub proof fn lemma_exclusive_compat_implies_any(
    s: Seq<LockEntry>,
    holder: u64,
    mode: Lock,
    offset: u64,
    len: u64,
)
    requires
        compatible(s, holder, Lock::Exclusive, offset, len),
    ensures
        compatible(s, holder, mode, offset, len),
{
    assert forall|e: LockEntry| #[trigger] s.contains(e) implies !conflicts(
        e,
        holder,
        mode,
        offset,
        len,
    ) by {
        assert(!conflicts(e, holder, Lock::Exclusive, offset, len));
    }
}

/// The advisory lock table of one shared file: the set of held locks,
/// with the normalized grant/release contract of the platform primitive.
pub struct LockTable {
    entries: Vec<LockEntry>,
}

impl View for LockTable {
    type V = Seq<LockEntry>;

    closed spec fn view(&self) -> Seq<LockEntry> {
        self.entries@
    }
}

impl LockTable {
    /// The table's invariant: every lock has a usable range, and no two
    /// held locks conflict (mutual exclusion).
    pub open spec fn wf(&self) -> bool {
        all_valid(self@) && consistent(self@)
    }

    /// An empty table: nothing is locked.
    pub fn new() -> (t: LockTable)
        ensures
            t.wf(),
            t@ == Seq::<LockEntry>::empty(),
    {
        LockTable { entries: Vec::new() }
    }

    /// Decides whether `e` conflicts with the request.
    fn entry_conflicts(e: &LockEntry, holder: u64, mode: Lock, offset: u64, len: u64) -> (r: bool)
        requires
            e.offset + e.len <= u64::MAX,
            offset + len <= u64::MAX,
        ensures
            r == conflicts(*e, holder, mode, offset, len),
    {
        e.holder != holder && ranges_overlap(e.offset, e.len, offset, len) && (e.mode
            == Lock::Exclusive || mode == Lock::Exclusive)
    }

    /// Decides whether a request would be granted now: whether no other
    /// holder has an incompatible overlapping lock. This is the model's
    /// analogue of the OS's non-destructive lock test.
    pub fn can_acquire(&self, holder: u64, mode: Lock, offset: u64, len: u64) -> (r: bool)
        requires
            self.wf(),
            offset + len <= u64::MAX,
        ensures
            r == compatible(self@, holder, mode, offset, len),
    {
        let n = self.entries.len();
        let mut i: usize = 0;
        while i < n
            invariant
                i <= n,
                n == self@.len(),
                self.wf(),
                offset + len <= u64::MAX,
                forall|j: int|
                    0 <= j < i ==> !conflicts(#[trigger] self@[j], holder, mode, offset, len),
            decreases n - i,
        {
            let e = self.entries[i];
            proof {
                assert(self@.contains(self@[i as int]));
            }
            if Self::entry_conflicts(&e, holder, mode, offset, len) {
                proof {
                    assert(self@.contains(e));
                }
                return false;
            }
            i += 1;
        }
        proof {
            assert forall|e: LockEntry| #[trigger] self@.contains(e) implies !conflicts(
                e,
                holder,
                mode,
                offset,
                len,
            ) by {
                let j = self@.lemma_contains_to_index(e);
            }
        }
        true
    }

    /// Copies every entry except the holder's locks on the exact range.
    fn retain_others(entries: &Vec<LockEntry>, holder: u64, offset: u64, len: u64) -> (kept: Vec<
        LockEntry,
    >)
        ensures
            forall|e: LockEntry| #[trigger]
                kept@.contains(e) <==> (entries@.contains(e) && !is_key(e, holder, offset, len)),
    {
        let n = entries.len();
        let mut kept: Vec<LockEntry> = Vec::new();
        let mut i: usize = 0;
        while i < n
            invariant
                i <= n,
                n == entries@.len(),
                forall|k: int|
                    0 <= k < kept@.len() ==> (entries@.contains(#[trigger] kept@[k]) && !is_key(
                        kept@[k],
                        holder,
                        offset,
                        len,
                    )),
                forall|j: int|
                    0 <= j < i && !is_key(#[trigger] entries@[j], holder, offset, len)
                        ==> kept@.contains(entries@[j]),
            decreases n - i,
        {
            let e = entries[i];
            proof {
                assert(entries@.contains(entries@[i as int]));
            }
            if !(e.holder == holder && e.offset == offset && e.len == len) {
                kept.push(e);
            }
            i += 1;
        }
        proof {
            assert forall|e: LockEntry| #[trigger] kept@.contains(e) implies (entries@.contains(e)
                && !is_key(e, holder, offset, len)) by {
                let k = kept@.lemma_contains_to_index(e);
            }
            assert forall|e: LockEntry|
                entries@.contains(e) && !is_key(e, holder, offset, len) implies #[trigger] kept@.contains(
                e,
            ) by {
                let j = entries@.lemma_contains_to_index(e);
            }
        }
        kept
    }

    /// One acquisition attempt: grants the request exactly when no other
    /// holder has an incompatible overlapping lock, replacing the holder's
    /// previous lock on the same exact range. A zero-length range is
    /// rejected before the table is even read.
    pub fn acquire(&mut self, holder: u64, mode: Lock, offset: u64, len: u64) -> (r: Result<
        (),
        LockError,
    >)
        requires
            old(self).wf(),
            offset + len <= u64::MAX,
        ensures
            final(self).wf(),
            len == 0 ==> r == Err::<(), LockError>(LockError::InvalidInput) && final(self)@ == old(
                self,
            )@,
            len != 0 && compatible(old(self)@, holder, mode, offset, len) ==> r == Ok::<
                (),
                LockError,
            >(()) && granted(old(self)@, final(self)@, holder, mode, offset, len),
            len != 0 && !compatible(old(self)@, holder, mode, offset, len) ==> r == Err::<
                (),
                LockError,
            >(LockError::WouldBlock) && final(self)@ == old(self)@,
    {
        if len == 0 {
            return Err(LockError::InvalidInput);
        }
        if !self.can_acquire(holder, mode, offset, len) {
            return Err(LockError::WouldBlock);
        }
        let mut kept = Self::retain_others(&self.entries, holder, offset, len);
        let entry = LockEntry { holder, offset, len, mode };
        kept.push(entry);
        proof {
            let s_old = self@;
            let s_new = kept@;
            assert(granted(s_old, s_new, holder, mode, offset, len));
            assert forall|e: LockEntry| #[trigger] s_new.contains(e) implies entry_valid(e) by {
                if e != entry {
                    assert(s_old.contains(e));
                }
            }
            assert forall|e1: LockEntry, e2: LockEntry|
                #![trigger s_new.contains(e1), s_new.contains(e2)]
                s_new.contains(e1) && s_new.contains(e2) implies !conflicts(
                e1,
                e2.holder,
                e2.mode,
                e2.offset,
                e2.len,
            ) by {
                if e1 == entry && e2 == entry {
                } else if e1 == entry {
                    assert(s_old.contains(e2));
                    assert(!conflicts(e2, holder, mode, offset, len));
                } else if e2 == entry {
                    assert(s_old.contains(e1));
                    assert(!conflicts(e1, holder, mode, offset, len));
                } else {
                    assert(s_old.contains(e1) && s_old.contains(e2));
                }
            }
        }
        self.entries = kept;
        Ok(())
    }

    /// Removes whatever lock the holder has on the exact range. Removal
    /// itself always succeeds (releasing an unheld range is a no-op), but
    /// a zero-length range is rejected like any other request.
    pub fn release(&mut self, holder: u64, offset: u64, len: u64) -> (r: Result<(), LockError>)
        requires
            old(self).wf(),
        ensures
            final(self).wf(),
            len == 0 ==> r == Err::<(), LockError>(LockError::InvalidInput) && final(self)@ == old(
                self,
            )@,
            len != 0 ==> r == Ok::<(), LockError>(()) && released(
                old(self)@,
                final(self)@,
                holder,
                offset,
                len,
            ),
    {
        if len == 0 {
            return Err(LockError::InvalidInput);
        }
        let kept = Self::retain_others(&self.entries, holder, offset, len);
        proof {
            let s_old = self@;
            let s_new = kept@;
            assert forall|e: LockEntry| #[trigger] s_new.contains(e) implies entry_valid(e) by {
                assert(s_old.contains(e));
            }
            assert forall|e1: LockEntry, e2: LockEntry|
                #![trigger s_new.contains(e1), s_new.contains(e2)]
                s_new.contains(e1) && s_new.contains(e2) implies !conflicts(
                e1,
                e2.holder,
                e2.mode,
                e2.offset,
                e2.len,
            ) by {
                assert(s_old.contains(e1) && s_old.contains(e2));
            }
        }
        self.entries = kept;
        Ok(())
    }

    /// The combined acquisition: tries exclusive without waiting; exactly
    /// on contention falls back to acquiring shared, reporting which mode
    /// was granted. Any other failure of the exclusive attempt propagates
    /// without a fallback.
    pub fn acquire_exclusive_or_shared(&mut self, holder: u64, offset: u64, len: u64) -> (r: Result<
        Lock,
        LockError,
    >)
        requires
            old(self).wf(),
            offset + len <= u64::MAX,
        ensures
            final(self).wf(),
            len == 0 ==> r == Err::<Lock, LockError>(LockError::InvalidInput) && final(self)@
                == old(self)@,
            len != 0 && compatible(old(self)@, holder, Lock::Exclusive, offset, len) ==> r == Ok::<
                Lock,
                LockError,
            >(Lock::Exclusive) && granted(
                old(self)@,
                final(self)@,
                holder,
                Lock::Exclusive,
                offset,
                len,
            ),
            len != 0 && !compatible(old(self)@, holder, Lock::Exclusive, offset, len) && compatible(
                old(self)@,
                holder,
                Lock::Shared,
                offset,
                len,
            ) ==> r == Ok::<Lock, LockError>(Lock::Shared) && granted(
                old(self)@,
                final(self)@,
                holder,
                Lock::Shared,
                offset,
                len,
            ),
            len != 0 && !compatible(old(self)@, holder, Lock::Shared, offset, len) ==> r == Err::<
                Lock,
                LockError,
            >(LockError::WouldBlock) && final(self)@ == old(self)@,
    {
        proof {
            if compatible(old(self)@, holder, Lock::Exclusive, offset, len) {
                lemma_exclusive_compat_implies_any(
                    old(self)@,
                    holder,
                    Lock::Shared,
                    offset,
                    len,
                );
            }
        }
        let first = self.acquire(holder, Lock::Exclusive, offset, len);
        match lock_any_step(first) {
            AnyStep::UseExclusive => Ok(Lock::Exclusive),
            AnyStep::FallbackShared => match self.acquire(holder, Lock::Shared, offset, len) {
                Ok(_) => Ok(Lock::Shared),
                Err(e) => Err(e),
            },
            AnyStep::Fail(e) => Err(e),
        }
    }
}

} // verus!
