//! The locking discipline, stated as proved laws.
//!
//! Each law is a fact about the table's compatibility semantics that the
//! operations' contracts then carry to concrete scenarios: what an
//! exclusive lock excludes, what shared locks tolerate, what an upgrade
//! needs, and what a downgrade or a release opens up.

use vstd::prelude::*;

use crate::ranges::overlaps;
use crate::table::{compatible, conflicts, consistent, granted, is_key, released, LockEntry};
use crate::Lock;

verus! {

/// Mutual exclusion itself: in a consistent table, locks of different
/// holders on overlapping ranges are both shared. Every table the
/// operations build is consistent, so no state ever holds an exclusive
/// lock beside any other lock on its range.
pub proof fn lemma_mutual_exclusion(s: Seq<LockEntry>, e1: LockEntry, e2: LockEntry)
    requires
        consistent(s),
        s.contains(e1),
        s.contains(e2),
        e1.holder != e2.holder,
        overlaps(e1.offset, e1.len, e2.offset, e2.len),
    ensures
        e1.mode == Lock::Shared,
        e2.mode == Lock::Shared,
{
    assert(!conflicts(e1, e2.holder, e2.mode, e2.offset, e2.len));
    assert(!conflicts(e2, e1.holder, e1.mode, e1.offset, e1.len));
}

/// A held exclusive lock blocks every other holder's overlapping request,
/// in either mode: a second acquisition over it fails with contention.
pub proof fn lemma_exclusive_blocks_others(
    s: Seq<LockEntry>,
    held: LockEntry,
    holder: u64,
    mode: Lock,
    offset: u64,
    len: u64,
)
    requires
        s.contains(held),
        held.mode == Lock::Exclusive,
        held.holder != holder,
        overlaps(held.offset, held.len, offset, len),
    ensures
        !compatible(s, holder, mode, offset, len),
{
    assert(conflicts(held, holder, mode, offset, len));
}

/// Any held lock of another holder, shared or exclusive, blocks an
/// overlapping exclusive request: exclusivity is granted only over a
/// range nobody else holds.
pub proof fn lemma_overlap_blocks_exclusive(
    s: Seq<LockEntry>,
    held: LockEntry,
    holder: u64,
    offset: u64,
    len: u64,
)
    requires
        s.contains(held),
        held.holder != holder,
        overlaps(held.offset, held.len, offset, len),
    ensures
        !compatible(s, holder, Lock::Exclusive, offset, len),
{
    assert(conflicts(held, holder, Lock::Exclusive, offset, len));
}

/// A shared request is granted exactly when every overlapping lock of
/// another holder is shared: shared holders tolerate each other.
pub proof fn lemma_shared_compatible_iff(s: Seq<LockEntry>, holder: u64, offset: u64, len: u64)
    ensures
        compatible(s, holder, Lock::Shared, offset, len) <==> (forall|e: LockEntry|
            #[trigger] s.contains(e) && e.holder != holder && overlaps(e.offset, e.len, offset, len)
                ==> e.mode == Lock::Shared),
{
}

/// An exclusive request is granted exactly when no other holder holds any
/// lock overlapping the range.
pub proof fn lemma_exclusive_compatible_iff(s: Seq<LockEntry>, holder: u64, offset: u64, len: u64)
    ensures
        compatible(s, holder, Lock::Exclusive, offset, len) <==> (forall|e: LockEntry|
            #[trigger] s.contains(e) && e.holder != holder ==> !overlaps(
                e.offset,
                e.len,
                offset,
                len,
            )),
{
}

/// A release opens the range: once the released lock was the only lock on
/// the range that did not already belong to the requester, the requester's
/// request on that range is granted, in either mode.
pub proof fn lemma_release_frees_range(
    s_old: Seq<LockEntry>,
    s_new: Seq<LockEntry>,
    holder: u64,
    offset: u64,
    len: u64,
    requester: u64,
    mode: Lock,
)
    requires
        released(s_old, s_new, holder, offset, len),
        forall|e: LockEntry|
            #[trigger] s_old.contains(e) && e.holder != requester && overlaps(
                e.offset,
                e.len,
                offset,
                len,
            ) ==> is_key(e, holder, offset, len),
    ensures
        compatible(s_new, requester, mode, offset, len),
{
    assert forall|e: LockEntry| #[trigger] s_new.contains(e) implies !conflicts(
        e,
        requester,
        mode,
        offset,
        len,
    ) by {
        assert(s_old.contains(e) && !is_key(e, holder, offset, len));
    }
}

/// What a downgrade changes for everybody else: when the downgraded lock
/// was the only lock on its range, the range is afterwards open to any
/// other holder's shared request and still closed to their exclusive
/// requests — the exclusive hold is really gone, a shared hold really
/// remains.
pub proof fn lemma_downgrade_effect(
    s_old: Seq<LockEntry>,
    s_new: Seq<LockEntry>,
    holder: u64,
    offset: u64,
    len: u64,
    requester: u64,
)
    requires
        granted(s_old, s_new, holder, Lock::Shared, offset, len),
        forall|e: LockEntry|
            #[trigger] s_old.contains(e) && overlaps(e.offset, e.len, offset, len) ==> is_key(
                e,
                holder,
                offset,
                len,
            ),
        requester != holder,
        len > 0,
        offset + len <= u64::MAX,
    ensures
        compatible(s_new, requester, Lock::Shared, offset, len),
        !compatible(s_new, requester, Lock::Exclusive, offset, len),
{
    let shared_entry = LockEntry { holder, offset, len, mode: Lock::Shared };
    assert forall|e: LockEntry| #[trigger] s_new.contains(e) implies !conflicts(
        e,
        requester,
        Lock::Shared,
        offset,
        len,
    ) by {
        if e != shared_entry {
            assert(s_old.contains(e));
            if overlaps(e.offset, e.len, offset, len) {
                assert(is_key(e, holder, offset, len));
            }
        }
    }
    assert(s_new.contains(shared_entry));
    assert(overlaps(offset, len, offset, len));
    assert(conflicts(shared_entry, requester, Lock::Exclusive, offset, len));
}

} // verus!
