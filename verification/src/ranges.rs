//! Byte ranges used as lock keys.
//!
//! A range is a pair `(offset, len)` standing for the half-open interval
//! `[offset, offset + len)`. Ranges are pure lock keys: they need not lie
//! within the file's current size. Acquisition rejects `len == 0`; a valid
//! range also has an end that fits in a `u64`, which is what the machine
//! representation forces.

use vstd::prelude::*;

verus! {

/// A range is usable as a lock key: non-empty, with an end that fits.
pub open spec fn valid_range(offset: u64, len: u64) -> bool {
    len > 0 && offset + len <= u64::MAX
}

/// The half-open intervals `[o1, o1 + l1)` and `[o2, o2 + l2)` intersect.
pub open spec fn overlaps(o1: u64, l1: u64, o2: u64, l2: u64) -> bool {
    o1 < o2 + l2 && o2 < o1 + l1
}

/// Decides whether two ranges overlap.
pub fn ranges_overlap(o1: u64, l1: u64, o2: u64, l2: u64) -> (r: bool)
    requires
        o1 + l1 <= u64::MAX,
        o2 + l2 <= u64::MAX,
    ensures
        r == overlaps(o1, l1, o2, l2),
{
    o1 < o2 + l2 && o2 < o1 + l1
}

} // verus!
