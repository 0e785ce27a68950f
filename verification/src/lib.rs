//! A verified core for advisory byte-range file locking.
//!
//! Multiple holders coordinate access to byte ranges of a shared file with
//! shared (read) and exclusive (write) locks. The crate verifies the logic
//! that such locking rests on: validation of requests, the compatibility
//! rules between holders, the state held by a lock guard, and the decisions
//! that drive an operating-system backend (retry on interruption, fallback
//! from exclusive to shared, normalization of contention errors).
//!
//! The pieces, leaves first:
//!
//! - [`ranges`]: byte ranges as lock keys, and when two of them overlap.
//! - [`errors`]: the closed error vocabulary.
//! - [`primitive`]: the platform primitive's verified decisions — what is
//!   asked of the OS, and what each normalized outcome means.
//! - [`table`]: the lock table every grant and release goes through, with
//!   mutual exclusion as its invariant.
//! - [`guard`]: the owning [`FileGuard`] handle — acquisition, fail-safe
//!   upgrade and downgrade, and scoped release.
//! - [`laws`]: the locking discipline stated and proved as laws.
//!
//! An OS backend sits outside the verified crate: it owns the open file
//! and the syscalls, issues exactly the requests built here, and feeds
//! each raw outcome back through the step functions of [`primitive`].

use vstd::prelude::*;

pub mod errors;
pub mod guard;
pub mod laws;
pub mod primitive;
pub mod ranges;
pub mod table;

pub use errors::LockError;
pub use guard::{lock, lock_any, try_lock, FileGuard, Upgrade};
pub use table::{LockEntry, LockTable};

verus! {

/// The mode of a held or requested lock.
///
/// A shared lock is compatible with other shared locks on an overlapping
/// range; an exclusive lock is compatible with nothing that overlaps it.
#[derive(Copy, Clone, PartialEq, Eq, Structural, Debug)]
pub enum Lock {
    Shared,
    Exclusive,
}

} // verus!
