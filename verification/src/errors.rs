//! The closed error vocabulary of the locking core.

use vstd::prelude::*;

verus! {

/// An error from a lock operation.
///
/// The vocabulary is deliberately small: callers distinguish contention
/// (`WouldBlock`, recoverable by retrying or choosing another mode) from a
/// rejected request (`InvalidInput`, a zero-length range) and from any other
/// operating-system failure, which is carried opaquely with its OS code.
#[derive(Copy, Clone, PartialEq, Eq, Structural, Debug)]
pub enum LockError {
    /// A zero-length range was supplied; rejected before any OS call.
    InvalidInput,
    /// The range is held incompatibly by another holder and the caller asked
    /// not to wait.
    WouldBlock,
    /// Any other OS-reported failure, carrying the OS's error code intact.
    Os(i32),
}

} // verus!
