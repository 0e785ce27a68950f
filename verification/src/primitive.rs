//! The platform lock primitive, split into its verified decisions.
//!
//! A backend translates one request into one OS call. Everything around
//! that call is decided here: whether a request is issued at all (a
//! zero-length range is rejected first, so no OS call is ever attempted for
//! it), what a single attempt's normalized outcome means for the caller
//! (retry after an interruption, `WouldBlock` on contention), and how the
//! exclusive-preferred acquisition falls back to shared. A backend feeds
//! each raw outcome in as an [`OsStatus`] and performs the actions these
//! functions return, so every backend shares one contract.

use vstd::prelude::*;

use crate::errors::LockError;
use crate::Lock;

verus! {

/// One request to the OS lock primitive: lock `offset..offset+len` in the
/// given mode, or release it (`mode == None`), waiting or not.
#[derive(Copy, Clone, PartialEq, Eq, Debug)]
pub struct LockRequest {
    /// `Some(mode)` acquires; `None` releases.
    pub mode: Option<Lock>,
    /// Start of the byte range.
    pub offset: u64,
    /// Length of the byte range.
    pub len: u64,
    /// Whether the OS call may suspend the caller until the lock is free.
    pub wait: bool,
}

/// The normalized outcome of one OS lock attempt.
///
/// A backend maps its native codes onto this vocabulary: the native
/// "would block" or lock-violation code becomes `Contended`, the native
/// interruption signal becomes `Interrupted`, and anything else keeps its
/// code in `Failed`.
#[derive(Copy, Clone, PartialEq, Eq, Debug)]
pub enum OsStatus {
    /// The OS granted (or released) the lock.
    Granted,
    /// The lock is held incompatibly by another holder.
    Contended,
    /// The wait was interrupted by a signal; no outcome yet.
    Interrupted,
    /// Any other OS failure, with its raw code.
    Failed(i32),
}

/// What a backend must do next after one attempt's outcome.
#[derive(Copy, Clone, PartialEq, Eq, Debug)]
pub enum RawStep {
    /// Repeat the same request: the wait was interrupted, which is
    /// transient and never surfaced to the caller.
    Retry,
    /// The operation is over, with this result.
    Done(Result<(), LockError>),
}

/// What to do after the exclusive-preferred first attempt of an
/// acquire-any operation.
#[derive(Copy, Clone, PartialEq, Eq, Debug)]
pub enum AnyStep {
    /// The exclusive attempt succeeded; the holder has an exclusive lock.
    UseExclusive,
    /// The exclusive attempt was contended; acquire shared, waiting.
    FallbackShared,
    /// The exclusive attempt failed for a real reason; propagate it
    /// without falling back.
    Fail(LockError),
}

/// Validates a raw lock request before any OS call.
///
/// A zero-length range is rejected here with `InvalidInput`, so a backend
/// that only issues requests built by this function can never reach the OS
/// with an empty range.
pub fn start_raw_lock(mode: Option<Lock>, offset: u64, len: u64, wait: bool) -> (r: Result<
    LockRequest,
    LockError,
>)
    ensures
        len == 0 ==> r == Err::<LockRequest, LockError>(LockError::InvalidInput),
        len != 0 ==> r == Ok::<LockRequest, LockError>(
            (LockRequest { mode, offset, len, wait }),
        ),
{
    if len == 0 {
        Err(LockError::InvalidInput)
    } else {
        Ok(LockRequest { mode, offset, len, wait })
    }
}

/// Decides what follows one OS attempt: an interruption is retried, a
/// grant succeeds, contention is `WouldBlock`, and any other failure keeps
/// its OS code.
pub fn raw_lock_step(status: OsStatus) -> (r: RawStep)
    ensures
        status == OsStatus::Granted ==> r == RawStep::Done(Ok::<(), LockError>(())),
        status == OsStatus::Interrupted ==> r == RawStep::Retry,
        status == OsStatus::Contended ==> r == RawStep::Done(
            Err::<(), LockError>(LockError::WouldBlock),
        ),
        forall|code: i32|
            status == OsStatus::Failed(code) ==> r == RawStep::Done(
                Err::<(), LockError>(LockError::Os(code)),
            ),
{
    match status {
        OsStatus::Granted => RawStep::Done(Ok(())),
        OsStatus::Interrupted => RawStep::Retry,
        OsStatus::Contended => RawStep::Done(Err(LockError::WouldBlock)),
        OsStatus::Failed(code) => RawStep::Done(Err(LockError::Os(code))),
    }
}

/// The Windows error code reported when a locked range collides with an
/// existing lock.
pub const LOCK_VIOLATION: u32 = 33;

/// Normalizes the outcome of one Windows lock attempt: success is a
/// grant, a failure with the lock-violation code is contention, and any
/// other failure keeps its code. Windows reports no interruption.
pub fn classify_windows_status(succeeded: bool, error_code: u32) -> (st: OsStatus)
    ensures
        succeeded ==> st == OsStatus::Granted,
        !succeeded && error_code == LOCK_VIOLATION ==> st == OsStatus::Contended,
        !succeeded && error_code != LOCK_VIOLATION ==> st == OsStatus::Failed(error_code as i32),
{
    if succeeded {
        OsStatus::Granted
    } else if error_code == LOCK_VIOLATION {
        OsStatus::Contended
    } else {
        #[verifier::truncate]
        let code = error_code as i32;
        OsStatus::Failed(code)
    }
}

/// Decides the second half of an acquire-any operation from the result of
/// its non-blocking exclusive attempt: contention falls back to a blocking
/// shared acquisition; any other failure propagates unchanged.
pub fn lock_any_step(first: Result<(), LockError>) -> (r: AnyStep)
    ensures
        first is Ok ==> r == AnyStep::UseExclusive,
        first == Err::<(), LockError>(LockError::WouldBlock) ==> r == AnyStep::FallbackShared,
        forall|e: LockError|
            first == Err::<(), LockError>(e) && e != LockError::WouldBlock ==> r == AnyStep::Fail(
                e,
            ),
{
    match first {
        Ok(_) => AnyStep::UseExclusive,
        Err(LockError::WouldBlock) => AnyStep::FallbackShared,
        Err(e) => AnyStep::Fail(e),
    }
}

} // verus!
