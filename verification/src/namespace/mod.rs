//! Linux namespace management.
//!
//! The platform layer makes the `unshare` calls; how their outcome is
//! judged, and what is mounted and written around them, is decided here.
use vstd::prelude::*;
use crate::errno;

pub mod mount;
pub mod pid;
pub mod user;

verus! {

/// How an `unshare` call came out.
#[derive(Debug, Clone, Copy, PartialEq, Eq, Structural)]
pub enum UnshareOutcome {
    /// The namespace was created.
    Created,
    /// The kernel does not offer the namespace (EINVAL or EPERM); the
    /// runtime goes on without it.
    Unsupported,
    /// Any other failure, with its error number.
    Failed(i32),
}

/// Why a namespace operation failed.
#[derive(Debug, Clone, Copy, PartialEq, Eq, Structural)]
pub enum NamespaceError {
    /// `unshare` failed with this error number.
    UnshareFailed(i32),
    /// `pivot_root` failed with this error number.
    PivotFailed(i32),
    /// Changing into the new root failed with this error number.
    ChdirFailed(i32),
    /// Writing an ID mapping failed with this error number.
    MapWriteFailed(i32),
}

/// The outcome of `unshare` from the value it returned and the error number
/// it left.
pub open spec fn unshare_judged(ret: i64, err: i32) -> UnshareOutcome {
    if ret >= 0 {
        UnshareOutcome::Created
    } else if err == 22 || err == 1 {
        UnshareOutcome::Unsupported
    } else {
        UnshareOutcome::Failed(err)
    }
}

/// Judge an `unshare` call.
pub fn unshare_outcome(ret: i64, err: i32) -> (r: UnshareOutcome)
    ensures
        r == unshare_judged(ret, err),
{
    if ret < 0 {
        if err == errno::einval() || err == errno::eperm() {
            return UnshareOutcome::Unsupported;
        }
        return UnshareOutcome::Failed(err);
    }
    UnshareOutcome::Created
}

/// What a namespace setup step returns for an outcome: success whether the
/// namespace was created or is unsupported, an error otherwise.
pub fn unshare_result(outcome: UnshareOutcome) -> (r: Result<(), NamespaceError>)
    ensures
        r == (match outcome {
            UnshareOutcome::Failed(e) => Err(NamespaceError::UnshareFailed(e)),
            _ => Ok(()),
        }),
{
    match outcome {
        UnshareOutcome::Failed(e) => Err(NamespaceError::UnshareFailed(e)),
        _ => Ok(()),
    }
}

/// A missing namespace never stops the runtime: an `unshare` that fails
/// with EINVAL or EPERM counts as success, and only other failures are
/// errors.
pub proof fn law_unsupported_namespace_tolerated(ret: i64, err: i32)
    ensures
        ret < 0 && (err == 22 || err == 1) ==> unshare_judged(ret, err) == UnshareOutcome::Unsupported,
        (unshare_judged(ret, err) is Failed) <==> (ret < 0 && err != 22 && err != 1),
{
}

} // verus!
