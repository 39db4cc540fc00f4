use vstd::prelude::*;

use crate::host::HostOutcome;

verus! {

/// How a failed call surfaces to the caller. Exactly two kinds are
/// observable, and neither is retried: a failed call is terminal for that
/// invocation.
#[derive(Debug)]
pub enum Error {
    /// The callee reverted. Its raw payload is passed through unmodified for
    /// higher layers to decode; it may be empty.
    CalleeReverted(Vec<u8>),
    /// The call could not be dispatched at all. No payload: the condition is
    /// unrecoverable for this call and distinct from an application-level
    /// revert.
    DispatchFailed,
}

/// The typed result owed for a given host outcome: success output and revert
/// payloads byte-for-byte intact, every other fault reported generically.
pub open spec fn surfaced_as(outcome: HostOutcome, result: Result<Vec<u8>, Error>) -> bool {
    match outcome {
        HostOutcome::Success(out) => result matches Ok(bytes) && bytes@ == out@,
        HostOutcome::Revert(payload) => {
            &&& result matches Err(e)
            &&& e matches Error::CalleeReverted(p)
            &&& p@ == payload@
        },
        HostOutcome::Fault => result matches Err(e) && e is DispatchFailed,
    }
}

/// Normalize a host outcome into the typed result surface.
pub fn interpret_outcome(outcome: HostOutcome) -> (result: Result<Vec<u8>, Error>)
    ensures
        surfaced_as(outcome, result),
{
    match outcome {
        HostOutcome::Success(out) => Ok(out),
        HostOutcome::Revert(payload) => Err(Error::CalleeReverted(payload)),
        HostOutcome::Fault => Err(Error::DispatchFailed),
    }
}

} // verus!
