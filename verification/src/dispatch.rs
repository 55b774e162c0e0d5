//! The panic-safe dispatcher. Every handler the host runtime invokes is routed
//! through one of these functions: a handler body that terminates abnormally
//! is replaced by the call site's documented fallback result instead of
//! letting the fault escape into the host's shared threads.

use vstd::prelude::*;
use crate::signal::{FlowError, FlowSuccess};

verus! {

/// The outcome of running a handler body: it completed with a result, or it
/// terminated abnormally (a panic or fault inside the handler).
#[derive(Clone, Copy, Debug, PartialEq, Eq)]
pub enum HandlerOutcome<T> {
    Completed(T),
    Faulted,
}

/// Dispatch for the buffer-chain path: a completed handler's result passes
/// through verbatim; an abnormal termination becomes a flow error.
pub fn dispatch_flow(outcome: HandlerOutcome<Result<FlowSuccess, FlowError>>) -> (r: Result<
    FlowSuccess,
    FlowError,
>)
    ensures
        outcome matches HandlerOutcome::Completed(v) ==> r == v,
        outcome is Faulted ==> r == Err::<FlowSuccess, FlowError>(FlowError::Error),
{
    match outcome {
        HandlerOutcome::Completed(v) => v,
        HandlerOutcome::Faulted => Err(FlowError::Error),
    }
}

/// Dispatch for the event and query paths: a completed handler's flag passes
/// through verbatim; an abnormal termination becomes `false` (unhandled).
pub fn dispatch_bool(outcome: HandlerOutcome<bool>) -> (r: bool)
    ensures
        outcome matches HandlerOutcome::Completed(v) ==> r == v,
        outcome is Faulted ==> !r,
{
    match outcome {
        HandlerOutcome::Completed(v) => v,
        HandlerOutcome::Faulted => false,
    }
}

} // verus!
