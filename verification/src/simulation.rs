//! The dry run of a task submission.
//!
//! Identical in shape to the write path, but issued through the
//! read-only `call` capability: it never produces a pending handle and
//! never touches the confirmation waiter. Only the revert/non-revert
//! status matters; success carries no value. Used to validate a request
//! before incurring the gas cost of a real submission.

use vstd::prelude::*;

use crate::RetryError;
use crate::errors::{BatcherError, TransactionSendError};
use crate::task::TaskCreationRequest;
use crate::task::revert_error;

verus! {

/// What one read-only `call` attempt against an endpoint reported, with
/// the on-chain revert already told apart from every other failure.
#[derive(Debug, Clone, PartialEq, Eq)]
pub enum CallOutcome {
    /// The call executed without reverting; its value is of no interest.
    Succeeded,
    /// The chain reverted the call; carries the revert payload.
    Reverted(Vec<u8>),
    /// Any other failure, as a diagnostic string.
    Failed(String),
}

/// What the simulation policy does after the primary endpoint's `call`.
#[derive(Debug, PartialEq, Eq)]
pub enum SimulationAction {
    /// The request is valid; the flow is finished successfully.
    Validated,
    /// Replay this request, byte-identical, against the fallback
    /// endpoint.
    RetryOnFallback(TaskCreationRequest),
    /// The flow is finished with this error; the fallback is not
    /// consulted.
    Fail(RetryError<BatcherError>),
}

/// The step taken once the primary endpoint's `call` has reported.
pub open spec fn simulate_after_primary_spec(
    request: TaskCreationRequest,
    outcome: CallOutcome,
) -> SimulationAction {
    match outcome {
        CallOutcome::Succeeded => SimulationAction::Validated,
        CallOutcome::Reverted(payload) => SimulationAction::Fail(revert_error(payload)),
        CallOutcome::Failed(_) => SimulationAction::RetryOnFallback(request),
    }
}

/// The flow's outcome once the fallback endpoint has reported.
pub open spec fn simulate_after_fallback_spec(outcome: CallOutcome) -> Result<
    (),
    RetryError<BatcherError>,
> {
    match outcome {
        CallOutcome::Succeeded => Ok(()),
        CallOutcome::Reverted(payload) => Err(revert_error(payload)),
        CallOutcome::Failed(msg) => Err(
            RetryError::Transient(
                BatcherError::TransactionSendError(TransactionSendError::Generic(msg)),
            ),
        ),
    }
}

/// Decide the next step of a simulation after the primary endpoint's
/// `call`: success validates the request, a revert is final and
/// `Permanent`, anything else replays the identical request on the
/// fallback endpoint.
pub fn simulate_after_primary(request: TaskCreationRequest, outcome: CallOutcome) -> (action:
    SimulationAction)
    ensures
        action == simulate_after_primary_spec(request, outcome),
{
    match outcome {
        CallOutcome::Succeeded => SimulationAction::Validated,
        CallOutcome::Reverted(payload) => SimulationAction::Fail(
            RetryError::Permanent(
                BatcherError::TransactionSendError(TransactionSendError::from(payload)),
            ),
        ),
        CallOutcome::Failed(_) => SimulationAction::RetryOnFallback(request),
    }
}

/// Finish a simulation after the fallback endpoint reported: success
/// validates the request, a revert is `Permanent`, any other failure is
/// `Transient` and carries the fallback's cause.
pub fn simulate_after_fallback(outcome: CallOutcome) -> (r: Result<(), RetryError<BatcherError>>)
    ensures
        r == simulate_after_fallback_spec(outcome),
{
    match outcome {
        CallOutcome::Succeeded => Ok(()),
        CallOutcome::Reverted(payload) => Err(
            RetryError::Permanent(
                BatcherError::TransactionSendError(TransactionSendError::from(payload)),
            ),
        ),
        CallOutcome::Failed(msg) => Err(
            RetryError::Transient(
                BatcherError::TransactionSendError(TransactionSendError::Generic(msg)),
            ),
        ),
    }
}

/// Outcome of the whole simulation flow, given what each endpoint's
/// `call` would report. The fallback report matters only when the
/// primary failed without reverting; no value and no pending handle is
/// ever produced.
pub open spec fn simulation_flow_result(primary: CallOutcome, fallback: CallOutcome) -> Result<
    (),
    RetryError<BatcherError>,
> {
    match primary {
        CallOutcome::Succeeded => Ok(()),
        CallOutcome::Reverted(payload) => Err(revert_error(payload)),
        CallOutcome::Failed(_) => simulate_after_fallback_spec(fallback),
    }
}

/// The step functions realise exactly `simulation_flow_result`.
pub proof fn lemma_simulation_steps_compose(
    request: TaskCreationRequest,
    primary: CallOutcome,
    fallback: CallOutcome,
)
    ensures
        simulate_after_primary_spec(request, primary) is Validated ==> simulation_flow_result(
            primary,
            fallback,
        ) == Result::<(), RetryError<BatcherError>>::Ok(()),
        simulate_after_primary_spec(request, primary) matches SimulationAction::Fail(e)
            ==> simulation_flow_result(primary, fallback) == Result::<
            (),
            RetryError<BatcherError>,
        >::Err(e),
        simulate_after_primary_spec(request, primary) is RetryOnFallback
            ==> simulation_flow_result(primary, fallback) == simulate_after_fallback_spec(fallback),
{
}

/// A simulated revert on the primary endpoint is `Permanent` and the
/// fallback endpoint is never consulted, exactly as on the write path.
pub proof fn lemma_simulation_primary_revert_permanent(
    request: TaskCreationRequest,
    payload: Vec<u8>,
)
    ensures
        simulate_after_primary_spec(request, CallOutcome::Reverted(payload))
            == SimulationAction::Fail(revert_error(payload)),
        !(simulate_after_primary_spec(
            request,
            CallOutcome::Reverted(payload),
        ) is RetryOnFallback),
{
}

} // verus!
