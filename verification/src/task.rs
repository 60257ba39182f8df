//! The write path: submitting a new task to the on-chain payment
//! service, with primary-to-fallback escalation and the asymmetry that
//! makes it safe.
//!
//! A revert means the operation itself is invalid: retrying it on another
//! endpoint wastes gas and cannot succeed, so a revert is `Permanent` and
//! final wherever it is observed. Any other send failure says nothing
//! about the operation, so the byte-identical request is replayed once
//! against the fallback endpoint; if that also fails without reverting,
//! the caller gets `Transient` carrying the fallback's cause.

use vstd::prelude::*;

use crate::RetryError;
use crate::confirmation::WaitOutcome;
use crate::errors::{BatcherError, TransactionSendError};
use crate::ledger::{Address, Uint256};

verus! {

/// The economic offer made with one submission attempt, fixed by the
/// caller before the first attempt and reused unchanged on the fallback,
/// so both endpoints see an identical offer.
#[derive(Debug, Clone, Copy, PartialEq, Eq, Structural)]
pub struct CreateNewTaskFeeParams {
    pub fee_for_aggregator: Uint256,
    pub fee_per_proof: Uint256,
    pub respond_to_task_fee_limit: Uint256,
    pub gas_price: Uint256,
}

/// One atomic attempt to register a batch on-chain. Never mutated after
/// construction: a failed primary attempt replays this exact value.
#[derive(Debug, Clone, PartialEq, Eq)]
pub struct TaskCreationRequest {
    /// 32-byte digest identifying the batch.
    pub batch_merkle_root: [u8; 32],
    /// Opaque pointer (URI) to the batch's data.
    pub batch_data_pointer: String,
    /// The accounts whose proofs the batch aggregates.
    pub proofs_submitters: Vec<Address>,
    /// The fees offered with this submission.
    pub fee_params: CreateNewTaskFeeParams,
}

/// What one `send` attempt against an endpoint reported, with the
/// on-chain revert already told apart from every other failure.
#[derive(Debug, Clone, PartialEq, Eq)]
pub enum SendOutcome<H> {
    /// The endpoint accepted the operation; carries the pending handle.
    Accepted(H),
    /// The chain reverted the operation; carries the revert payload.
    Reverted(Vec<u8>),
    /// Any other failure (network, serialization, node rejection before
    /// inclusion), as a diagnostic string.
    Failed(String),
}

/// What the submission policy does after the primary endpoint's `send`.
#[derive(Debug, PartialEq, Eq)]
pub enum TaskSendAction<H> {
    /// Hand the pending submission to the confirmation waiter.
    AwaitReceipt(H),
    /// Replay this request, byte-identical, against the fallback
    /// endpoint.
    RetryOnFallback(TaskCreationRequest),
    /// The flow is finished with this error; the fallback is not
    /// consulted.
    Fail(RetryError<BatcherError>),
}

/// The error a revert payload is surfaced as.
pub open spec fn revert_error(payload: Vec<u8>) -> RetryError<BatcherError> {
    RetryError::Permanent(
        BatcherError::TransactionSendError(TransactionSendError::Reverted(payload)),
    )
}

/// The step taken once the primary endpoint's `send` has reported.
pub open spec fn task_send_after_primary_spec<H>(
    request: TaskCreationRequest,
    outcome: SendOutcome<H>,
) -> TaskSendAction<H> {
    match outcome {
        SendOutcome::Accepted(h) => TaskSendAction::AwaitReceipt(h),
        SendOutcome::Reverted(payload) => TaskSendAction::Fail(revert_error(payload)),
        SendOutcome::Failed(_) => TaskSendAction::RetryOnFallback(request),
    }
}

/// The flow's send result once the fallback endpoint has reported.
pub open spec fn task_send_after_fallback_spec<H>(outcome: SendOutcome<H>) -> Result<
    H,
    RetryError<BatcherError>,
> {
    match outcome {
        SendOutcome::Accepted(h) => Ok(h),
        SendOutcome::Reverted(payload) => Err(revert_error(payload)),
        SendOutcome::Failed(msg) => Err(
            RetryError::Transient(
                BatcherError::TransactionSendError(TransactionSendError::Generic(msg)),
            ),
        ),
    }
}

/// The caller's result once the confirmation wait has ended. For task
/// creation every wait failure is the permanent receipt-not-found error:
/// the fee was (possibly) spent, so the request must not be replayed.
pub open spec fn task_wait_outcome_spec<R>(outcome: WaitOutcome<R>) -> Result<
    R,
    RetryError<BatcherError>,
> {
    match outcome {
        WaitOutcome::Confirmed(receipt) => Ok(receipt),
        _ => Err(RetryError::Permanent(BatcherError::ReceiptNotFoundError)),
    }
}

/// Decide the next step of a task submission after the primary
/// endpoint's `send`: acceptance goes to the confirmation waiter, a
/// revert is final and `Permanent`, anything else replays the identical
/// request on the fallback endpoint.
pub fn task_send_after_primary<H>(request: TaskCreationRequest, outcome: SendOutcome<H>) -> (action:
    TaskSendAction<H>)
    ensures
        action == task_send_after_primary_spec(request, outcome),
{
    match outcome {
        SendOutcome::Accepted(h) => TaskSendAction::AwaitReceipt(h),
        SendOutcome::Reverted(payload) => TaskSendAction::Fail(
            RetryError::Permanent(
                BatcherError::TransactionSendError(TransactionSendError::from(payload)),
            ),
        ),
        SendOutcome::Failed(_) => TaskSendAction::RetryOnFallback(request),
    }
}

/// Finish the send phase after the fallback endpoint reported:
/// acceptance goes to the confirmation waiter, a revert is `Permanent`,
/// any other failure is `Transient` and carries the fallback's cause.
pub fn task_send_after_fallback<H>(outcome: SendOutcome<H>) -> (r: Result<
    H,
    RetryError<BatcherError>,
>)
    ensures
        r == task_send_after_fallback_spec(outcome),
{
    match outcome {
        SendOutcome::Accepted(h) => Ok(h),
        SendOutcome::Reverted(payload) => Err(
            RetryError::Permanent(
                BatcherError::TransactionSendError(TransactionSendError::from(payload)),
            ),
        ),
        SendOutcome::Failed(msg) => Err(
            RetryError::Transient(
                BatcherError::TransactionSendError(TransactionSendError::Generic(msg)),
            ),
        ),
    }
}

/// Classify the end of the confirmation wait for a task submission: a
/// confirmed receipt is the flow's success; a timeout, a reported
/// failure and a missing receipt are all the permanent
/// receipt-not-found error.
pub fn task_wait_outcome<R>(outcome: WaitOutcome<R>) -> (r: Result<R, RetryError<BatcherError>>)
    ensures
        r == task_wait_outcome_spec(outcome),
{
    match outcome {
        WaitOutcome::Confirmed(receipt) => Ok(receipt),
        WaitOutcome::NoReceipt => Err(RetryError::Permanent(BatcherError::ReceiptNotFoundError)),
        WaitOutcome::Failed(_) => Err(RetryError::Permanent(BatcherError::ReceiptNotFoundError)),
        WaitOutcome::DeadlineElapsed => Err(
            RetryError::Permanent(BatcherError::ReceiptNotFoundError),
        ),
    }
}

/// Outcome of the whole submission flow, given what each endpoint's
/// `send` would report and how the confirmation wait would end. The
/// fallback report matters only when the primary failed without
/// reverting; the wait matters only when an endpoint accepted.
pub open spec fn task_flow_result<H, R>(
    primary: SendOutcome<H>,
    fallback: SendOutcome<H>,
    wait: WaitOutcome<R>,
) -> Result<R, RetryError<BatcherError>> {
    match primary {
        SendOutcome::Accepted(_) => task_wait_outcome_spec(wait),
        SendOutcome::Reverted(payload) => Err(revert_error(payload)),
        SendOutcome::Failed(_) => match task_send_after_fallback_spec(fallback) {
            Ok(_) => task_wait_outcome_spec(wait),
            Err(e) => Err(e),
        },
    }
}

/// The step functions realise exactly `task_flow_result`: following each
/// decided action — failing where the decision says fail, replaying on
/// the fallback where it says replay, awaiting where an endpoint
/// accepted — yields the flow's outcome.
pub proof fn lemma_task_steps_compose<H, R>(
    request: TaskCreationRequest,
    primary: SendOutcome<H>,
    fallback: SendOutcome<H>,
    wait: WaitOutcome<R>,
)
    ensures
        task_send_after_primary_spec(request, primary) matches TaskSendAction::Fail(e)
            ==> task_flow_result::<H, R>(primary, fallback, wait) == Result::<
            R,
            RetryError<BatcherError>,
        >::Err(e),
        task_send_after_primary_spec(request, primary) is AwaitReceipt ==> task_flow_result::<
            H,
            R,
        >(primary, fallback, wait) == task_wait_outcome_spec::<R>(wait),
        task_send_after_primary_spec(request, primary) is RetryOnFallback
            && task_send_after_fallback_spec(fallback) is Err ==> task_flow_result::<H, R>(
            primary,
            fallback,
            wait,
        ) == Result::<R, RetryError<BatcherError>>::Err(
            task_send_after_fallback_spec(fallback)->Err_0,
        ),
        task_send_after_primary_spec(request, primary) is RetryOnFallback
            && task_send_after_fallback_spec(fallback) is Ok ==> task_flow_result::<H, R>(
            primary,
            fallback,
            wait,
        ) == task_wait_outcome_spec::<R>(wait),
{
}

/// A revert from the primary endpoint yields `Permanent` carrying the
/// revert payload, and the fallback endpoint is never sent the request:
/// the decided action is to fail, not to replay.
pub proof fn lemma_task_primary_revert_permanent<H>(
    request: TaskCreationRequest,
    payload: Vec<u8>,
)
    ensures
        task_send_after_primary_spec::<H>(request, SendOutcome::Reverted(payload))
            == TaskSendAction::<H>::Fail(revert_error(payload)),
        !(task_send_after_primary_spec::<H>(
            request,
            SendOutcome::Reverted(payload),
        ) is RetryOnFallback),
        !(task_send_after_primary_spec::<H>(
            request,
            SendOutcome::Reverted(payload),
        ) is AwaitReceipt),
{
}

/// A non-revert primary failure replays the request byte-identical on
/// the fallback; when the fallback accepts and the wait confirms, the
/// caller gets the fallback's receipt.
pub proof fn lemma_task_fallback_receipt_returned<H, R>(
    request: TaskCreationRequest,
    primary_cause: String,
    handle: H,
    receipt: R,
)
    ensures
        task_send_after_primary_spec::<H>(request, SendOutcome::Failed(primary_cause))
            == TaskSendAction::<H>::RetryOnFallback(request),
        task_send_after_fallback_spec::<H>(SendOutcome::Accepted(handle)) == Result::<
            H,
            RetryError<BatcherError>,
        >::Ok(handle),
        task_wait_outcome_spec::<R>(WaitOutcome::Confirmed(receipt)) == Result::<
            R,
            RetryError<BatcherError>,
        >::Ok(receipt),
{
}

/// A handle that resolves without a receipt before the deadline is
/// treated identically to a deadline that elapsed, and so is a failure
/// reported while waiting: all three yield the permanent
/// receipt-not-found error.
pub proof fn lemma_task_wait_failures_coincide<R>(cause: String)
    ensures
        task_wait_outcome_spec::<R>(WaitOutcome::NoReceipt) == task_wait_outcome_spec::<R>(
            WaitOutcome::DeadlineElapsed,
        ),
        task_wait_outcome_spec::<R>(WaitOutcome::Failed(cause)) == task_wait_outcome_spec::<R>(
            WaitOutcome::DeadlineElapsed,
        ),
        task_wait_outcome_spec::<R>(WaitOutcome::DeadlineElapsed) == Result::<
            R,
            RetryError<BatcherError>,
        >::Err(RetryError::Permanent(BatcherError::ReceiptNotFoundError)),
{
}

} // verus!
