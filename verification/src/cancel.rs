//! Cancellation of a stuck submission.
//!
//! A stuck operation is superseded by a zero-value transfer from the
//! submitting account to itself, at the same nonce but at a strictly
//! higher gas price supplied by the caller. The nonce is re-fetched
//! through the read-path fallback pattern immediately before the
//! transfer is built; the transfer is sent via the primary signer and
//! replayed unchanged on the fallback signer on any send failure; the
//! confirmation wait is bounded as on the write path.
//!
//! Every failure here is `Transient`: a plain value transfer has no
//! revert concept, so any failure means "try again later, possibly with
//! a further-bumped price" — a decision left to the caller.

use vstd::prelude::*;

use crate::RetryError;
use crate::confirmation::WaitOutcome;
use crate::errors::CancelError;
use crate::ledger::{Address, Uint256};

verus! {

/// The zero-value self-transfer meant to supersede a stuck submission.
#[derive(Debug, Clone, Copy, PartialEq, Eq)]
pub struct CancelTransfer {
    /// Recipient: the submitting account itself.
    pub to: Address,
    /// Transferred value: always zero.
    pub value: Uint256,
    /// The same nonce as the stuck operation.
    pub nonce: Uint256,
    /// The caller's bumped gas price, strictly above the stuck one.
    pub gas_price: Uint256,
}

/// The transfer built for a given account, nonce and bumped gas price.
pub open spec fn cancel_transfer_spec(
    sender: Address,
    nonce: Uint256,
    bumped_gas_price: Uint256,
) -> CancelTransfer {
    CancelTransfer {
        to: sender,
        value: Uint256 { limb0: 0, limb1: 0, limb2: 0, limb3: 0 },
        nonce: nonce,
        gas_price: bumped_gas_price,
    }
}

/// What the cancellation policy does after the primary signer's send.
#[derive(Debug, PartialEq, Eq)]
pub enum CancelSendAction<H> {
    /// Hand the pending transfer to the confirmation waiter.
    AwaitReceipt(H),
    /// Replay this transfer, unchanged, through the fallback signer.
    RetryOnFallback(CancelTransfer),
}

/// The step taken once the primary signer's send has reported.
pub open spec fn cancel_send_after_primary_spec<H>(
    transfer: CancelTransfer,
    outcome: Result<H, String>,
) -> CancelSendAction<H> {
    match outcome {
        Ok(h) => CancelSendAction::AwaitReceipt(h),
        Err(_) => CancelSendAction::RetryOnFallback(transfer),
    }
}

/// The send result once the fallback signer has reported.
pub open spec fn cancel_send_after_fallback_spec<H>(outcome: Result<H, String>) -> Result<
    H,
    RetryError<CancelError>,
> {
    match outcome {
        Ok(h) => Ok(h),
        Err(msg) => Err(RetryError::Transient(CancelError::Endpoint(msg))),
    }
}

/// The caller's result once the confirmation wait has ended. All
/// failures are `Transient`, with the cause kept apart so the caller can
/// see what to log before retrying.
pub open spec fn cancel_wait_outcome_spec<R>(outcome: WaitOutcome<R>) -> Result<
    R,
    RetryError<CancelError>,
> {
    match outcome {
        WaitOutcome::Confirmed(receipt) => Ok(receipt),
        WaitOutcome::NoReceipt => Err(RetryError::Transient(CancelError::ReceiptNotFound)),
        WaitOutcome::Failed(msg) => Err(RetryError::Transient(CancelError::Endpoint(msg))),
        WaitOutcome::DeadlineElapsed => Err(
            RetryError::Transient(CancelError::ConfirmationTimeout),
        ),
    }
}

/// Build the superseding transfer: to the submitting account itself,
/// zero value, the given nonce, the caller's bumped gas price.
pub fn build_cancel_transfer(sender: Address, nonce: Uint256, bumped_gas_price: Uint256) -> (t:
    CancelTransfer)
    ensures
        t == cancel_transfer_spec(sender, nonce, bumped_gas_price),
        t.to == sender,
        t.value.as_nat() == 0,
        t.nonce == nonce,
        t.gas_price == bumped_gas_price,
{
    CancelTransfer { to: sender, value: Uint256::zero(), nonce: nonce, gas_price: bumped_gas_price }
}

/// Decide the next step after the primary signer's send: acceptance goes
/// to the confirmation waiter, any failure replays the unchanged
/// transfer through the fallback signer — never a `Permanent` ending.
pub fn cancel_send_after_primary<H>(transfer: CancelTransfer, outcome: Result<H, String>) -> (
    action: CancelSendAction<H>)
    ensures
        action == cancel_send_after_primary_spec(transfer, outcome),
{
    match outcome {
        Ok(h) => CancelSendAction::AwaitReceipt(h),
        Err(_) => CancelSendAction::RetryOnFallback(transfer),
    }
}

/// Finish the send phase after the fallback signer reported: acceptance
/// goes to the confirmation waiter, a failure is `Transient` and carries
/// the fallback's cause.
pub fn cancel_send_after_fallback<H>(outcome: Result<H, String>) -> (r: Result<
    H,
    RetryError<CancelError>,
>)
    ensures
        r == cancel_send_after_fallback_spec(outcome),
{
    match outcome {
        Ok(h) => Ok(h),
        Err(msg) => Err(RetryError::Transient(CancelError::Endpoint(msg))),
    }
}

/// Classify the end of the confirmation wait for a cancellation: a
/// confirmed receipt is the flow's success; a timeout, a reported
/// failure and a missing receipt are all `Transient`.
pub fn cancel_wait_outcome<R>(outcome: WaitOutcome<R>) -> (r: Result<R, RetryError<CancelError>>)
    ensures
        r == cancel_wait_outcome_spec(outcome),
{
    match outcome {
        WaitOutcome::Confirmed(receipt) => Ok(receipt),
        WaitOutcome::NoReceipt => Err(RetryError::Transient(CancelError::ReceiptNotFound)),
        WaitOutcome::Failed(msg) => Err(RetryError::Transient(CancelError::Endpoint(msg))),
        WaitOutcome::DeadlineElapsed => Err(
            RetryError::Transient(CancelError::ConfirmationTimeout),
        ),
    }
}

/// A cancellation whose nonce read fails on the primary endpoint but
/// succeeds on the fallback builds its superseding transfer with the
/// fallback-sourced nonce: zero value, to the submitting account, at the
/// caller's bumped price.
pub proof fn lemma_cancel_uses_fallback_nonce(
    sender: Address,
    primary_cause: CancelError,
    nonce: Uint256,
    bumped_gas_price: Uint256,
)
    ensures
        crate::reads::read_flow_result(
            Result::<Uint256, CancelError>::Err(primary_cause),
            Result::<Uint256, CancelError>::Ok(nonce),
        ) == Result::<Uint256, RetryError<CancelError>>::Ok(nonce),
        cancel_transfer_spec(sender, nonce, bumped_gas_price).nonce == nonce,
        cancel_transfer_spec(sender, nonce, bumped_gas_price).to == sender,
        cancel_transfer_spec(sender, nonce, bumped_gas_price).value.as_nat() == 0,
        cancel_transfer_spec(sender, nonce, bumped_gas_price).gas_price == bumped_gas_price,
{
}

/// Outcome of the whole cancellation's send-and-wait, given what each
/// signer's send would report and how the confirmation wait would end.
/// The fallback report matters only when the primary send failed; the
/// wait matters only when a signer accepted the transfer.
pub open spec fn cancel_flow_result<H, R>(
    primary: Result<H, String>,
    fallback: Result<H, String>,
    wait: WaitOutcome<R>,
) -> Result<R, RetryError<CancelError>> {
    match primary {
        Ok(_) => cancel_wait_outcome_spec(wait),
        Err(_) => match fallback {
            Ok(_) => cancel_wait_outcome_spec(wait),
            Err(msg) => Err(RetryError::Transient(CancelError::Endpoint(msg))),
        },
    }
}

/// The step functions realise exactly `cancel_flow_result`.
pub proof fn lemma_cancel_steps_compose<H, R>(
    transfer: CancelTransfer,
    primary: Result<H, String>,
    fallback: Result<H, String>,
    wait: WaitOutcome<R>,
)
    ensures
        cancel_send_after_primary_spec(transfer, primary) is AwaitReceipt ==> cancel_flow_result::<
            H,
            R,
        >(primary, fallback, wait) == cancel_wait_outcome_spec::<R>(wait),
        cancel_send_after_primary_spec(transfer, primary) is RetryOnFallback
            && cancel_send_after_fallback_spec(fallback) is Ok ==> cancel_flow_result::<H, R>(
            primary,
            fallback,
            wait,
        ) == cancel_wait_outcome_spec::<R>(wait),
        cancel_send_after_primary_spec(transfer, primary) is RetryOnFallback
            && cancel_send_after_fallback_spec(fallback) is Err ==> cancel_flow_result::<H, R>(
            primary,
            fallback,
            wait,
        ) == Result::<R, RetryError<CancelError>>::Err(
            cancel_send_after_fallback_spec(fallback)->Err_0,
        ),
{
}

/// No cancellation outcome is ever `Permanent`: whatever the signers or
/// the waiter reported, the caller may retry.
pub proof fn lemma_cancel_never_permanent<H, R>(
    primary: Result<H, String>,
    fallback: Result<H, String>,
    wait: WaitOutcome<R>,
)
    ensures
        cancel_flow_result(primary, fallback, wait) matches Err(e) ==> e is Transient,
{
}

} // verus!
