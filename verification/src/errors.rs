//! The error taxonomy of the submission layer.
//!
//! Raw endpoint errors never leak past the classifier boundary: every
//! failure is surfaced as one of the typed causes below, wrapped in
//! [`crate::RetryError`] to say whether a retry can ever succeed.

use vstd::prelude::*;

verus! {

/// Failure of a state-changing submission (or of its dry-run simulation).
#[derive(Debug, Clone, PartialEq, Eq)]
pub enum TransactionSendError {
    /// The chain reverted the operation; carries the revert payload.
    Reverted(Vec<u8>),
    /// Any other failure (network, serialization, node rejection before
    /// inclusion), as a diagnostic string.
    Generic(String),
}

impl From<Vec<u8>> for TransactionSendError {
    fn from(payload: Vec<u8>) -> Self {
        TransactionSendError::Reverted(payload)
    }
}

impl vstd::std_specs::convert::FromSpecImpl<Vec<u8>> for TransactionSendError {
    open spec fn obeys_from_spec() -> bool {
        true
    }

    open spec fn from_spec(payload: Vec<u8>) -> Self {
        TransactionSendError::Reverted(payload)
    }
}

/// Failure of the task-submission path as reported to the caller.
#[derive(Debug, Clone, PartialEq, Eq)]
pub enum BatcherError {
    /// Sending (or simulating) the task-creation call failed.
    TransactionSendError(TransactionSendError),
    /// The bounded confirmation wait ended without a usable receipt.
    ReceiptNotFoundError,
}

/// Cause of a failed stuck-submission cancellation. Every cancellation
/// failure is retryable, so these only ever travel as `Transient`.
#[derive(Debug, Clone, PartialEq, Eq)]
pub enum CancelError {
    /// An endpoint reported this failure, as a diagnostic string.
    Endpoint(String),
    /// The confirmation deadline elapsed before the handle resolved.
    ConfirmationTimeout,
    /// The handle resolved, but no receipt came back.
    ReceiptNotFound,
}

} // verus!
