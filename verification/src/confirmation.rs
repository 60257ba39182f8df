//! The bounded confirmation wait.
//!
//! A successful `send` yields a pending handle; the runtime races its
//! resolution against a deadline timer (a genuine cancellable timer, torn
//! down on timeout) and reports here how the race ended. How each ending
//! is classified is decided per call site: the task-submission path and
//! the cancellation path each have their own outcome function.

use vstd::prelude::*;

verus! {

/// How a bounded confirmation wait on a pending submission ended.
#[derive(Debug, Clone, PartialEq, Eq)]
pub enum WaitOutcome<R> {
    /// The operation was included on-chain; carries its receipt.
    Confirmed(R),
    /// The handle resolved, but without a receipt object.
    NoReceipt,
    /// The endpoint reported that the operation failed while waiting;
    /// carries the diagnostic string.
    Failed(String),
    /// The deadline elapsed before the handle resolved.
    DeadlineElapsed,
}

} // verus!
