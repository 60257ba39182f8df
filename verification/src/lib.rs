//! A resilient submission layer for ledger operations issued through a
//! primary and a fallback RPC endpoint.
//!
//! Every network round-trip is performed by the surrounding runtime; this
//! crate holds the decision policy: which endpoint to consult next, how to
//! classify a failure (`Transient` versus `Permanent`), and what a bounded
//! confirmation wait yields.

use vstd::prelude::*;

pub mod cancel;
pub mod confirmation;
pub mod errors;
pub mod ledger;
pub mod reads;
pub mod simulation;
pub mod task;

verus! {

/// Classification of a failed operation.
///
/// `Transient` failures (endpoint unreachable, malformed response, timeout)
/// are safe to retry, on the fallback endpoint or later. `Permanent`
/// failures (the chain rejected the operation itself) must never be
/// retried on any endpoint.
#[derive(Debug, Clone, PartialEq, Eq)]
pub enum RetryError<E> {
    Transient(E),
    Permanent(E),
}

} // verus!
