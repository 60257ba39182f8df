//! The fallback policy for read operations (balance, nonce, gas price,
//! unlock status).
//!
//! A read is attempted on the primary endpoint first; on any failure the
//! identical read is attempted on the fallback endpoint; if that fails
//! too, the caller gets `Transient` carrying the fallback's cause. A read
//! is never classified `Permanent`: a failed read never means the queried
//! value is invalid, only that it could not be obtained this time.
//!
//! The runtime performs the round-trips; it feeds each endpoint's answer
//! to the step functions here and does exactly what the returned action
//! says, so the policy itself is checked once for every answer.

use vstd::prelude::*;

use crate::RetryError;
use crate::ledger::Uint256;

verus! {

/// What the read policy does after the primary endpoint answered.
#[derive(Debug, PartialEq, Eq)]
pub enum ReadAction<V, E> {
    /// The flow is finished with this outcome.
    Done(Result<V, RetryError<E>>),
    /// The primary failed: issue the identical read against the fallback
    /// endpoint.
    QueryFallback,
}

/// Whether the read flow consults the fallback endpoint at all: only
/// when the primary attempt failed.
pub open spec fn read_consults_fallback<V, E>(primary: Result<V, E>) -> bool {
    primary is Err
}

/// Outcome of the whole read flow, given what each endpoint would
/// answer. The fallback answer matters only when the primary failed.
pub open spec fn read_flow_result<V, E>(
    primary: Result<V, E>,
    fallback: Result<V, E>,
) -> Result<V, RetryError<E>> {
    match primary {
        Ok(v) => Ok(v),
        Err(_) => match fallback {
            Ok(v) => Ok(v),
            Err(e) => Err(RetryError::Transient(e)),
        },
    }
}

/// The step taken once the primary endpoint has answered.
pub open spec fn read_after_primary_spec<V, E>(outcome: Result<V, E>) -> ReadAction<V, E> {
    match outcome {
        Ok(v) => ReadAction::Done(Ok(v)),
        Err(_) => ReadAction::QueryFallback,
    }
}

/// The flow's outcome once the fallback endpoint has answered.
pub open spec fn read_after_fallback_spec<V, E>(outcome: Result<V, E>) -> Result<
    V,
    RetryError<E>,
> {
    match outcome {
        Ok(v) => Ok(v),
        Err(e) => Err(RetryError::Transient(e)),
    }
}

/// Decide the next step of a read after the primary endpoint answered: a
/// successful primary read is final, any failure escalates the identical
/// read to the fallback endpoint.
pub fn read_after_primary<V, E>(outcome: Result<V, E>) -> (action: ReadAction<V, E>)
    ensures
        action == read_after_primary_spec(outcome),
{
    match outcome {
        Ok(v) => ReadAction::Done(Ok(v)),
        Err(_) => ReadAction::QueryFallback,
    }
}

/// Finish a read after the fallback endpoint answered: its value is
/// returned unchanged; its failure is surfaced as `Transient`, carrying
/// the fallback's cause.
pub fn read_after_fallback<V, E>(outcome: Result<V, E>) -> (r: Result<V, RetryError<E>>)
    ensures
        r == read_after_fallback_spec(outcome),
{
    match outcome {
        Ok(v) => Ok(v),
        Err(e) => Err(RetryError::Transient(e)),
    }
}

/// Whether a balance is unlocked, derived from the account's unlock
/// block: unlocked exactly when that block is non-zero. The derivation
/// is the same whichever endpoint supplied the block.
pub fn is_unlocked(unlock_block: &Uint256) -> (r: bool)
    ensures
        r == (unlock_block.as_nat() != 0),
{
    !unlock_block.is_zero()
}

/// A read whose primary attempt succeeds is final: the fallback endpoint
/// is never consulted and the primary's value is returned unchanged,
/// whatever the fallback would have answered.
pub proof fn lemma_read_primary_success_skips_fallback<V, E>(
    primary: Result<V, E>,
    fallback: Result<V, E>,
)
    requires
        primary is Ok,
    ensures
        !read_consults_fallback::<V, E>(primary),
        read_flow_result(primary, fallback) == Result::<V, RetryError<E>>::Ok(primary->Ok_0),
        read_after_primary_spec(primary) == ReadAction::<V, E>::Done(Ok(primary->Ok_0)),
{
}

/// A read whose primary attempt fails and whose fallback attempt
/// succeeds returns the fallback's value, with no error raised.
pub proof fn lemma_read_fallback_value_returned<V, E>(primary: Result<V, E>, fallback: Result<V, E>)
    requires
        primary is Err,
        fallback is Ok,
    ensures
        read_consults_fallback::<V, E>(primary),
        read_flow_result(primary, fallback) == Result::<V, RetryError<E>>::Ok(fallback->Ok_0),
        read_after_fallback_spec(fallback) == Result::<V, RetryError<E>>::Ok(fallback->Ok_0),
{
}

/// A read that fails on both endpoints is `Transient` and carries the
/// fallback's cause, not the primary's.
pub proof fn lemma_read_both_failed_transient<V, E>(primary: Result<V, E>, fallback: Result<V, E>)
    requires
        primary is Err,
        fallback is Err,
    ensures
        read_flow_result(primary, fallback) == Result::<V, RetryError<E>>::Err(
            RetryError::Transient(fallback->Err_0),
        ),
{
}

/// The two step functions realise exactly `read_flow_result`: a read
/// finished at the primary already has the flow's outcome, and one
/// escalated to the fallback gets it from the fallback's answer.
pub proof fn lemma_read_steps_compose<V, E>(primary: Result<V, E>, fallback: Result<V, E>)
    ensures
        read_after_primary_spec(primary) matches ReadAction::Done(r) ==> r == read_flow_result(
            primary,
            fallback,
        ),
        read_after_primary_spec(primary) is QueryFallback ==> read_after_fallback_spec(fallback)
            == read_flow_result(primary, fallback),
{
}

} // verus!
