//! The bounded-retry policy of a source fetch.
//!
//! Fetching itself — the HTTP request and the JSON field extraction — is an
//! external capability that either yields a quote or fails. This module
//! decides what the fetch loop does after each attempt: accept the first
//! quote that arrives, pause and retry after a failure while attempts
//! remain, and give up — yielding absence — once the attempt budget is
//! spent. Absence is absorbed by aggregation; it never aborts a cycle.

use vstd::prelude::*;

verus! {

/// Maximum number of fetch attempts per source and cycle.
pub const MAX_FETCH_ATTEMPTS: u32 = 3;

/// What the fetch loop does after one attempt.
#[derive(Clone, Copy, Debug, PartialEq, Eq, Structural)]
pub enum FetchDecision {
    /// The attempt yielded a quote, in micro-dollars: stop and use it.
    Accept(u64),
    /// The attempt failed and attempts remain: pause, then try again.
    RetryAfterPause,
    /// The attempt failed and the budget is spent: the source is absent.
    GiveUp,
}

/// Decides the fetch loop's next step from the attempt just completed
/// (counted from 1) and its outcome.
pub fn fetch_step(attempt: u32, outcome: Option<u64>) -> (d: FetchDecision)
    ensures
        outcome is Some ==> d == FetchDecision::Accept(outcome->0),
        outcome is None && attempt < MAX_FETCH_ATTEMPTS ==> d == FetchDecision::RetryAfterPause,
        outcome is None && attempt >= MAX_FETCH_ATTEMPTS ==> d == FetchDecision::GiveUp,
{
    match outcome {
        Some(quote) => FetchDecision::Accept(quote),
        None => {
            if attempt < MAX_FETCH_ATTEMPTS {
                FetchDecision::RetryAfterPause
            } else {
                FetchDecision::GiveUp
            }
        },
    }
}

} // verus!
