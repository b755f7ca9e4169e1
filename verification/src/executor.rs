//! Settling a deadline-bounded unit of work.
//!
//! Every potentially slow lookup is submitted to a worker pool and awaited on
//! a single-value completion channel for at most the configured deadline. The
//! channel either yields the work's result or nothing at all (the deadline
//! passed, or the work faulted and its channel was dropped). This module holds
//! the one rule every read-only handler applies to that outcome: a missing
//! result settles to the operation's neutral value, never to an error.

use vstd::prelude::*;

verus! {

/// Settle the outcome of a submitted unit of work: its result if one arrived,
/// the neutral value otherwise.
pub fn settle_or<T>(outcome: Option<T>, neutral: T) -> (r: T)
    ensures
        outcome is Some ==> r == outcome->0,
        outcome is None ==> r == neutral,
{
    match outcome {
        Some(t) => t,
        None => neutral,
    }
}

} // verus!
