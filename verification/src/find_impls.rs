//! Finding the implementations of a trait or type.
//!
//! The work resolves the pointed-at symbol to its identity and asks the
//! analysis backend for every implementation span. Unlike the read-only list
//! queries, a missing answer here is surfaced as an explicit failure: an
//! empty implementation list and a failed lookup mean different things.

use vstd::prelude::*;

use crate::references::locations_match;
use crate::types::ErrorKind;
use crate::types::Failure;
use crate::types::Location;
use crate::types::Span;

verus! {

/// Finds every implementation of the trait or type at a point.
pub struct FindImpls;

impl FindImpls {
    pub fn new() -> FindImpls {
        FindImpls
    }

    /// The work a find-implementations request submits, once the backend has
    /// spoken: its spans as protocol locations, its failure passed through.
    pub fn work(impls: Result<Vec<Span>, ()>) -> (r: Result<Vec<Location>, ()>)
        ensures
            impls matches Ok(spans) ==> (r matches Ok(locs) && locations_match(locs@, spans@)),
            impls is Err ==> r is Err,
    {
        match impls {
            Ok(spans) => {
                let mut locs: Vec<Location> = Vec::new();
                let mut i: usize = 0;
                while i < spans.len()
                    invariant
                        i <= spans@.len(),
                        locations_match(locs@, spans@.take(i as int)),
                    decreases spans@.len() - i,
                {
                    locs.push(Location { file: spans[i].file.clone(), range: spans[i].range });
                    i += 1;
                }
                proof {
                    assert(spans@.take(spans@.len() as int) =~= spans@);
                }
                Ok(locs)
            },
            Err(()) => Err(()),
        }
    }

    /// Settle the deadline: only a timely successful lookup answers with its
    /// locations; a timeout, a dropped channel or a backend fault is an
    /// explicit internal failure.
    pub fn handle(outcome: Option<Result<Vec<Location>, ()>>) -> (r: Result<
        Vec<Location>,
        Failure,
    >)
        ensures
            outcome matches Some(v) ==> (v matches Ok(locs) ==> r == Ok::<
                Vec<Location>,
                Failure,
            >(locs)),
            !(outcome matches Some(v) && v is Ok) ==> (r matches Err(f) && f.kind
                == ErrorKind::InternalError && f.message@
                == "Find Implementations failed to complete successfully"@),
    {
        match outcome {
            Some(Ok(locs)) => Ok(locs),
            _ => Err(Failure {
                kind: ErrorKind::InternalError,
                message: String::from_str("Find Implementations failed to complete successfully"),
            }),
        }
    }
}

} // verus!
