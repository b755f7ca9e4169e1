//! Finding references, and highlighting them within a document.
//!
//! Both operations run the same reference search (the declaration included
//! for highlights); references answer with protocol locations, highlights
//! repackage each hit as a highlight of the one fixed kind. A failed or
//! timed-out search settles to an empty list.

use vstd::prelude::*;

use crate::types::Location;
use crate::types::Range;
use crate::types::Span;

verus! {

/// Whether a location list presents exactly the given spans, in order.
pub open spec fn locations_match(locs: Seq<Location>, refs: Seq<Span>) -> bool {
    &&& locs.len() == refs.len()
    &&& forall|k: int|
        0 <= k < refs.len() ==> (#[trigger] locs[k]).file == refs[k].file && locs[k].range
            == refs[k].range
}

/// Finds every reference to the symbol at a point.
pub struct References;

impl References {
    pub fn new() -> References {
        References
    }

    /// Settle the search's outcome: its hits if it answered in time, an
    /// empty list on failure or timeout.
    pub fn settle(outcome: Option<Result<Vec<Span>, ()>>) -> (r: Vec<Span>)
        ensures
            outcome matches Some(v) ==> (v matches Ok(hits) ==> r == hits),
            !(outcome matches Some(v) && v is Ok) ==> r@ == Seq::<Span>::empty(),
    {
        match outcome {
            Some(Ok(hits)) => hits,
            _ => Vec::new(),
        }
    }

    /// Shape the hits as the response's protocol locations.
    pub fn handle(refs: &Vec<Span>) -> (r: Vec<Location>)
        ensures
            locations_match(r@, refs@),
    {
        let mut locs: Vec<Location> = Vec::new();
        let mut i: usize = 0;
        while i < refs.len()
            invariant
                i <= refs@.len(),
                locations_match(locs@, refs@.take(i as int)),
            decreases refs@.len() - i,
        {
            locs.push(Location { file: refs[i].file.clone(), range: refs[i].range });
            i += 1;
        }
        proof {
            assert(refs@.take(refs@.len() as int) =~= refs@);
        }
        locs
    }
}

/// The kind every highlight of this server carries.
#[derive(Clone, Copy, PartialEq, Eq, Structural, Debug)]
pub enum HighlightKind {
    Text,
    Read,
    Write,
}

/// One highlighted range of the requesting document.
#[derive(Clone, Copy, PartialEq, Eq, Structural, Debug)]
pub struct Highlight {
    pub range: Range,
    pub kind: Option<HighlightKind>,
}

/// Highlights every reference to the symbol at a point within its document:
/// the reference search with the declaration included, repackaged.
pub struct DocumentHighlight;

impl DocumentHighlight {
    pub fn new() -> DocumentHighlight {
        DocumentHighlight
    }

    /// Settle the search's outcome, as for references.
    pub fn settle(outcome: Option<Result<Vec<Span>, ()>>) -> (r: Vec<Span>)
        ensures
            outcome matches Some(v) ==> (v matches Ok(hits) ==> r == hits),
            !(outcome matches Some(v) && v is Ok) ==> r@ == Seq::<Span>::empty(),
    {
        References::settle(outcome)
    }

    /// Shape each hit as a highlight of the one fixed kind.
    pub fn handle(refs: &Vec<Span>) -> (r: Vec<Highlight>)
        ensures
            r@.len() == refs@.len(),
            forall|k: int|
                0 <= k < refs@.len() ==> #[trigger] r@[k] == (Highlight {
                    range: refs@[k].range,
                    kind: Some(HighlightKind::Text),
                }),
    {
        let mut hs: Vec<Highlight> = Vec::new();
        let mut i: usize = 0;
        while i < refs.len()
            invariant
                i <= refs@.len(),
                hs@.len() == i,
                forall|k: int|
                    0 <= k < i ==> #[trigger] hs@[k] == (Highlight {
                        range: refs@[k].range,
                        kind: Some(HighlightKind::Text),
                    }),
            decreases refs@.len() - i,
        {
            hs.push(Highlight { range: refs[i].range, kind: Some(HighlightKind::Text) });
            i += 1;
        }
        hs
    }
}

} // verus!
