//! Completions at a point, and the later resolve round.
//!
//! Completions are served by the heuristic backend alone — no authoritative
//! racing — under the usual deadline; a failed or late lookup settles to an
//! empty list, which an editor treats as a normal outcome. The resolve round
//! is a pass-through: the initial items already carry everything.

use vstd::prelude::*;

use crate::coords::HeuristicMatch;

verus! {

/// One completion offered to the client.
#[derive(Clone, Debug)]
pub struct CompletionItem {
    /// The text offered for insertion.
    pub label: String,
    /// The matched item's surrounding context, shown alongside.
    pub detail: Option<String>,
}

/// Whether an item list presents exactly the given heuristic matches, in
/// order: the match's name as the label, its context as the detail.
pub open spec fn completions_match(items: Seq<CompletionItem>, found: Seq<HeuristicMatch>) -> bool {
    &&& items.len() == found.len()
    &&& forall|k: int|
        0 <= k < found.len() ==> (#[trigger] items[k]).label == found[k].name && items[k].detail
            == Some(found[k].context)
}

/// Offers completions at a point.
pub struct Completion;

impl Completion {
    pub fn new() -> Completion {
        Completion
    }

    /// The work a completion request submits, once the heuristic backend has
    /// listed its matches: one item per match.
    pub fn work(found: &Vec<HeuristicMatch>) -> (r: Vec<CompletionItem>)
        ensures
            completions_match(r@, found@),
    {
        let mut items: Vec<CompletionItem> = Vec::new();
        let mut i: usize = 0;
        while i < found.len()
            invariant
                i <= found@.len(),
                completions_match(items@, found@.take(i as int)),
            decreases found@.len() - i,
        {
            items.push(
                CompletionItem {
                    label: found[i].name.clone(),
                    detail: Some(found[i].context.clone()),
                },
            );
            i += 1;
        }
        proof {
            assert(found@.take(found@.len() as int) =~= found@);
        }
        items
    }

    /// Settle the deadline: items that never arrived are an empty list.
    pub fn handle(outcome: Option<Vec<CompletionItem>>) -> (r: Vec<CompletionItem>)
        ensures
            outcome matches Some(v) ==> r == v,
            outcome is None ==> r@ == Seq::<CompletionItem>::empty(),
    {
        match outcome {
            Some(v) => v,
            None => Vec::new(),
        }
    }
}

/// Resolves additional detail for one completion item.
pub struct ResolveCompletion;

impl ResolveCompletion {
    pub fn new() -> ResolveCompletion {
        ResolveCompletion
    }

    /// The initial completion round already fills every field, so resolving
    /// returns the item untouched.
    pub fn handle(params: CompletionItem) -> (r: CompletionItem)
        ensures
            r == params,
    {
        params
    }
}

} // verus!
