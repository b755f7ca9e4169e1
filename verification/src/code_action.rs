//! Code actions for a document range.
//!
//! Pure and synchronous: the handler reads the build collaborator's cached
//! diagnostics for the requesting file, keeps those whose range equals the
//! requested range exactly, and emits one command per attached suggestion,
//! each carrying the suggestion's label and its (location, replacement text)
//! argument pair — the pair the apply-suggestion command later consumes. A
//! file with no cached build result yields an empty command list, not an
//! error.

use vstd::prelude::*;

use crate::types::Location;
use crate::types::Range;

verus! {

/// A cached compiler diagnostic: where it points, and its message text.
#[derive(Clone, Debug)]
pub struct Diagnostic {
    pub range: Range,
    pub message: String,
}

/// One candidate fix attached to a diagnostic.
#[derive(Clone, Debug)]
pub struct Suggestion {
    /// The human-readable label the command is presented under.
    pub label: String,
    /// The range the replacement applies to.
    pub range: Range,
    /// The replacement text.
    pub new_text: String,
}

/// A command offered to the client: apply one cached suggestion.
#[derive(Clone, Debug)]
pub struct Command {
    pub title: String,
    pub command: String,
    /// The argument pair the execute-command handler consumes.
    pub location: Location,
    pub new_text: String,
}

/// The suggestions the cached diagnostics contribute for a requested range:
/// those of every diagnostic whose range equals it exactly, in cache order,
/// flattened.
pub open spec fn suggestions_for(
    entries: Seq<(Diagnostic, Vec<Suggestion>)>,
    range: Range,
) -> Seq<Suggestion>
    decreases entries.len(),
{
    if entries.len() == 0 {
        Seq::empty()
    } else {
        suggestions_for(entries.drop_last(), range) + (if entries.last().0.range == range {
            entries.last().1@
        } else {
            Seq::empty()
        })
    }
}

proof fn lemma_suggestions_for_take_succ(
    entries: Seq<(Diagnostic, Vec<Suggestion>)>,
    i: int,
    range: Range,
)
    requires
        0 <= i < entries.len(),
    ensures
        suggestions_for(entries.take(i + 1), range) == suggestions_for(entries.take(i), range) + (
        if entries[i].0.range == range {
            entries[i].1@
        } else {
            Seq::<Suggestion>::empty()
        }),
{
    assert(entries.take(i + 1).drop_last() =~= entries.take(i));
    assert(entries.take(i + 1).last() == entries[i]);
}

/// Whether a command list offers exactly the given suggestions for the given
/// file: one apply-suggestion command per suggestion, in order, titled by its
/// label and carrying its (location, replacement text) pair.
pub open spec fn commands_match(cmds: Seq<Command>, sugg: Seq<Suggestion>, file: String) -> bool {
    &&& cmds.len() == sugg.len()
    &&& forall|k: int|
        0 <= k < sugg.len() ==> (#[trigger] cmds[k]).title == sugg[k].label && cmds[k].command@
            == "rls.applySuggestion"@ && cmds[k].location.file == file && cmds[k].location.range
            == sugg[k].range && cmds[k].new_text == sugg[k].new_text
}

/// Offers the actions the server can perform on a document range.
pub struct CodeAction;

impl CodeAction {
    pub fn new() -> CodeAction {
        CodeAction
    }

    /// Collect one command per suggestion of every cached diagnostic whose
    /// range equals the requested one. `cached` is the build cache's entry
    /// for the requesting file, `None` when the file has none.
    pub fn handle(
        cached: Option<&Vec<(Diagnostic, Vec<Suggestion>)>>,
        file: &String,
        range: Range,
    ) -> (r: Vec<Command>)
        ensures
            cached is None ==> r@ == Seq::<Command>::empty(),
            cached matches Some(entries) ==> commands_match(
                r@,
                suggestions_for(entries@, range),
                *file,
            ),
    {
        let mut cmds: Vec<Command> = Vec::new();
        let entries = match cached {
            None => {
                return cmds;
            },
            Some(entries) => entries,
        };
        let ghost es = entries@;
        let mut i: usize = 0;
        while i < entries.len()
            invariant
                es == entries@,
                i <= es.len(),
                commands_match(cmds@, suggestions_for(es.take(i as int), range), *file),
            decreases es.len() - i,
        {
            proof {
                lemma_suggestions_for_take_succ(es, i as int, range);
            }
            if entries[i].0.range == range {
                let suggestions = &entries[i].1;
                let ghost before = suggestions_for(es.take(i as int), range);
                let mut j: usize = 0;
                while j < suggestions.len()
                    invariant
                        es == entries@,
                        i < es.len(),
                        suggestions == &es[i as int].1,
                        j <= suggestions@.len(),
                        commands_match(cmds@, before + suggestions@.take(j as int), *file),
                    decreases suggestions@.len() - j,
                {
                    let s = &suggestions[j];
                    let cmd = Command {
                        title: s.label.clone(),
                        command: String::from_str("rls.applySuggestion"),
                        location: Location { file: file.clone(), range: s.range },
                        new_text: s.new_text.clone(),
                    };
                    cmds.push(cmd);
                    proof {
                        assert(before + suggestions@.take(j + 1) =~= (before + suggestions@.take(
                            j as int,
                        )).push(es[i as int].1@[j as int]));
                    }
                    j += 1;
                }
                proof {
                    assert(suggestions@.take(suggestions@.len() as int) =~= suggestions@);
                }
            } else {
                proof {
                    assert(suggestions_for(es.take(i as int), range) + Seq::<Suggestion>::empty()
                        =~= suggestions_for(es.take(i as int), range));
                }
            }
            i += 1;
        }
        proof {
            assert(es.take(es.len() as int) =~= es);
        }
        cmds
    }
}

/// Contribution law, skipping side: a cached diagnostic whose range differs
/// from the requested one contributes nothing — dropping it leaves the
/// offered suggestions unchanged.
pub proof fn lemma_nonmatching_diagnostic_contributes_nothing(
    entries: Seq<(Diagnostic, Vec<Suggestion>)>,
    i: int,
    range: Range,
)
    requires
        0 <= i < entries.len(),
        entries[i].0.range != range,
    ensures
        suggestions_for(entries, range) == suggestions_for(entries.remove(i), range),
    decreases entries.len(),
{
    if i == entries.len() - 1 {
        assert(entries.remove(i) =~= entries.drop_last());
        assert(suggestions_for(entries.drop_last(), range) + Seq::<Suggestion>::empty()
            =~= suggestions_for(entries.drop_last(), range));
    } else {
        lemma_nonmatching_diagnostic_contributes_nothing(entries.drop_last(), i, range);
        assert(entries.remove(i).drop_last() =~= entries.drop_last().remove(i));
        assert(entries.remove(i).last() == entries.last());
    }
}

/// Contribution law, matching side: a diagnostic whose range equals the
/// requested one contributes exactly its own suggestions, appended in cache
/// order.
pub proof fn lemma_matching_diagnostic_contributes_suggestions(
    entries: Seq<(Diagnostic, Vec<Suggestion>)>,
    p: (Diagnostic, Vec<Suggestion>),
    range: Range,
)
    requires
        p.0.range == range,
    ensures
        suggestions_for(entries.push(p), range) == suggestions_for(entries, range) + p.1@,
{
    assert(entries.push(p).drop_last() =~= entries);
    assert(entries.push(p).last() == p);
}

} // verus!
