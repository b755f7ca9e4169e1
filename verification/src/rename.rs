//! Renaming a symbol throughout the project.
//!
//! The handler resolves the pointed-at span to its defining identifier,
//! refuses the two reserved self-referential names outright (an empty edit
//! batch, not an error, and never a partial one), and otherwise folds every
//! reference — declaration included — into a workspace edit: hits grouped by
//! file, one replacement per hit with the requested new name. Whether that
//! name is a legal identifier is left to the collaborator that applies the
//! edit.

use vstd::prelude::*;

use crate::types::Span;
use crate::types::TextEdit;
use crate::types::WorkspaceEdit;
use crate::types::distinct_files;
use crate::types::edits_map_of;
use crate::types::lemma_edits_map_contains;
use crate::types::lemma_edits_map_index;
use crate::types::lemma_edits_map_push;
use crate::types::lemma_edits_map_update;

verus! {

/// The two self-referential identifiers no rename may touch.
pub open spec fn spec_is_reserved(name: Seq<char>) -> bool {
    name == "self"@ || name == "Self"@
}

/// The references a rename goes on to rewrite: none when the identifier
/// could not be resolved or is reserved, else whatever the reference search
/// produced (nothing, too, when that search failed).
pub open spec fn rename_refs(def_name: Option<String>, refs: Option<Seq<Span>>) -> Seq<Span> {
    match def_name {
        None => Seq::empty(),
        Some(n) => if spec_is_reserved(n@) {
            Seq::empty()
        } else {
            match refs {
                Some(v) => v,
                None => Seq::empty(),
            }
        },
    }
}

/// The edit batch a rename denotes: each referenced file to one replacement
/// per hit there, in the order the hits were reported.
pub open spec fn rename_map(refs: Seq<Span>, new_name: String) -> Map<Seq<char>, Seq<TextEdit>>
    decreases refs.len(),
{
    if refs.len() == 0 {
        Map::empty()
    } else {
        let m = rename_map(refs.drop_last(), new_name);
        let r = refs.last();
        let e = TextEdit { range: r.range, new_text: new_name };
        if m.contains_key(r.file@) {
            m.insert(r.file@, m[r.file@].push(e))
        } else {
            m.insert(r.file@, seq![e])
        }
    }
}

proof fn lemma_rename_map_take_succ(refs: Seq<Span>, i: int, new_name: String)
    requires
        0 <= i < refs.len(),
    ensures
        rename_map(refs.take(i + 1), new_name) == ({
            let m = rename_map(refs.take(i), new_name);
            let e = TextEdit { range: refs[i].range, new_text: new_name };
            if m.contains_key(refs[i].file@) {
                m.insert(refs[i].file@, m[refs[i].file@].push(e))
            } else {
                m.insert(refs[i].file@, seq![e])
            }
        }),
{
    assert(refs.take(i + 1).drop_last() =~= refs.take(i));
    assert(refs.take(i + 1).last() == refs[i]);
}

/// Renames the symbol at the given span within the whole project.
pub struct Rename;

impl Rename {
    pub fn new() -> Rename {
        Rename
    }

    /// Whether the resolved identifier is one of the reserved names.
    pub fn is_reserved(name: &String) -> (r: bool)
        ensures
            r == spec_is_reserved(name@),
    {
        let lower = String::from_str("self");
        let upper = String::from_str("Self");
        *name == lower || *name == upper
    }

    /// The work a rename submits: resolve the definition's name (`None` when
    /// either resolution step failed), refuse the reserved names, and pass
    /// the reference search's hits through (`None`, again, is a failed
    /// search).
    pub fn work(def_name: Option<&String>, refs: Option<Vec<Span>>) -> (r: Vec<Span>)
        ensures
            r@ == rename_refs(
                match def_name {
                    Some(n) => Some(*n),
                    None => None::<String>,
                },
                match refs {
                    Some(v) => Some(v@),
                    None => None::<Seq<Span>>,
                },
            ),
    {
        match def_name {
            None => Vec::new(),
            Some(n) => {
                if Self::is_reserved(n) {
                    Vec::new()
                } else {
                    match refs {
                        Some(v) => v,
                        None => Vec::new(),
                    }
                }
            },
        }
    }

    /// Settle the deadline: hits that never arrived rename nothing.
    pub fn handle(outcome: Option<Vec<Span>>) -> (r: Vec<Span>)
        ensures
            outcome matches Some(v) ==> r == v,
            outcome is None ==> r@ == Seq::<Span>::empty(),
    {
        match outcome {
            Some(v) => v,
            None => Vec::new(),
        }
    }

    /// Fold the reference hits into the workspace edit: hits grouped by
    /// file, each one a replacement of its range with the new name.
    pub fn edits(refs: &Vec<Span>, new_name: &String) -> (w: WorkspaceEdit)
        ensures
            w.wf(),
            w.as_map() == rename_map(refs@, *new_name),
    {
        let mut changes: Vec<(String, Vec<TextEdit>)> = Vec::new();
        let mut i: usize = 0;
        while i < refs.len()
            invariant
                i <= refs@.len(),
                distinct_files(changes@),
                edits_map_of(changes@) == rename_map(refs@.take(i as int), *new_name),
            decreases refs@.len() - i,
        {
            let hit = &refs[i];
            let edit = TextEdit { range: hit.range, new_text: new_name.clone() };
            proof {
                lemma_rename_map_take_succ(refs@, i as int, *new_name);
                lemma_edits_map_contains(changes@, hit.file@);
            }
            let mut at: Option<usize> = None;
            let mut j: usize = 0;
            while j < changes.len()
                invariant
                    j <= changes@.len(),
                    match at {
                        Some(k) => k < j && changes@[k as int].0@ == hit.file@,
                        None => forall|l: int| 0 <= l < j ==> changes@[l].0@ != hit.file@,
                    },
                decreases changes@.len() - j,
            {
                if at.is_none() && changes[j].0 == hit.file {
                    at = Some(j);
                }
                j += 1;
            }
            match at {
                Some(k) => {
                    proof {
                        lemma_edits_map_index(changes@, k as int);
                    }
                    let ghost old_changes = changes@;
                    let (file, mut edits) = changes.remove(k);
                    edits.push(edit);
                    let pair = (file, edits);
                    changes.insert(k, pair);
                    proof {
                        assert(changes@ =~= old_changes.update(k as int, pair));
                        lemma_edits_map_update(old_changes, k as int, pair);
                    }
                },
                None => {
                    let mut edits: Vec<TextEdit> = Vec::new();
                    edits.push(edit);
                    let ghost old_changes = changes@;
                    let pair = (hit.file.clone(), edits);
                    changes.push(pair);
                    proof {
                        lemma_edits_map_push(old_changes, pair);
                        assert(pair.1@ =~= seq![
                            TextEdit { range: hit.range, new_text: *new_name },
                        ]);
                    }
                },
            }
            i += 1;
        }
        proof {
            assert(refs@.take(refs@.len() as int) =~= refs@);
        }
        WorkspaceEdit { changes }
    }
}

/// Completeness law: a rename is never partial — every reference hit's file
/// stands in the edit batch, and that file's list carries the hit's
/// replacement.
pub proof fn lemma_rename_covers_every_hit(refs: Seq<Span>, new_name: String, i: int)
    requires
        0 <= i < refs.len(),
    ensures
        rename_map(refs, new_name).contains_key(refs[i].file@),
        rename_map(refs, new_name)[refs[i].file@].contains(
            TextEdit { range: refs[i].range, new_text: new_name },
        ),
    decreases refs.len(),
{
    let key = refs[i].file@;
    let e = TextEdit { range: refs[i].range, new_text: new_name };
    let m = rename_map(refs.drop_last(), new_name);
    let last = refs.last();
    let le = TextEdit { range: last.range, new_text: new_name };
    if i == refs.len() - 1 {
        if m.contains_key(key) {
            assert(m[key].push(le)[m[key].len() as int] == e);
        } else {
            assert(seq![le][0] == e);
        }
    } else {
        assert(refs.drop_last()[i] == refs[i]);
        lemma_rename_covers_every_hit(refs.drop_last(), new_name, i);
        if last.file@ == key {
            let j = choose|j: int| 0 <= j < m[key].len() && m[key][j] == e;
            assert(m[key].push(le)[j] == e);
        }
    }
}

/// Reserved-name law: a rename of either reserved identifier denotes the
/// empty edit batch — no file is touched, whatever the reference search
/// found and whatever the new name is.
pub proof fn lemma_reserved_rename_empty(
    def_name: String,
    refs: Option<Seq<Span>>,
    new_name: String,
)
    requires
        spec_is_reserved(def_name@),
    ensures
        rename_map(rename_refs(Some(def_name), refs), new_name) == Map::<
            Seq<char>,
            Seq<TextEdit>,
        >::empty(),
{
}

} // verus!
