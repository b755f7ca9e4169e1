//! Turning a wildcard-style glob import into an explicit item list.
//!
//! The caller points at (or selects) a `*` in a `use` line; the analysis
//! backend knows the fully-qualified list of items the glob resolves to, and
//! the handler sends the client one replacement edit for it. Uniquely among
//! the query handlers, every failure here is reported explicitly: a missing
//! answer is never dressed up as an empty success, because the operation has
//! a single-shot, mutating effect.
//!
//! The stages, in calling order: [`Deglob::narrow_selection`] pins the
//! selection to a sole `*` (scanning the line when the selection is a bare
//! point), [`Deglob::check_glob_text`] verifies the selected text really is
//! `*` before the backend is consulted, [`Deglob::settle_resolution`] and
//! [`Deglob::settle`] judge the backend's answer and the deadline,
//! [`Deglob::render`] shapes the replacement text, and [`Deglob::edit`]
//! builds the outgoing one-edit batch.

use vstd::prelude::*;

use crate::types::ErrorKind;
use crate::types::Failure;
use crate::types::Location;
use crate::types::Range;
use crate::types::Span;
use crate::types::TextEdit;
use crate::types::WorkspaceEdit;
use crate::types::make_workspace_edit;

verus! {

/// The one character a glob import is recognised by.
pub const STAR: u8 = 42;

/// How many `*` characters a line of text holds.
pub open spec fn star_count(s: Seq<u8>) -> nat
    decreases s.len(),
{
    if s.len() == 0 {
        0
    } else {
        star_count(s.drop_last()) + (if s.last() == STAR {
            1nat
        } else {
            0nat
        })
    }
}

proof fn lemma_star_count_take_succ(s: Seq<u8>, i: int)
    requires
        0 <= i < s.len(),
    ensures
        star_count(s.take(i + 1)) == star_count(s.take(i)) + (if s[i] == STAR {
            1nat
        } else {
            0nat
        }),
{
    assert(s.take(i + 1).drop_last() =~= s.take(i));
    assert(s.take(i + 1).last() == s[i]);
}

proof fn lemma_star_count_take_le(s: Seq<u8>, i: int)
    requires
        0 <= i <= s.len(),
    ensures
        star_count(s.take(i)) <= star_count(s),
    decreases s.len() - i,
{
    if i == s.len() {
        assert(s.take(i) =~= s);
    } else {
        lemma_star_count_take_succ(s, i);
        lemma_star_count_take_le(s, i + 1);
    }
}

/// Scan a line for the one `*` the selection can be narrowed to.
///
/// Succeeds with the byte index of the `*` exactly when the line holds one;
/// zero or several are each an explicit invalid-input failure, since the
/// request cannot be disambiguated.
pub fn find_sole_star(line: &Vec<u8>) -> (r: Result<usize, Failure>)
    ensures
        r is Ok <==> star_count(line@) == 1,
        r matches Ok(i) ==> i < line@.len() && line@[i as int] == STAR && (forall|j: int|
            0 <= j < line@.len() && j != i ==> line@[j] != STAR),
        r matches Err(f) ==> f.kind == ErrorKind::InvalidParams,
        r is Err && star_count(line@) == 0 ==> r->Err_0.message@ == "No glob in selection."@,
        r is Err && star_count(line@) >= 2 ==> r->Err_0.message@
            == "Multiple globs in selection."@,
{
    let ghost s = line@;
    let mut found: Option<usize> = None;
    let mut i: usize = 0;
    while i < line.len()
        invariant
            s == line@,
            i <= s.len(),
            match found {
                Some(k) => k < i && s[k as int] == STAR && star_count(s.take(i as int)) == 1
                    && (forall|j: int| 0 <= j < i && j != k ==> s[j] != STAR),
                None => star_count(s.take(i as int)) == 0 && (forall|j: int|
                    0 <= j < i ==> s[j] != STAR),
            },
        decreases s.len() - i,
    {
        proof {
            lemma_star_count_take_succ(s, i as int);
        }
        if line[i] == STAR {
            if found.is_some() {
                proof {
                    lemma_star_count_take_le(s, i + 1);
                }
                return Err(Failure {
                    kind: ErrorKind::InvalidParams,
                    message: String::from_str("Multiple globs in selection."),
                });
            }
            found = Some(i);
        }
        i += 1;
    }
    proof {
        assert(s.take(s.len() as int) =~= s);
    }
    match found {
        Some(k) => Ok(k),
        None => Err(Failure {
            kind: ErrorKind::InvalidParams,
            message: String::from_str("No glob in selection."),
        }),
    }
}

/// Expands a wildcard import into an explicit list of the items it brings in.
pub struct Deglob;

impl Deglob {
    pub fn new() -> Deglob {
        Deglob
    }

    /// Pin the caller's selection to a single glob character.
    ///
    /// A proper selection is taken as it stands. A bare point sends the
    /// handler to the line it sits on (`line` is that line's text, `None`
    /// when the file store could not produce it): the line must hold exactly
    /// one `*`, and the selection narrows to that one character on the same
    /// row.
    pub fn narrow_selection(selection: Range, line: Option<&Vec<u8>>) -> (r: Result<
        Range,
        Failure,
    >)
        requires
            line matches Some(l) ==> l@.len() <= u32::MAX,
        ensures
            selection.wf() ==> (r matches Ok(rg) ==> rg.wf()),
            !selection.spec_is_point() ==> r == Ok::<Range, Failure>(selection),
            selection.spec_is_point() && line is None ==> (r matches Err(f)
                && f.kind == ErrorKind::InvalidParams && f.message@
                == "Could not retrieve line from VFS."@),
            selection.spec_is_point() ==> (line matches Some(l) ==> {
                &&& r is Ok <==> star_count(l@) == 1
                &&& r matches Ok(rg) ==> (rg.row_start == selection.row_start && rg.row_end
                    == selection.row_end && rg.col_start < l@.len() && l@[rg.col_start as int]
                    == STAR && rg.col_end == rg.col_start + 1 && (forall|j: int|
                    0 <= j < l@.len() && j != rg.col_start ==> l@[j] != STAR))
                &&& r matches Err(f) ==> f.kind == ErrorKind::InvalidParams
                &&& r is Err && star_count(l@) == 0 ==> r->Err_0.message@
                    == "No glob in selection."@
                &&& r is Err && star_count(l@) >= 2 ==> r->Err_0.message@
                    == "Multiple globs in selection."@
            }),
    {
        if !selection.is_point() {
            return Ok(selection);
        }
        match line {
            None => Err(Failure {
                kind: ErrorKind::InvalidParams,
                message: String::from_str("Could not retrieve line from VFS."),
            }),
            Some(l) => {
                match find_sole_star(l) {
                    Err(f) => Err(f),
                    Ok(idx) => {
                        let col = idx as u32;
                        Ok(Range {
                            row_start: selection.row_start,
                            col_start: col,
                            row_end: selection.row_end,
                            col_end: col + 1,
                        })
                    },
                }
            },
        }
    }

    /// Judge the text the narrowed selection actually covers, before the
    /// backend is asked anything: it must read exactly `*`. `None` stands
    /// for a file store that could not read the span.
    pub fn check_glob_text(text: Option<&Vec<u8>>) -> (r: Result<(), Failure>)
        ensures
            text is None ==> (r matches Err(f) && f.kind == ErrorKind::InternalError
                && f.message@ == "Couldn't open file"@),
            text matches Some(t) && t@ == seq![STAR] ==> r is Ok,
            text matches Some(t) && t@ != seq![STAR] ==> (r matches Err(f) && f.kind
                == ErrorKind::InvalidParams && f.message@ == "Not a glob"@),
    {
        match text {
            None => Err(Failure {
                kind: ErrorKind::InternalError,
                message: String::from_str("Couldn't open file"),
            }),
            Some(t) => {
                if t.len() == 1 && t[0] == STAR {
                    proof {
                        assert(t@ =~= seq![STAR]);
                    }
                    Ok(())
                } else {
                    proof {
                        if t@ == seq![STAR] {
                            assert(t@.len() == 1);
                            assert(t@[0] == STAR);
                        }
                    }
                    Err(Failure {
                        kind: ErrorKind::InvalidParams,
                        message: String::from_str("Not a glob"),
                    })
                }
            },
        }
    }

    /// Judge the backend's answer: the resolved item list if one came,
    /// an explicit internal fault otherwise.
    pub fn settle_resolution(resolved: Option<String>) -> (r: Result<String, Failure>)
        ensures
            resolved matches Some(s) ==> r == Ok::<String, Failure>(s),
            resolved is None ==> (r matches Err(f) && f.kind == ErrorKind::InternalError
                && f.message@ == "Couldn't get info from analysis"@),
    {
        match resolved {
            Some(s) => Ok(s),
            None => Err(Failure {
                kind: ErrorKind::InternalError,
                message: String::from_str("Couldn't get info from analysis"),
            }),
        }
    }

    /// Settle the outer deadline: the work's own verdict if it arrived, an
    /// explicit timeout fault otherwise — never a silent empty success.
    pub fn settle(outcome: Option<Result<String, Failure>>) -> (r: Result<String, Failure>)
        ensures
            outcome matches Some(v) ==> r == v,
            outcome is None ==> (r matches Err(f) && f.kind == ErrorKind::InternalError
                && f.message@ == "Deglob timed out"@),
    {
        match outcome {
            Some(v) => v,
            None => Err(Failure {
                kind: ErrorKind::InternalError,
                message: String::from_str("Deglob timed out"),
            }),
        }
    }

    /// Whether the resolved list names several items.
    pub open spec fn spec_has_comma(s: Seq<char>) -> bool {
        exists|i: int| 0 <= i < s.len() && s[i] == ','
    }

    /// Shape the resolved string as replacement text: a multi-item list is
    /// wrapped in braces, a single item is used unchanged.
    pub fn render(resolved: String) -> (r: String)
        ensures
            Self::spec_has_comma(resolved@) ==> r@ == seq!['{'] + resolved@ + seq!['}'],
            !Self::spec_has_comma(resolved@) ==> r == resolved,
    {
        let n = resolved.as_str().unicode_len();
        let mut has_comma = false;
        let mut i: usize = 0;
        while i < n
            invariant
                n == resolved@.len(),
                i <= n,
                has_comma == exists|j: int| 0 <= j < i && resolved@[j] == ',',
            decreases n - i,
        {
            if resolved.as_str().get_char(i) == ',' {
                has_comma = true;
            }
            i += 1;
        }
        if has_comma {
            let wrapped = String::from_str("{").concat(resolved.as_str()).concat("}");
            proof {
                reveal_strlit("{");
                reveal_strlit("}");
                assert(wrapped@ =~= seq!['{'] + resolved@ + seq!['}']);
            }
            wrapped
        } else {
            resolved
        }
    }

    /// The outgoing apply-edit request: one replacement of the selection's
    /// range with the rendered text, fired and forgotten.
    pub fn edit(span: &Span, new_text: String) -> (w: WorkspaceEdit)
        ensures
            w.changes@.len() == 1,
            w.changes@[0].0@ == span.file@,
            w.changes@[0].1@ == seq![TextEdit { range: span.range, new_text: new_text }],
            w.wf(),
    {
        make_workspace_edit(Location::from_span(span), new_text)
    }
}

} // verus!
