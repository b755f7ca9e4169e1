//! Plain models of the protocol and analysis data that the handlers work on.
//!
//! Coordinates live in a single zero-indexed space (row, column), the one the
//! analysis backend uses; the protocol's own positions are numerically equal.
//! A file is identified by its path text.

use vstd::prelude::*;

verus! {

/// A point in a file: zero-indexed row and column.
#[derive(Clone, Copy, PartialEq, Eq, Structural, Debug)]
pub struct Position {
    pub row: u32,
    pub col: u32,
}

/// A rectangle of text: start and end position, both zero-indexed.
#[derive(Clone, Copy, PartialEq, Eq, Structural, Debug)]
pub struct Range {
    pub row_start: u32,
    pub col_start: u32,
    pub row_end: u32,
    pub col_end: u32,
}

impl Range {
    /// The start must not come after the end.
    pub open spec fn wf(self) -> bool {
        self.row_start < self.row_end
            || (self.row_start == self.row_end && self.col_start <= self.col_end)
    }

    /// Whether the range selects no text at all: a single point.
    pub open spec fn spec_is_point(&self) -> bool {
        self.row_start == self.row_end && self.col_start == self.col_end
    }

    #[verifier::when_used_as_spec(spec_is_point)]
    pub fn is_point(&self) -> (r: bool)
        ensures
            r == self.spec_is_point(),
    {
        self.row_start == self.row_end && self.col_start == self.col_end
    }

    pub fn start(&self) -> (p: Position)
        ensures
            p == (Position { row: self.row_start, col: self.col_start }),
    {
        Position { row: self.row_start, col: self.col_start }
    }

    pub fn end(&self) -> (p: Position)
        ensures
            p == (Position { row: self.row_end, col: self.col_end }),
    {
        Position { row: self.row_end, col: self.col_end }
    }
}

/// The universal addressing unit handed to every analysis call: a file
/// identity plus a range within it.
#[derive(Clone, Debug)]
pub struct Span {
    pub file: String,
    pub range: Range,
}

/// A protocol location: the same data as a `Span`, addressed the way the
/// client addresses files.
#[derive(Clone, Debug)]
pub struct Location {
    pub file: String,
    pub range: Range,
}

impl Location {
    /// A span converted to the protocol's addressing; coordinates carry over
    /// unchanged.
    pub fn from_span(span: &Span) -> (loc: Location)
        ensures
            loc == (Location { file: span.file, range: span.range }),
    {
        Location { file: span.file.clone(), range: span.range }
    }
}

/// One replacement of a range of text.
#[derive(Clone, Debug)]
pub struct TextEdit {
    pub range: Range,
    pub new_text: String,
}

/// The coarse category a failure notification carries to the caller.
#[derive(Clone, Copy, PartialEq, Eq, Structural, Debug)]
pub enum ErrorKind {
    /// Malformed or out-of-scope input.
    InvalidParams,
    /// An unexpected fault surfaced to the caller.
    InternalError,
    /// An operation nobody implements.
    MethodNotFound,
}

/// An explicit failure notification: a category and a human-readable message.
#[derive(Clone, Debug)]
pub struct Failure {
    pub kind: ErrorKind,
    pub message: String,
}

/// The empty acknowledgement some operations answer with: their effect goes
/// out as a separate request, nothing rides on the response itself.
#[derive(Clone, Copy, PartialEq, Eq, Structural, Debug)]
pub struct Ack;

/// A file-keyed batch of text replacements, applied by the client atomically
/// per file. Built fully before it is handed out, never applied in part.
#[derive(Clone, Debug)]
pub struct WorkspaceEdit {
    /// One entry per file: its identity and the edits to apply there, in
    /// order. No file appears twice.
    pub changes: Vec<(String, Vec<TextEdit>)>,
}

/// Whether a batch's entries key every file at most once.
pub open spec fn distinct_files(entries: Seq<(String, Vec<TextEdit>)>) -> bool {
    forall|i: int, j: int| 0 <= i < j < entries.len() ==> entries[i].0@ != entries[j].0@
}

/// The mapping a batch's entry list denotes: each file's identity to the
/// edits listed for it (a later entry for the same file would shadow an
/// earlier one; a well-formed batch has none).
pub open spec fn edits_map_of(entries: Seq<(String, Vec<TextEdit>)>) -> Map<
    Seq<char>,
    Seq<TextEdit>,
>
    decreases entries.len(),
{
    if entries.len() == 0 {
        Map::empty()
    } else {
        edits_map_of(entries.drop_last()).insert(entries.last().0@, entries.last().1@)
    }
}

impl WorkspaceEdit {
    /// No file may be keyed twice.
    pub open spec fn wf(self) -> bool {
        distinct_files(self.changes@)
    }

    /// The batch as a mapping from file identity to its edit list.
    pub open spec fn as_map(self) -> Map<Seq<char>, Seq<TextEdit>> {
        edits_map_of(self.changes@)
    }
}

/// A key is in the denoted mapping exactly when some entry carries it.
pub proof fn lemma_edits_map_contains(entries: Seq<(String, Vec<TextEdit>)>, key: Seq<char>)
    ensures
        edits_map_of(entries).contains_key(key) <==> exists|i: int|
            0 <= i < entries.len() && entries[i].0@ == key,
    decreases entries.len(),
{
    if entries.len() > 0 {
        lemma_edits_map_contains(entries.drop_last(), key);
        if entries.last().0@ == key {
            assert(entries[entries.len() - 1].0@ == key);
        } else {
            assert(forall|i: int|
                0 <= i < entries.len() - 1 ==> entries.drop_last()[i] == entries[i]);
            if exists|i: int| 0 <= i < entries.len() && entries[i].0@ == key {
                let i = choose|i: int| 0 <= i < entries.len() && entries[i].0@ == key;
                assert(entries.drop_last()[i].0@ == key);
            }
        }
    }
}

/// In a well-formed entry list, the mapping sends each entry's key to that
/// entry's edits.
pub proof fn lemma_edits_map_index(entries: Seq<(String, Vec<TextEdit>)>, i: int)
    requires
        distinct_files(entries),
        0 <= i < entries.len(),
    ensures
        edits_map_of(entries).contains_key(entries[i].0@),
        edits_map_of(entries)[entries[i].0@] == entries[i].1@,
    decreases entries.len(),
{
    if i < entries.len() - 1 {
        assert(forall|k: int| 0 <= k < entries.len() - 1 ==> entries.drop_last()[k] == entries[k]);
        lemma_edits_map_index(entries.drop_last(), i);
        assert(entries.last().0@ != entries[i].0@);
    }
}

/// Replacing one entry's edits, under the same key, replaces that key's
/// edits in the denoted mapping and nothing else.
pub proof fn lemma_edits_map_update(
    entries: Seq<(String, Vec<TextEdit>)>,
    i: int,
    p: (String, Vec<TextEdit>),
)
    requires
        distinct_files(entries),
        0 <= i < entries.len(),
        p.0@ == entries[i].0@,
    ensures
        edits_map_of(entries.update(i, p)) == edits_map_of(entries).insert(entries[i].0@, p.1@),
    decreases entries.len(),
{
    let key = entries[i].0@;
    if i == entries.len() - 1 {
        assert(entries.update(i, p).drop_last() =~= entries.drop_last());
        assert(entries.update(i, p).last() == p);
        assert(edits_map_of(entries.drop_last()).insert(key, p.1@) =~= edits_map_of(
            entries.drop_last(),
        ).insert(key, entries.last().1@).insert(key, p.1@));
    } else {
        assert(forall|k: int| 0 <= k < entries.len() - 1 ==> entries.drop_last()[k] == entries[k]);
        lemma_edits_map_update(entries.drop_last(), i, p);
        assert(entries.update(i, p).drop_last() =~= entries.drop_last().update(i, p));
        assert(entries.update(i, p).last() == entries.last());
        assert(entries.last().0@ != key);
        assert(edits_map_of(entries.drop_last()).insert(key, p.1@).insert(
            entries.last().0@,
            entries.last().1@,
        ) =~= edits_map_of(entries.drop_last()).insert(entries.last().0@, entries.last().1@).insert(
            key,
            p.1@,
        ));
    }
}

/// Appending an entry inserts its key into the denoted mapping.
pub proof fn lemma_edits_map_push(
    entries: Seq<(String, Vec<TextEdit>)>,
    p: (String, Vec<TextEdit>),
)
    ensures
        edits_map_of(entries.push(p)) == edits_map_of(entries).insert(p.0@, p.1@),
{
    assert(entries.push(p).drop_last() =~= entries);
    assert(entries.push(p).last() == p);
}

/// The one-edit batch both the deglob and the apply-suggestion operations
/// send out: replace the located range with the given text.
pub fn make_workspace_edit(location: Location, new_text: String) -> (w: WorkspaceEdit)
    ensures
        w.changes@.len() == 1,
        w.changes@[0].0 == location.file,
        w.changes@[0].1@ == seq![TextEdit { range: location.range, new_text: new_text }],
        w.wf(),
{
    let edit = TextEdit { range: location.range, new_text };
    let mut edits: Vec<TextEdit> = Vec::new();
    edits.push(edit);
    let mut changes: Vec<(String, Vec<TextEdit>)> = Vec::new();
    changes.push((location.file, edits));
    let w = WorkspaceEdit { changes };
    proof {
        assert(w.changes@[0].1@ =~= seq![
            TextEdit { range: location.range, new_text: new_text },
        ]);
    }
    w
}

} // verus!
