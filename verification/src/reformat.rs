//! Pretty-printing a document, whole or within a line range.
//!
//! Formatting runs synchronously — it is bounded by input size, so no thread
//! offload and no deadline. The handler loads the file from the virtual file
//! store (binary content is rejected explicitly), merges the client's
//! indentation preferences into the formatter's configuration only where the
//! configuration set nothing itself, narrows the formatter to the requested
//! lines for range formatting, and accepts the formatter's text only when it
//! reports no internal errors: a formatter that "succeeded with errors" is a
//! handler failure, not a partial success.

use vstd::prelude::*;

use crate::types::ErrorKind;
use crate::types::Failure;
use crate::types::Range;
use crate::types::TextEdit;

verus! {

/// The client's indentation preferences, sent with every formatting request.
#[derive(Clone, Copy, PartialEq, Eq, Structural, Debug)]
pub struct FormattingOptions {
    pub tab_size: u32,
    pub insert_spaces: bool,
}

/// What the formatter's configuration already pins down of its own accord:
/// whether each indentation setting was set explicitly.
#[derive(Clone, Copy, PartialEq, Eq, Structural, Debug)]
pub struct ConfigState {
    pub hard_tabs_set: bool,
    pub tab_spaces_set: bool,
}

/// The settings to write into the formatter's configuration for one request:
/// `None` leaves a setting alone.
#[derive(Clone, Copy, PartialEq, Eq, Structural, Debug)]
pub struct ConfigOverrides {
    pub hard_tabs: Option<bool>,
    pub tab_spaces: Option<usize>,
}

/// What the virtual file store produced for the document.
#[derive(Clone, Debug)]
pub enum FileLoad {
    /// Text content, ready to format.
    Text(String),
    /// Binary content: formatting is refused explicitly.
    Binary,
    /// The store could not read the file.
    Unavailable,
}

/// The failure every formatting error path reports.
pub open spec fn spec_reformat_failure(f: Failure) -> bool {
    f.kind == ErrorKind::InternalError && f.message@
        == "Reformat failed to complete successfully"@
}

fn reformat_failure() -> (f: Failure)
    ensures
        spec_reformat_failure(f),
{
    Failure {
        kind: ErrorKind::InternalError,
        message: String::from_str("Reformat failed to complete successfully"),
    }
}

/// Merge the client's preferences into the configuration: an explicit
/// configuration setting always wins, an unset one takes the preference
/// (hard tabs are the complement of "insert spaces").
pub fn merge_options(state: ConfigState, opts: &FormattingOptions) -> (r: ConfigOverrides)
    ensures
        r.hard_tabs == (if state.hard_tabs_set {
            None::<bool>
        } else {
            Some(!opts.insert_spaces)
        }),
        r.tab_spaces == (if state.tab_spaces_set {
            None::<usize>
        } else {
            Some(opts.tab_size as usize)
        }),
{
    ConfigOverrides {
        hard_tabs: if state.hard_tabs_set {
            None
        } else {
            Some(!opts.insert_spaces)
        },
        tab_spaces: if state.tab_spaces_set {
            None
        } else {
            Some(opts.tab_size as usize)
        },
    }
}

/// The one-indexed line range a selection restricts the formatter to.
pub fn format_line_range(selection: Range) -> (r: (usize, usize))
    requires
        selection.row_start < u32::MAX,
        selection.row_end < u32::MAX,
    ensures
        r.0 == selection.row_start + 1,
        r.1 == selection.row_end + 1,
{
    ((selection.row_start as usize) + 1, (selection.row_end as usize) + 1)
}

/// Judge the loaded document: only text content may reach the formatter.
pub fn prepare_input(load: FileLoad) -> (r: Result<String, Failure>)
    ensures
        load matches FileLoad::Text(s) ==> r == Ok::<String, Failure>(s),
        !(load is Text) ==> (r matches Err(f) && spec_reformat_failure(f)),
{
    match load {
        FileLoad::Text(s) => Ok(s),
        _ => Err(reformat_failure()),
    }
}

/// Judge the formatter's outcome. `outcome` is `None` when the formatter
/// returned an outright error; otherwise it carries whether the run reported
/// no internal errors, and the formatted text. Only a clean run answers,
/// with one edit replacing the whole file.
pub fn settle_format(whole_file: Range, outcome: Option<(bool, String)>) -> (r: Result<
    [TextEdit; 1],
    Failure,
>)
    ensures
        outcome matches Some(v) ==> (v.0 ==> (r matches Ok(edits) && edits@.len() == 1 && edits@[0]
            == (TextEdit { range: whole_file, new_text: v.1 }))),
        !(outcome matches Some(v) && v.0) ==> (r matches Err(f) && spec_reformat_failure(f)),
{
    match outcome {
        Some((no_errors, text)) => {
            if no_errors {
                Ok([TextEdit { range: whole_file, new_text: text }])
            } else {
                Err(reformat_failure())
            }
        },
        None => Err(reformat_failure()),
    }
}

/// Pretty-prints the whole document.
pub struct Formatting;

impl Formatting {
    pub fn new() -> Formatting {
        Formatting
    }

    /// Whole-document formatting restricts the formatter to no line range.
    pub fn selection() -> (r: Option<Range>)
        ensures
            r is None,
    {
        None
    }
}

/// Pretty-prints the document within one range.
pub struct RangeFormatting;

impl RangeFormatting {
    pub fn new() -> RangeFormatting {
        RangeFormatting
    }

    /// Range formatting restricts the formatter to the requested range.
    pub fn selection(range: Range) -> (r: Option<Range>)
        ensures
            r == Some(range),
    {
        Some(range)
    }
}

} // verus!
