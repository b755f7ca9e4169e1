//! The mutating operations: rename, deglob, code actions, execute-command,
//! formatting.

use rls_dispatch::code_action::CodeAction;
use rls_dispatch::code_action::Diagnostic;
use rls_dispatch::code_action::Suggestion;
use rls_dispatch::deglob::Deglob;
use rls_dispatch::deglob::find_sole_star;
use rls_dispatch::execute_command::ExecuteCommand;
use rls_dispatch::reformat::ConfigState;
use rls_dispatch::reformat::FileLoad;
use rls_dispatch::reformat::Formatting;
use rls_dispatch::reformat::FormattingOptions;
use rls_dispatch::reformat::RangeFormatting;
use rls_dispatch::reformat::format_line_range;
use rls_dispatch::reformat::merge_options;
use rls_dispatch::reformat::prepare_input;
use rls_dispatch::reformat::settle_format;
use rls_dispatch::rename::Rename;
use rls_dispatch::types::ErrorKind;
use rls_dispatch::types::Location;
use rls_dispatch::types::Range;
use rls_dispatch::types::Span;
use rls_dispatch::types::make_workspace_edit;

fn rng(row_start: u32, col_start: u32, row_end: u32, col_end: u32) -> Range {
    Range { row_start, col_start, row_end, col_end }
}

fn span(file: &str, range: Range) -> Span {
    Span { file: file.to_string(), range }
}

#[test]
fn rename_of_reserved_self_is_an_empty_edit_set() {
    // Even with reference hits on hand, "self" renames nothing at all.
    let name = "self".to_string();
    let hits = vec![span("/ws/a.rs", rng(1, 0, 1, 4)), span("/ws/b.rs", rng(2, 0, 2, 4))];
    let refs = Rename::work(Some(&name), Some(hits));
    assert!(refs.is_empty());
    let w = Rename::edits(&refs, &"renamed".to_string());
    assert!(w.changes.is_empty());
}

#[test]
fn rename_of_reserved_upper_self_is_an_empty_edit_set() {
    let name = "Self".to_string();
    let refs = Rename::work(Some(&name), Some(vec![span("/ws/a.rs", rng(1, 0, 1, 4))]));
    assert!(refs.is_empty());
}

#[test]
fn rename_unresolved_identifier_renames_nothing() {
    let refs = Rename::work(None, Some(vec![span("/ws/a.rs", rng(1, 0, 1, 4))]));
    assert!(refs.is_empty());
}

#[test]
fn rename_groups_edits_by_file_in_hit_order() {
    let name = "widget".to_string();
    let hits = vec![
        span("/ws/a.rs", rng(1, 0, 1, 6)),
        span("/ws/b.rs", rng(2, 4, 2, 10)),
        span("/ws/a.rs", rng(5, 8, 5, 14)),
    ];
    let refs = Rename::work(Some(&name), Some(hits));
    assert_eq!(refs.len(), 3);
    let w = Rename::edits(&refs, &"gadget".to_string());
    assert_eq!(w.changes.len(), 2);
    let (file_a, edits_a) = &w.changes[0];
    assert_eq!(file_a, "/ws/a.rs");
    assert_eq!(edits_a.len(), 2);
    assert_eq!(edits_a[0].range, rng(1, 0, 1, 6));
    assert_eq!(edits_a[0].new_text, "gadget");
    assert_eq!(edits_a[1].range, rng(5, 8, 5, 14));
    let (file_b, edits_b) = &w.changes[1];
    assert_eq!(file_b, "/ws/b.rs");
    assert_eq!(edits_b.len(), 1);
    assert_eq!(edits_b[0].range, rng(2, 4, 2, 10));
}

#[test]
fn rename_timeout_settles_empty() {
    assert!(Rename::handle(None).is_empty());
}

#[test]
fn deglob_narrows_a_point_to_the_sole_star() {
    // A zero-width selection anywhere on the line finds the one `*`.
    let line: Vec<u8> = b"use foo::*;".to_vec();
    for col in [0u32, 4, 10] {
        let selection = rng(3, col, 3, col);
        let narrowed = Deglob::narrow_selection(selection, Some(&line))
            .expect("one glob on the line");
        assert_eq!(narrowed, rng(3, 9, 3, 10));
    }
}

#[test]
fn deglob_with_two_stars_is_invalid_params() {
    let line: Vec<u8> = b"use foo::*; use bar::*;".to_vec();
    let f = Deglob::narrow_selection(rng(0, 2, 0, 2), Some(&line))
        .expect_err("two globs cannot be disambiguated");
    assert_eq!(f.kind, ErrorKind::InvalidParams);
    assert_eq!(f.message, "Multiple globs in selection.");
}

#[test]
fn deglob_without_a_star_is_invalid_params() {
    let line: Vec<u8> = b"use foo::Bar;".to_vec();
    let f = find_sole_star(&line).expect_err("no glob on the line");
    assert_eq!(f.kind, ErrorKind::InvalidParams);
    assert_eq!(f.message, "No glob in selection.");
}

#[test]
fn deglob_keeps_a_proper_selection_as_it_stands() {
    let selection = rng(3, 9, 3, 10);
    let r = Deglob::narrow_selection(selection, None).expect("no narrowing needed");
    assert_eq!(r, selection);
}

#[test]
fn deglob_without_the_line_is_invalid_params() {
    let f = Deglob::narrow_selection(rng(3, 9, 3, 9), None).expect_err("no line text");
    assert_eq!(f.kind, ErrorKind::InvalidParams);
    assert_eq!(f.message, "Could not retrieve line from VFS.");
}

#[test]
fn deglob_checks_the_selected_text_is_a_star() {
    assert!(Deglob::check_glob_text(Some(&b"*".to_vec())).is_ok());
    let f = Deglob::check_glob_text(Some(&b"Bar".to_vec())).expect_err("not a glob");
    assert_eq!(f.kind, ErrorKind::InvalidParams);
    assert_eq!(f.message, "Not a glob");
    let f2 = Deglob::check_glob_text(None).expect_err("unreadable span");
    assert_eq!(f2.kind, ErrorKind::InternalError);
    assert_eq!(f2.message, "Couldn't open file");
}

#[test]
fn deglob_settles_the_backend_and_the_deadline() {
    let ok = Deglob::settle_resolution(Some("Bar".to_string())).expect("resolved");
    assert_eq!(ok, "Bar");
    let f = Deglob::settle_resolution(None).expect_err("backend fault");
    assert_eq!(f.kind, ErrorKind::InternalError);
    assert_eq!(f.message, "Couldn't get info from analysis");
    let t = Deglob::settle(None).expect_err("deadline passed");
    assert_eq!(t.kind, ErrorKind::InternalError);
    assert_eq!(t.message, "Deglob timed out");
    let through = Deglob::settle(Some(Ok("Bar".to_string()))).expect("in time");
    assert_eq!(through, "Bar");
}

#[test]
fn deglob_renders_multiple_items_in_braces() {
    assert_eq!(Deglob::render("Bar, Quux".to_string()), "{Bar, Quux}");
    assert_eq!(Deglob::render("Bar".to_string()), "Bar");
}

#[test]
fn deglob_edit_replaces_the_selection() {
    let s = span("/ws/a.rs", rng(3, 9, 3, 10));
    let w = Deglob::edit(&s, "{Bar, Quux}".to_string());
    assert_eq!(w.changes.len(), 1);
    assert_eq!(w.changes[0].0, "/ws/a.rs");
    assert_eq!(w.changes[0].1.len(), 1);
    assert_eq!(w.changes[0].1[0].range, rng(3, 9, 3, 10));
    assert_eq!(w.changes[0].1[0].new_text, "{Bar, Quux}");
}

#[test]
fn code_action_matches_ranges_exactly() {
    // One diagnostic's range differs from the request, one matches with two
    // suggestions: exactly two commands, carrying (location, text) pairs.
    let requested = rng(4, 0, 4, 7);
    let entries = vec![
        (
            Diagnostic { range: rng(1, 0, 1, 7), message: "unused import".to_string() },
            vec![Suggestion {
                label: "remove it".to_string(),
                range: rng(1, 0, 1, 7),
                new_text: String::new(),
            }],
        ),
        (
            Diagnostic { range: requested, message: "unknown name".to_string() },
            vec![
                Suggestion {
                    label: "rename to `widget`".to_string(),
                    range: rng(4, 0, 4, 7),
                    new_text: "widget".to_string(),
                },
                Suggestion {
                    label: "rename to `gadget`".to_string(),
                    range: rng(4, 0, 4, 7),
                    new_text: "gadget".to_string(),
                },
            ],
        ),
    ];
    let file = "/ws/a.rs".to_string();
    let cmds = CodeAction::handle(Some(&entries), &file, requested);
    assert_eq!(cmds.len(), 2);
    assert_eq!(cmds[0].title, "rename to `widget`");
    assert_eq!(cmds[0].command, "rls.applySuggestion");
    assert_eq!(cmds[0].location.file, "/ws/a.rs");
    assert_eq!(cmds[0].location.range, rng(4, 0, 4, 7));
    assert_eq!(cmds[0].new_text, "widget");
    assert_eq!(cmds[1].new_text, "gadget");
}

#[test]
fn code_action_without_cached_build_is_empty() {
    let file = "/ws/a.rs".to_string();
    assert!(CodeAction::handle(None, &file, rng(0, 0, 0, 1)).is_empty());
}

#[test]
fn code_action_with_no_matching_range_is_empty() {
    let entries = vec![(
        Diagnostic { range: rng(1, 0, 1, 7), message: "unused import".to_string() },
        vec![Suggestion {
            label: "remove it".to_string(),
            range: rng(1, 0, 1, 7),
            new_text: String::new(),
        }],
    )];
    let file = "/ws/a.rs".to_string();
    assert!(CodeAction::handle(Some(&entries), &file, rng(9, 0, 9, 1)).is_empty());
}

#[test]
fn execute_command_applies_a_suggestion() {
    let cmd = "rls.applySuggestion".to_string();
    let loc = Location { file: "/ws/a.rs".to_string(), range: rng(4, 0, 4, 7) };
    let w = ExecuteCommand::handle(&cmd, Some((loc, "widget".to_string())))
        .expect("supported command");
    assert_eq!(w.changes.len(), 1);
    assert_eq!(w.changes[0].0, "/ws/a.rs");
    assert_eq!(w.changes[0].1[0].new_text, "widget");
}

#[test]
fn execute_command_unknown_name_is_method_not_found() {
    let cmd = "rls.doSomethingElse".to_string();
    let f = ExecuteCommand::handle(&cmd, None).expect_err("unknown command");
    assert_eq!(f.kind, ErrorKind::MethodNotFound);
    assert_eq!(f.message, "Unknown command");
    assert!(ExecuteCommand::dispatch(&"rls.applySuggestion".to_string()).is_ok());
}

#[test]
fn workspace_edit_of_one_suggestion() {
    let loc = Location { file: "/ws/a.rs".to_string(), range: rng(4, 0, 4, 7) };
    let w = make_workspace_edit(loc, "widget".to_string());
    assert_eq!(w.changes.len(), 1);
    assert_eq!(w.changes[0].1.len(), 1);
}

#[test]
fn formatting_preferences_yield_to_explicit_configuration() {
    let opts = FormattingOptions { tab_size: 4, insert_spaces: true };
    let merged = merge_options(ConfigState { hard_tabs_set: false, tab_spaces_set: false }, &opts);
    assert_eq!(merged.hard_tabs, Some(false));
    assert_eq!(merged.tab_spaces, Some(4));
    let kept = merge_options(ConfigState { hard_tabs_set: true, tab_spaces_set: true }, &opts);
    assert_eq!(kept.hard_tabs, None);
    assert_eq!(kept.tab_spaces, None);
    let tabs = merge_options(
        ConfigState { hard_tabs_set: false, tab_spaces_set: true },
        &FormattingOptions { tab_size: 8, insert_spaces: false },
    );
    assert_eq!(tabs.hard_tabs, Some(true));
    assert_eq!(tabs.tab_spaces, None);
}

#[test]
fn range_formatting_restricts_to_one_indexed_lines() {
    assert_eq!(format_line_range(rng(2, 0, 5, 3)), (3, 6));
    assert!(Formatting::selection().is_none());
    assert_eq!(RangeFormatting::selection(rng(2, 0, 5, 3)), Some(rng(2, 0, 5, 3)));
}

#[test]
fn reformat_rejects_binary_and_unreadable_content() {
    assert_eq!(prepare_input(FileLoad::Text("fn main() {}".to_string())).unwrap(), "fn main() {}");
    let f = prepare_input(FileLoad::Binary).expect_err("binary is refused");
    assert_eq!(f.kind, ErrorKind::InternalError);
    assert_eq!(f.message, "Reformat failed to complete successfully");
    assert!(prepare_input(FileLoad::Unavailable).is_err());
}

#[test]
fn reformat_accepts_only_a_clean_formatter_run() {
    let whole = rng(0, 0, 10, 0);
    let edits = settle_format(whole, Some((true, "fn main() {}\n".to_string())))
        .expect("clean run");
    assert_eq!(edits[0].range, whole);
    assert_eq!(edits[0].new_text, "fn main() {}\n");
    // A non-error outcome that still reports internal errors is a failure.
    let f = settle_format(whole, Some((false, "partial".to_string())))
        .expect_err("errors reported");
    assert_eq!(f.kind, ErrorKind::InternalError);
    assert!(settle_format(whole, None).is_err());
}
