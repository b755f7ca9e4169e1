//! The protocol edge: URL resolution, the executor's settling rule, and the
//! core geometry.

use rls_dispatch::COMPILER_TIMEOUT;
use rls_dispatch::executor::settle_or;
use rls_dispatch::types::ErrorKind;
use rls_dispatch::types::Position;
use rls_dispatch::types::Range;
use rls_dispatch::uri::parse_file_path;
use url::Url;

#[test]
fn file_urls_resolve_to_their_paths() {
    let uri = Url::parse("file:///ws/src/lib.rs").expect("well-formed URL");
    let path = parse_file_path(&uri).expect("a file URL");
    assert_eq!(path, "/ws/src/lib.rs");
}

#[test]
fn non_file_urls_are_invalid_params() {
    let uri = Url::parse("https://docs.example/widget").expect("well-formed URL");
    let f = parse_file_path(&uri).expect_err("not a file URL");
    assert_eq!(f.kind, ErrorKind::InvalidParams);
    assert_eq!(f.message, "Only file URIs are supported");
}

#[test]
fn missing_results_settle_to_the_neutral_value() {
    assert_eq!(settle_or(None, 7u64), 7);
    assert_eq!(settle_or(Some(3u64), 7u64), 3);
    let neutral: Vec<u32> = Vec::new();
    assert!(settle_or(None, neutral).is_empty());
}

#[test]
fn the_deadline_is_the_fixed_process_wide_budget() {
    assert_eq!(COMPILER_TIMEOUT, 1500);
}

#[test]
fn ranges_know_their_points_and_ends() {
    let point = Range { row_start: 3, col_start: 9, row_end: 3, col_end: 9 };
    assert!(point.is_point());
    let proper = Range { row_start: 3, col_start: 9, row_end: 3, col_end: 10 };
    assert!(!proper.is_point());
    assert_eq!(proper.start(), Position { row: 3, col: 9 });
    assert_eq!(proper.end(), Position { row: 3, col: 10 });
}
