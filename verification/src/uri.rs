//! Resolving a request's document URL to a file identity.
//!
//! The protocol addresses documents by URL; the analysis backend and the
//! file store address them by local file path. Every handler resolves the
//! URL first and refuses anything that does not denote a local file, as an
//! explicit invalid-input failure.

use vstd::prelude::*;

use crate::types::ErrorKind;
use crate::types::Failure;

verus! {

#[verifier::external_type_specification]
#[verifier::external_body]
pub struct ExUrl(url::Url);

/// Relies on url::Url::to_file_path, which yields the local path a
/// file-scheme URL denotes and refuses every other URL, and on
/// std::path::Path::to_str for the path's text. What the path is depends on
/// the URL's inside, which this crate does not model, so nothing is claimed
/// of the text that comes back.
#[verifier::external_body]
fn file_path_of_url(uri: &url::Url) -> (r: Option<String>) {
    match uri.to_file_path() {
        Ok(p) => p.to_str().map(|s| String::from(s)),
        Err(()) => None,
    }
}

/// The file identity a request's document URL denotes. A URL that does not
/// name a local file is refused explicitly: for these operations a wrong
/// document would make any answer misleading.
pub fn parse_file_path(uri: &url::Url) -> (r: Result<String, Failure>)
    ensures
        r matches Err(f) ==> f.kind == ErrorKind::InvalidParams && f.message@
            == "Only file URIs are supported"@,
{
    match file_path_of_url(uri) {
        Some(p) => Ok(p),
        None => Err(Failure {
            kind: ErrorKind::InvalidParams,
            message: String::from_str("Only file URIs are supported"),
        }),
    }
}

} // verus!
