//! Request-dispatch core of a language-intelligence service.
//!
//! Each supported query (symbol search, hover, go-to-definition, references,
//! rename, completion, document highlight, deglob, formatting, code action,
//! execute command) is handled by composing a deadline-bounded executor with
//! operation-specific result shaping. This crate holds the decision and
//! aggregation logic of every handler, stated and proved over plain models of
//! the protocol data; the surrounding process (worker threads, file store,
//! transport) hands it plain values and takes plain values back.

use vstd::prelude::*;

pub mod code_action;
pub mod completion;
pub mod coords;
pub mod deglob;
pub mod execute_command;
pub mod executor;
pub mod fallback;
pub mod find_impls;
pub mod hover;
pub mod references;
pub mod reformat;
pub mod rename;
pub mod symbols;
pub mod types;
pub mod uri;

verus! {

/// Wall-clock budget, in milliseconds, that a handler waits on the completion
/// channel of a submitted unit of work before settling for its neutral result.
pub const COMPILER_TIMEOUT: u64 = 1500;

} // verus!
