//! Workspace commands the client hands back to the server.
//!
//! These are not shell commands: the one supported command applies a cached
//! suggestion — it rebuilds the (location, replacement text) pair the code
//! action carried into a one-edit workspace edit and fires it at the client
//! as an outgoing apply-edit request, acknowledging with nothing. An unknown
//! command name is an explicit method-not-found failure.

use vstd::prelude::*;

use crate::types::ErrorKind;
use crate::types::Failure;
use crate::types::Location;
use crate::types::TextEdit;
use crate::types::WorkspaceEdit;
use crate::types::make_workspace_edit;

verus! {

/// Executes a command within the workspace.
pub struct ExecuteCommand;

impl ExecuteCommand {
    pub fn new() -> ExecuteCommand {
        ExecuteCommand
    }

    /// Dispatch on the command name: the apply-suggestion command is the one
    /// operation anybody implements.
    pub fn dispatch(command: &String) -> (r: Result<(), Failure>)
        ensures
            r is Ok <==> command@ == "rls.applySuggestion"@,
            r matches Err(f) ==> f.kind == ErrorKind::MethodNotFound && f.message@
                == "Unknown command"@,
    {
        let known = String::from_str("rls.applySuggestion");
        if *command == known {
            Ok(())
        } else {
            Err(Failure {
                kind: ErrorKind::MethodNotFound,
                message: String::from_str("Unknown command"),
            })
        }
    }

    /// Apply one suggestion: the outgoing one-edit batch replacing the
    /// carried location with the carried text.
    pub fn apply_suggestion(location: Location, new_text: String) -> (w: WorkspaceEdit)
        ensures
            w.wf(),
            w.changes@.len() == 1,
            w.changes@[0].0 == location.file,
            w.changes@[0].1@ == seq![TextEdit { range: location.range, new_text: new_text }],
    {
        make_workspace_edit(location, new_text)
    }

    /// Handle one execute-command request, its arguments already decoded
    /// into the (location, replacement text) pair the apply-suggestion
    /// command carries. The caller must have decoded the arguments whenever
    /// it passes the supported command's name.
    pub fn handle(command: &String, args: Option<(Location, String)>) -> (r: Result<
        WorkspaceEdit,
        Failure,
    >)
        requires
            command@ == "rls.applySuggestion"@ ==> args is Some,
        ensures
            command@ == "rls.applySuggestion"@ ==> (args matches Some(a) && r matches Ok(w)
                && w.wf() && w.changes@.len() == 1 && w.changes@[0].0 == a.0.file
                && w.changes@[0].1@ == seq![TextEdit { range: a.0.range, new_text: a.1 }]),
            command@ != "rls.applySuggestion"@ ==> (r matches Err(f) && f.kind
                == ErrorKind::MethodNotFound && f.message@ == "Unknown command"@),
    {
        match Self::dispatch(command) {
            Ok(()) => {
                let (location, new_text) = match args {
                    Some(a) => a,
                    None => {
                        proof {
                            assert(false);
                        }
                        unreached()
                    },
                };
                Ok(Self::apply_suggestion(location, new_text))
            },
            Err(f) => Err(f),
        }
    }
}

} // verus!
