//! Symbol queries: across the workspace and within one document.
//!
//! Both handlers submit one analysis lookup and map the returned definitions
//! into the protocol's symbol records. A lookup that failed or missed the
//! deadline settles to an empty list.

use vstd::prelude::*;

use crate::types::Location;
use crate::types::Span;

verus! {

/// The kind a symbol record advertises to the client.
#[derive(Clone, Copy, PartialEq, Eq, Structural, Debug)]
pub enum SymbolKind {
    File,
    Module,
    Namespace,
    Package,
    Class,
    Method,
    Property,
    Field,
    Constructor,
    Enum,
    Interface,
    Function,
    Variable,
    Constant,
    Text,
    Number,
    Boolean,
    Array,
}

/// What the analysis backend reports of one definition, as the handlers read
/// it: its name, its kind already mapped to the protocol's vocabulary, where
/// it stands, and — for workspace queries — its resolved parent's name.
#[derive(Clone, Debug)]
pub struct DefInfo {
    pub name: String,
    pub kind: SymbolKind,
    pub span: Span,
    pub parent_name: Option<String>,
}

/// One symbol record of the response.
#[derive(Clone, Debug)]
pub struct SymbolInformation {
    pub name: String,
    pub kind: SymbolKind,
    pub location: Location,
    pub container_name: Option<String>,
}

/// Whether a record list presents exactly the given definitions, in order.
/// Workspace queries carry each definition's parent name as its container;
/// document queries carry none.
pub open spec fn symbols_match(
    records: Seq<SymbolInformation>,
    defs: Seq<DefInfo>,
    with_container: bool,
) -> bool {
    &&& records.len() == defs.len()
    &&& forall|k: int|
        0 <= k < defs.len() ==> (#[trigger] records[k]).name == defs[k].name && records[k].kind
            == defs[k].kind && records[k].location.file == defs[k].span.file
            && records[k].location.range == defs[k].span.range && records[k].container_name == (
        if with_container {
            defs[k].parent_name
        } else {
            None::<String>
        })
}

fn map_defs(defs: &Vec<DefInfo>, with_container: bool) -> (r: Vec<SymbolInformation>)
    ensures
        symbols_match(r@, defs@, with_container),
{
    let mut records: Vec<SymbolInformation> = Vec::new();
    let mut i: usize = 0;
    while i < defs.len()
        invariant
            i <= defs@.len(),
            symbols_match(records@, defs@.take(i as int), with_container),
        decreases defs@.len() - i,
    {
        let d = &defs[i];
        let container = if with_container {
            match &d.parent_name {
                Some(n) => Some(n.clone()),
                None => None,
            }
        } else {
            None
        };
        records.push(
            SymbolInformation {
                name: d.name.clone(),
                kind: d.kind,
                location: Location { file: d.span.file.clone(), range: d.span.range },
                container_name: container,
            },
        );
        i += 1;
    }
    proof {
        assert(defs@.take(defs@.len() as int) =~= defs@);
    }
    records
}

/// Asks for every symbol of the workspace matching a query.
pub struct WorkspaceSymbol;

impl WorkspaceSymbol {
    pub fn new() -> WorkspaceSymbol {
        WorkspaceSymbol
    }

    /// The work a workspace-symbol query submits, once the backend has named
    /// the definitions (a failed lookup reports none) and each parent was
    /// resolved: one record per definition, its container the parent's name.
    pub fn work(defs: &Vec<DefInfo>) -> (r: Vec<SymbolInformation>)
        ensures
            symbols_match(r@, defs@, true),
    {
        map_defs(defs, true)
    }

    /// Settle the deadline: records that never arrived are an empty list.
    pub fn handle(outcome: Option<Vec<SymbolInformation>>) -> (r: Vec<SymbolInformation>)
        ensures
            outcome matches Some(v) ==> r == v,
            outcome is None ==> r@ == Seq::<SymbolInformation>::empty(),
    {
        match outcome {
            Some(v) => v,
            None => Vec::new(),
        }
    }
}

/// Asks for the flat list of symbols in one document.
pub struct Symbols;

impl Symbols {
    pub fn new() -> Symbols {
        Symbols
    }

    /// The work a document-symbol query submits: one record per reported
    /// symbol, with no container resolution.
    pub fn work(defs: &Vec<DefInfo>) -> (r: Vec<SymbolInformation>)
        ensures
            symbols_match(r@, defs@, false),
    {
        map_defs(defs, false)
    }

    /// Settle the deadline: records that never arrived are an empty list.
    pub fn handle(outcome: Option<Vec<SymbolInformation>>) -> (r: Vec<SymbolInformation>)
        ensures
            outcome matches Some(v) ==> r == v,
            outcome is None ==> r@ == Seq::<SymbolInformation>::empty(),
    {
        match outcome {
            Some(v) => v,
            None => Vec::new(),
        }
    }
}

} // verus!
