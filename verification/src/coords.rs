//! The heuristic backend's coordinate space, and conversions to and from it.
//!
//! The dispatch core addresses text with zero-indexed rows and columns; the
//! heuristic completion/definition backend speaks one-indexed lines with
//! zero-indexed columns. These conversions are exact and lose nothing within
//! the bounds the protocol can express.

use vstd::prelude::*;

use crate::types::Location;
use crate::types::Position;
use crate::types::Range;

verus! {

/// A point in the heuristic backend's space: one-indexed line, zero-indexed
/// column.
#[derive(Clone, Copy, PartialEq, Eq, Structural, Debug)]
pub struct Coordinate {
    pub line: usize,
    pub column: usize,
}

/// One answer of the heuristic backend: the matched name, the text around
/// it, and where it was found (a match may come without coordinates).
#[derive(Clone, Debug)]
pub struct HeuristicMatch {
    pub name: String,
    pub context: String,
    pub filepath: String,
    pub coords: Option<Coordinate>,
}

/// Where the heuristic backend addresses a zero-indexed position.
pub open spec fn spec_coord_of(pos: Position) -> Coordinate {
    Coordinate { line: (pos.row + 1) as usize, column: pos.col as usize }
}

/// Where a heuristic coordinate falls in the zero-indexed space.
pub open spec fn spec_position_of(c: Coordinate) -> Position {
    Position { row: (c.line - 1) as u32, col: c.column as u32 }
}

/// A zero-indexed position, as the heuristic backend addresses it.
pub fn coord_of_position(pos: Position) -> (c: Coordinate)
    requires
        pos.row < u32::MAX,
    ensures
        c == spec_coord_of(pos),
        c.line == pos.row + 1,
        c.column == pos.col,
{
    Coordinate { line: (pos.row as usize) + 1, column: pos.col as usize }
}

/// A heuristic coordinate, back in the zero-indexed space.
pub fn position_of_coord(c: Coordinate) -> (p: Position)
    requires
        1 <= c.line,
        c.line - 1 <= u32::MAX,
        c.column <= u32::MAX,
    ensures
        p == spec_position_of(c),
        p.row == c.line - 1,
        p.col == c.column,
{
    Position { row: ((c.line - 1) as u32), col: (c.column as u32) }
}

/// The zero-width protocol location a heuristic match converts to: the
/// match's file, at its coordinates brought back to the zero-indexed space.
/// A match without coordinates converts to nothing.
pub fn location_of_match(m: &HeuristicMatch) -> (r: Option<Location>)
    requires
        m.coords matches Some(c) ==> 1 <= c.line && c.line - 1 <= u32::MAX && c.column <= u32::MAX,
    ensures
        m.coords is None ==> r is None,
        m.coords matches Some(c) ==> (r matches Some(loc) && loc.file == m.filepath && loc.range
            == (Range {
            row_start: (c.line - 1) as u32,
            col_start: c.column as u32,
            row_end: (c.line - 1) as u32,
            col_end: c.column as u32,
        })),
{
    match m.coords {
        None => None,
        Some(c) => {
            let p = position_of_coord(c);
            Some(
                Location {
                    file: m.filepath.clone(),
                    range: Range {
                        row_start: p.row,
                        col_start: p.col,
                        row_end: p.row,
                        col_end: p.col,
                    },
                },
            )
        },
    }
}

/// Round-trip law: a position survives the trip into the heuristic space and
/// back unchanged, and an expressible heuristic coordinate survives the
/// reverse trip.
pub proof fn lemma_coord_round_trip(pos: Position, c: Coordinate)
    requires
        pos.row < u32::MAX,
        1 <= c.line,
        c.line - 1 < u32::MAX,
        c.column <= u32::MAX,
    ensures
        spec_position_of(spec_coord_of(pos)) == pos,
        spec_coord_of(spec_position_of(c)) == c,
{
}

} // verus!
