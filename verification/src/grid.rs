use vstd::prelude::*;

verus! {

/// Number of columns in the playfield; valid columns are `0 .. COLS`.
pub const COLS: i32 = 20;

/// Number of rows inside the arena; the floor row is `0` and the row just
/// below the top edge is `ROWS - 1`.
pub const ROWS: i32 = 20;

/// Column of the spawn origin: the horizontal centre of the arena.
pub const SPAWN_COL: i32 = 10;

/// Row of the spawn origin: one cell below the top edge of the arena.
pub const SPAWN_ROW: i32 = 19;

/// Highest row an active cell ever occupies: a shape extends at most three
/// cells above its spawn origin, and no transition raises a cell above
/// where it spawned.
pub const CEILING_ROW: i32 = SPAWN_ROW + 3;

/// Number of piece kinds, and of the positional colors that go with them.
pub const KIND_COUNT: u8 = 7;

/// An integer grid coordinate: one unit per cell, column first.
#[derive(Clone, Copy, PartialEq, Eq, Structural, Debug)]
pub struct Coord {
    pub col: i32,
    pub row: i32,
}

/// A cell of the playfield: a grid position and one of the seven
/// positional colors, kept as an index below `KIND_COUNT`.
#[derive(Clone, Copy, PartialEq, Eq, Structural, Debug)]
pub struct Cell {
    pub pos: Coord,
    pub color: u8,
}

/// The mathematical view of a coordinate: a pair of unbounded integers.
pub open spec fn pt(c: Coord) -> (int, int) {
    (c.col as int, c.row as int)
}

/// A point an active or settled cell may occupy: inside the columns, at or
/// above the floor, and no higher than the ceiling row.
pub open spec fn valid_point(p: (int, int)) -> bool {
    &&& 0 <= p.0 < COLS as int
    &&& 0 <= p.1 <= CEILING_ROW as int
}

/// The points of a point sequence shifted by a fixed column and row offset.
pub open spec fn shift_points(ps: Seq<(int, int)>, dc: int, dr: int) -> Seq<(int, int)> {
    Seq::new(ps.len(), |i: int| (ps[i].0 + dc, ps[i].1 + dr))
}

} // verus!
