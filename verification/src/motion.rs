use vstd::prelude::*;

verus! {

use crate::board::{Board, occupied, points_clear};
use crate::grid::{CEILING_ROW, COLS, Cell, Coord, valid_point};
use crate::piece::ActivePiece;

/// Whether every point has a column left of it inside the arena and no
/// settled cell directly to its left.
pub open spec fn left_clear(bs: Seq<Cell>, ps: Seq<(int, int)>) -> bool {
    forall|i: int|
        0 <= i < ps.len() ==> (#[trigger] ps[i]).0 != 0 && !occupied(bs, (ps[i].0 - 1, ps[i].1))
}

/// Whether every point has a column right of it inside the arena and no
/// settled cell directly to its right.
pub open spec fn right_clear(bs: Seq<Cell>, ps: Seq<(int, int)>) -> bool {
    forall|i: int|
        0 <= i < ps.len() ==> (#[trigger] ps[i]).0 != COLS as int - 1 && !occupied(
            bs,
            (ps[i].0 + 1, ps[i].1),
        )
}

/// Whether every point is above the floor with no settled cell directly
/// below it.
pub open spec fn below_clear(bs: Seq<Cell>, ps: Seq<(int, int)>) -> bool {
    forall|i: int|
        0 <= i < ps.len() ==> (#[trigger] ps[i]).1 != 0 && !occupied(bs, (ps[i].0, ps[i].1 - 1))
}

/// A point rotated a quarter turn counter-clockwise about a pivot point.
pub open spec fn rotate_point(p: (int, int), v: (int, int)) -> (int, int) {
    (v.0 - (p.1 - v.1), v.1 + (p.0 - v.0))
}

/// The points of a piece rotated about its first point, the pivot.
pub open spec fn rotate_points(ps: Seq<(int, int)>) -> Seq<(int, int)> {
    Seq::new(ps.len(), |i: int| rotate_point(ps[i], ps[0]))
}

/// Whether the quarter turn about the pivot lands every cell on a valid,
/// unoccupied point.
pub open spec fn rotation_fits(bs: Seq<Cell>, ps: Seq<(int, int)>) -> bool {
    forall|i: int|
        0 <= i < ps.len() ==> valid_point(#[trigger] rotate_points(ps)[i]) && !occupied(
            bs,
            rotate_points(ps)[i],
        )
}

/// Whether the active piece may move one column left: false as soon as one
/// of its cells sits on the leftmost column or has a settled cell at the
/// same row one column to its left.
pub fn can_move_left(board: &Board, piece: &ActivePiece) -> (r: bool)
    requires
        piece.wf(),
    ensures
        r == left_clear(board.cells@, piece.points()),
{
    let mut i: usize = 0;
    while i < piece.cells.len()
        invariant
            piece.wf(),
            i <= 4,
            forall|j: int|
                0 <= j < i ==> (#[trigger] piece.points()[j]).0 != 0 && !occupied(
                    board.cells@,
                    (piece.points()[j].0 - 1, piece.points()[j].1),
                ),
        decreases piece.cells@.len() - i,
    {
        let c = piece.cells[i];
        proof {
            assert(valid_point(piece.points()[i as int]));
        }
        if c.col == 0 {
            return false;
        }
        if board.is_occupied(Coord { col: c.col - 1, row: c.row }) {
            return false;
        }
        i = i + 1;
    }
    true
}

/// Whether the active piece may move one column right: false as soon as one
/// of its cells sits on the rightmost column or has a settled cell at the
/// same row one column to its right.
pub fn can_move_right(board: &Board, piece: &ActivePiece) -> (r: bool)
    requires
        piece.wf(),
    ensures
        r == right_clear(board.cells@, piece.points()),
{
    let mut i: usize = 0;
    while i < piece.cells.len()
        invariant
            piece.wf(),
            i <= 4,
            forall|j: int|
                0 <= j < i ==> (#[trigger] piece.points()[j]).0 != COLS as int - 1 && !occupied(
                    board.cells@,
                    (piece.points()[j].0 + 1, piece.points()[j].1),
                ),
        decreases piece.cells@.len() - i,
    {
        let c = piece.cells[i];
        proof {
            assert(valid_point(piece.points()[i as int]));
        }
        if c.col == COLS - 1 {
            return false;
        }
        if board.is_occupied(Coord { col: c.col + 1, row: c.row }) {
            return false;
        }
        i = i + 1;
    }
    true
}

/// Whether the active piece may fall one row: false as soon as one of its
/// cells sits on the floor row or directly above a settled cell.
pub fn can_fall(board: &Board, piece: &ActivePiece) -> (r: bool)
    requires
        piece.wf(),
    ensures
        r == below_clear(board.cells@, piece.points()),
{
    let mut i: usize = 0;
    while i < piece.cells.len()
        invariant
            piece.wf(),
            i <= 4,
            forall|j: int|
                0 <= j < i ==> (#[trigger] piece.points()[j]).1 != 0 && !occupied(
                    board.cells@,
                    (piece.points()[j].0, piece.points()[j].1 - 1),
                ),
        decreases piece.cells@.len() - i,
    {
        let c = piece.cells[i];
        proof {
            assert(valid_point(piece.points()[i as int]));
        }
        if c.row == 0 {
            return false;
        }
        if board.is_occupied(Coord { col: c.col, row: c.row - 1 }) {
            return false;
        }
        i = i + 1;
    }
    true
}

/// Rotates the piece a quarter turn counter-clockwise about its pivot cell
/// if every rotated cell lands on a valid, unoccupied point, and leaves it
/// unchanged otherwise. Rotation is validated on purpose: a turn that would
/// leave the arena or overlap a settled cell is rejected whole, so no
/// transition ever breaks the boundary or no-overlap invariants.
pub fn try_rotate(board: &Board, piece: &mut ActivePiece) -> (r: bool)
    requires
        old(piece).wf(),
    ensures
        r == rotation_fits(board.cells@, old(piece).points()),
        r ==> final(piece).points() == rotate_points(old(piece).points()),
        !r ==> *final(piece) == *old(piece),
        final(piece).color == old(piece).color,
        final(piece).wf(),
        r ==> points_clear(board.cells@, final(piece).points()),
{
    let pv = piece.cells[0];
    proof {
        assert(valid_point(old(piece).points()[0]));
    }
    let mut rotated: Vec<Coord> = Vec::new();
    let mut i: usize = 0;
    while i < piece.cells.len()
        invariant
            *piece == *old(piece),
            piece.wf(),
            i <= 4,
            pv == piece.cells@[0],
            rotated@.len() == i,
            forall|j: int|
                0 <= j < i ==> crate::grid::pt(#[trigger] rotated@[j]) == rotate_points(
                    piece.points(),
                )[j],
            forall|j: int|
                0 <= j < i ==> valid_point(#[trigger] rotate_points(piece.points())[j])
                    && !occupied(board.cells@, rotate_points(piece.points())[j]),
        decreases piece.cells@.len() - i,
    {
        let c = piece.cells[i];
        proof {
            assert(valid_point(piece.points()[i as int]));
            assert(valid_point(piece.points()[0]));
        }
        let rc = Coord { col: pv.col - (c.row - pv.row), row: pv.row + (c.col - pv.col) };
        proof {
            assert(crate::grid::pt(rc) == rotate_points(piece.points())[i as int]);
        }
        if rc.col < 0 || rc.col >= COLS || rc.row < 0 || rc.row > CEILING_ROW {
            return false;
        }
        if board.is_occupied(rc) {
            return false;
        }
        rotated.push(rc);
        i = i + 1;
    }
    let ghost ops = piece.points();
    piece.cells = rotated;
    proof {
        assert(piece.points() =~= rotate_points(ops));
        assert forall|a: int, b: int| 0 <= a < b < 4 implies piece.points()[a]
            != piece.points()[b] by {
            assert(piece.points()[a] == rotate_point(ops[a], ops[0]));
            assert(piece.points()[b] == rotate_point(ops[b], ops[0]));
            assert(ops[a] != ops[b]);
        }
    }
    true
}

} // verus!
