use vstd::prelude::*;

verus! {

use crate::board::{Board, colored_cells, occupied};
use crate::game::GameState;
use crate::grid::{COLS, Coord, pt, shift_points, valid_point};
use crate::motion::{left_clear, rotate_point, rotate_points, right_clear};

/// Boundary invariant: in every well-formed state no active cell's column
/// lies outside the arena columns, and every settled cell sits inside the
/// columns, at or above the floor. Each transition of `GameState` ensures
/// well-formedness, so the bounds hold in every state those transitions
/// reach while the spawn area stays clear.
pub proof fn lemma_boundary_invariant(s: GameState)
    requires
        s.wf(),
    ensures
        forall|i: int| 0 <= i < 4 ==> 0 <= (#[trigger] s.piece.points()[i]).0 < COLS as int,
        forall|i: int|
            0 <= i < s.board.cells@.len() ==> valid_point(pt((#[trigger] s.board.cells@[i]).pos)),
{
    assert forall|i: int| 0 <= i < 4 implies 0 <= (#[trigger] s.piece.points()[i]).0
        < COLS as int by {
        assert(valid_point(s.piece.points()[i]));
    }
}

/// No-overlap invariant: in every well-formed state the active cells and
/// the settled cells are disjoint. The lock transition is the one place
/// the two sets meet, and it moves the four active cells into the board
/// atomically.
pub proof fn lemma_no_overlap_invariant(s: GameState)
    requires
        s.wf(),
    ensures
        forall|i: int| 0 <= i < 4 ==> !occupied(s.board.cells@, #[trigger] s.piece.points()[i]),
{
}

/// After a lock, each formerly active coordinate is present in the board
/// exactly once: some index of the grown board holds it, and no two
/// indices do.
pub proof fn lemma_lock_adds_each_once(b0: Board, b1: Board, ps: Seq<Coord>, color: u8, j: int)
    requires
        b1.wf(),
        ps.len() == 4,
        b1.cells@ == b0.cells@ + colored_cells(ps, color),
        0 <= j < 4,
    ensures
        occupied(b1.cells@, pt(ps[j])),
        forall|i1: int, i2: int|
            0 <= i1 < b1.cells@.len() && 0 <= i2 < b1.cells@.len() && pt(b1.cells@[i1].pos) == pt(
                ps[j],
            ) && pt(b1.cells@[i2].pos) == pt(ps[j]) ==> i1 == i2,
{
    let on = b0.cells@.len() as int;
    assert(b1.cells@[on + j] == colored_cells(ps, color)[j]);
    assert(pt(b1.cells@[on + j].pos) == pt(ps[j]));
    assert forall|i1: int, i2: int|
        0 <= i1 < b1.cells@.len() && 0 <= i2 < b1.cells@.len() && pt(b1.cells@[i1].pos) == pt(
            ps[j],
        ) && pt(b1.cells@[i2].pos) == pt(ps[j]) implies i1 == i2 by {
        if i1 < i2 {
            assert(pt(b1.cells@[i1].pos) != pt(b1.cells@[i2].pos));
        }
        if i2 < i1 {
            assert(pt(b1.cells@[i2].pos) != pt(b1.cells@[i1].pos));
        }
    }
}

/// Gravity monotonicity: the descent that a non-locking tick commits to
/// moves every active cell down by exactly one row and changes no column.
pub proof fn lemma_descent_rows(ps: Seq<(int, int)>)
    ensures
        shift_points(ps, 0, -1).len() == ps.len(),
        forall|i: int|
            0 <= i < ps.len() ==> (#[trigger] shift_points(ps, 0, -1)[i]).0 == ps[i].0
                && shift_points(ps, 0, -1)[i].1 == ps[i].1 - 1,
{
}

/// Horizontal gate idempotence: the two legality flags are functions of
/// the board and piece alone, so recomputing them on an unchanged state
/// yields identical results.
pub proof fn lemma_flags_deterministic(s1: GameState, s2: GameState)
    requires
        s1.board.cells@ == s2.board.cells@,
        s1.piece.points() == s2.piece.points(),
    ensures
        left_clear(s1.board.cells@, s1.piece.points()) == left_clear(
            s2.board.cells@,
            s2.piece.points(),
        ),
        right_clear(s1.board.cells@, s1.piece.points()) == right_clear(
            s2.board.cells@,
            s2.piece.points(),
        ),
{
}

/// Rotation correctness: four quarter turns about the pivot return every
/// cell to its original point. The pivot itself is fixed by each turn, so
/// the four turns compose about one point.
pub proof fn lemma_rotation_four_cycle(ps: Seq<(int, int)>)
    requires
        ps.len() > 0,
    ensures
        rotate_points(rotate_points(rotate_points(rotate_points(ps)))) =~= ps,
{
    let p1 = rotate_points(ps);
    let p2 = rotate_points(p1);
    let p3 = rotate_points(p2);
    let p4 = rotate_points(p3);
    assert(p1[0] == ps[0]);
    assert(p2[0] == ps[0]);
    assert(p3[0] == ps[0]);
    assert forall|i: int| 0 <= i < ps.len() implies p4[i] == ps[i] by {
        let v = ps[0];
        assert(p1[i] == rotate_point(ps[i], v));
        assert(p2[i] == rotate_point(p1[i], v));
        assert(p3[i] == rotate_point(p2[i], v));
        assert(p4[i] == rotate_point(p3[i], v));
    }
}

} // verus!
