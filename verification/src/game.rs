use vstd::prelude::*;

use rand::Rng;

verus! {

use crate::board::{Board, colored_cells, occupied, points_clear};
use crate::grid::{Cell, pt, shift_points, valid_point};
use crate::motion;
use crate::motion::{below_clear, left_clear, right_clear, rotate_points, rotation_fits};
use crate::piece::ActivePiece;
use crate::shapes::{
    ShapeKind, in_spawn_area, kind_from_index, kind_index, lemma_spawn_points_wf, spawn_points,
};
use crate::timers::{
    GRAVITY_PERIOD_MICROS, GateTimer, MOVE_PERIOD_MICROS, RepeatTimer, gate_after, gate_fires,
    repeat_after, repeat_fires,
};

/// The per-frame input signals the core consumes: whether each logical
/// action is currently requested. Debouncing is the caller's concern.
#[derive(Clone, Copy, PartialEq, Eq, Structural, Debug)]
pub struct Inputs {
    pub left_held: bool,
    pub right_held: bool,
    pub rotate_held: bool,
}

/// Whether no settled cell lies inside the spawn area, so that a freshly
/// spawned piece of any kind cannot overlap the board.
pub open spec fn spawn_area_clear(bs: Seq<Cell>) -> bool {
    forall|i: int| 0 <= i < bs.len() ==> !in_spawn_area(pt((#[trigger] bs[i]).pos))
}

/// A board that keeps clear of the spawn area occupies no point of it.
pub proof fn lemma_clear_area_unoccupied(bs: Seq<Cell>, p: (int, int))
    requires
        spawn_area_clear(bs),
        in_spawn_area(p),
    ensures
        !occupied(bs, p),
{
    if occupied(bs, p) {
        let i = choose|i: int| 0 <= i < bs.len() && pt(#[trigger] bs[i].pos) == p;
        assert(!in_spawn_area(pt(bs[i].pos)));
    }
}

/// The whole simulation state: the settled board, the one active piece,
/// the three timers, and the two horizontal legality flags recomputed
/// every frame.
#[verifier::ext_equal]
#[derive(Clone, Debug)]
pub struct GameState {
    pub board: Board,
    pub piece: ActivePiece,
    pub gravity: RepeatTimer,
    pub move_gate: GateTimer,
    pub rotate_gate: GateTimer,
    pub allow_left: bool,
    pub allow_right: bool,
}

/// The net column shift the movement phase applies: gated by the move
/// timer, requested by the held keys, and permitted by the legality flags.
pub open spec fn move_dx(s: GameState, inputs: Inputs, delta: u64) -> int {
    (if gate_fires(s.move_gate, delta) && inputs.right_held && s.allow_right {
        1int
    } else {
        0int
    }) - (if gate_fires(s.move_gate, delta) && inputs.left_held && s.allow_left {
        1int
    } else {
        0int
    })
}

/// The active points after the movement and rotation phases of one frame:
/// shifted by the gated net column move, then rotated a quarter turn if the
/// rotate gate admits it, rotation is requested, and the turn fits.
pub open spec fn moved_points(s: GameState, inputs: Inputs, delta: u64) -> Seq<(int, int)> {
    let ps = shift_points(s.piece.points(), move_dx(s, inputs, delta), 0);
    if gate_fires(s.rotate_gate, delta) && inputs.rotate_held && rotation_fits(s.board.cells@, ps) {
        rotate_points(ps)
    } else {
        ps
    }
}

/// The state as the flag phase leaves it: both horizontal legality flags
/// recomputed from the unchanged board and piece.
pub open spec fn with_fresh_flags(s: GameState) -> GameState {
    GameState {
        allow_left: left_clear(s.board.cells@, s.piece.points()),
        allow_right: right_clear(s.board.cells@, s.piece.points()),
        ..s
    }
}

/// The active points after the flag, movement and rotation phases of one
/// frame.
pub open spec fn frame_points(s: GameState, inputs: Inputs, delta: u64) -> Seq<(int, int)> {
    moved_points(with_fresh_flags(s), inputs, delta)
}

/// Whether the gravity phase of one frame locks the piece: the tick fires
/// and some active cell sits on the floor or directly above a settled cell.
pub open spec fn frame_locks(s: GameState, inputs: Inputs, delta: u64) -> bool {
    repeat_fires(s.gravity, delta) && !below_clear(s.board.cells@, frame_points(s, inputs, delta))
}

/// Relies on rand::Rng::gen_range over the half-open range 0..7: it panics
/// only on an empty range and returns a value inside the range, drawn
/// uniformly; rand::thread_rng supplies the generator.
#[verifier::external_body]
fn random_kind_index() -> (r: u8)
    ensures
        r < 7,
{
    rand::thread_rng().gen_range(0..7u8)
}

/// Spawns a piece of a kind drawn uniformly from the seven-kind catalog,
/// with the kind's positional color; every spawn after the first uses this.
pub fn spawn_random_piece() -> (p: ActivePiece)
    ensures
        p.wf(),
        exists|k: ShapeKind| p.points() =~= spawn_points(k) && p.color as int == kind_index(k),
{
    let idx = random_kind_index();
    let k = kind_from_index(idx);
    ActivePiece::spawn(k)
}

impl GameState {
    /// Well-formedness: board and piece invariants, the active cells
    /// disjoint from the settled cells, and the timers in range.
    pub open spec fn wf(self) -> bool {
        &&& self.board.wf()
        &&& self.piece.wf()
        &&& points_clear(self.board.cells@, self.piece.points())
        &&& self.gravity.wf()
        &&& self.move_gate.wf()
        &&& self.rotate_gate.wf()
    }

    /// The start of a run: an empty board, the deliberately fixed first
    /// piece (an O at the spawn origin with the first catalog color), fresh
    /// timers, and both legality flags raised.
    pub fn new() -> (g: GameState)
        ensures
            g.wf(),
            g.board.cells@ == Seq::<Cell>::empty(),
            g.piece.points() == spawn_points(ShapeKind::O),
            g.piece.color as int == kind_index(ShapeKind::O),
            g.gravity.period == GRAVITY_PERIOD_MICROS,
            g.gravity.elapsed == 0,
            g.move_gate.period == MOVE_PERIOD_MICROS,
            g.move_gate.elapsed == 0,
            g.rotate_gate.period == MOVE_PERIOD_MICROS,
            g.rotate_gate.elapsed == 0,
            g.allow_left,
            g.allow_right,
    {
        let g = GameState {
            board: Board::new(),
            piece: ActivePiece::spawn(ShapeKind::O),
            gravity: RepeatTimer::new(GRAVITY_PERIOD_MICROS),
            move_gate: GateTimer::new(MOVE_PERIOD_MICROS),
            rotate_gate: GateTimer::new(MOVE_PERIOD_MICROS),
            allow_left: true,
            allow_right: true,
        };
        g
    }

    /// The flag phase: recomputes both horizontal legality flags from the
    /// current board and piece and changes nothing else. It runs every
    /// frame, whether or not a move is attempted.
    pub fn check_movement(&mut self)
        requires
            old(self).piece.wf(),
        ensures
            final(self).board == old(self).board,
            final(self).piece == old(self).piece,
            final(self).gravity == old(self).gravity,
            final(self).move_gate == old(self).move_gate,
            final(self).rotate_gate == old(self).rotate_gate,
            final(self).allow_left == left_clear(old(self).board.cells@, old(self).piece.points()),
            final(self).allow_right == right_clear(
                old(self).board.cells@,
                old(self).piece.points(),
            ),
    {
        self.allow_left = motion::can_move_left(&self.board, &self.piece);
        self.allow_right = motion::can_move_right(&self.board, &self.piece);
    }

    /// The movement and rotation phase: the move gate admits at most one
    /// evaluation of the held keys per period and restarts on elapse; a
    /// permitted left or right request shifts the piece one column; the
    /// rotate gate does the same for a quarter turn, which is applied only
    /// if it fits. Flags must be fresh, as the frame order guarantees.
    pub fn move_piece(&mut self, inputs: Inputs, delta: u64)
        requires
            old(self).wf(),
            old(self).allow_left == left_clear(old(self).board.cells@, old(self).piece.points()),
            old(self).allow_right == right_clear(old(self).board.cells@, old(self).piece.points()),
            delta <= u64::MAX - old(self).move_gate.period,
            delta <= u64::MAX - old(self).rotate_gate.period,
        ensures
            final(self).wf(),
            final(self).board == old(self).board,
            final(self).gravity == old(self).gravity,
            final(self).allow_left == old(self).allow_left,
            final(self).allow_right == old(self).allow_right,
            final(self).move_gate == gate_after(old(self).move_gate, delta),
            final(self).rotate_gate == gate_after(old(self).rotate_gate, delta),
            final(self).piece.color == old(self).piece.color,
            final(self).piece.points() == moved_points(*old(self), inputs, delta),
    {
        let ghost s0 = *old(self);
        let ghost ops = old(self).piece.points();
        let move_fired = self.move_gate.advance(delta);
        let mut moved_left = false;
        let mut moved_right = false;
        if move_fired {
            if inputs.left_held && self.allow_left {
                moved_left = true;
            }
            if inputs.right_held && self.allow_right {
                moved_right = true;
            }
        }
        if moved_left {
            proof {
                assert forall|i: int| 0 <= i < 4 implies valid_point(
                    ((#[trigger] self.piece.points()[i]).0 - 1, self.piece.points()[i].1 + 0),
                ) by {
                    assert(valid_point(ops[i]));
                    assert(ops[i].0 != 0);
                }
            }
            self.piece.translate(-1, 0);
        }
        if moved_right {
            proof {
                assert forall|i: int| 0 <= i < 4 implies valid_point(
                    ((#[trigger] self.piece.points()[i]).0 + 1, self.piece.points()[i].1 + 0),
                ) by {
                    assert(valid_point(ops[i]));
                    if moved_left {
                        assert(self.piece.points()[i] == (ops[i].0 - 1, ops[i].1));
                    } else {
                        assert(ops[i].0 != crate::grid::COLS as int - 1);
                    }
                }
            }
            self.piece.translate(1, 0);
        }
        proof {
            let dx = move_dx(s0, inputs, delta);
            assert(self.piece.points() =~= shift_points(ops, dx, 0));
            // the shifted piece stays clear of the settled cells
            assert forall|i: int| 0 <= i < 4 implies !occupied(
                self.board.cells@,
                #[trigger] self.piece.points()[i],
            ) by {
                assert(self.piece.points()[i] == (ops[i].0 + dx, ops[i].1));
                if dx == -1 {
                    assert(!occupied(s0.board.cells@, (ops[i].0 - 1, ops[i].1)));
                } else if dx == 1 {
                    assert(!occupied(s0.board.cells@, (ops[i].0 + 1, ops[i].1)));
                } else {
                    assert(!occupied(s0.board.cells@, ops[i]));
                    assert(self.piece.points()[i] == ops[i]);
                }
            }
        }
        let rotate_fired = self.rotate_gate.advance(delta);
        if rotate_fired {
            if inputs.rotate_held {
                motion::try_rotate(&self.board, &mut self.piece);
            }
        }
        proof {
            assert(self.piece.points() =~= moved_points(s0, inputs, delta));
        }
    }

    /// The gravity phase: when the repeating tick fires, the piece either
    /// falls one row, or — if some cell rests on the floor or on a settled
    /// cell — locks in place and a random replacement spawns in the same
    /// frame. The replacement overlaps nothing provided the spawn area is
    /// clear, which holds by construction of the arena until a run tops
    /// out.
    pub fn fall_down(&mut self, delta: u64)
        requires
            old(self).wf(),
            delta <= u64::MAX - old(self).gravity.period,
        ensures
            final(self).board.wf(),
            final(self).piece.wf(),
            final(self).gravity == repeat_after(old(self).gravity, delta),
            final(self).move_gate == old(self).move_gate,
            final(self).rotate_gate == old(self).rotate_gate,
            final(self).allow_left == old(self).allow_left,
            final(self).allow_right == old(self).allow_right,
            !repeat_fires(old(self).gravity, delta) ==> final(self).board == old(self).board
                && final(self).piece == old(self).piece && final(self).wf(),
            repeat_fires(old(self).gravity, delta) && below_clear(
                old(self).board.cells@,
                old(self).piece.points(),
            ) ==> final(self).board == old(self).board && final(self).piece.color == old(self).piece.color && final(self).piece.points() == shift_points(
                old(self).piece.points(),
                0,
                -1,
            ) && final(self).wf(),
            repeat_fires(old(self).gravity, delta) && !below_clear(
                old(self).board.cells@,
                old(self).piece.points(),
            ) ==> final(self).board.cells@ == old(self).board.cells@ + colored_cells(
                old(self).piece.cells@,
                old(self).piece.color,
            ) && (exists|k: ShapeKind|
                final(self).piece.points() =~= spawn_points(k) && final(self).piece.color as int
                    == kind_index(k)) && (spawn_area_clear(final(self).board.cells@) ==> final(self).wf()),
    {
        let ghost s0 = *old(self);
        let ghost ops = old(self).piece.points();
        let fired = self.gravity.advance(delta);
        if !fired {
            return;
        }
        if motion::can_fall(&self.board, &self.piece) {
            proof {
                assert forall|i: int| 0 <= i < 4 implies valid_point(
                    ((#[trigger] self.piece.points()[i]).0 + 0, self.piece.points()[i].1 - 1),
                ) by {
                    assert(valid_point(ops[i]));
                    assert(ops[i].1 != 0);
                }
            }
            self.piece.translate(0, -1);
            proof {
                assert forall|i: int| 0 <= i < 4 implies !occupied(
                    self.board.cells@,
                    #[trigger] self.piece.points()[i],
                ) by {
                    assert(self.piece.points()[i] == (ops[i].0, ops[i].1 - 1));
                    assert(!occupied(s0.board.cells@, (ops[i].0, ops[i].1 - 1)));
                }
            }
        } else {
            proof {
                assert forall|i: int| 0 <= i < 4 implies valid_point(
                    pt(#[trigger] self.piece.cells@[i]),
                ) && !occupied(self.board.cells@, pt(self.piece.cells@[i])) by {
                    assert(self.piece.points()[i] == pt(self.piece.cells@[i]));
                    assert(valid_point(self.piece.points()[i]));
                    assert(!occupied(s0.board.cells@, self.piece.points()[i]));
                }
                assert forall|i: int, j: int| 0 <= i < j < 4 implies pt(self.piece.cells@[i]) != pt(
                    self.piece.cells@[j],
                ) by {
                    assert(self.piece.points()[i] == pt(self.piece.cells@[i]));
                    assert(self.piece.points()[j] == pt(self.piece.cells@[j]));
                }
            }
            let color = self.piece.color;
            self.board.lock(&self.piece.cells, color);
            self.piece = spawn_random_piece();
            proof {
                let k = choose|k: ShapeKind|
                    self.piece.points() =~= spawn_points(k) && self.piece.color as int
                        == kind_index(k);
                lemma_spawn_points_wf(k);
                if spawn_area_clear(self.board.cells@) {
                    assert forall|i: int| 0 <= i < 4 implies !occupied(
                        self.board.cells@,
                        #[trigger] self.piece.points()[i],
                    ) by {
                        assert(self.piece.points()[i] == spawn_points(k)[i]);
                        assert(in_spawn_area(spawn_points(k)[i]));
                        lemma_clear_area_unoccupied(self.board.cells@, self.piece.points()[i]);
                    }
                }
            }
        }
    }

    /// One frame in the fixed order: flag recompute, then gated movement
    /// and rotation, then gravity with its lock-and-respawn transition.
    pub fn step(&mut self, inputs: Inputs, delta: u64)
        requires
            old(self).wf(),
            delta <= u64::MAX - old(self).move_gate.period,
            delta <= u64::MAX - old(self).rotate_gate.period,
            delta <= u64::MAX - old(self).gravity.period,
        ensures
            final(self).board.wf(),
            final(self).piece.wf(),
            final(self).gravity == repeat_after(old(self).gravity, delta),
            final(self).move_gate == gate_after(old(self).move_gate, delta),
            final(self).rotate_gate == gate_after(old(self).rotate_gate, delta),
            final(self).allow_left == left_clear(old(self).board.cells@, old(self).piece.points()),
            final(self).allow_right == right_clear(
                old(self).board.cells@,
                old(self).piece.points(),
            ),
            !frame_locks(*old(self), inputs, delta) ==> final(self).wf(),
            spawn_area_clear(final(self).board.cells@) ==> final(self).wf(),
            !repeat_fires(old(self).gravity, delta) ==> final(self).board == old(self).board
                && final(self).piece.points() == frame_points(*old(self), inputs, delta) && final(self).piece.color == old(self).piece.color,
            repeat_fires(old(self).gravity, delta) && !frame_locks(*old(self), inputs, delta)
                ==> final(self).board == old(self).board && final(self).piece.points()
                == shift_points(frame_points(*old(self), inputs, delta), 0, -1) && final(self).piece.color == old(self).piece.color,
            frame_locks(*old(self), inputs, delta) ==> final(self).board.cells@.len() == old(self).board.cells@.len() + 4 && final(self).board.cells@.subrange(
                0,
                old(self).board.cells@.len() as int,
            ) == old(self).board.cells@ && (forall|i: int|
                0 <= i < 4 ==> pt(
                    (#[trigger] final(self).board.cells@[old(self).board.cells@.len() + i]).pos,
                ) == frame_points(*old(self), inputs, delta)[i] && final(self).board.cells@[old(self).board.cells@.len() + i].color == old(self).piece.color) && (exists|k: ShapeKind|
                final(self).piece.points() =~= spawn_points(k) && final(self).piece.color as int
                    == kind_index(k)),
    {
        let ghost s0 = *old(self);
        self.check_movement();
        proof {
            assert(*self =~= with_fresh_flags(s0));
        }
        let ghost s1 = *self;
        self.move_piece(inputs, delta);
        proof {
            assert(self.piece.points() == frame_points(s0, inputs, delta));
        }
        let ghost s2 = *self;
        self.fall_down(delta);
        proof {
            if frame_locks(s0, inputs, delta) {
                let on = s0.board.cells@.len() as int;
                assert(self.board.cells@ == s2.board.cells@ + colored_cells(
                    s2.piece.cells@,
                    s2.piece.color,
                ));
                assert(self.board.cells@.subrange(0, on) =~= s0.board.cells@);
                assert forall|i: int| 0 <= i < 4 implies pt(
                    (#[trigger] self.board.cells@[on + i]).pos,
                ) == frame_points(s0, inputs, delta)[i] && self.board.cells@[on + i].color
                    == s0.piece.color by {
                    assert(self.board.cells@[on + i] == colored_cells(
                        s2.piece.cells@,
                        s2.piece.color,
                    )[i]);
                    assert(pt(s2.piece.cells@[i]) == s2.piece.points()[i]);
                }
            }
        }
    }

    /// The enumerable view the renderer draws each frame: every settled
    /// cell, followed by the four active cells in the piece's color.
    pub fn render_cells(&self) -> (out: Vec<Cell>)
        ensures
            out@ == self.board.cells@ + colored_cells(self.piece.cells@, self.piece.color),
    {
        let mut out: Vec<Cell> = Vec::new();
        let mut i: usize = 0;
        while i < self.board.cells.len()
            invariant
                i <= self.board.cells@.len(),
                out@ == self.board.cells@.subrange(0, i as int),
            decreases self.board.cells@.len() - i,
        {
            out.push(self.board.cells[i]);
            proof {
                assert(out@ =~= self.board.cells@.subrange(0, i as int + 1));
            }
            i = i + 1;
        }
        proof {
            assert(out@ =~= self.board.cells@);
        }
        let mut j: usize = 0;
        while j < self.piece.cells.len()
            invariant
                j <= self.piece.cells@.len(),
                out@ == self.board.cells@ + colored_cells(
                    self.piece.cells@.subrange(0, j as int),
                    self.piece.color,
                ),
            decreases self.piece.cells@.len() - j,
        {
            out.push(Cell { pos: self.piece.cells[j], color: self.piece.color });
            proof {
                assert(out@ =~= self.board.cells@ + colored_cells(
                    self.piece.cells@.subrange(0, j as int + 1),
                    self.piece.color,
                ));
            }
            j = j + 1;
        }
        proof {
            assert(self.piece.cells@.subrange(0, self.piece.cells@.len() as int)
                =~= self.piece.cells@);
            assert(out@ =~= self.board.cells@ + colored_cells(
                self.piece.cells@,
                self.piece.color,
            ));
        }
        out
    }
}

} // verus!
