use vstd::prelude::*;

verus! {

use crate::grid::{Cell, Coord, pt, valid_point};

/// Whether some cell of the sequence sits at the given point.
pub open spec fn occupied(bs: Seq<Cell>, p: (int, int)) -> bool {
    exists|i: int| 0 <= i < bs.len() && pt((#[trigger] bs[i]).pos) == p
}

/// Whether no point of the sequence is occupied by a cell of the board.
pub open spec fn points_clear(bs: Seq<Cell>, ps: Seq<(int, int)>) -> bool {
    forall|i: int| 0 <= i < ps.len() ==> !occupied(bs, #[trigger] ps[i])
}

/// Piece cells turned into playfield cells of one shared color: what a
/// lock adds to the board, and what the renderer overlays for the active
/// piece.
pub open spec fn colored_cells(ps: Seq<Coord>, color: u8) -> Seq<Cell> {
    Seq::new(ps.len(), |i: int| Cell { pos: ps[i], color })
}

/// The set of settled cells. It grows by exactly four entries whenever a
/// piece locks and never shrinks; no two of its cells share a coordinate.
#[derive(Clone, PartialEq, Debug)]
pub struct Board {
    pub cells: Vec<Cell>,
}

impl Board {
    /// Well-formedness: every settled cell sits on a valid point with a
    /// catalog color, and no two cells share a position.
    pub open spec fn wf(self) -> bool {
        &&& forall|i: int| 0 <= i < self.cells@.len() ==> valid_point(
            pt((#[trigger] self.cells@[i]).pos),
        ) && self.cells@[i].color < 7
        &&& forall|i: int, j: int|
            0 <= i < j < self.cells@.len() ==> pt(self.cells@[i].pos) != pt(self.cells@[j].pos)
    }

    /// The empty board.
    pub fn new() -> (b: Board)
        ensures
            b.wf(),
            b.cells@ == Seq::<Cell>::empty(),
    {
        let b = Board { cells: Vec::new() };
        proof {
            assert(b.cells@ =~= Seq::<Cell>::empty());
        }
        b
    }

    /// Occupancy query by grid coordinate.
    pub fn is_occupied(&self, c: Coord) -> (r: bool)
        ensures
            r == occupied(self.cells@, pt(c)),
    {
        let mut i: usize = 0;
        while i < self.cells.len()
            invariant
                0 <= i <= self.cells@.len(),
                forall|j: int| 0 <= j < i ==> pt((#[trigger] self.cells@[j]).pos) != pt(c),
            decreases self.cells@.len() - i,
        {
            let cell = self.cells[i];
            if cell.pos.col == c.col && cell.pos.row == c.row {
                proof {
                    assert(pt(self.cells@[i as int].pos) == pt(c));
                }
                return true;
            }
            i = i + 1;
        }
        false
    }

    /// Commits four piece cells to the board unchanged, at their current
    /// coordinates and color. Calling this with an occupied or invalid
    /// coordinate would break the board invariant, so the caller must have
    /// ruled that out.
    pub fn lock(&mut self, ps: &Vec<Coord>, color: u8)
        requires
            old(self).wf(),
            ps@.len() == 4,
            color < 7,
            forall|i: int| 0 <= i < 4 ==> valid_point(pt(#[trigger] ps@[i])),
            forall|i: int, j: int| 0 <= i < j < 4 ==> pt(ps@[i]) != pt(ps@[j]),
            forall|i: int| 0 <= i < 4 ==> !occupied(old(self).cells@, pt(#[trigger] ps@[i])),
        ensures
            final(self).wf(),
            final(self).cells@ == old(self).cells@ + colored_cells(ps@, color),
    {
        let n = ps.len();
        let mut i: usize = 0;
        while i < n
            invariant
                n == 4,
                i <= 4,
                ps@.len() == 4,
                color < 7,
                forall|k: int| 0 <= k < 4 ==> valid_point(pt(#[trigger] ps@[k])),
                forall|k: int, j: int| 0 <= k < j < 4 ==> pt(ps@[k]) != pt(ps@[j]),
                forall|k: int| 0 <= k < 4 ==> !occupied(old(self).cells@, pt(#[trigger] ps@[k])),
                old(self).wf(),
                self.cells@ == old(self).cells@ + colored_cells(ps@.subrange(0, i as int), color),
            decreases n - i,
        {
            self.cells.push(Cell { pos: ps[i], color });
            proof {
                assert(self.cells@ =~= old(self).cells@ + colored_cells(
                    ps@.subrange(0, i as int + 1),
                    color,
                ));
            }
            i = i + 1;
        }
        proof {
            assert(ps@.subrange(0, 4) =~= ps@);
            assert(self.cells@ =~= old(self).cells@ + colored_cells(ps@, color));
            let bs = self.cells@;
            let obs = old(self).cells@;
            let on = obs.len() as int;
            assert forall|i: int| 0 <= i < bs.len() implies valid_point(
                pt((#[trigger] bs[i]).pos),
            ) && bs[i].color < 7 by {
                if i >= on {
                    assert(bs[i] == colored_cells(ps@, color)[i - on]);
                }
            }
            assert forall|i: int, j: int|
                0 <= i < j < bs.len() implies pt(bs[i].pos) != pt(bs[j].pos) by {
                if j >= on {
                    assert(bs[j].pos == ps@[j - on]);
                    if i >= on {
                        assert(bs[i].pos == ps@[i - on]);
                    } else {
                        assert(!occupied(obs, pt(ps@[j - on])));
                        assert(obs[i] == bs[i]);
                    }
                }
            }
        }
    }
}

} // verus!
