use vstd::prelude::*;

verus! {

use crate::grid::{CEILING_ROW, COLS, Coord, SPAWN_COL, SPAWN_ROW, pt, shift_points, valid_point};
use crate::shapes::{ShapeKind, kind_color, kind_index, lemma_spawn_points_wf, spawn_points};

/// The four cells currently under player control, with their shared
/// positional color. The rotation pivot is the first cell, as the shape
/// catalog defines it.
#[derive(Clone, PartialEq, Debug)]
pub struct ActivePiece {
    pub cells: Vec<Coord>,
    pub color: u8,
}

impl ActivePiece {
    /// The mathematical view of the piece: its cells as integer points, in
    /// catalog order.
    pub open spec fn points(self) -> Seq<(int, int)> {
        Seq::new(self.cells@.len(), |i: int| pt(self.cells@[i]))
    }

    /// The point the piece rotates about: its first cell.
    pub open spec fn pivot_point(self) -> (int, int) {
        self.points()[0]
    }

    /// Well-formedness: exactly four cells, pairwise distinct, each inside
    /// the columns and between floor and ceiling, and a catalog color.
    pub open spec fn wf(self) -> bool {
        &&& self.cells@.len() == 4
        &&& forall|i: int| 0 <= i < 4 ==> valid_point(#[trigger] self.points()[i])
        &&& forall|i: int, j: int| 0 <= i < j < 4 ==> self.points()[i] != self.points()[j]
        &&& self.color < 7
    }

    /// Spawns a piece of the given kind: its cells are the shape's offsets
    /// placed at the spawn origin, its color the kind's positional color.
    pub fn spawn(k: ShapeKind) -> (p: ActivePiece)
        ensures
            p.wf(),
            p.points() == spawn_points(k),
            p.color as int == kind_index(k),
    {
        let color = kind_color(k);
        let cells: Vec<Coord> = match k {
            ShapeKind::O => vec![
                Coord { col: SPAWN_COL, row: SPAWN_ROW },
                Coord { col: SPAWN_COL + 1, row: SPAWN_ROW },
                Coord { col: SPAWN_COL, row: SPAWN_ROW + 1 },
                Coord { col: SPAWN_COL + 1, row: SPAWN_ROW + 1 },
            ],
            ShapeKind::I => vec![
                Coord { col: SPAWN_COL, row: SPAWN_ROW },
                Coord { col: SPAWN_COL, row: SPAWN_ROW + 1 },
                Coord { col: SPAWN_COL, row: SPAWN_ROW + 2 },
                Coord { col: SPAWN_COL, row: SPAWN_ROW + 3 },
            ],
            ShapeKind::S => vec![
                Coord { col: SPAWN_COL, row: SPAWN_ROW + 1 },
                Coord { col: SPAWN_COL + 1, row: SPAWN_ROW + 1 },
                Coord { col: SPAWN_COL + 1, row: SPAWN_ROW },
                Coord { col: SPAWN_COL + 2, row: SPAWN_ROW },
            ],
            ShapeKind::Z => vec![
                Coord { col: SPAWN_COL, row: SPAWN_ROW },
                Coord { col: SPAWN_COL + 1, row: SPAWN_ROW },
                Coord { col: SPAWN_COL + 1, row: SPAWN_ROW + 1 },
                Coord { col: SPAWN_COL + 2, row: SPAWN_ROW + 1 },
            ],
            ShapeKind::L => vec![
                Coord { col: SPAWN_COL, row: SPAWN_ROW },
                Coord { col: SPAWN_COL, row: SPAWN_ROW + 1 },
                Coord { col: SPAWN_COL, row: SPAWN_ROW + 2 },
                Coord { col: SPAWN_COL + 1, row: SPAWN_ROW + 2 },
            ],
            ShapeKind::J => vec![
                Coord { col: SPAWN_COL, row: SPAWN_ROW },
                Coord { col: SPAWN_COL, row: SPAWN_ROW + 1 },
                Coord { col: SPAWN_COL, row: SPAWN_ROW + 2 },
                Coord { col: SPAWN_COL + 1, row: SPAWN_ROW },
            ],
            ShapeKind::T => vec![
                Coord { col: SPAWN_COL, row: SPAWN_ROW },
                Coord { col: SPAWN_COL + 1, row: SPAWN_ROW },
                Coord { col: SPAWN_COL + 2, row: SPAWN_ROW },
                Coord { col: SPAWN_COL + 1, row: SPAWN_ROW + 1 },
            ],
        };
        let p = ActivePiece { cells, color };
        proof {
            lemma_spawn_points_wf(k);
            assert(p.points() =~= spawn_points(k));
        }
        p
    }

    /// The pivot cell, the first in catalog order.
    pub fn pivot(&self) -> (c: Coord)
        requires
            self.wf(),
        ensures
            pt(c) == self.pivot_point(),
    {
        self.cells[0]
    }

    /// Translates every cell by the given column and row offset, which the
    /// caller has found to keep each cell on a valid point.
    pub fn translate(&mut self, dc: i32, dr: i32)
        requires
            old(self).wf(),
            forall|i: int| 0 <= i < 4 ==> valid_point(
                ((#[trigger] old(self).points()[i]).0 + dc as int, old(self).points()[i].1 + dr as int),
            ),
        ensures
            final(self).wf(),
            final(self).color == old(self).color,
            final(self).points() == shift_points(old(self).points(), dc as int, dr as int),
    {
        proof {
            assert(valid_point((old(self).points()[0].0 + dc as int, old(self).points()[0].1 + dr as int)));
            assert(valid_point((old(self).points()[1].0 + dc as int, old(self).points()[1].1 + dr as int)));
            assert(valid_point((old(self).points()[2].0 + dc as int, old(self).points()[2].1 + dr as int)));
            assert(valid_point((old(self).points()[3].0 + dc as int, old(self).points()[3].1 + dr as int)));
        }
        let c0 = self.cells[0];
        let c1 = self.cells[1];
        let c2 = self.cells[2];
        let c3 = self.cells[3];
        self.cells = vec![
            Coord { col: c0.col + dc, row: c0.row + dr },
            Coord { col: c1.col + dc, row: c1.row + dr },
            Coord { col: c2.col + dc, row: c2.row + dr },
            Coord { col: c3.col + dc, row: c3.row + dr },
        ];
        proof {
            assert(self.points() =~= shift_points(old(self).points(), dc as int, dr as int));
        }
    }
}

} // verus!
