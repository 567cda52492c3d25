use vstd::prelude::*;

verus! {

use crate::grid::{SPAWN_COL, SPAWN_ROW, valid_point};

/// The seven piece kinds of the catalog.
#[derive(Clone, Copy, PartialEq, Eq, Structural, Debug)]
pub enum ShapeKind {
    O,
    I,
    S,
    Z,
    L,
    J,
    T,
}

/// Position of a kind in the fixed catalog order; the color table is
/// indexed positionally by the same number.
pub open spec fn kind_index(k: ShapeKind) -> int {
    match k {
        ShapeKind::O => 0,
        ShapeKind::I => 1,
        ShapeKind::S => 2,
        ShapeKind::Z => 3,
        ShapeKind::L => 4,
        ShapeKind::J => 5,
        ShapeKind::T => 6,
    }
}

/// The four cell offsets of a shape relative to its spawn origin.
/// The first offset is the rotation pivot.
pub open spec fn shape_offsets(k: ShapeKind) -> Seq<(int, int)> {
    match k {
        ShapeKind::O => seq![(0int, 0int), (1int, 0int), (0int, 1int), (1int, 1int)],
        ShapeKind::I => seq![(0int, 0int), (0int, 1int), (0int, 2int), (0int, 3int)],
        ShapeKind::S => seq![(0int, 1int), (1int, 1int), (1int, 0int), (2int, 0int)],
        ShapeKind::Z => seq![(0int, 0int), (1int, 0int), (1int, 1int), (2int, 1int)],
        ShapeKind::L => seq![(0int, 0int), (0int, 1int), (0int, 2int), (1int, 2int)],
        ShapeKind::J => seq![(0int, 0int), (0int, 1int), (0int, 2int), (1int, 0int)],
        ShapeKind::T => seq![(0int, 0int), (1int, 0int), (2int, 0int), (1int, 1int)],
    }
}

/// The absolute points a shape occupies when it spawns.
pub open spec fn spawn_points(k: ShapeKind) -> Seq<(int, int)> {
    shift_offsets_to_origin(shape_offsets(k))
}

/// Offsets placed at the spawn origin.
pub open spec fn shift_offsets_to_origin(offs: Seq<(int, int)>) -> Seq<(int, int)> {
    Seq::new(offs.len(), |i: int| (offs[i].0 + SPAWN_COL as int, offs[i].1 + SPAWN_ROW as int))
}

/// The box that every spawn point of every kind falls into: three columns
/// to the right of the origin column and four rows upward from the origin
/// row.
pub open spec fn in_spawn_area(p: (int, int)) -> bool {
    &&& SPAWN_COL as int <= p.0 <= SPAWN_COL as int + 2
    &&& SPAWN_ROW as int <= p.1 <= SPAWN_ROW as int + 3
}

/// Every kind spawns as four distinct, valid points inside the spawn area.
pub proof fn lemma_spawn_points_wf(k: ShapeKind)
    ensures
        spawn_points(k).len() == 4,
        forall|i: int| 0 <= i < 4 ==> valid_point(#[trigger] spawn_points(k)[i]),
        forall|i: int| 0 <= i < 4 ==> in_spawn_area(#[trigger] spawn_points(k)[i]),
        forall|i: int, j: int| 0 <= i < j < 4 ==> spawn_points(k)[i] != spawn_points(k)[j],
{
    match k {
        ShapeKind::O => {
            assert(spawn_points(k) =~= seq![(10int, 19int), (11int, 19int), (10int, 20int), (11int, 20int)]);
        },
        ShapeKind::I => {
            assert(spawn_points(k) =~= seq![(10int, 19int), (10int, 20int), (10int, 21int), (10int, 22int)]);
        },
        ShapeKind::S => {
            assert(spawn_points(k) =~= seq![(10int, 20int), (11int, 20int), (11int, 19int), (12int, 19int)]);
        },
        ShapeKind::Z => {
            assert(spawn_points(k) =~= seq![(10int, 19int), (11int, 19int), (11int, 20int), (12int, 20int)]);
        },
        ShapeKind::L => {
            assert(spawn_points(k) =~= seq![(10int, 19int), (10int, 20int), (10int, 21int), (11int, 21int)]);
        },
        ShapeKind::J => {
            assert(spawn_points(k) =~= seq![(10int, 19int), (10int, 20int), (10int, 21int), (11int, 19int)]);
        },
        ShapeKind::T => {
            assert(spawn_points(k) =~= seq![(10int, 19int), (11int, 19int), (12int, 19int), (11int, 20int)]);
        },
    }
}

/// The kind at a catalog position.
pub fn kind_from_index(idx: u8) -> (k: ShapeKind)
    requires
        idx < 7,
    ensures
        kind_index(k) == idx as int,
{
    match idx {
        0 => ShapeKind::O,
        1 => ShapeKind::I,
        2 => ShapeKind::S,
        3 => ShapeKind::Z,
        4 => ShapeKind::L,
        5 => ShapeKind::J,
        _ => ShapeKind::T,
    }
}

/// The positional color index of a kind.
pub fn kind_color(k: ShapeKind) -> (c: u8)
    ensures
        c as int == kind_index(k),
        c < 7,
{
    match k {
        ShapeKind::O => 0,
        ShapeKind::I => 1,
        ShapeKind::S => 2,
        ShapeKind::Z => 3,
        ShapeKind::L => 4,
        ShapeKind::J => 5,
        ShapeKind::T => 6,
    }
}

} // verus!
