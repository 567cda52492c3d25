use tetris_core::board::Board;
use tetris_core::game::spawn_random_piece;
use tetris_core::grid::Coord;
use tetris_core::motion::try_rotate;
use tetris_core::piece::ActivePiece;
use tetris_core::shapes::{kind_color, kind_from_index, ShapeKind};

fn c(col: i32, row: i32) -> Coord {
    Coord { col, row }
}

const KINDS: [ShapeKind; 7] = [
    ShapeKind::O,
    ShapeKind::I,
    ShapeKind::S,
    ShapeKind::Z,
    ShapeKind::L,
    ShapeKind::J,
    ShapeKind::T,
];

#[test]
fn each_kind_spawns_its_catalog_cells() {
    assert_eq!(
        ActivePiece::spawn(ShapeKind::O).cells,
        vec![c(10, 19), c(11, 19), c(10, 20), c(11, 20)]
    );
    assert_eq!(
        ActivePiece::spawn(ShapeKind::I).cells,
        vec![c(10, 19), c(10, 20), c(10, 21), c(10, 22)]
    );
    assert_eq!(
        ActivePiece::spawn(ShapeKind::S).cells,
        vec![c(10, 20), c(11, 20), c(11, 19), c(12, 19)]
    );
    assert_eq!(
        ActivePiece::spawn(ShapeKind::Z).cells,
        vec![c(10, 19), c(11, 19), c(11, 20), c(12, 20)]
    );
    assert_eq!(
        ActivePiece::spawn(ShapeKind::L).cells,
        vec![c(10, 19), c(10, 20), c(10, 21), c(11, 21)]
    );
    assert_eq!(
        ActivePiece::spawn(ShapeKind::J).cells,
        vec![c(10, 19), c(10, 20), c(10, 21), c(11, 19)]
    );
    assert_eq!(
        ActivePiece::spawn(ShapeKind::T).cells,
        vec![c(10, 19), c(11, 19), c(12, 19), c(11, 20)]
    );
}

#[test]
fn colors_follow_the_catalog_position() {
    for (i, k) in KINDS.iter().enumerate() {
        assert_eq!(kind_color(*k), i as u8);
        assert_eq!(ActivePiece::spawn(*k).color, i as u8);
    }
}

#[test]
fn kind_from_index_inverts_the_catalog_order() {
    for (i, k) in KINDS.iter().enumerate() {
        assert_eq!(kind_from_index(i as u8), *k);
    }
}

#[test]
fn pivot_is_the_first_catalog_cell() {
    assert_eq!(ActivePiece::spawn(ShapeKind::O).pivot(), c(10, 19));
    // the S shape's first offset sits one row above the spawn origin
    assert_eq!(ActivePiece::spawn(ShapeKind::S).pivot(), c(10, 20));
}

#[test]
fn rotation_turns_o_about_its_first_cell() {
    let board = Board::new();
    let mut p = ActivePiece::spawn(ShapeKind::O);
    let turned = try_rotate(&board, &mut p);
    assert!(turned);
    // quarter turn counter-clockwise about (10, 19)
    assert_eq!(p.cells, vec![c(10, 19), c(10, 20), c(9, 19), c(9, 20)]);
}

#[test]
fn four_rotations_return_every_kind_to_its_spawn_cells() {
    let board = Board::new();
    for k in KINDS.iter() {
        let mut p = ActivePiece::spawn(*k);
        let original = p.cells.clone();
        for _ in 0..4 {
            assert!(try_rotate(&board, &mut p));
        }
        assert_eq!(p.cells, original);
    }
}

#[test]
fn rotation_that_would_leave_the_arena_is_rejected() {
    let board = Board::new();
    // a vertical I piece standing on the left wall: its quarter turn would
    // reach columns left of the arena
    let mut p = ActivePiece { cells: vec![c(0, 19), c(0, 20), c(0, 21), c(0, 22)], color: 1 };
    let before = p.cells.clone();
    assert!(!try_rotate(&board, &mut p));
    assert_eq!(p.cells, before);
}

#[test]
fn rotation_into_a_settled_cell_is_rejected() {
    let mut board = Board::new();
    // (9, 19) is one of the points the O piece would rotate onto
    board.lock(&vec![c(9, 19), c(9, 18), c(9, 17), c(9, 16)], 2);
    let mut p = ActivePiece::spawn(ShapeKind::O);
    let before = p.cells.clone();
    assert!(!try_rotate(&board, &mut p));
    assert_eq!(p.cells, before);
}

#[test]
fn random_spawn_is_one_of_the_seven_catalog_pieces() {
    for _ in 0..50 {
        let p = spawn_random_piece();
        assert!(KINDS.iter().any(|k| {
            let reference = ActivePiece::spawn(*k);
            reference.cells == p.cells && reference.color == p.color
        }));
    }
}
