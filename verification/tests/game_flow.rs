use tetris_core::game::{GameState, Inputs};
use tetris_core::grid::Coord;

fn c(col: i32, row: i32) -> Coord {
    Coord { col, row }
}

fn no_input() -> Inputs {
    Inputs { left_held: false, right_held: false, rotate_held: false }
}

fn left_input() -> Inputs {
    Inputs { left_held: true, right_held: false, rotate_held: false }
}

fn right_input() -> Inputs {
    Inputs { left_held: false, right_held: true, rotate_held: false }
}

const GRAVITY: u64 = 100_000;
const GATE: u64 = 200_000;

#[test]
fn first_piece_is_o_at_spawn_origin() {
    let g = GameState::new();
    assert_eq!(g.piece.cells, vec![c(10, 19), c(11, 19), c(10, 20), c(11, 20)]);
    assert_eq!(g.piece.color, 0);
    assert!(g.board.cells.is_empty());
}

#[test]
fn gravity_moves_spawned_o_down_one_row() {
    let mut g = GameState::new();
    g.fall_down(GRAVITY);
    assert_eq!(g.piece.cells, vec![c(10, 18), c(11, 18), c(10, 19), c(11, 19)]);
    assert!(g.board.cells.is_empty());
}

#[test]
fn gravity_does_not_fire_before_its_period() {
    let mut g = GameState::new();
    g.fall_down(GRAVITY - 1);
    assert_eq!(g.piece.cells, vec![c(10, 19), c(11, 19), c(10, 20), c(11, 20)]);
    g.fall_down(1);
    assert_eq!(g.piece.cells, vec![c(10, 18), c(11, 18), c(10, 19), c(11, 19)]);
}

#[test]
fn o_piece_falls_to_floor_and_locks() {
    let mut g = GameState::new();
    for fall in 1..=19 {
        g.fall_down(GRAVITY);
        assert_eq!(
            g.piece.cells,
            vec![c(10, 19 - fall), c(11, 19 - fall), c(10, 20 - fall), c(11, 20 - fall)]
        );
        assert!(g.board.cells.is_empty());
    }
    // the lowest cells now rest on row 0; the next tick locks
    g.fall_down(GRAVITY);
    assert_eq!(g.board.cells.len(), 4);
    let locked: Vec<(Coord, u8)> = g.board.cells.iter().map(|cl| (cl.pos, cl.color)).collect();
    assert_eq!(locked, vec![(c(10, 0), 0), (c(11, 0), 0), (c(10, 1), 0), (c(11, 1), 0)]);
    // a replacement spawned at once, inside the spawn area
    assert_eq!(g.piece.cells.len(), 4);
    for cell in g.piece.cells.iter() {
        assert!(10 <= cell.col && cell.col <= 12);
        assert!(19 <= cell.row && cell.row <= 22);
    }
    assert!(g.piece.color < 7);
}

#[test]
fn left_edge_forbids_left_moves() {
    let mut g = GameState::new();
    // walk the O piece from columns 10 and 11 to the left wall
    for _ in 0..10 {
        g.check_movement();
        g.move_piece(left_input(), GATE);
    }
    assert_eq!(g.piece.cells, vec![c(0, 19), c(1, 19), c(0, 20), c(1, 20)]);
    g.check_movement();
    assert!(!g.allow_left);
    assert!(g.allow_right);
    // a further left request leaves every column unchanged
    g.move_piece(left_input(), GATE);
    assert_eq!(g.piece.cells, vec![c(0, 19), c(1, 19), c(0, 20), c(1, 20)]);
}

#[test]
fn settled_cell_to_the_right_forbids_right_moves() {
    let mut g = GameState::new();
    // a settled column directly right of the active O piece, far from the wall
    let wall = vec![c(12, 19), c(12, 18), c(12, 17), c(12, 16)];
    g.board.lock(&wall, 3);
    g.check_movement();
    assert!(!g.allow_right);
    assert!(g.allow_left);
    g.move_piece(right_input(), GATE);
    assert_eq!(g.piece.cells, vec![c(10, 19), c(11, 19), c(10, 20), c(11, 20)]);
}

#[test]
fn flags_recompute_is_idempotent() {
    let mut g = GameState::new();
    let wall = vec![c(12, 19), c(12, 18), c(12, 17), c(12, 16)];
    g.board.lock(&wall, 3);
    g.check_movement();
    let first = (g.allow_left, g.allow_right);
    g.check_movement();
    let second = (g.allow_left, g.allow_right);
    assert_eq!(first, second);
    assert_eq!(first, (true, false));
}

#[test]
fn move_gate_throttles_and_restarts() {
    let mut g = GameState::new();
    // half a period: the held key is ignored entirely
    g.check_movement();
    g.move_piece(left_input(), GATE / 2);
    assert_eq!(g.piece.cells, vec![c(10, 19), c(11, 19), c(10, 20), c(11, 20)]);
    // the other half: one evaluation is admitted
    g.check_movement();
    g.move_piece(left_input(), GATE / 2);
    assert_eq!(g.piece.cells, vec![c(9, 19), c(10, 19), c(9, 20), c(10, 20)]);
    // the timer restarted: the very next frame is ignored again
    g.check_movement();
    g.move_piece(left_input(), GATE / 2);
    assert_eq!(g.piece.cells, vec![c(9, 19), c(10, 19), c(9, 20), c(10, 20)]);
}

#[test]
fn opposite_keys_cancel_out() {
    let mut g = GameState::new();
    g.check_movement();
    g.move_piece(
        Inputs { left_held: true, right_held: true, rotate_held: false },
        GATE,
    );
    assert_eq!(g.piece.cells, vec![c(10, 19), c(11, 19), c(10, 20), c(11, 20)]);
}

#[test]
fn step_runs_a_whole_frame_in_order() {
    let mut g = GameState::new();
    // one frame long enough to fire every timer: the piece moves left once
    // and falls one row
    g.step(left_input(), GATE);
    assert_eq!(g.piece.cells, vec![c(9, 18), c(10, 18), c(9, 19), c(10, 19)]);
    assert!(g.board.cells.is_empty());
}

#[test]
fn long_run_keeps_cells_inside_the_arena() {
    let mut g = GameState::new();
    let patterns = [
        no_input(),
        left_input(),
        right_input(),
        Inputs { left_held: false, right_held: false, rotate_held: true },
        Inputs { left_held: true, right_held: false, rotate_held: true },
    ];
    let mut locks_seen = 0;
    for frame in 0..900 {
        let settled_before = g.board.cells.len();
        g.step(patterns[frame % patterns.len()], 17_000);
        if g.board.cells.len() > settled_before {
            assert_eq!(g.board.cells.len(), settled_before + 4);
            locks_seen += 1;
        }
        for cell in g.piece.cells.iter() {
            assert!(0 <= cell.col && cell.col < 20);
            assert!(0 <= cell.row && cell.row <= 22);
        }
        for cell in g.board.cells.iter() {
            assert!(0 <= cell.pos.col && cell.pos.col < 20);
            assert!(0 <= cell.pos.row && cell.pos.row <= 22);
        }
        // the no-overlap guarantee holds as long as the stack has not
        // reached the spawn area; once it has, the run has topped out
        let topped_out = g.board.cells.iter().any(|b| {
            10 <= b.pos.col && b.pos.col <= 12 && 19 <= b.pos.row && b.pos.row <= 22
        });
        if topped_out {
            break;
        }
        for a in g.piece.cells.iter() {
            for b in g.board.cells.iter() {
                assert_ne!(*a, b.pos);
            }
        }
    }
    // the run was long enough to exercise several lock-and-respawn cycles
    assert!(locks_seen >= 3);
}
