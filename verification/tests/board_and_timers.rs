use tetris_core::board::Board;
use tetris_core::game::GameState;
use tetris_core::grid::{Cell, Coord};
use tetris_core::timers::{GateTimer, RepeatTimer};

fn c(col: i32, row: i32) -> Coord {
    Coord { col, row }
}

#[test]
fn empty_board_occupies_nothing() {
    let b = Board::new();
    assert!(b.cells.is_empty());
    assert!(!b.is_occupied(c(0, 0)));
    assert!(!b.is_occupied(c(10, 19)));
}

#[test]
fn lock_adds_exactly_the_four_cells() {
    let mut b = Board::new();
    let ps = vec![c(3, 0), c(4, 0), c(3, 1), c(4, 1)];
    b.lock(&ps, 5);
    assert_eq!(b.cells.len(), 4);
    for p in ps.iter() {
        assert!(b.is_occupied(*p));
        assert_eq!(b.cells.iter().filter(|cl| cl.pos == *p).count(), 1);
    }
    assert!(!b.is_occupied(c(5, 0)));
    assert!(b.cells.iter().all(|cl| cl.color == 5));
}

#[test]
fn board_grows_by_four_per_lock_and_never_shrinks() {
    let mut b = Board::new();
    b.lock(&vec![c(0, 0), c(1, 0), c(2, 0), c(3, 0)], 0);
    assert_eq!(b.cells.len(), 4);
    b.lock(&vec![c(0, 1), c(1, 1), c(2, 1), c(3, 1)], 6);
    assert_eq!(b.cells.len(), 8);
    // the earlier cells are still there, unchanged
    assert_eq!(b.cells[0], Cell { pos: c(0, 0), color: 0 });
    assert!(b.is_occupied(c(3, 0)));
}

#[test]
fn repeat_timer_fires_on_its_period_and_keeps_the_remainder() {
    let mut t = RepeatTimer::new(100);
    assert!(!t.advance(99));
    assert_eq!(t.elapsed, 99);
    assert!(t.advance(1));
    assert_eq!(t.elapsed, 0);
    assert!(t.advance(250));
    assert_eq!(t.elapsed, 50);
}

#[test]
fn repeat_timer_fires_at_most_once_per_advance() {
    let mut t = RepeatTimer::new(100_000);
    // a slice spanning many periods still reports a single firing
    assert!(t.advance(1_000_000));
    assert_eq!(t.elapsed, 0);
    assert!(!t.advance(99_999));
}

#[test]
fn gate_timer_restarts_on_every_elapse() {
    let mut t = GateTimer::new(200);
    assert!(!t.advance(100));
    assert_eq!(t.elapsed, 100);
    assert!(t.advance(150));
    assert_eq!(t.elapsed, 0);
    assert!(!t.advance(199));
    assert!(t.advance(1));
    assert_eq!(t.elapsed, 0);
}

#[test]
fn render_lists_settled_cells_then_active_cells() {
    let mut g = GameState::new();
    g.board.lock(&vec![c(0, 0), c(1, 0), c(2, 0), c(3, 0)], 4);
    let cells = g.render_cells();
    assert_eq!(cells.len(), 8);
    assert_eq!(cells[0], Cell { pos: c(0, 0), color: 4 });
    assert_eq!(cells[3], Cell { pos: c(3, 0), color: 4 });
    assert_eq!(cells[4], Cell { pos: c(10, 19), color: 0 });
    assert_eq!(cells[7], Cell { pos: c(11, 20), color: 0 });
}
