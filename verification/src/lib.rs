//! Core state machine of a falling-block puzzle game: the grid model, the
//! shape catalog, the settled board, the active piece, the per-frame
//! collision, movement and rotation rules, and the gravity/lock/spawn
//! transition. Rendering, input polling and the frame clock live outside
//! this crate; the library consumes held-key booleans and elapsed
//! microseconds and yields logical cell lists.

pub mod grid;
pub mod shapes;
pub mod piece;
pub mod board;
pub mod motion;
pub mod timers;
pub mod game;
pub mod laws;
