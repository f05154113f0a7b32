//! A verified core for a two-player Tic-tac-toe game.
//!
//! The crate models the 3x3 board, the eight winning lines, the
//! screen-rectangle to board-cell projection arithmetic, and the
//! turn-taking state machine that a windowing front end drives with
//! mouse clicks.  Rendering and event polling live outside the crate;
//! everything here is plain data and verified logic.

pub mod area;
pub mod field;
pub mod playstate;
