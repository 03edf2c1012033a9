//! Grid simulation of a falling-block puzzle: a shape catalog, a palette,
//! an occupancy grid, and the descent step that moves or freezes the
//! falling piece.
use vstd::prelude::*;

pub mod block;
pub mod board;
pub mod catalog;
pub mod game;
pub mod render;

verus! {

/// Width of the playfield, in cells.
pub const WIDTH: i32 = 10;

/// Height of the playfield, in cells.
pub const HEIGHT: i32 = 18;

/// Width of one cell on screen, in pixels.
pub const UNIT_WIDTH: i32 = 40;

/// Height of one cell on screen, in pixels.
pub const UNIT_HEIGHT: i32 = 40;

/// Width of the screen, in pixels.
pub const SCREEN_WIDTH: i32 = UNIT_WIDTH * WIDTH;

/// Height of the screen, in pixels.
pub const SCREEN_HEIGHT: i32 = UNIT_HEIGHT * HEIGHT;

/// Gravity interval, in milliseconds.
pub const FALL_INTERVAL_MS: u64 = 400;

} // verus!
