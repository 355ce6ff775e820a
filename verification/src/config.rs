//! The fixed parameters of the game.

use vstd::prelude::*;

verus! {

/// Width of the visible grid, in cells. A new wall stands this far ahead.
pub const SCREEN_WIDTH: i32 = 80;

/// Height of the visible grid, in cells.
pub const SCREEN_HEIGHT: i32 = 50;

/// Time that must have accumulated before physics steps are taken, in
/// microseconds.
pub const FRAME_DURATION_MICROS: u64 = 75_000;

/// Column at which the player starts, in world space.
pub const START_X: i32 = 5;

/// Row at which the player starts.
pub const START_Y: i32 = 25;

} // verus!
