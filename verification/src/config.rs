//! Fixed dimensions of the playing field, in hundredths of a world unit.
//! Positions on the grid of blocks are counted in a finer unit, of which
//! `POSITION_UNITS` make a hundredth.

use vstd::prelude::*;

verus! {

/// Number of position units in a hundredth of a world unit. Positions are
/// counted in halves of a hundredth, so that half of a gap given in
/// hundredths is a whole number of them.
pub const POSITION_UNITS: i64 = 2;

/// Width of a block along the x axis.
pub const BLOCK_WIDTH: i64 = 1500;

/// Half of [`BLOCK_WIDTH`].
pub const BLOCK_WIDTH_H: i64 = 750;

/// Depth of a block along the y axis of a layout.
pub const BLOCK_DEPTH: i64 = 751;

/// Gap between neighbouring blocks that the built-in levels use.
pub const BLOCK_GAP: i32 = 200;

/// The y coordinate from which the first row of a grid is offset.
pub const GRID_ORIGIN_Y: i64 = -3000;

/// Number of row pitches by which the first row lies above [`GRID_ORIGIN_Y`].
pub const GRID_LEAD_ROWS: i64 = 4;

/// Half of the arena's width.
pub const ARENA_WIDTH_H: i64 = 10000;

/// Speed given to every evading block that a layout text declares.
pub const EVADER_SPEED: i32 = 1000;

/// Distance within which the ship draws a ball towards itself.
pub const GRAB_ATTRACT_RADIUS: i64 = 3000;

/// Distance within which the ship takes a ball on board.
pub const GRAB_RADIUS: i64 = 200;

} // verus!
