//! Points and directions.

use vstd::prelude::*;

verus! {

/// A point of the grid of blocks, in halves of a hundredth of a world unit.
#[derive(Debug, Clone, Copy, PartialEq, Eq, Structural)]
pub struct Position {
    pub x: i64,
    pub y: i64,
}

/// A point or a direction in space, in hundredths of a world unit.
#[derive(Debug, Clone, Copy, PartialEq, Eq, Structural)]
pub struct Vector3 {
    pub x: i64,
    pub y: i64,
    pub z: i64,
}

} // verus!
