//! What the physics of the field reports: who touched whom, and where.

use vstd::prelude::*;
use crate::geometry::Vector3;

verus! {

/// The kinds of things that can touch each other.
#[derive(Debug, Clone, Copy, PartialEq, Eq, Structural)]
pub enum CollidableKind {
    Ball,
    Wall,
    DeathTrigger,
    /// A death trigger that acts only on what crosses it along its normal.
    DirectionalDeathTrigger(Vector3),
    Ship,
    Block,
    Pickup,
}

/// One contact, as seen from one of the two things that met.
#[derive(Debug, Clone, Copy, PartialEq, Eq)]
pub struct Collision {
    /// Identifier of the other thing.
    pub other_entity: u64,
    pub other: CollidableKind,
    /// Where this thing stood.
    pub pos: Vector3,
    pub other_velocity: Option<Vector3>,
    /// Where the other thing stood.
    pub other_pos: Vector3,
}

} // verus!
