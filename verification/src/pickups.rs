//! What a destroyed block may release for the player to catch.

use vstd::prelude::*;
use crate::events::MatchEvent;
use crate::physics::CollidableKind;

verus! {

/// A pickup and the amount it grants.
#[derive(Debug, Clone, Copy, PartialEq, Eq, Structural)]
pub enum PickupType {
    /// Balls added to the player's reserve.
    MoreBalls(i32),
    /// Grabs added to the player's grabber.
    Grabber(i16),
}

/// Tells the match when the ship catches a pickup. A pickup that touches
/// anything leaves the field, caught or not.
pub fn pickup_handle_collisions(pickup_type: &PickupType, other: &CollidableKind) -> (event:
    Option<MatchEvent>)
    ensures
        event == if *other is Ship {
            Some(MatchEvent::PickedUp(*pickup_type))
        } else {
            None
        },
{
    match other {
        CollidableKind::Ship => Some(MatchEvent::PickedUp(*pickup_type)),
        CollidableKind::DeathTrigger => None,
        _ => None,
    }
}

} // verus!
