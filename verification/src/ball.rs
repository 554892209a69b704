//! The ball: what its contacts mean for the match.

use vstd::prelude::*;
use crate::events::MatchEvent;
use crate::physics::CollidableKind;

verus! {

/// What follows from a contact of the ball.
#[derive(Debug, Clone, Copy, PartialEq, Eq, Structural)]
pub struct BallContact {
    /// What the match is told.
    pub event: Option<MatchEvent>,
    /// Whether the ball gets the bounce of the paddle.
    pub bounce: bool,
    /// Whether the ball's speed is brought back into its bounds.
    pub correct_speed: bool,
    /// Whether the ball leaves the field.
    pub despawn: bool,
}

/// What follows when the ball touches something of kind `other`: the ship
/// bounces it, a wall is noted, a death trigger takes it, and the ship and a
/// block have its speed corrected.
pub open spec fn ball_contact(other: CollidableKind) -> BallContact {
    match other {
        CollidableKind::Ship => BallContact {
            event: Some(MatchEvent::BounceOffPaddle),
            bounce: true,
            correct_speed: true,
            despawn: false,
        },
        CollidableKind::Wall => BallContact {
            event: Some(MatchEvent::BounceOffWall),
            bounce: false,
            correct_speed: false,
            despawn: false,
        },
        CollidableKind::DeathTrigger => BallContact {
            event: Some(MatchEvent::BallLost),
            bounce: false,
            correct_speed: false,
            despawn: true,
        },
        CollidableKind::Block => BallContact {
            event: None,
            bounce: false,
            correct_speed: true,
            despawn: false,
        },
        _ => BallContact { event: None, bounce: false, correct_speed: false, despawn: false },
    }
}

/// Decides what follows from a contact of the ball.
pub fn ball_handle_collisions(other: &CollidableKind) -> (contact: BallContact)
    ensures
        contact == ball_contact(*other),
{
    let mut contact = BallContact {
        event: None,
        bounce: false,
        correct_speed: false,
        despawn: false,
    };
    match other {
        CollidableKind::Ship => {
            contact.correct_speed = true;
            contact.bounce = true;
            contact.event = Some(MatchEvent::BounceOffPaddle);
        },
        CollidableKind::Wall => {
            contact.event = Some(MatchEvent::BounceOffWall);
        },
        CollidableKind::DeathTrigger => {
            contact.event = Some(MatchEvent::BallLost);
            contact.despawn = true;
        },
        CollidableKind::Block => {
            contact.correct_speed = true;
        },
        _ => {},
    }
    contact
}

} // verus!
