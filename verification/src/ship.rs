//! The ship: what its controls ask of the match.

use vstd::prelude::*;
use crate::config::{GRAB_ATTRACT_RADIUS, GRAB_RADIUS};
use crate::events::MatchEvent;
use crate::player::Player;

verus! {

/// What the ship does to a ball while the player holds the grab control.
#[derive(Debug, Clone, Copy, PartialEq, Eq, Structural)]
pub enum GrabStep {
    /// The ball is out of reach, or the ship cannot grab now.
    Leave,
    /// The ball is drawn towards the ship.
    Pull,
    /// The ball is taken onto the ship.
    Grab,
}

/// What pressing the launch control asks for: a launch if a ball is on the
/// ship, carried or grabbed, and otherwise a new ball.
pub fn ship_launch_ball(player: &Player) -> (event: MatchEvent)
    ensures
        event == if player.balls_carried > 0 || player.balls_grabbed > 0 {
            MatchEvent::BallLaunched
        } else {
            MatchEvent::BallSpawned
        },
{
    if player.balls_carried > 0 || player.balls_grabbed > 0 {
        MatchEvent::BallLaunched
    } else {
        MatchEvent::BallSpawned
    }
}

/// What the ship does to a ball at `distance` from where it would sit on
/// the ship. A ship without a grabber, or with a grabbed ball on it, leaves
/// every ball alone, and so does one whose grab control is not held. A ball
/// within the grab radius is grabbed, and one within the wider radius of
/// attraction is pulled.
pub open spec fn grab_step(
    has_grabber: bool,
    balls_grabbed: int,
    held: bool,
    distance: int,
) -> GrabStep {
    if !has_grabber || balls_grabbed > 0 || !held || distance >= GRAB_ATTRACT_RADIUS {
        GrabStep::Leave
    } else if distance < GRAB_RADIUS {
        GrabStep::Grab
    } else {
        GrabStep::Pull
    }
}

/// Decides what the ship does to a ball at `distance`.
pub fn ship_grab_ball(player: &Player, has_grabber: bool, held: bool, distance: i64) -> (step:
    GrabStep)
    ensures
        step == grab_step(has_grabber, player.balls_grabbed as int, held, distance as int),
{
    if !has_grabber {
        return GrabStep::Leave;
    }
    if player.balls_grabbed > 0 {
        return GrabStep::Leave;
    }
    if held {
        if distance < GRAB_ATTRACT_RADIUS {
            if distance < GRAB_RADIUS {
                return GrabStep::Grab;
            } else {
                return GrabStep::Pull;
            }
        }
    }
    GrabStep::Leave
}

} // verus!
