//! The start of a game.

use vstd::prelude::*;
use crate::events::GameFlowEvent;
use crate::level::Levels;
use crate::player::{Player, PlayerModel, PlayerState};
use crate::powerups::{Bouncer, Grabber};

verus! {

/// Balls in the player's reserve when a game starts.
pub const STARTING_BALLS: i32 = 3;

/// Grabs of a new player's grabber.
pub const STARTING_GRABS: i16 = 5;

/// The count of bounces with which a game starts: negative, so that the
/// bounces do not run out.
pub const STARTING_BOUNCES: i16 = -1;

/// What a player has when a game starts.
#[derive(Debug, Clone, Copy, PartialEq, Eq)]
pub struct GameStart {
    pub player: Player,
    pub bouncer: Bouncer,
    /// The grabber of a new player. A player who has played before keeps
    /// what they had.
    pub grabber: Option<Grabber>,
}

/// Starts a game at the first level. The player starts with three balls in
/// reserve and nothing else, and with bounces that do not run out. A new
/// player also gets a grabber.
pub fn game_start(levels: &mut Levels, player: Option<Player>) -> (start: GameStart)
    ensures
        final(levels).current_level == 0,
        final(levels).definitions == old(levels).definitions,
        start.player@ == (PlayerModel {
            balls_available: STARTING_BALLS as int,
            ..PlayerModel::fresh()
        }),
        start.bouncer == (Bouncer { bounces: STARTING_BOUNCES }),
        start.grabber == if player is Some {
            None
        } else {
            Some(Grabber { grabs: STARTING_GRABS })
        },
{
    levels.current_level = 0;

    match player {
        Some(mut player) => {
            player.reset();
            player.balls_available = STARTING_BALLS;
            GameStart { player, bouncer: Bouncer { bounces: STARTING_BOUNCES }, grabber: None }
        },
        None => GameStart {
            player: Player {
                state: PlayerState::Open,
                points: 0,
                balls_available: STARTING_BALLS,
                balls_carried: 0,
                balls_in_play: 0,
                balls_lost: 0,
                balls_grabbed: 0,
            },
            bouncer: Bouncer { bounces: STARTING_BOUNCES },
            grabber: Some(Grabber { grabs: STARTING_GRABS }),
        },
    }
}

/// Moves on after a level: to the next one, whose match is then started, or
/// to the end of the game when the level was the last.
pub fn match_next_level(levels: &mut Levels) -> (event: GameFlowEvent)
    requires
        old(levels).definitions@.len() > 0,
    ensures
        final(levels).definitions == old(levels).definitions,
        final(levels).current_level == old(levels).next_index(),
        event == if old(levels).has_next() {
            GameFlowEvent::StartMatch
        } else {
            GameFlowEvent::EndGame
        },
{
    if levels.next_level() {
        GameFlowEvent::StartMatch
    } else {
        GameFlowEvent::EndGame
    }
}

} // verus!
