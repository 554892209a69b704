//! The player's ball economy: where each ball the player owns stands.

use vstd::prelude::*;
use crate::pickups::PickupType;
use crate::powerups::Grabber;

verus! {

/// How the player's current match ended, if it has.
#[derive(Debug, Clone, Copy, PartialEq, Eq, Structural)]
pub enum PlayerState {
    Open,
    HasWon,
    HasLost,
}

/// Ball inventory and score of the player.
///
/// A ball moves from the reserve (`balls_available`) onto the paddle
/// (`balls_carried`) and from there into play (`balls_in_play`). A ball
/// recalled from play is carried again and also counted in `balls_grabbed`
/// until it is next launched. No movement takes a ball from an empty pool.
#[derive(Debug, Clone, Copy, PartialEq, Eq, Structural)]
pub struct Player {
    pub state: PlayerState,
    /// Points over all matches won.
    pub points: i32,
    pub balls_available: i32,
    pub balls_carried: i32,
    pub balls_in_play: i32,
    pub balls_lost: i32,
    pub balls_grabbed: i32,
}

/// Mathematical value of a [`Player`]: the same counters, unbounded.
pub struct PlayerModel {
    pub state: PlayerState,
    pub points: int,
    pub balls_available: int,
    pub balls_carried: int,
    pub balls_in_play: int,
    pub balls_lost: int,
    pub balls_grabbed: int,
}

impl View for Player {
    type V = PlayerModel;

    open spec fn view(&self) -> PlayerModel {
        PlayerModel {
            state: self.state,
            points: self.points as int,
            balls_available: self.balls_available as int,
            balls_carried: self.balls_carried as int,
            balls_in_play: self.balls_in_play as int,
            balls_lost: self.balls_lost as int,
            balls_grabbed: self.balls_grabbed as int,
        }
    }
}

impl PlayerModel {
    /// A player with no balls, no points and an open match.
    pub open spec fn fresh() -> PlayerModel {
        PlayerModel {
            state: PlayerState::Open,
            points: 0,
            balls_available: 0,
            balls_carried: 0,
            balls_in_play: 0,
            balls_lost: 0,
            balls_grabbed: 0,
        }
    }

    /// No pool and no counter of balls is negative.
    pub open spec fn wf(self) -> bool {
        &&& self.balls_available >= 0
        &&& self.balls_carried >= 0
        &&& self.balls_in_play >= 0
        &&& self.balls_grabbed >= 0
        &&& self.balls_lost >= 0
    }

    /// Sum of the four pools.
    pub open spec fn total(self) -> int {
        self.balls_carried + self.balls_in_play + self.balls_grabbed + self.balls_available
    }

    /// Number of balls the player owns: a grabbed ball is a carried one, so
    /// the pool of grabbed balls adds nothing.
    pub open spec fn owned(self) -> int {
        self.balls_available + self.balls_carried + self.balls_in_play
    }

    /// The player as a new match begins: the reserve and the points stay.
    pub open spec fn reset_for_match(self) -> PlayerModel {
        PlayerModel {
            balls_lost: 0,
            balls_in_play: 0,
            balls_grabbed: 0,
            balls_carried: 0,
            state: PlayerState::Open,
            ..self
        }
    }

    /// A ball was taken from the reserve onto the paddle, if one was left.
    pub open spec fn ball_spawned(self) -> PlayerModel {
        if self.balls_available > 0 {
            PlayerModel {
                balls_available: self.balls_available - 1,
                balls_carried: self.balls_carried + 1,
                ..self
            }
        } else {
            self
        }
    }

    /// A ball left the paddle: one grabbed ball fewer, if there was one, and
    /// one carried ball moved into play, if there was one.
    pub open spec fn ball_launched(self) -> PlayerModel {
        PlayerModel {
            balls_grabbed: if self.balls_grabbed > 0 {
                self.balls_grabbed - 1
            } else {
                self.balls_grabbed
            },
            balls_carried: if self.balls_carried > 0 {
                self.balls_carried - 1
            } else {
                self.balls_carried
            },
            balls_in_play: if self.balls_carried > 0 {
                self.balls_in_play + 1
            } else {
                self.balls_in_play
            },
            ..self
        }
    }

    /// A ball in play was recalled to the paddle, if one was in play.
    pub open spec fn ball_grabbed(self) -> PlayerModel {
        if self.balls_in_play > 0 {
            PlayerModel {
                balls_carried: self.balls_carried + 1,
                balls_grabbed: self.balls_grabbed + 1,
                balls_in_play: self.balls_in_play - 1,
                ..self
            }
        } else {
            self
        }
    }

    /// A ball left the field.
    pub open spec fn ball_lost(self) -> PlayerModel {
        PlayerModel {
            balls_in_play: if self.balls_in_play > 0 {
                self.balls_in_play - 1
            } else {
                self.balls_in_play
            },
            balls_lost: self.balls_lost + 1,
            ..self
        }
    }

    /// The match was won with `match_points` points: the balls in play go
    /// back to the reserve and the points are added to the player's.
    pub open spec fn player_has_won(self, match_points: int) -> PlayerModel {
        PlayerModel {
            balls_available: self.balls_available + self.balls_in_play,
            balls_in_play: 0,
            points: self.points + match_points,
            ..self
        }
    }
}

/// Whether `value` is a value of `i32`.
pub open spec fn fits_i32(value: int) -> bool {
    i32::MIN <= value <= i32::MAX
}

impl Default for Player {
    fn default() -> (p: Player)
        ensures
            p@ == PlayerModel::fresh(),
    {
        Player {
            state: PlayerState::Open,
            points: 0,
            balls_available: 0,
            balls_carried: 0,
            balls_in_play: 0,
            balls_grabbed: 0,
            balls_lost: 0,
        }
    }
}

impl Player {
    /// Takes everything from the player: balls, points and the match's
    /// outcome.
    pub fn reset(&mut self)
        ensures
            final(self)@ == PlayerModel::fresh(),
    {
        self.state = PlayerState::Open;
        self.points = 0;
        self.balls_available = 0;
        self.balls_carried = 0;
        self.balls_in_play = 0;
        self.balls_grabbed = 0;
        self.balls_lost = 0;
    }

    /// Prepares the player for the next match. The reserve and the points
    /// stay.
    pub fn reset_for_match(&mut self)
        ensures
            final(self)@ == old(self)@.reset_for_match(),
    {
        self.balls_lost = 0;
        self.balls_in_play = 0;
        self.balls_grabbed = 0;
        self.balls_carried = 0;
        self.state = PlayerState::Open;
    }

    /// Sets the reserve to `count` balls.
    pub fn set_balls(&mut self, count: i32)
        ensures
            final(self)@ == (PlayerModel { balls_available: count as int, ..old(self)@ }),
    {
        self.balls_available = count;
    }

    /// Adds `count` balls to the reserve.
    pub fn add_balls(&mut self, count: i32)
        requires
            fits_i32(old(self).balls_available + count),
        ensures
            final(self)@ == (PlayerModel {
                balls_available: old(self).balls_available + count,
                ..old(self)@
            }),
    {
        self.balls_available += count
    }

    /// Moves a ball from the reserve onto the paddle. Does nothing when the
    /// reserve is empty.
    pub fn ball_spawned(&mut self)
        requires
            old(self).balls_available > 0 ==> old(self).balls_carried < i32::MAX,
        ensures
            final(self)@ == old(self)@.ball_spawned(),
    {
        if self.balls_available > 0 {
            self.balls_available -= 1;
            self.balls_carried += 1;
        }
    }

    /// Launches a ball: a grabbed ball is no longer grabbed, and a carried
    /// ball is in play. Does nothing to a pool that is empty.
    pub fn ball_launched(&mut self)
        requires
            old(self).balls_carried > 0 ==> old(self).balls_in_play < i32::MAX,
        ensures
            final(self)@ == old(self)@.ball_launched(),
    {
        if self.balls_grabbed > 0 {
            self.balls_grabbed -= 1;
        }

        if self.balls_carried > 0 {
            self.balls_carried -= 1;
            self.balls_in_play += 1;
        }
    }

    /// Recalls a ball from play: it is carried and grabbed. Does nothing
    /// when no ball is in play.
    pub fn ball_grabbed(&mut self)
        requires
            old(self).balls_in_play > 0 ==> old(self).balls_carried < i32::MAX && old(
                self
            ).balls_grabbed < i32::MAX,
        ensures
            final(self)@ == old(self)@.ball_grabbed(),
    {
        if self.balls_in_play > 0 {
            self.balls_carried += 1;
            self.balls_grabbed += 1;
            self.balls_in_play -= 1;
        }
    }

    /// Counts a lost ball and takes it out of play, if one was in play.
    pub fn ball_lost(&mut self)
        requires
            old(self).balls_lost < i32::MAX,
        ensures
            final(self)@ == old(self)@.ball_lost(),
    {
        if self.balls_in_play > 0 {
            self.balls_in_play -= 1;
        }
        self.balls_lost += 1;
    }

    /// Ends a won match: the balls in play return to the reserve and the
    /// match's points are added to the player's.
    pub fn player_has_won(&mut self, match_points: i32)
        requires
            fits_i32(old(self).balls_available + old(self).balls_in_play),
            fits_i32(old(self).points + match_points),
        ensures
            final(self)@ == old(self)@.player_has_won(match_points as int),
    {
        self.balls_available += self.balls_in_play;
        self.balls_in_play = 0;
        self.points += match_points;
    }

    /// Sum of the four pools of balls.
    pub fn total_ball_count(&self) -> (count: i32)
        requires
            fits_i32(self.balls_carried + self.balls_in_play),
            fits_i32(self.balls_carried + self.balls_in_play + self.balls_grabbed),
            fits_i32(self@.total()),
        ensures
            count == self@.total(),
    {
        return self.balls_carried + self.balls_in_play + self.balls_grabbed + self.balls_available;
    }
}

/// Adds the balls of a caught pickup to the player's reserve. Returns
/// whether the pickup was one of balls.
pub fn player_pickup_more_balls(player: &mut Player, pickup: &PickupType) -> (taken: bool)
    requires
        *pickup matches PickupType::MoreBalls(count) ==> fits_i32(
            old(player).balls_available + count,
        ),
    ensures
        taken == (*pickup is MoreBalls),
        final(player)@ == match *pickup {
            PickupType::MoreBalls(count) => PlayerModel {
                balls_available: old(player).balls_available + count,
                ..old(player)@
            },
            PickupType::Grabber(_) => old(player)@,
        },
{
    if let PickupType::MoreBalls(count) = pickup {
        player.add_balls(*count);
        true
    } else {
        false
    }
}

/// The grabber that a player has once a pickup is caught: the grabs of a
/// grabber pickup are added to those that the player had, and any other
/// pickup changes nothing.
pub open spec fn grabber_after_pickup(current: Option<Grabber>, pickup: PickupType) -> Option<
    Grabber,
> {
    match pickup {
        PickupType::Grabber(count) => Some(
            Grabber {
                grabs: match current {
                    Some(grabber) => (count + grabber.grabs) as i16,
                    None => count,
                },
            },
        ),
        PickupType::MoreBalls(_) => current,
    }
}

/// Hands a caught pickup to the player's grabber, if the player has one.
pub fn player_pickup_grabber(current: Option<Grabber>, pickup: &PickupType) -> (grabber: Option<
    Grabber,
>)
    requires
        match (current, *pickup) {
            (Some(grabber), PickupType::Grabber(count)) => i16::MIN <= count + grabber.grabs
                <= i16::MAX,
            _ => true,
        },
    ensures
        grabber == grabber_after_pickup(current, *pickup),
{
    match pickup {
        PickupType::Grabber(count) => match current {
            Some(grabber) => Some(Grabber { grabs: *count + grabber.grabs }),
            None => Some(Grabber { grabs: *count }),
        },
        PickupType::MoreBalls(_) => current,
    }
}

} // verus!
