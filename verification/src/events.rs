//! What happens in a match, and what the game makes of it.

use vstd::prelude::*;
use crate::block::{BlockBehaviour, BlockType};
use crate::geometry::Vector3;
use crate::level::{LevelDefinition, WinCriteria};
use crate::match_state::{base_points, MatchModel, MatchState};
use crate::pickups::PickupType;
use crate::player::{fits_i32, Player, PlayerModel, PlayerState};
use crate::powerups::{Bouncer, PowerUpData};
use crate::state::GameState;

verus! {

/// A turn in the course of the game.
#[derive(Debug, Clone, Copy, PartialEq, Eq, Structural)]
pub enum GameFlowEvent {
    StartGame,
    StartMatch,
    PlayerWins,
    PlayerLooses,
    NextLevel,
    EndGame,
}

/// Something that happened on the field.
#[derive(Debug, Clone, Copy, PartialEq, Eq, Structural)]
pub enum MatchEvent {
    Start,
    BallSpawned,
    BallLaunched,
    BallGrabbed,
    BallLost,
    BlockLost,
    BounceOffPaddle,
    BounceOffWall,
    /// A block was destroyed: where, and what it was.
    BlockHit(Vector3, BlockType, BlockBehaviour),
    PickedUp(PickupType),
}

/// Whether the level is over, and how.
#[derive(Debug, Clone, Copy, PartialEq, Eq, Structural)]
pub enum LevelEndState {
    Won,
    Lost,
    Undecided,
}

/// Whether `hit` blocks out of `hit + lost` are at least `percent` percent.
/// Of no blocks at all, the share is reached if any was hit.
pub open spec fn hit_share_reached(hit: int, lost: int, percent: int) -> bool {
    let total = hit + lost;
    if total == 0 {
        hit > 0
    } else if total > 0 {
        hit * 100 >= percent * total
    } else {
        hit * 100 <= percent * total
    }
}

/// How the level stands. Once no block is left, it is won if the share of
/// blocks hit reaches the level's percentage, and lost if not. While blocks
/// are left, it is lost once the player has no ball in reserve and none in
/// play, and undecided otherwise.
pub open spec fn level_end_state(
    win_criteria: WinCriteria,
    player: PlayerModel,
    stats: MatchModel,
) -> LevelEndState {
    if stats.blocks == 0 {
        match win_criteria {
            WinCriteria::BlockHitPercentage(percent) => if hit_share_reached(
                stats.blocks_hit,
                stats.blocks_lost,
                percent as int,
            ) {
                LevelEndState::Won
            } else {
                LevelEndState::Lost
            },
        }
    } else if player.balls_available == 0 && stats.blocks > 0 && player.balls_in_play == 0 {
        LevelEndState::Lost
    } else {
        LevelEndState::Undecided
    }
}

/// Decides whether the level is won, lost or still open.
pub fn check_win_criteria(
    win_criteria: &WinCriteria,
    player: &Player,
    stats: &MatchState,
) -> (state: LevelEndState)
    ensures
        state == level_end_state(*win_criteria, player@, stats@),
{
    if stats.blocks == 0 {
        match win_criteria {
            WinCriteria::BlockHitPercentage(pct) => {
                let hit: i64 = stats.blocks_hit as i64;
                let total: i64 = hit + stats.blocks_lost as i64;
                let percent: i64 = *pct as i64;
                assert(-0x100_0000_0000 <= percent * total <= 0x100_0000_0000) by (nonlinear_arith)
                    requires
                        0 <= percent <= 255,
                        -0x1_0000_0000 <= total <= 0x1_0000_0000,
                ;
                let asked: i64 = percent * total;
                let reached = if total == 0 {
                    hit > 0
                } else if total > 0 {
                    hit * 100 >= asked
                } else {
                    hit * 100 <= asked
                };
                return if reached {
                    LevelEndState::Won
                } else {
                    LevelEndState::Lost
                };
            },
        };
    }
    if player.balls_available == 0 && stats.blocks > 0 && player.balls_in_play == 0 {
        return LevelEndState::Lost;
    }
    LevelEndState::Undecided
}

/// Something for the game to do in answer to an event on the field.
#[derive(Debug, Clone, Copy, PartialEq, Eq, Structural)]
pub enum MatchAction {
    /// Put a new ball on the paddle.
    SpawnBall,
    /// Show the points awarded at the place where they were earned.
    ShowPoints(i32, Vector3),
    /// Hand the pickup to the player.
    GivePickup(PickupType),
    /// Pass the event on to the course of the game.
    Send(GameFlowEvent),
}

/// Whether the player may take a ball from the reserve: one is left, none
/// is on the paddle, and fewer are in play than the level allows at once.
pub open spec fn spawn_allowed(player: PlayerModel, simultaneous_balls: int) -> bool {
    player.balls_available > 0 && player.balls_carried == 0 && player.balls_in_play
        < simultaneous_balls
}

/// The match's counters after an event.
pub open spec fn stats_after(stats: MatchModel, event: MatchEvent) -> MatchModel {
    match event {
        MatchEvent::Start => stats.reset(),
        MatchEvent::BallLost => stats.ball_lost(),
        MatchEvent::BounceOffPaddle => stats.paddle_bounce(),
        MatchEvent::BounceOffWall => stats.wall_hit(),
        MatchEvent::BlockHit(_, block_type, behaviour) => stats.block_hit(
            base_points(block_type, behaviour),
        ),
        MatchEvent::BlockLost => stats.block_lost(),
        _ => stats,
    }
}

/// The player's balls after an event.
pub open spec fn player_after(
    player: PlayerModel,
    event: MatchEvent,
    simultaneous_balls: int,
) -> PlayerModel {
    match event {
        MatchEvent::BallSpawned => if spawn_allowed(player, simultaneous_balls) {
            player.ball_spawned()
        } else {
            player
        },
        MatchEvent::BallLaunched => player.ball_launched(),
        MatchEvent::BallLost => player.ball_lost(),
        MatchEvent::BallGrabbed => player.ball_grabbed(),
        _ => player,
    }
}

/// The player's bounces after an event: a bounce off the paddle uses one
/// up, if one is left.
pub open spec fn bouncer_after(bouncer: Bouncer, event: MatchEvent) -> Bouncer {
    if event is BounceOffPaddle && bouncer.has_charge() {
        bouncer.used()
    } else {
        bouncer
    }
}

/// What an event asks the game to do, apart from ending the level.
pub open spec fn event_actions(
    stats: MatchModel,
    player: PlayerModel,
    bouncer: Bouncer,
    event: MatchEvent,
    simultaneous_balls: int,
) -> Seq<MatchAction> {
    match event {
        MatchEvent::BallSpawned => if spawn_allowed(player, simultaneous_balls) {
            seq![MatchAction::SpawnBall]
        } else {
            Seq::empty()
        },
        MatchEvent::BounceOffPaddle => if bouncer.has_charge() {
            Seq::empty()
        } else {
            seq![MatchAction::Send(GameFlowEvent::PlayerLooses)]
        },
        MatchEvent::BlockHit(position, block_type, behaviour) => seq![
            MatchAction::ShowPoints(
                stats.award(base_points(block_type, behaviour)) as i32,
                position,
            ),
        ],
        MatchEvent::PickedUp(pickup) => seq![MatchAction::GivePickup(pickup)],
        _ => Seq::empty(),
    }
}

/// What the state of the level asks the game to do.
pub open spec fn verdict_actions(state: LevelEndState) -> Seq<MatchAction> {
    match state {
        LevelEndState::Won => seq![MatchAction::Send(GameFlowEvent::PlayerWins)],
        LevelEndState::Lost => seq![MatchAction::Send(GameFlowEvent::PlayerLooses)],
        LevelEndState::Undecided => Seq::empty(),
    }
}

/// Whether an event can be counted: no counter that it moves leaves the
/// range of its type, and a block is left where one is hit or lost.
pub open spec fn event_admissible(
    stats: MatchModel,
    player: PlayerModel,
    bouncer: Bouncer,
    event: MatchEvent,
) -> bool {
    match event {
        MatchEvent::BallLaunched => player.balls_carried > 0 ==> player.balls_in_play < i32::MAX,
        MatchEvent::BallLost => player.balls_lost < i32::MAX,
        MatchEvent::BallGrabbed => player.balls_in_play > 0 ==> player.balls_carried < i32::MAX
            && player.balls_grabbed < i32::MAX,
        MatchEvent::BounceOffPaddle => stats.paddle_bounces < i32::MAX && bouncer.can_use(),
        MatchEvent::BounceOffWall => stats.wall_hits < i32::MAX,
        MatchEvent::BlockHit(_, block_type, behaviour) => stats.admits_hit(
            base_points(block_type, behaviour),
        ),
        MatchEvent::BlockLost => stats.admits_loss(),
        _ => true,
    }
}

/// Tells whether `match_event_handler` may be called with this event now.
pub fn can_handle(
    event: &MatchEvent,
    match_state: &MatchState,
    player: &Player,
    bouncer: &Bouncer,
) -> (ok: bool)
    ensures
        ok == event_admissible(match_state@, player@, *bouncer, *event),
{
    match event {
        MatchEvent::BallLaunched => !(player.balls_carried > 0) || player.balls_in_play < i32::MAX,
        MatchEvent::BallLost => player.balls_lost < i32::MAX,
        MatchEvent::BallGrabbed => !(player.balls_in_play > 0) || (player.balls_carried
            < i32::MAX && player.balls_grabbed < i32::MAX),
        MatchEvent::BounceOffPaddle => match_state.paddle_bounces < i32::MAX && bouncer.bounces
            > i16::MIN,
        MatchEvent::BounceOffWall => match_state.wall_hits < i32::MAX,
        MatchEvent::BlockHit(_, block_type, behaviour) => match_state.can_add_block_hit(
            block_type,
            behaviour,
        ),
        MatchEvent::BlockLost => match_state.blocks > 0 && match_state.blocks_lost < i32::MAX,
        _ => true,
    }
}

/// Counts one event of the field in the match's counters, the player's
/// balls and the player's bounces, and says what the game is to do about
/// it. The level's state is judged after every event: the last action asks
/// for the player's win or loss, if the level is over.
pub fn match_event_handler(
    event: &MatchEvent,
    match_state: &mut MatchState,
    player: &mut Player,
    bouncer: &mut Bouncer,
    level: &LevelDefinition,
) -> (actions: Vec<MatchAction>)
    requires
        event_admissible(old(match_state)@, old(player)@, *old(bouncer), *event),
    ensures
        final(match_state)@ == stats_after(old(match_state)@, *event),
        final(player)@ == player_after(old(player)@, *event, level.simultaneous_balls as int),
        *final(bouncer) == bouncer_after(*old(bouncer), *event),
        actions@ == event_actions(
            old(match_state)@,
            old(player)@,
            *old(bouncer),
            *event,
            level.simultaneous_balls as int,
        ) + verdict_actions(
            level_end_state(level.win_criteria, final(player)@, final(match_state)@),
        ),
{
    let mut actions: Vec<MatchAction> = Vec::new();
    match event {
        MatchEvent::Start => {
            match_state.reset();
        },
        MatchEvent::BallSpawned => {
            if player.balls_available > 0 && player.balls_carried == 0 && player.balls_in_play
                < level.simultaneous_balls {
                actions.push(MatchAction::SpawnBall);
                player.ball_spawned();
            }
        },
        MatchEvent::BallLaunched => {
            player.ball_launched();
        },
        MatchEvent::BallLost => {
            player.ball_lost();
            match_state.ball_lost();
        },
        MatchEvent::BounceOffPaddle => {
            match_state.add_paddle_bounce();
            if !bouncer.available() {
                actions.push(MatchAction::Send(GameFlowEvent::PlayerLooses));
            } else {
                bouncer.use_one();
            }
        },
        MatchEvent::BounceOffWall => {
            match_state.add_wall_hit();
        },
        MatchEvent::BlockHit(p, block_type, behaviour) => {
            let (_, awarded) = match_state.add_block_hit(block_type, behaviour);
            actions.push(MatchAction::ShowPoints(awarded, *p));
        },
        MatchEvent::BlockLost => {
            match_state.block_lost();
        },
        MatchEvent::BallGrabbed => {
            player.ball_grabbed();
        },
        MatchEvent::PickedUp(pt) => {
            actions.push(MatchAction::GivePickup(*pt));
        },
    }
    let ghost own = actions@;
    assert(own =~= event_actions(
        old(match_state)@,
        old(player)@,
        *old(bouncer),
        *event,
        level.simultaneous_balls as int,
    ));
    match check_win_criteria(&level.win_criteria, player, match_state) {
        LevelEndState::Won => actions.push(MatchAction::Send(GameFlowEvent::PlayerWins)),
        LevelEndState::Lost => actions.push(MatchAction::Send(GameFlowEvent::PlayerLooses)),
        LevelEndState::Undecided => {},
    }
    assert(actions@ =~= own + verdict_actions(
        level_end_state(level.win_criteria, player@, match_state@),
    ));
    actions
}

/// The match as the events of the field move it: the counters, the
/// player's balls and the player's bounces.
pub struct MatchView {
    pub stats: MatchModel,
    pub player: PlayerModel,
    pub bouncer: Bouncer,
}

/// What has come of draining a queue of events.
pub struct Drained {
    /// The match after the events handled.
    pub state: MatchView,
    /// What the game is to do, in the order of the events.
    pub actions: Seq<MatchAction>,
    /// Number of events handled.
    pub handled: nat,
}

impl MatchView {
    /// Whether `event` can be counted.
    pub open spec fn admits(self, event: MatchEvent) -> bool {
        event_admissible(self.stats, self.player, self.bouncer, event)
    }

    /// The match after `event`.
    pub open spec fn after(self, event: MatchEvent, simultaneous_balls: int) -> MatchView {
        MatchView {
            stats: stats_after(self.stats, event),
            player: player_after(self.player, event, simultaneous_balls),
            bouncer: bouncer_after(self.bouncer, event),
        }
    }

    /// What `event` asks the game to do: what the event itself calls for,
    /// and then the end of the level, if the event brings it.
    pub open spec fn actions_for(
        self,
        event: MatchEvent,
        simultaneous_balls: int,
        win_criteria: WinCriteria,
    ) -> Seq<MatchAction> {
        event_actions(self.stats, self.player, self.bouncer, event, simultaneous_balls)
            + verdict_actions(
            level_end_state(
                win_criteria,
                self.after(event, simultaneous_balls).player,
                self.after(event, simultaneous_balls).stats,
            ),
        )
    }

    /// Handles the events of a queue one by one, first to last, each in the
    /// state that the one before it left, and stops before the first that
    /// cannot be counted.
    pub open spec fn drain(
        self,
        events: Seq<MatchEvent>,
        simultaneous_balls: int,
        win_criteria: WinCriteria,
    ) -> Drained
        decreases events.len(),
    {
        if events.len() == 0 || !self.admits(events[0]) {
            Drained { state: self, actions: Seq::empty(), handled: 0 }
        } else {
            let rest = self.after(events[0], simultaneous_balls).drain(
                events.drop_first(),
                simultaneous_balls,
                win_criteria,
            );
            Drained {
                state: rest.state,
                actions: self.actions_for(events[0], simultaneous_balls, win_criteria)
                    + rest.actions,
                handled: rest.handled + 1,
            }
        }
    }
}

/// The match that the three values show.
pub open spec fn match_view(
    match_state: MatchState,
    player: Player,
    bouncer: Bouncer,
) -> MatchView {
    MatchView { stats: match_state@, player: player@, bouncer }
}

/// Handles the events of one tick in the order in which they arrived, each
/// in the state that the one before it left. Stops before the first event
/// that cannot be counted. Returns what the game is to do, in the order of
/// the events, and the number of events handled.
pub fn drain_match_events(
    events: &Vec<MatchEvent>,
    match_state: &mut MatchState,
    player: &mut Player,
    bouncer: &mut Bouncer,
    level: &LevelDefinition,
) -> (done: (Vec<MatchAction>, usize))
    ensures
        match_view(*final(match_state), *final(player), *final(bouncer)) == match_view(
            *old(match_state),
            *old(player),
            *old(bouncer),
        ).drain(events@, level.simultaneous_balls as int, level.win_criteria).state,
        done.0@ == match_view(*old(match_state), *old(player), *old(bouncer)).drain(
            events@,
            level.simultaneous_balls as int,
            level.win_criteria,
        ).actions,
        done.1 == match_view(*old(match_state), *old(player), *old(bouncer)).drain(
            events@,
            level.simultaneous_balls as int,
            level.win_criteria,
        ).handled,
{
    let mut actions: Vec<MatchAction> = Vec::new();
    let mut at: usize = 0;
    let ghost start = match_view(*match_state, *player, *bouncer);
    let ghost balls = level.simultaneous_balls as int;
    let ghost whole = start.drain(events@, balls, level.win_criteria);
    proof {
        assert(events@.skip(0) =~= events@);
        assert(Seq::<MatchAction>::empty() + whole.actions =~= whole.actions);
    }
    while at < events.len()
        invariant
            at <= events.len(),
            balls == level.simultaneous_balls as int,
            start == match_view(*old(match_state), *old(player), *old(bouncer)),
            whole == start.drain(events@, balls, level.win_criteria),
            whole.state == match_view(*match_state, *player, *bouncer).drain(
                events@.skip(at as int),
                balls,
                level.win_criteria,
            ).state,
            whole.actions == actions@ + match_view(*match_state, *player, *bouncer).drain(
                events@.skip(at as int),
                balls,
                level.win_criteria,
            ).actions,
            whole.handled == at + match_view(*match_state, *player, *bouncer).drain(
                events@.skip(at as int),
                balls,
                level.win_criteria,
            ).handled,
        decreases events.len() - at,
    {
        let ghost now = match_view(*match_state, *player, *bouncer);
        let ghost ahead = events@.skip(at as int);
        proof {
            assert(ahead[0] == events@[at as int]);
            assert(ahead.drop_first() =~= events@.skip(at + 1));
        }
        if !can_handle(&events[at], match_state, player, bouncer) {
            proof {
                assert(now.drain(ahead, balls, level.win_criteria).actions =~= Seq::empty());
                assert(actions@ + Seq::<MatchAction>::empty() =~= actions@);
            }
            return (actions, at);
        }
        let ghost before = actions@;
        let mut step = match_event_handler(&events[at], match_state, player, bouncer, level);
        let ghost asked = step@;
        actions.append(&mut step);
        proof {
            let rest = match_view(*match_state, *player, *bouncer).drain(
                events@.skip(at + 1),
                balls,
                level.win_criteria,
            );
            assert(asked == now.actions_for(events@[at as int], balls, level.win_criteria));
            assert(match_view(*match_state, *player, *bouncer) == now.after(
                events@[at as int],
                balls,
            ));
            assert((before + asked) + rest.actions =~= before + (asked + rest.actions));
        }
        at += 1;
    }
    proof {
        assert(events@.skip(at as int) =~= Seq::<MatchEvent>::empty());
        assert(actions@ + Seq::<MatchAction>::empty() =~= actions@);
    }
    (actions, at)
}

/// The pickup that a destroyed block releases: the one that the level
/// holds for the count of blocks that the match shows. Other events, and
/// a negative count, release none.
pub fn released_pickup(
    event: &MatchEvent,
    match_state: &MatchState,
    level: &LevelDefinition,
) -> (pickup: Option<PickupType>)
    ensures
        pickup == if *event is BlockHit && match_state.blocks >= 0 && level.pickups().contains_key(
            match_state.blocks as usize,
        ) {
            Some(level.pickups()[match_state.blocks as usize])
        } else {
            None
        },
{
    match event {
        MatchEvent::BlockHit(_, _, _) => {
            if match_state.blocks < 0 {
                return None;
            }
            match level.pickup_at(match_state.blocks as usize) {
                Some(pickup_type) => Some(*pickup_type),
                None => None,
            }
        },
        _ => None,
    }
}

/// The player after a turn in the course of the game: a win or a loss is
/// noted, and a win brings the match's points and the balls in play home.
pub open spec fn flow_player_after(
    player: PlayerModel,
    event: GameFlowEvent,
    match_points: int,
) -> PlayerModel {
    match event {
        GameFlowEvent::PlayerWins => (PlayerModel {
            state: PlayerState::HasWon,
            ..player
        }).player_has_won(match_points),
        GameFlowEvent::PlayerLooses => PlayerModel { state: PlayerState::HasLost, ..player },
        _ => player,
    }
}

/// The screen that a turn in the course of the game leads to, if it leads
/// to one.
pub open spec fn flow_screen(event: GameFlowEvent) -> Option<GameState> {
    match event {
        GameFlowEvent::StartGame => Some(GameState::InGame),
        GameFlowEvent::StartMatch => Some(GameState::InMatch),
        GameFlowEvent::PlayerWins => Some(GameState::PostMatch),
        GameFlowEvent::NextLevel => Some(GameState::NextLevel),
        GameFlowEvent::PlayerLooses => Some(GameState::PostMatch),
        GameFlowEvent::EndGame => None,
    }
}

/// Whether a turn in the course of the game can be taken: a win must not
/// push the player's points or reserve out of the range of `i32`.
pub open spec fn flow_admissible(
    player: PlayerModel,
    event: GameFlowEvent,
    match_points: int,
) -> bool {
    event is PlayerWins ==> fits_i32(player.balls_available + player.balls_in_play) && fits_i32(
        player.points + match_points,
    )
}

/// Tells whether `game_flow_handler` may be called with this event now.
pub fn can_flow(event: &GameFlowEvent, player: &Player, match_points: i32) -> (ok: bool)
    ensures
        ok == flow_admissible(player@, *event, match_points as int),
{
    match event {
        GameFlowEvent::PlayerWins => {
            let balls: i64 = player.balls_available as i64 + player.balls_in_play as i64;
            let points: i64 = player.points as i64 + match_points as i64;
            i32::MIN as i64 <= balls && balls <= i32::MAX as i64 && i32::MIN as i64 <= points
                && points <= i32::MAX as i64
        },
        _ => true,
    }
}

/// Takes one turn in the course of the game: notes a win or a loss with
/// the player and names the screen to show next.
pub fn game_flow_handler(
    event: &GameFlowEvent,
    player: &mut Player,
    match_points: i32,
) -> (screen: Option<GameState>)
    requires
        flow_admissible(old(player)@, *event, match_points as int),
    ensures
        final(player)@ == flow_player_after(old(player)@, *event, match_points as int),
        screen == flow_screen(*event),
{
    match event {
        GameFlowEvent::StartGame => Some(GameState::InGame),
        GameFlowEvent::StartMatch => Some(GameState::InMatch),
        GameFlowEvent::PlayerWins => {
            player.state = PlayerState::HasWon;
            player.player_has_won(match_points);
            Some(GameState::PostMatch)
        },
        GameFlowEvent::NextLevel => Some(GameState::NextLevel),
        GameFlowEvent::PlayerLooses => {
            player.state = PlayerState::HasLost;
            Some(GameState::PostMatch)
        },
        GameFlowEvent::EndGame => None,
    }
}

} // verus!
