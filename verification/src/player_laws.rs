//! What holds of the ball economy over whole runs of play.

use vstd::prelude::*;
use crate::player::{Player, PlayerModel};

verus! {

/// One movement of a ball, as a value.
#[derive(Debug, Clone, Copy, PartialEq, Eq, Structural)]
pub enum BallStep {
    Spawned,
    Launched,
    Grabbed,
    Lost,
}

impl PlayerModel {
    /// The inventory after one step.
    pub open spec fn step(self, step: BallStep) -> PlayerModel {
        match step {
            BallStep::Spawned => self.ball_spawned(),
            BallStep::Launched => self.ball_launched(),
            BallStep::Grabbed => self.ball_grabbed(),
            BallStep::Lost => self.ball_lost(),
        }
    }

    /// The inventory after a run of steps, first to last.
    pub open spec fn run(self, steps: Seq<BallStep>) -> PlayerModel
        decreases steps.len(),
    {
        if steps.len() == 0 {
            self
        } else {
            self.run(steps.drop_last()).step(steps.last())
        }
    }
}

impl PlayerModel {
    /// Whether a step can be counted in the counters of a `Player`: what
    /// the call that takes the step requires.
    pub open spec fn admits(self, step: BallStep) -> bool {
        match step {
            BallStep::Spawned => self.balls_available > 0 ==> self.balls_carried < i32::MAX,
            BallStep::Launched => self.balls_carried > 0 ==> self.balls_in_play < i32::MAX,
            BallStep::Grabbed => self.balls_in_play > 0 ==> self.balls_carried < i32::MAX
                && self.balls_grabbed < i32::MAX,
            BallStep::Lost => self.balls_lost < i32::MAX,
        }
    }

    /// Whether each step of a run can be counted when its turn comes.
    pub open spec fn admits_run(self, steps: Seq<BallStep>) -> bool
        decreases steps.len(),
    {
        if steps.len() == 0 {
            true
        } else {
            &&& self.admits_run(steps.drop_last())
            &&& self.run(steps.drop_last()).admits(steps.last())
        }
    }
}

impl Player {
    /// Takes one step by the call that the step names. Every step that the
    /// counters admit can be taken, and leaves them as the step says.
    pub fn take_step(&mut self, step: &BallStep)
        requires
            old(self)@.admits(*step),
        ensures
            final(self)@ == old(self)@.step(*step),
    {
        match step {
            BallStep::Spawned => self.ball_spawned(),
            BallStep::Launched => self.ball_launched(),
            BallStep::Grabbed => self.ball_grabbed(),
            BallStep::Lost => self.ball_lost(),
        }
    }
}

/// Whether a run of steps holds no grab.
pub open spec fn no_grab(steps: Seq<BallStep>) -> bool {
    forall|i: int| 0 <= i < steps.len() ==> !(#[trigger] steps[i] is Grabbed)
}

/// Without a grab, a run of spawns, launches and losses never lets the sum
/// of the four pools exceed what it was at the start, and lets no pool go
/// negative. The run may be any prefix of a longer one, so this holds after
/// each of its steps.
pub proof fn law_pools_bounded_without_grab(start: PlayerModel, steps: Seq<BallStep>)
    requires
        start.wf(),
        no_grab(steps),
    ensures
        start.run(steps).wf(),
        start.run(steps).total() <= start.total(),
    decreases steps.len(),
{
    if steps.len() > 0 {
        let front = steps.drop_last();
        assert forall|i: int| 0 <= i < front.len() implies !(#[trigger] front[i] is Grabbed) by {
            assert(front[i] == steps[i]);
        }
        law_pools_bounded_without_grab(start, front);
        assert(!(steps[steps.len() - 1] is Grabbed));
    }
}

/// Whatever the run of spawns, launches, grabs and losses, no pool goes
/// negative and the number of balls owned never exceeds what it was at the
/// start. If the grabbed balls were among the carried ones at the start,
/// they still are, so that the sum of the four pools exceeds the number of
/// balls owned by the grabbed balls alone. The run may be any prefix of a
/// longer one, so this holds after each of its steps.
pub proof fn law_pools_bounded_with_grab(start: PlayerModel, steps: Seq<BallStep>)
    requires
        start.wf(),
    ensures
        start.run(steps).wf(),
        start.run(steps).owned() <= start.owned(),
        start.balls_grabbed <= start.balls_carried ==> start.run(steps).balls_grabbed
            <= start.run(steps).balls_carried,
        start.run(steps).total() == start.run(steps).owned() + start.run(steps).balls_grabbed,
    decreases steps.len(),
{
    if steps.len() > 0 {
        law_pools_bounded_with_grab(start, steps.drop_last());
    }
}

/// Every movement of a ball can be counted while the counter of lost balls
/// has room: from the balls of a player, none of them negative and the
/// grabbed among the carried, any run of spawns, launches, grabs and losses
/// is admitted call by call. It keeps the pools non-negative and the number
/// of balls owned at or below what it was, and without a grab it keeps the
/// sum of the four pools at or below what it was.
pub proof fn law_ball_runs_can_be_counted(start: Player, steps: Seq<BallStep>)
    requires
        start@.wf(),
        start.balls_grabbed <= start.balls_carried,
        start@.owned() <= i32::MAX,
        start.balls_lost + steps.len() <= i32::MAX,
    ensures
        start@.admits_run(steps),
        start@.run(steps).wf(),
        start@.run(steps).owned() <= start@.owned(),
        start@.run(steps).balls_grabbed <= start@.run(steps).balls_carried,
        start@.run(steps).balls_lost <= start.balls_lost + steps.len(),
        no_grab(steps) ==> start@.run(steps).total() <= start@.total(),
    decreases steps.len(),
{
    if steps.len() > 0 {
        let front = steps.drop_last();
        law_ball_runs_can_be_counted(start, front);
        if no_grab(steps) {
            assert forall|i: int| 0 <= i < front.len() implies !(#[trigger] front[i]
                is Grabbed) by {
                assert(front[i] == steps[i]);
            }
            assert(!(steps[steps.len() - 1] is Grabbed));
        }
    }
}

/// A step changes the sum of the four pools by one at most, and only a grab
/// raises it.
pub proof fn law_step_moves_one_ball(state: PlayerModel, step: BallStep)
    ensures
        state.total() - 1 <= state.step(step).total() <= state.total() + 1,
        state.step(step).total() > state.total() ==> step is Grabbed,
{
}

} // verus!
