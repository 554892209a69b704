//! What holds of the score keeping over whole runs of play.

use vstd::prelude::*;
use crate::block::{BlockBehaviour, BlockType};
use crate::match_state::{base_points, MatchModel, MatchState};

verus! {

/// One call on a match's counters, as a value.
#[derive(Debug, Clone, Copy, PartialEq, Eq, Structural)]
pub enum ScoreStep {
    PaddleBounce,
    WallHit,
    BallLaunched,
    BallLost,
    BlockLost,
    BlockHit(BlockType, BlockBehaviour),
}

impl MatchModel {
    /// The counters after one step.
    pub open spec fn step(self, step: ScoreStep) -> MatchModel {
        match step {
            ScoreStep::PaddleBounce => self.paddle_bounce(),
            ScoreStep::WallHit => self.wall_hit(),
            ScoreStep::BallLaunched => self.ball_launched(),
            ScoreStep::BallLost => self.ball_lost(),
            ScoreStep::BlockLost => self.block_lost(),
            ScoreStep::BlockHit(block_type, behaviour) => self.block_hit(
                base_points(block_type, behaviour),
            ),
        }
    }

    /// The counters after a run of steps, first to last.
    pub open spec fn run(self, steps: Seq<ScoreStep>) -> MatchModel
        decreases steps.len(),
    {
        if steps.len() == 0 {
            self
        } else {
            self.run(steps.drop_last()).step(steps.last())
        }
    }
}

impl MatchModel {
    /// Whether a step can be counted in the counters of a `MatchState`:
    /// what the call that takes the step requires.
    pub open spec fn admits(self, step: ScoreStep) -> bool {
        match step {
            ScoreStep::PaddleBounce => self.paddle_bounces < i32::MAX,
            ScoreStep::WallHit => self.wall_hits < i32::MAX,
            ScoreStep::BallLaunched => true,
            ScoreStep::BallLost => true,
            ScoreStep::BlockLost => self.admits_loss(),
            ScoreStep::BlockHit(block_type, behaviour) => self.admits_hit(
                base_points(block_type, behaviour),
            ),
        }
    }

    /// Whether each step of a run can be counted when its turn comes.
    pub open spec fn admits_run(self, steps: Seq<ScoreStep>) -> bool
        decreases steps.len(),
    {
        if steps.len() == 0 {
            true
        } else {
            &&& self.admits_run(steps.drop_last())
            &&& self.run(steps.drop_last()).admits(steps.last())
        }
    }
}

impl MatchState {
    /// Takes one step by the call that the step names. Every step that the
    /// counters admit can be taken, and leaves them as the step says.
    pub fn take_step(&mut self, step: &ScoreStep)
        requires
            old(self)@.admits(*step),
        ensures
            final(self)@ == old(self)@.step(*step),
    {
        match step {
            ScoreStep::PaddleBounce => self.add_paddle_bounce(),
            ScoreStep::WallHit => self.add_wall_hit(),
            ScoreStep::BallLaunched => self.ball_launched(),
            ScoreStep::BallLost => self.ball_lost(),
            ScoreStep::BlockLost => self.block_lost(),
            ScoreStep::BlockHit(block_type, behaviour) => {
                let _ = self.add_block_hit(block_type, behaviour);
            },
        }
    }
}

/// Number of paddle bounces in a run of steps.
pub open spec fn bounce_count(steps: Seq<ScoreStep>) -> nat
    decreases steps.len(),
{
    if steps.len() == 0 {
        0
    } else {
        bounce_count(steps.drop_last()) + if steps.last() is PaddleBounce {
            1nat
        } else {
            0nat
        }
    }
}

/// Whether a run of steps holds no block hit.
pub open spec fn no_block_hit(steps: Seq<ScoreStep>) -> bool {
    forall|i: int| 0 <= i < steps.len() ==> !(#[trigger] steps[i] is BlockHit)
}

/// Every paddle bounce is counted, whatever else happens in between. As
/// long as no block is hit, the single bounce combo is zero from the first
/// bounce on. The run may be any prefix of a longer one, so this holds after
/// each of its steps.
pub proof fn law_paddle_bounces_counted(start: MatchModel, steps: Seq<ScoreStep>)
    ensures
        start.run(steps).paddle_bounces == start.paddle_bounces + bounce_count(steps),
        no_block_hit(steps) && bounce_count(steps) > 0 ==> start.run(steps).single_bounce_combo
            == 0,
        no_block_hit(steps) && start.single_bounce_combo == 0 ==> start.run(
            steps,
        ).single_bounce_combo == 0,
    decreases steps.len(),
{
    if steps.len() > 0 {
        let front = steps.drop_last();
        law_paddle_bounces_counted(start, front);
        if no_block_hit(steps) {
            assert(!(steps[steps.len() - 1] is BlockHit));
            assert forall|i: int| 0 <= i < front.len() implies !(#[trigger] front[i]
                is BlockHit) by {
                assert(front[i] == steps[i]);
            }
        }
    }
}

/// From the start of a match, a run of nothing but paddle bounces leaves the
/// bounce counter at the length of the run and the single bounce combo at
/// zero.
pub proof fn law_only_paddle_bounces(steps: Seq<ScoreStep>)
    requires
        forall|i: int| 0 <= i < steps.len() ==> #[trigger] steps[i] is PaddleBounce,
    ensures
        MatchModel::fresh().run(steps).paddle_bounces == steps.len(),
        MatchModel::fresh().run(steps).single_bounce_combo == 0,
    decreases steps.len(),
{
    if steps.len() > 0 {
        let front = steps.drop_last();
        assert forall|i: int| 0 <= i < front.len() implies #[trigger] front[i] is PaddleBounce by {
            assert(front[i] == steps[i]);
        }
        law_only_paddle_bounces(front);
        assert(steps[steps.len() - 1] is PaddleBounce);
    }
}

/// Paddle bounces can be counted as long as the counter has room: from the
/// counters of a match, a run of nothing but paddle bounces that the bounce
/// counter can hold is admitted call by call, leaves the bounce counter
/// higher by the length of the run, and the single bounce combo at zero.
pub proof fn law_bounce_runs_can_be_counted(start: MatchState, steps: Seq<ScoreStep>)
    requires
        forall|i: int| 0 <= i < steps.len() ==> #[trigger] steps[i] is PaddleBounce,
        start.paddle_bounces + steps.len() <= i32::MAX,
    ensures
        start@.admits_run(steps),
        start@.run(steps).paddle_bounces == start.paddle_bounces + steps.len(),
        steps.len() > 0 ==> start@.run(steps).single_bounce_combo == 0,
    decreases steps.len(),
{
    if steps.len() > 0 {
        let front = steps.drop_last();
        assert forall|i: int| 0 <= i < front.len() implies #[trigger] front[i] is PaddleBounce by {
            assert(front[i] == steps[i]);
        }
        law_bounce_runs_can_be_counted(start, front);
        assert(steps[steps.len() - 1] is PaddleBounce);
    }
}

/// How each step moves the single bounce combo: a paddle bounce and a lost
/// ball set it to zero, a block hit adds one, and a wall hit, a launch and
/// a lost block leave it alone.
pub proof fn law_single_bounce_combo(state: MatchModel, step: ScoreStep)
    ensures
        step is PaddleBounce || step is BallLost ==> state.step(step).single_bounce_combo == 0,
        step is BlockHit ==> state.step(step).single_bounce_combo == state.single_bounce_combo
            + 1,
        step is WallHit || step is BallLaunched || step is BlockLost ==> state.step(
            step,
        ).single_bounce_combo == state.single_bounce_combo,
{
}

/// The paddle bounce combo grows by a block hit alone, by one, and only
/// while the flag that a single paddle bounce or a launch sets is up; the
/// hit takes the flag down.
pub proof fn law_paddle_bounce_combo_grows_by_hit(state: MatchModel, step: ScoreStep)
    requires
        state.wf(),
    ensures
        state.step(step).paddle_bounce_combo > state.paddle_bounce_combo ==> step is BlockHit
            && state.paddle_bounce_combo_possible && state.step(step).paddle_bounce_combo
            == state.paddle_bounce_combo + 1,
        step is BlockHit && state.paddle_bounce_combo_possible ==> state.step(
            step,
        ).paddle_bounce_combo == state.paddle_bounce_combo + 1,
        step is BlockHit && !state.paddle_bounce_combo_possible ==> state.step(
            step,
        ).paddle_bounce_combo == state.paddle_bounce_combo,
        step is BlockHit ==> !state.step(step).paddle_bounce_combo_possible,
{
}

/// Two paddle bounces with no block hit between them leave the paddle
/// bounce combo at zero, whatever stood before and whatever else happened in
/// between.
pub proof fn law_double_bounce_ends_combo(start: MatchModel, between: Seq<ScoreStep>)
    requires
        no_block_hit(between),
    ensures
        start.paddle_bounce().run(between).paddle_bounce().paddle_bounce_combo == 0,
{
    lemma_flag_or_zero(start.paddle_bounce(), between);
}

/// After a paddle bounce the combo is zero or the flag is up, and a run
/// without a block hit keeps it so.
proof fn lemma_flag_or_zero(state: MatchModel, steps: Seq<ScoreStep>)
    requires
        no_block_hit(steps),
        state.paddle_bounce_combo == 0 || state.paddle_bounce_combo_possible,
    ensures
        state.run(steps).paddle_bounce_combo == 0 || state.run(steps).paddle_bounce_combo_possible,
    decreases steps.len(),
{
    if steps.len() > 0 {
        let front = steps.drop_last();
        assert forall|i: int| 0 <= i < front.len() implies !(#[trigger] front[i] is BlockHit) by {
            assert(front[i] == steps[i]);
        }
        lemma_flag_or_zero(state, front);
        assert(!(steps[steps.len() - 1] is BlockHit));
    }
}

/// No step makes a counter negative, as long as a block is left whenever
/// one is hit or lost.
pub proof fn law_counters_stay_non_negative(state: MatchModel, step: ScoreStep)
    requires
        state.wf(),
        step is BlockHit || step is BlockLost ==> state.blocks > 0,
    ensures
        state.step(step).wf(),
{
    if let ScoreStep::BlockHit(block_type, behaviour) = step {
        let base = base_points(block_type, behaviour);
        assert(0 <= base * (1 + state.paddle_bounce_combo)) by (nonlinear_arith)
            requires
                0 <= base,
                0 <= state.paddle_bounce_combo,
        ;
        assert(0 <= base * state.combo_after_hit()) by (nonlinear_arith)
            requires
                0 <= base,
                0 <= state.combo_after_hit(),
        ;
    }
}

/// A reset leads to the same state from wherever it starts, so a second
/// reset changes nothing.
pub proof fn law_reset_idempotent(first: MatchModel, second: MatchModel)
    ensures
        first.reset() == second.reset(),
        first.reset().reset() == first.reset(),
        first.reset() == MatchModel::fresh(),
        first.reset().wf(),
{
}

} // verus!
