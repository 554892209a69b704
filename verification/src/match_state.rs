//! Per-match score keeping: counters, combos and the points of a block hit.

use vstd::prelude::*;
use crate::block::{BlockBehaviour, BlockType};

verus! {

/// Whether a block was hit straight off the paddle or after a detour.
#[derive(Debug, Clone, Copy, PartialEq, Eq, Structural)]
pub enum BlockHitType {
    Regular,
    DirectHit,
}

/// Counters of one match.
#[derive(Debug, Clone, Copy, PartialEq, Eq, Structural)]
pub struct MatchState {
    /// Points achieved in the level.
    pub points: i32,
    /// Blocks still present in the level.
    pub blocks: i32,
    /// Number of times the ball hit the paddle.
    pub paddle_bounces: i32,
    /// Number of times the ball hit a wall.
    pub wall_hits: i32,
    /// Set by a paddle bounce, cleared by a wall hit, a launch or a block hit.
    pub direct_hit_possible: bool,
    /// Number of blocks hit before any wall since the last paddle bounce.
    pub direct_hits: i32,
    /// Number of bounce-then-hit cycles in a row.
    pub paddle_bounce_combo: i32,
    /// Set while the next block hit extends the paddle bounce combo.
    pub paddle_bounce_combo_possible: bool,
    /// Number of blocks hit since the last paddle bounce.
    pub single_bounce_combo: i32,
    pub balls_lost: i32,
    pub balls_used: i32,
    /// Balls spawned in the level.
    pub balls: i32,
    /// Time spent in the match, in milliseconds.
    pub time_taken: u64,
    pub blocks_hit: i32,
    pub blocks_lost: i32,
}

/// Mathematical value of a [`MatchState`]: the same counters, unbounded.
pub struct MatchModel {
    pub points: int,
    pub blocks: int,
    pub paddle_bounces: int,
    pub wall_hits: int,
    pub direct_hit_possible: bool,
    pub direct_hits: int,
    pub paddle_bounce_combo: int,
    pub paddle_bounce_combo_possible: bool,
    pub single_bounce_combo: int,
    pub balls_lost: int,
    pub balls_used: int,
    pub balls: int,
    pub time_taken: int,
    pub blocks_hit: int,
    pub blocks_lost: int,
}

impl View for MatchState {
    type V = MatchModel;

    open spec fn view(&self) -> MatchModel {
        MatchModel {
            points: self.points as int,
            blocks: self.blocks as int,
            paddle_bounces: self.paddle_bounces as int,
            wall_hits: self.wall_hits as int,
            direct_hit_possible: self.direct_hit_possible,
            direct_hits: self.direct_hits as int,
            paddle_bounce_combo: self.paddle_bounce_combo as int,
            paddle_bounce_combo_possible: self.paddle_bounce_combo_possible,
            single_bounce_combo: self.single_bounce_combo as int,
            balls_lost: self.balls_lost as int,
            balls_used: self.balls_used as int,
            balls: self.balls as int,
            time_taken: self.time_taken as int,
            blocks_hit: self.blocks_hit as int,
            blocks_lost: self.blocks_lost as int,
        }
    }
}

/// Points that a block's durability class is worth.
pub open spec fn type_points(block_type: BlockType) -> int {
    match block_type {
        BlockType::Simple => 100,
        BlockType::Hardling => 150,
        BlockType::Concrete => 200,
        BlockType::Obstacle => 0,
        BlockType::SimpleTop => 0,
    }
}

/// Points added for a block's behaviour.
pub open spec fn behaviour_points(behaviour: BlockBehaviour) -> int {
    match behaviour {
        BlockBehaviour::SittingDuck => 0,
        BlockBehaviour::Spinner => 50,
        BlockBehaviour::Vanisher => 100,
        BlockBehaviour::Repuslor => 150,
        BlockBehaviour::EvaderR(_) => 150,
        BlockBehaviour::EvaderL(_) => 150,
        BlockBehaviour::EvaderU(_) => 150,
        BlockBehaviour::EvaderD(_) => 150,
    }
}

/// Base value of a block before any combo multiplies it.
pub open spec fn base_points(block_type: BlockType, behaviour: BlockBehaviour) -> int {
    type_points(block_type) + behaviour_points(behaviour)
}

impl MatchModel {
    /// The state at the start of a match: every counter zero, every flag clear.
    pub open spec fn fresh() -> MatchModel {
        MatchModel {
            points: 0,
            blocks: 0,
            paddle_bounces: 0,
            wall_hits: 0,
            direct_hit_possible: false,
            direct_hits: 0,
            paddle_bounce_combo: 0,
            paddle_bounce_combo_possible: false,
            single_bounce_combo: 0,
            balls_lost: 0,
            balls_used: 0,
            balls: 0,
            time_taken: 0,
            blocks_hit: 0,
            blocks_lost: 0,
        }
    }

    /// The counters after a reset, which does not look at what stood before.
    pub open spec fn reset(self) -> MatchModel {
        MatchModel::fresh()
    }

    /// No counter is negative.
    pub open spec fn wf(self) -> bool {
        &&& self.points >= 0
        &&& self.blocks >= 0
        &&& self.paddle_bounces >= 0
        &&& self.wall_hits >= 0
        &&& self.direct_hits >= 0
        &&& self.paddle_bounce_combo >= 0
        &&& self.single_bounce_combo >= 0
        &&& self.balls_lost >= 0
        &&& self.balls_used >= 0
        &&& self.balls >= 0
        &&& self.time_taken >= 0
        &&& self.blocks_hit >= 0
        &&& self.blocks_lost >= 0
    }

    /// The ball bounced off the paddle.
    pub open spec fn paddle_bounce(self) -> MatchModel {
        MatchModel {
            paddle_bounces: self.paddle_bounces + 1,
            direct_hit_possible: true,
            paddle_bounce_combo: if self.paddle_bounce_combo_possible {
                0
            } else {
                self.paddle_bounce_combo
            },
            paddle_bounce_combo_possible: !self.paddle_bounce_combo_possible,
            single_bounce_combo: 0,
            ..self
        }
    }

    /// The ball bounced off a wall.
    pub open spec fn wall_hit(self) -> MatchModel {
        MatchModel { wall_hits: self.wall_hits + 1, direct_hit_possible: false, ..self }
    }

    /// A ball left the paddle.
    pub open spec fn ball_launched(self) -> MatchModel {
        MatchModel {
            direct_hit_possible: false,
            paddle_bounce_combo: 0,
            paddle_bounce_combo_possible: true,
            ..self
        }
    }

    /// A ball left the field.
    pub open spec fn ball_lost(self) -> MatchModel {
        MatchModel {
            direct_hit_possible: false,
            paddle_bounce_combo: 0,
            single_bounce_combo: 0,
            ..self
        }
    }

    /// A block left the field without being hit.
    pub open spec fn block_lost(self) -> MatchModel {
        MatchModel { blocks_lost: self.blocks_lost + 1, blocks: self.blocks - 1, ..self }
    }

    /// The paddle bounce combo as it stands once a block hit has been counted.
    pub open spec fn combo_after_hit(self) -> int {
        if self.paddle_bounce_combo_possible {
            self.paddle_bounce_combo + 1
        } else {
            self.paddle_bounce_combo
        }
    }

    /// Points awarded for destroying a block of base value `base` in this state.
    pub open spec fn award(self, base: int) -> int {
        let direct_hit_bonus = if self.direct_hit_possible {
            base * self.combo_after_hit()
        } else {
            0
        };
        base * (1 + self.paddle_bounce_combo) + 10 * self.single_bounce_combo + direct_hit_bonus
    }

    /// How a block hit in this state is classified.
    pub open spec fn hit_kind(self) -> BlockHitType {
        if self.direct_hit_possible {
            BlockHitType::DirectHit
        } else {
            BlockHitType::Regular
        }
    }

    /// A block of base value `base` was destroyed by the ball.
    pub open spec fn block_hit(self, base: int) -> MatchModel {
        MatchModel {
            points: self.points + self.award(base),
            blocks: self.blocks - 1,
            blocks_hit: self.blocks_hit + 1,
            single_bounce_combo: self.single_bounce_combo + 1,
            paddle_bounce_combo: self.combo_after_hit(),
            paddle_bounce_combo_possible: false,
            direct_hits: if self.direct_hit_possible {
                self.direct_hits + 1
            } else {
                self.direct_hits
            },
            direct_hit_possible: false,
            ..self
        }
    }
}

impl MatchModel {
    /// Whether `add_block_hit` can count a block of base value `base`:
    /// a block is left to hit, neither combo is negative, and no counter
    /// that the hit moves leaves the range of `i32`.
    pub open spec fn admits_hit(self, base: int) -> bool {
        &&& self.paddle_bounce_combo >= 0
        &&& self.single_bounce_combo >= 0
        &&& self.blocks > 0
        &&& self.blocks_hit < i32::MAX
        &&& self.single_bounce_combo < i32::MAX
        &&& self.paddle_bounce_combo < i32::MAX
        &&& self.direct_hits < i32::MAX
        &&& self.award(base) <= i32::MAX
        &&& self.points + self.award(base) <= i32::MAX
    }

    /// Whether `block_lost` can count a lost block.
    pub open spec fn admits_loss(self) -> bool {
        &&& self.blocks > 0
        &&& self.blocks_lost < i32::MAX
    }
}

impl Default for MatchState {
    fn default() -> (s: MatchState)
        ensures
            s@ == MatchModel::fresh(),
    {
        MatchState {
            blocks: 0,
            points: 0,
            paddle_bounces: 0,
            wall_hits: 0,
            direct_hit_possible: false,
            direct_hits: 0,
            paddle_bounce_combo: 0,
            single_bounce_combo: 0,
            balls_lost: 0,
            balls_used: 0,
            time_taken: 0,
            blocks_hit: 0,
            paddle_bounce_combo_possible: false,
            balls: 0,
            blocks_lost: 0,
        }
    }
}

impl MatchState {
    /// Prepares the counters for a new match.
    pub fn reset(&mut self)
        ensures
            final(self)@ == old(self)@.reset(),
    {
        self.blocks = 0;
        self.paddle_bounces = 0;
        self.points = 0;
        self.wall_hits = 0;
        self.direct_hit_possible = false;
        self.paddle_bounce_combo_possible = false;
        self.paddle_bounce_combo = 0;
        self.single_bounce_combo = 0;
        self.direct_hits = 0;
        self.balls_used = 0;
        self.balls_lost = 0;
        self.time_taken = 0;
        self.balls = 0;
        self.blocks_hit = 0;
        self.blocks_lost = 0;
    }

    /// Counts a bounce off the paddle. A second bounce with no block hit in
    /// between ends the paddle bounce combo.
    pub fn add_paddle_bounce(&mut self)
        requires
            old(self).paddle_bounces < i32::MAX,
        ensures
            final(self)@ == old(self)@.paddle_bounce(),
    {
        self.paddle_bounces += 1;
        self.direct_hit_possible = true;

        if self.paddle_bounce_combo_possible {
            self.paddle_bounce_combo = 0;
            self.paddle_bounce_combo_possible = false;
        } else {
            self.paddle_bounce_combo_possible = true;
        }

        self.single_bounce_combo = 0;
    }

    /// Notes that a ball left the paddle: the combo starts over and the next
    /// block hit counts towards it.
    pub fn ball_launched(&mut self)
        ensures
            final(self)@ == old(self)@.ball_launched(),
    {
        self.direct_hit_possible = false;
        self.paddle_bounce_combo = 0;
        self.paddle_bounce_combo_possible = true;
    }

    /// Base value of a block: what its durability class is worth plus the
    /// bonus of its behaviour.
    pub fn get_base_points(block_type: &BlockType, behaviour: &BlockBehaviour) -> (points: i32)
        ensures
            points == base_points(*block_type, *behaviour),
            0 <= points <= 350,
    {
        let mut base_points: i32 = match block_type {
            BlockType::Simple => 100,
            BlockType::Hardling => 150,
            BlockType::Concrete => 200,
            _ => 0,
        };

        base_points += match behaviour {
            BlockBehaviour::SittingDuck => 0,
            BlockBehaviour::Spinner => 50,
            BlockBehaviour::Vanisher => 100,
            BlockBehaviour::Repuslor => 150,
            BlockBehaviour::EvaderR(_)
            | BlockBehaviour::EvaderL(_)
            | BlockBehaviour::EvaderD(_)
            | BlockBehaviour::EvaderU(_) => 150,
        };

        base_points
    }

    /// Tells whether `add_block_hit` may be called for such a block now.
    pub fn can_add_block_hit(&self, block_type: &BlockType, behaviour: &BlockBehaviour) -> (ok:
        bool)
        ensures
            ok == self@.admits_hit(base_points(*block_type, *behaviour)),
    {
        if self.paddle_bounce_combo < 0 || self.single_bounce_combo < 0 || self.blocks <= 0
            || self.blocks_hit == i32::MAX
            || self.single_bounce_combo == i32::MAX || self.paddle_bounce_combo == i32::MAX
            || self.direct_hits == i32::MAX {
            return false;
        }
        let base: i64 = MatchState::get_base_points(block_type, behaviour) as i64;
        let combo: i64 = self.paddle_bounce_combo as i64;
        let single: i64 = self.single_bounce_combo as i64;
        assert(0 <= base * (1 + combo) <= 350 * 0x8000_0000) by (nonlinear_arith)
            requires
                0 <= base <= 350,
                0 <= combo < 0x7fff_ffff,
        ;
        let mut awarded: i64 = base * (1 + combo) + 10 * single;
        if self.direct_hit_possible {
            let next: i64 = if self.paddle_bounce_combo_possible {
                combo + 1
            } else {
                combo
            };
            assert(0 <= base * next <= 350 * 0x8000_0000) by (nonlinear_arith)
                requires
                    0 <= base <= 350,
                    0 <= next <= 0x7fff_ffff,
            ;
            awarded += base * next;
        }
        awarded <= i32::MAX as i64 && self.points as i64 + awarded <= i32::MAX as i64
    }

    /// Tells whether no counter is negative.
    pub fn is_wf(&self) -> (ok: bool)
        ensures
            ok == self@.wf(),
    {
        self.points >= 0 && self.blocks >= 0 && self.paddle_bounces >= 0 && self.wall_hits >= 0
            && self.direct_hits >= 0 && self.paddle_bounce_combo >= 0
            && self.single_bounce_combo >= 0 && self.balls_lost >= 0 && self.balls_used >= 0
            && self.balls >= 0 && self.blocks_hit >= 0 && self.blocks_lost >= 0
    }

    /// Counts the destruction of a block and awards its points: the base
    /// value times one more than the paddle bounce combo, ten points for each
    /// block already hit since the last paddle bounce, and for a direct hit
    /// the base value once more for each cycle of the combo as it then stands.
    /// Returns the kind of hit and the points awarded.
    pub fn add_block_hit(&mut self, block_type: &BlockType, behaviour: &BlockBehaviour) -> (hit: (
        BlockHitType,
        i32,
    ))
        requires
            old(self)@.admits_hit(base_points(*block_type, *behaviour)),
        ensures
            final(self)@ == old(self)@.block_hit(base_points(*block_type, *behaviour)),
            hit.0 == old(self)@.hit_kind(),
            hit.1 == old(self)@.award(base_points(*block_type, *behaviour)),
    {
        let mut awarded: i32 = 0;
        let mut hit_type = BlockHitType::Regular;
        self.blocks -= 1;
        self.blocks_hit += 1;

        let base_points: i32 = MatchState::get_base_points(block_type, behaviour);
        proof {
            let base = base_points as int;
            let combo = self.paddle_bounce_combo as int;
            let next = old(self)@.combo_after_hit();
            assert(0 <= base * (1 + combo)) by (nonlinear_arith)
                requires
                    0 <= base,
                    0 <= combo,
            ;
            assert(0 <= base * next) by (nonlinear_arith)
                requires
                    0 <= base,
                    0 <= next,
            ;
            assert(!old(self).direct_hit_possible ==> base * (1 + combo) <= old(self)@.award(base));
        }
        awarded += base_points * (1 + self.paddle_bounce_combo) + 10 * self.single_bounce_combo;

        self.single_bounce_combo += 1;

        if self.paddle_bounce_combo_possible {
            self.paddle_bounce_combo += 1;
            self.paddle_bounce_combo_possible = false;
        }

        if self.direct_hit_possible {
            self.direct_hits += 1;

            awarded += base_points * self.paddle_bounce_combo;

            self.direct_hit_possible = false;

            hit_type = BlockHitType::DirectHit;
        }

        self.points += awarded;

        (hit_type, awarded)
    }

    /// The single bounce combo and the paddle bounce combo, in that order.
    pub fn get_combos(&self) -> (combos: (i32, i32))
        ensures
            combos.0 == self.single_bounce_combo,
            combos.1 == self.paddle_bounce_combo,
    {
        (self.single_bounce_combo, self.paddle_bounce_combo)
    }

    /// Counts a bounce off a wall, after which no block hit is a direct hit
    /// until the ball has met the paddle again.
    pub fn add_wall_hit(&mut self)
        requires
            old(self).wall_hits < i32::MAX,
        ensures
            final(self)@ == old(self)@.wall_hit(),
    {
        self.wall_hits += 1;
        self.direct_hit_possible = false;
    }

    /// Ends every streak in progress: a ball left the field.
    pub fn ball_lost(&mut self)
        ensures
            final(self)@ == old(self)@.ball_lost(),
    {
        self.direct_hit_possible = false;
        self.paddle_bounce_combo = 0;
        self.single_bounce_combo = 0;
    }

    /// Counts a block that left the field without being hit. No points.
    pub fn block_lost(&mut self)
        requires
            old(self)@.admits_loss(),
        ensures
            final(self)@ == old(self)@.block_lost(),
    {
        self.blocks_lost += 1;
        self.blocks -= 1;
    }

    /// Sets the number of blocks that the level holds.
    pub fn set_block_count(&mut self, count: i32)
        ensures
            final(self)@ == (MatchModel { blocks: count as int, ..old(self)@ }),
    {
        self.blocks = count;
    }

    /// Sets the number of balls spawned in the level.
    pub fn set_ball_count(&mut self, count: i32)
        ensures
            final(self)@ == (MatchModel { balls: count as int, ..old(self)@ }),
    {
        self.balls = count;
    }
}

} // verus!
