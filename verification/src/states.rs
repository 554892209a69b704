//! The plain counters of a match that the first version of the game kept.

use vstd::prelude::*;

verus! {

/// Block and bounce counters of a running match.
#[derive(Debug, Clone, Copy, PartialEq, Eq, Structural)]
pub struct MatchState {
    pub running: bool,
    pub blocks: usize,
    pub paddle_bounces: usize,
    pub points: u32,
}

impl MatchState {
    /// Adds `count` blocks to the field.
    #[allow(non_snake_case)]
    pub fn addBlocks(&mut self, count: usize)
        requires
            old(self).blocks + count <= usize::MAX,
        ensures
            final(self).blocks == old(self).blocks + count,
            final(self).running == old(self).running,
            final(self).paddle_bounces == old(self).paddle_bounces,
            final(self).points == old(self).points,
    {
        self.blocks += count;
    }

    /// Takes `count` blocks from the field, or all of them where fewer are
    /// left.
    #[allow(non_snake_case)]
    pub fn subBlocks(&mut self, count: usize)
        ensures
            final(self).blocks == if old(self).blocks >= count {
                old(self).blocks - count
            } else {
                0
            },
            final(self).running == old(self).running,
            final(self).paddle_bounces == old(self).paddle_bounces,
            final(self).points == old(self).points,
    {
        if self.blocks >= count {
            self.blocks -= count;
        } else {
            self.blocks = 0;
        }
    }

    /// Counts a bounce off the paddle.
    #[allow(non_snake_case)]
    pub fn addPaddleBounce(&mut self)
        requires
            old(self).paddle_bounces < usize::MAX,
        ensures
            final(self).paddle_bounces == old(self).paddle_bounces + 1,
            final(self).running == old(self).running,
            final(self).blocks == old(self).blocks,
            final(self).points == old(self).points,
    {
        self.paddle_bounces += 1;
    }
}

} // verus!
