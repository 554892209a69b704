//! The screens of the game.

use vstd::prelude::*;

verus! {

/// Where the game stands.
#[derive(Debug, Clone, Copy, PartialEq, Eq, Hash, Structural)]
pub enum GameState {
    Start,
    InGame,
    InMatch,
    PostMatch,
    NextLevel,
    MatchResult,
}

} // verus!
