//! The one place where chance enters the rules.

use rand::Rng;
use vstd::prelude::*;

verus! {

/// Draws a position from `start..end` with `rand::Rng::gen_range` on the
/// generator of the current thread, `rand::thread_rng()`. The contract
/// claims only what holds of every draw: the position lies in the range. An
/// empty range, on which `gen_range` panics, is left out.
#[verifier::external_body]
pub(crate) fn draw_position(start: usize, end: usize) -> (pos: usize)
    requires
        start < end,
    ensures
        start <= pos < end,
{
    rand::thread_rng().gen_range(start..end)
}

} // verus!
