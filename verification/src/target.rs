//! Drawing the target at random.

use crate::game::{valid_target, GuessLoop, Phase, MAX_TARGET, MIN_TARGET};
use rand::Rng;
use vstd::prelude::*;

verus! {

/// A number drawn at random between `low` and `high`, both included.
///
/// Trusted: the body calls `Rng::gen_range` of the crate `rand` on the
/// generator that `rand::thread_rng` hands out, with the inclusive range
/// `low..=high`. The contract claims only that the number lies in that range,
/// which is what `gen_range` documents for a range that is not empty; an empty
/// range makes it panic and is excluded. Nothing is claimed about which number
/// comes, and two calls may differ. `thread_rng` panics if the operating
/// system cannot seed the generator.
#[verifier::external_body]
fn uniform_between(low: u32, high: u32) -> (n: u32)
    requires
        low <= high,
    ensures
        low <= n <= high,
{
    rand::thread_rng().gen_range(low..=high)
}

/// A target drawn at random from the targets that a game can have.
pub fn random_target() -> (target: u32)
    ensures
        valid_target(target),
{
    uniform_between(MIN_TARGET, MAX_TARGET)
}

/// A new game with a target drawn at random.
pub fn random_game() -> (game: GuessLoop)
    ensures
        game.wf(),
        game.stage() == Phase::AwaitingInput,
{
    GuessLoop::new(random_target())
}

} // verus!
