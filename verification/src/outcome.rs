//! The verdict on a single guess.

use vstd::prelude::*;

verus! {

/// How a guess relates to the target.
#[derive(Clone, Copy, Debug, PartialEq, Eq, Structural)]
pub enum Outcome {
    /// The guess lies below the target.
    TooSmall,
    /// The guess lies above the target.
    TooLarge,
    /// The guess is the target.
    Correct,
}

/// The outcome of comparing `guess` to `target`, over all integers.
pub open spec fn outcome_of(guess: int, target: int) -> Outcome {
    if guess < target {
        Outcome::TooSmall
    } else if guess > target {
        Outcome::TooLarge
    } else {
        Outcome::Correct
    }
}

/// Compares a guess to the target.
pub fn compare(guess: u32, target: u32) -> (outcome: Outcome)
    ensures
        outcome == outcome_of(guess as int, target as int),
        guess < target ==> outcome == Outcome::TooSmall,
        guess > target ==> outcome == Outcome::TooLarge,
        guess == target ==> outcome == Outcome::Correct,
{
    if guess < target {
        Outcome::TooSmall
    } else if guess > target {
        Outcome::TooLarge
    } else {
        Outcome::Correct
    }
}

impl Outcome {
    /// Whether this outcome ends the game.
    pub open spec fn ends_game(self) -> bool {
        self == Outcome::Correct
    }

    /// Whether this outcome ends the game: only a correct guess does.
    pub fn is_final(&self) -> (b: bool)
        ensures
            b == self.ends_game(),
    {
        match self {
            Outcome::Correct => true,
            _ => false,
        }
    }
}

/// A guess below the target is too small.
pub proof fn lemma_smaller_guess_is_too_small(guess: int, target: int)
    requires
        guess < target,
    ensures
        outcome_of(guess, target) == Outcome::TooSmall,
{
}

/// A guess above the target is too large.
pub proof fn lemma_larger_guess_is_too_large(guess: int, target: int)
    requires
        guess > target,
    ensures
        outcome_of(guess, target) == Outcome::TooLarge,
{
}

/// A guess equal to the target is correct, and only such a guess is.
pub proof fn lemma_equal_guess_is_correct(guess: int, target: int)
    ensures
        guess == target <==> outcome_of(guess, target) == Outcome::Correct,
        guess == target <==> outcome_of(guess, target).ends_game(),
{
}

} // verus!
