//! What the game says after a line of input.

use crate::outcome::{outcome_of, Outcome};
use crate::parse::parsed_number;
use vstd::prelude::*;

verus! {

/// The answer to one line of input.
#[derive(Clone, Copy, Debug, PartialEq, Eq, Structural)]
pub enum Feedback {
    /// The line was not a number.
    NotANumber,
    /// The line was the number `guess`, which compares to the target as
    /// `outcome` says.
    Judged { guess: u32, outcome: Outcome },
}

/// The answer that a game with the given target owes to a line of input.
pub open spec fn feedback_for(target: u32, line: Seq<char>) -> Feedback {
    match parsed_number(line) {
        Some(guess) => Feedback::Judged {
            guess,
            outcome: outcome_of(guess as int, target as int),
        },
        None => Feedback::NotANumber,
    }
}

/// Whether a line of input is the correct guess.
pub open spec fn hits(target: u32, line: Seq<char>) -> bool {
    parsed_number(line) == Some(target)
}

impl Feedback {
    /// Whether this answer ends the game: only the answer to a correct guess
    /// does.
    pub open spec fn ends_game(self) -> bool {
        self matches Feedback::Judged { outcome, .. } && outcome == Outcome::Correct
    }

    /// The words in which the answer is given to the player.
    pub open spec fn text(self) -> Seq<char> {
        match self {
            Feedback::NotANumber => "input must be a number"@,
            Feedback::Judged { outcome: Outcome::TooSmall, .. } => "too small"@,
            Feedback::Judged { outcome: Outcome::TooLarge, .. } => "too big"@,
            Feedback::Judged { outcome: Outcome::Correct, .. } => "correct"@,
        }
    }

    /// Whether this answer ends the game.
    pub fn is_final(&self) -> (b: bool)
        ensures
            b == self.ends_game(),
    {
        match self {
            Feedback::Judged { outcome, .. } => outcome.is_final(),
            Feedback::NotANumber => false,
        }
    }

    /// The number that was guessed, if the line was a number.
    pub fn guess(&self) -> (g: Option<u32>)
        ensures
            g == match *self {
                Feedback::Judged { guess, .. } => Some(guess),
                Feedback::NotANumber => None,
            },
    {
        match self {
            Feedback::Judged { guess, .. } => Some(*guess),
            Feedback::NotANumber => None,
        }
    }

    /// The message for the player.
    pub fn message(&self) -> (s: String)
        ensures
            s@ == self.text(),
    {
        match self {
            Feedback::NotANumber => String::from_str("input must be a number"),
            Feedback::Judged { outcome, .. } => match outcome {
                Outcome::TooSmall => String::from_str("too small"),
                Outcome::TooLarge => String::from_str("too big"),
                Outcome::Correct => String::from_str("correct"),
            },
        }
    }
}

/// The answer to a line ends the game exactly if the line is the target.
pub proof fn lemma_feedback_ends_game_iff_hit(target: u32, line: Seq<char>)
    ensures
        feedback_for(target, line).ends_game() <==> hits(target, line),
{
}

/// A line that is no number is answered as such, and the answer does not end
/// the game.
pub proof fn lemma_non_number_does_not_end_game(target: u32, line: Seq<char>)
    requires
        parsed_number(line) is None,
    ensures
        feedback_for(target, line) == Feedback::NotANumber,
        !feedback_for(target, line).ends_game(),
        !hits(target, line),
{
}

} // verus!
