//! The guessing loop as a state machine.
//!
//! A game waits for input, evaluates the guess it was given, and either waits
//! again or is done. The caller reads the lines and prints the answers; the
//! game decides what is answered and when to stop.

use crate::error::GameError;
use crate::feedback::{feedback_for, hits, Feedback};
use crate::outcome::{compare, outcome_of, Outcome};
use crate::parse::{parse_guess, parsed_number};
use vstd::prelude::*;

verus! {

/// The smallest target.
pub const MIN_TARGET: u32 = 1;

/// The largest target.
pub const MAX_TARGET: u32 = 100;

/// The exit code of a program whose game was won.
pub const EXIT_SUCCESS: i32 = 0;

/// The exit code of a program whose game failed.
pub const EXIT_FAILURE: i32 = 1;

/// The targets that a game can have.
pub open spec fn valid_target(target: u32) -> bool {
    MIN_TARGET <= target <= MAX_TARGET
}

/// Whether `target` is one that a game can have.
pub fn is_valid_target(target: u32) -> (b: bool)
    ensures
        b == valid_target(target),
{
    MIN_TARGET <= target && target <= MAX_TARGET
}

/// Where a game stands.
#[derive(Clone, Copy, Debug, PartialEq, Eq, Structural)]
pub enum Phase {
    /// The game waits for a line of input.
    AwaitingInput,
    /// The game holds a guess that it has not compared to the target yet.
    Evaluating { guess: u32 },
    /// The target was guessed. Nothing follows.
    Done,
}

/// What the surroundings report to the game.
#[derive(Debug)]
pub enum Event {
    /// A line was read.
    Line(String),
    /// The input stream has ended or failed.
    Closed,
}

/// What the game asks of its surroundings.
#[derive(Clone, Copy, Debug, PartialEq, Eq, Structural)]
pub enum Action {
    /// Give the answer and read the next line.
    Prompt(Feedback),
    /// Give the answer and stop: the game is won.
    Finish(Feedback),
    /// Stop with a failure.
    Abort(GameError),
}

impl Action {
    /// The exit code with which the program stops on this action, if it stops:
    /// that of success once the game is won, that of failure once it is
    /// aborted.
    pub open spec fn exit_status(self) -> Option<i32> {
        match self {
            Action::Prompt(_) => None,
            Action::Finish(_) => Some(EXIT_SUCCESS),
            Action::Abort(_) => Some(EXIT_FAILURE),
        }
    }

    /// The exit code with which the program stops on this action, if it
    /// stops.
    pub fn exit_code(&self) -> (code: Option<i32>)
        ensures
            code == self.exit_status(),
            code == Some(0i32) <==> *self is Finish,
            code is None <==> *self is Prompt,
    {
        match self {
            Action::Prompt(_) => None,
            Action::Finish(_) => Some(EXIT_SUCCESS),
            Action::Abort(_) => Some(EXIT_FAILURE),
        }
    }

    /// The answer to give to the player, if there is one.
    pub fn feedback(&self) -> (answer: Option<Feedback>)
        ensures
            answer == match *self {
                Action::Prompt(f) => Some(f),
                Action::Finish(f) => Some(f),
                Action::Abort(_) => None,
            },
    {
        match self {
            Action::Prompt(f) => Some(*f),
            Action::Finish(f) => Some(*f),
            Action::Abort(_) => None,
        }
    }
}

/// What a game that waits for input asks for when `event` comes.
pub open spec fn action_for(target: u32, event: Event) -> Action {
    match event {
        Event::Line(text) => {
            let feedback = feedback_for(target, text@);
            if feedback.ends_game() {
                Action::Finish(feedback)
            } else {
                Action::Prompt(feedback)
            }
        },
        Event::Closed => Action::Abort(GameError::InputStream),
    }
}

/// Where a game that waits for input stands after `event`.
pub open spec fn phase_after(target: u32, event: Event) -> Phase {
    match event {
        Event::Line(text) => if hits(target, text@) {
            Phase::Done
        } else {
            Phase::AwaitingInput
        },
        Event::Closed => Phase::AwaitingInput,
    }
}

/// A game: the target and the phase the game is in.
#[derive(Debug)]
pub struct GuessLoop {
    target: u32,
    phase: Phase,
}

impl GuessLoop {
    /// The target of this game.
    pub closed spec fn secret(&self) -> u32 {
        self.target
    }

    /// The phase this game is in.
    pub closed spec fn stage(&self) -> Phase {
        self.phase
    }

    /// A game's target lies between 1 and 100.
    pub open spec fn wf(&self) -> bool {
        valid_target(self.secret())
    }

    /// A new game, which waits for its first line.
    pub fn new(target: u32) -> (game: GuessLoop)
        requires
            valid_target(target),
        ensures
            game.wf(),
            game.secret() == target,
            game.stage() == Phase::AwaitingInput,
    {
        GuessLoop { target, phase: Phase::AwaitingInput }
    }

    /// The target.
    pub fn target(&self) -> (t: u32)
        ensures
            t == self.secret(),
    {
        self.target
    }

    /// The phase the game is in.
    pub fn phase(&self) -> (p: Phase)
        ensures
            p == self.stage(),
    {
        self.phase
    }

    /// Whether the target was guessed.
    pub fn is_done(&self) -> (b: bool)
        ensures
            b == (self.stage() == Phase::Done),
    {
        match self.phase {
            Phase::Done => true,
            _ => false,
        }
    }

    /// Takes a line of input. A number becomes the guess to evaluate; on
    /// anything else the game goes on waiting and reports a parse error.
    pub fn receive(&mut self, line: &str) -> (guess: Result<u32, GameError>)
        requires
            old(self).wf(),
            old(self).stage() == Phase::AwaitingInput,
        ensures
            final(self).wf(),
            final(self).secret() == old(self).secret(),
            match parsed_number(line@) {
                Some(n) => guess == Ok::<u32, GameError>(n) && final(self).stage()
                    == (Phase::Evaluating { guess: n }),
                None => guess == Err::<u32, GameError>(GameError::Parse) && final(self).stage()
                    == Phase::AwaitingInput,
            },
    {
        let guess = parse_guess(line);
        if let Ok(n) = guess {
            self.phase = Phase::Evaluating { guess: n };
        }
        guess
    }

    /// Compares the guess that the game holds to the target. A correct guess
    /// ends the game; after any other the game waits for input again.
    pub fn evaluate(&mut self) -> (outcome: Outcome)
        requires
            old(self).wf(),
            old(self).stage() is Evaluating,
        ensures
            final(self).wf(),
            final(self).secret() == old(self).secret(),
            outcome == outcome_of(old(self).stage()->guess as int, old(self).secret() as int),
            final(self).stage() == if outcome == Outcome::Correct {
                Phase::Done
            } else {
                Phase::AwaitingInput
            },
    {
        let guess: u32 = match self.phase {
            Phase::Evaluating { guess } => guess,
            _ => unreached(),
        };
        let outcome = compare(guess, self.target);
        self.phase = if outcome.is_final() {
            Phase::Done
        } else {
            Phase::AwaitingInput
        };
        outcome
    }

    /// One turn of the game: takes a line and answers it. The game is done
    /// after the turn exactly if the line was the target; a line that is no
    /// number leaves the game as it was.
    pub fn turn(&mut self, line: &str) -> (feedback: Feedback)
        requires
            old(self).wf(),
            old(self).stage() == Phase::AwaitingInput,
        ensures
            final(self).wf(),
            final(self).secret() == old(self).secret(),
            feedback == feedback_for(old(self).secret(), line@),
            final(self).stage() == if hits(old(self).secret(), line@) {
                Phase::Done
            } else {
                Phase::AwaitingInput
            },
            (final(self).stage() == Phase::Done) <==> feedback.ends_game(),
            parsed_number(line@) is None ==> feedback == Feedback::NotANumber && final(self).stage()
                == Phase::AwaitingInput,
    {
        match self.receive(line) {
            Ok(guess) => {
                let outcome = self.evaluate();
                Feedback::Judged { guess, outcome }
            },
            Err(_) => Feedback::NotANumber,
        }
    }

    /// Moves the game on by one event and says what to do next. A line is
    /// answered, and the game finishes if it was the target; the loss of the
    /// input stream aborts the game and is the only event that does.
    pub fn step(&mut self, event: &Event) -> (action: Action)
        requires
            old(self).wf(),
            old(self).stage() == Phase::AwaitingInput,
        ensures
            final(self).wf(),
            final(self).secret() == old(self).secret(),
            action == action_for(old(self).secret(), *event),
            final(self).stage() == phase_after(old(self).secret(), *event),
            (final(self).stage() == Phase::Done) <==> action is Finish,
            action is Abort <==> *event is Closed,
    {
        match event {
            Event::Line(text) => {
                let feedback = self.turn(text.as_str());
                if feedback.is_final() {
                    Action::Finish(feedback)
                } else {
                    Action::Prompt(feedback)
                }
            },
            Event::Closed => Action::Abort(GameError::InputStream),
        }
    }
}

} // verus!
