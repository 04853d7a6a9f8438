//! A whole game over lines that are already at hand.
//!
//! The lines are taken in order until one is the target. If they run out
//! first, the game fails as it does when the input stream ends.

use crate::error::GameError;
use crate::feedback::{feedback_for, hits, Feedback};
use crate::game::{valid_target, GuessLoop, Phase, EXIT_FAILURE, EXIT_SUCCESS};
use crate::parse::parsed_number;
use vstd::prelude::*;

verus! {

/// The text of each line.
pub open spec fn texts(lines: Seq<String>) -> Seq<Seq<char>> {
    Seq::new(lines.len(), |i: int| lines[i]@)
}

/// Whether one of the lines is the target.
pub open spec fn wins(target: u32, lines: Seq<Seq<char>>) -> bool {
    exists|i: int| 0 <= i < lines.len() && hits(target, #[trigger] lines[i])
}

/// How many of the lines the game reads: all up to the first that is the
/// target, and all of them if none is.
pub open spec fn turns_taken(target: u32, lines: Seq<Seq<char>>) -> nat
    decreases lines.len(),
{
    if lines.len() == 0 {
        0
    } else if hits(target, lines[0]) {
        1
    } else {
        1 + turns_taken(target, lines.skip(1))
    }
}

/// The answers of the game, one for each line that it reads.
pub open spec fn replies(target: u32, lines: Seq<Seq<char>>) -> Seq<Feedback> {
    Seq::new(turns_taken(target, lines), |i: int| feedback_for(target, lines[i]))
}

/// The record of a game.
#[derive(Debug)]
pub struct Transcript {
    /// The answers that were given, in order.
    pub feedback: Vec<Feedback>,
    /// Whether the target was guessed.
    pub won: bool,
}

impl Transcript {
    /// The error that ended the game, if it was not won: the input ran out.
    pub open spec fn failure(&self) -> Option<GameError> {
        if self.won {
            None
        } else {
            Some(GameError::InputStream)
        }
    }

    /// The error that ended the game, if it was not won.
    pub fn error(&self) -> (e: Option<GameError>)
        ensures
            e == self.failure(),
    {
        if self.won {
            None
        } else {
            Some(GameError::InputStream)
        }
    }

    /// The exit code of a program that played this game: that of success if
    /// the target was guessed, that of failure if the input ran out before.
    pub fn exit_code(&self) -> (code: i32)
        ensures
            code == if self.won { EXIT_SUCCESS } else { EXIT_FAILURE },
            code == 0 <==> self.won,
    {
        if self.won {
            EXIT_SUCCESS
        } else {
            EXIT_FAILURE
        }
    }

    /// The messages that the player was given, in order.
    pub fn messages(&self) -> (out: Vec<String>)
        ensures
            out.len() == self.feedback.len(),
            forall|i: int| 0 <= i < out.len() ==> (#[trigger] out[i])@ == self.feedback[i].text(),
    {
        let mut out: Vec<String> = Vec::new();
        let mut i: usize = 0;
        while i < self.feedback.len()
            invariant
                i <= self.feedback.len(),
                out.len() == i,
                forall|j: int| 0 <= j < i ==> (#[trigger] out[j])@ == self.feedback[j].text(),
            decreases self.feedback.len() - i,
        {
            out.push(self.feedback[i].message());
            i += 1;
        }
        out
    }
}

/// The game reads one line more than the lines before the first hit.
pub proof fn lemma_turns_up_to_first_hit(target: u32, lines: Seq<Seq<char>>, k: int)
    requires
        0 <= k < lines.len(),
        hits(target, lines[k]),
        forall|j: int| 0 <= j < k ==> !hits(target, #[trigger] lines[j]),
    ensures
        turns_taken(target, lines) == k + 1,
    decreases k,
{
    if k > 0 {
        let rest = lines.skip(1);
        assert(!hits(target, lines[0]));
        assert(rest[k - 1] == lines[k]);
        assert forall|j: int| 0 <= j < k - 1 implies !hits(target, #[trigger] rest[j]) by {
            assert(rest[j] == lines[j + 1]);
        }
        lemma_turns_up_to_first_hit(target, rest, k - 1);
    }
}

/// Without a hit the game reads every line.
pub proof fn lemma_turns_without_hit(target: u32, lines: Seq<Seq<char>>)
    requires
        !wins(target, lines),
    ensures
        turns_taken(target, lines) == lines.len(),
    decreases lines.len(),
{
    if lines.len() > 0 {
        let rest = lines.skip(1);
        assert(!hits(target, lines[0]));
        assert forall|j: int| 0 <= j < rest.len() implies !hits(target, #[trigger] rest[j]) by {
            assert(rest[j] == lines[j + 1]);
        }
        lemma_turns_without_hit(target, rest);
    }
}

/// The place of the first line that is the target, if there is one.
pub open spec fn first_hit(target: u32, lines: Seq<Seq<char>>) -> int {
    choose|k: int|
        0 <= k < lines.len() && hits(target, #[trigger] lines[k]) && forall|j: int|
            0 <= j < k ==> !hits(target, #[trigger] lines[j])
}

/// Among lines that hold the target there is a first that does.
pub proof fn lemma_first_hit(target: u32, lines: Seq<Seq<char>>)
    requires
        wins(target, lines),
    ensures
        0 <= first_hit(target, lines) < lines.len(),
        hits(target, lines[first_hit(target, lines)]),
        forall|j: int| 0 <= j < first_hit(target, lines) ==> !hits(target, #[trigger] lines[j]),
{
    let i = choose|i: int| 0 <= i < lines.len() && hits(target, #[trigger] lines[i]);
    lemma_hit_has_first(target, lines, i);
}

/// Before every hit there is a first one.
proof fn lemma_hit_has_first(target: u32, lines: Seq<Seq<char>>, i: int)
    requires
        0 <= i < lines.len(),
        hits(target, lines[i]),
    ensures
        exists|k: int|
            0 <= k < lines.len() && hits(target, #[trigger] lines[k]) && forall|j: int|
                0 <= j < k ==> !hits(target, #[trigger] lines[j]),
    decreases i,
{
    if exists|j: int| 0 <= j < i && hits(target, #[trigger] lines[j]) {
        let j = choose|j: int| 0 <= j < i && hits(target, #[trigger] lines[j]);
        lemma_hit_has_first(target, lines, j);
    } else {
        assert(0 <= i < lines.len() && hits(target, lines[i]) && forall|j: int|
            0 <= j < i ==> !hits(target, #[trigger] lines[j]));
    }
}

/// The game never reads more lines than there are.
pub proof fn lemma_turns_bounded(target: u32, lines: Seq<Seq<char>>)
    ensures
        turns_taken(target, lines) <= lines.len(),
        lines.len() > 0 ==> turns_taken(target, lines) > 0,
    decreases lines.len(),
{
    if lines.len() > 0 {
        lemma_turns_bounded(target, lines.skip(1));
    }
}

/// A game on two runs of lines, one after the other, is won if either run
/// holds the target. If the first does, the second is never read; if not, all
/// of the first is read and the game goes on with the second.
pub proof fn lemma_turns_of_concat(target: u32, first: Seq<Seq<char>>, second: Seq<Seq<char>>)
    ensures
        wins(target, first + second) <==> wins(target, first) || wins(target, second),
        turns_taken(target, first + second) == if wins(target, first) {
            turns_taken(target, first)
        } else {
            first.len() + turns_taken(target, second)
        },
    decreases first.len(),
{
    let all = first + second;
    if wins(target, first) {
        let i = choose|i: int| 0 <= i < first.len() && hits(target, #[trigger] first[i]);
        assert(all[i] == first[i]);
    }
    if wins(target, second) {
        let i = choose|i: int| 0 <= i < second.len() && hits(target, #[trigger] second[i]);
        assert(all[first.len() + i] == second[i]);
    }
    if wins(target, all) {
        let i = choose|i: int| 0 <= i < all.len() && hits(target, #[trigger] all[i]);
        if i < first.len() {
            assert(all[i] == first[i]);
        } else {
            assert(all[i] == second[i - first.len()]);
        }
    }
    if first.len() == 0 {
        assert(all =~= second);
    } else {
        assert(all[0] == first[0]);
        assert(all.skip(1) =~= first.skip(1) + second);
        if !hits(target, first[0]) {
            let rest = first.skip(1);
            lemma_turns_of_concat(target, rest, second);
            if wins(target, rest) {
                let i = choose|i: int| 0 <= i < rest.len() && hits(target, #[trigger] rest[i]);
                assert(first[i + 1] == rest[i]);
            }
            if wins(target, first) {
                let i = choose|i: int| 0 <= i < first.len() && hits(target, #[trigger] first[i]);
                assert(rest[i - 1] == first[i]);
            }
        }
    }
}

/// The game ends with the first correct guess and with nothing else: it is
/// won exactly if its last answer is the one to a correct guess, and no
/// answer before the last is.
pub proof fn lemma_game_ends_iff_correct(target: u32, lines: Seq<Seq<char>>)
    ensures
        wins(target, lines) <==> replies(target, lines).len() > 0 && replies(
            target,
            lines,
        ).last().ends_game(),
        forall|i: int|
            0 <= i < replies(target, lines).len() - 1 ==> !(#[trigger] replies(
                target,
                lines,
            )[i]).ends_game(),
{
    lemma_turns_bounded(target, lines);
    if wins(target, lines) {
        let k = first_hit(target, lines);
        lemma_first_hit(target, lines);
        lemma_turns_up_to_first_hit(target, lines, k);
    } else {
        lemma_turns_without_hit(target, lines);
    }
}

/// Once a line is the target, the game is won and reads no line after it.
pub proof fn lemma_correct_guess_ends_game(target: u32, lines: Seq<Seq<char>>, k: int)
    requires
        0 <= k < lines.len(),
        hits(target, lines[k]),
    ensures
        wins(target, lines),
        turns_taken(target, lines) <= k + 1,
{
    let j = first_hit(target, lines);
    lemma_first_hit(target, lines);
    lemma_turns_up_to_first_hit(target, lines, j);
}

/// A line that is no number neither ends the game nor makes it fail. Put
/// anywhere among the lines, it is answered as no number where the game comes
/// to read it, and everything else stays as it was: the other answers, and
/// whether the game is won.
pub proof fn lemma_non_number_is_harmless(
    target: u32,
    before: Seq<Seq<char>>,
    line: Seq<char>,
    after: Seq<Seq<char>>,
)
    requires
        parsed_number(line) is None,
    ensures
        wins(target, before + seq![line] + after) == wins(target, before + after),
        wins(target, before) ==> replies(target, before + seq![line] + after) == replies(
            target,
            before + after,
        ),
        !wins(target, before) ==> replies(target, before + seq![line] + after) == replies(
            target,
            before + after,
        ).insert(before.len() as int, Feedback::NotANumber),
{
    let one = seq![line];
    let with = before + one + after;
    let without = before + after;
    assert(with =~= before + (one + after));
    assert(!wins(target, one)) by {
        if wins(target, one) {
            let i = choose|i: int| 0 <= i < one.len() && hits(target, #[trigger] one[i]);
            assert(one[i] == line);
        }
    }
    lemma_turns_of_concat(target, one, after);
    lemma_turns_of_concat(target, before, one + after);
    lemma_turns_of_concat(target, before, after);
    lemma_turns_bounded(target, before);
    lemma_turns_bounded(target, after);
    assert(turns_taken(target, one) == 1) by {
        lemma_turns_without_hit(target, one);
    }
    if wins(target, before) {
        assert(replies(target, with) =~= replies(target, without));
    } else {
        let n = before.len() as int;
        let short = replies(target, without);
        let long = replies(target, with);
        assert(long.len() == short.len() + 1);
        assert forall|i: int| 0 <= i < long.len() implies long[i] == short.insert(
            n,
            Feedback::NotANumber,
        )[i] by {
            if i < n {
                assert(with[i] == without[i]);
            } else if i == n {
                assert(with[i] == line);
            } else {
                assert(with[i] == without[i - 1]);
            }
        }
        assert(long =~= short.insert(n, Feedback::NotANumber));
    }
}

/// Plays a game with the given target on the given lines.
pub fn play(target: u32, lines: &Vec<String>) -> (transcript: Transcript)
    requires
        valid_target(target),
    ensures
        transcript.feedback@ == replies(target, texts(lines@)),
        transcript.won == wins(target, texts(lines@)),
{
    let ghost input = texts(lines@);
    let mut game = GuessLoop::new(target);
    let mut feedback: Vec<Feedback> = Vec::new();
    let mut i: usize = 0;
    while i < lines.len()
        invariant
            i <= lines.len(),
            input == texts(lines@),
            game.wf(),
            game.secret() == target,
            game.stage() == Phase::AwaitingInput,
            feedback.len() == i,
            forall|j: int| 0 <= j < i ==> !hits(target, #[trigger] input[j]),
            forall|j: int| 0 <= j < i ==> #[trigger] feedback[j] == feedback_for(target, input[j]),
        decreases lines.len() - i,
    {
        let answer = game.turn(lines[i].as_str());
        feedback.push(answer);
        if game.is_done() {
            proof {
                assert(hits(target, input[i as int]));
                lemma_turns_up_to_first_hit(target, input, i as int);
                assert(feedback@ =~= replies(target, input));
            }
            return Transcript { feedback, won: true };
        }
        i += 1;
    }
    proof {
        lemma_turns_without_hit(target, input);
        assert(feedback@ =~= replies(target, input));
    }
    Transcript { feedback, won: false }
}

} // verus!
