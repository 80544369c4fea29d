//! The decision step of a number-guessing round: the secret target and the
//! guess come in as plain values, the verdict goes out. Drawing the target
//! and all reading and printing stay with the caller.

use vstd::prelude::*;

verus! {

/// The game's reply to one guess.
#[derive(Debug, PartialEq, Eq, Structural, Clone, Copy)]
pub enum GuessOutcome {
    /// The guess lies outside the playable range of 1 to 100.
    OutOfRange,
    /// The guess is below the target.
    TooLow,
    /// The guess is above the target.
    TooHigh,
    /// The guess hits the target: the round is won.
    Correct,
}

/// The verdict on `guess` against `target`.
pub open spec fn guess_outcome(target: u32, guess: u32) -> GuessOutcome {
    if guess < 1 || guess > 100 {
        GuessOutcome::OutOfRange
    } else if guess < target {
        GuessOutcome::TooLow
    } else if guess > target {
        GuessOutcome::TooHigh
    } else {
        GuessOutcome::Correct
    }
}

/// Classifies one guess against the secret target; the round is won exactly
/// on a hit.
pub fn evaluate_guess(target: u32, guess: u32) -> (r: GuessOutcome)
    requires
        1 <= target <= 100,
    ensures
        r == guess_outcome(target, guess),
        (r == GuessOutcome::Correct) == (guess == target),
{
    if guess < 1 || guess > 100 {
        GuessOutcome::OutOfRange
    } else if guess < target {
        GuessOutcome::TooLow
    } else if guess > target {
        GuessOutcome::TooHigh
    } else {
        GuessOutcome::Correct
    }
}

} // verus!
