//! A number-guessing game with a verified core.
//!
//! The player has to find a secret target between 1 and 100. Every line of
//! input is trimmed and read as an unsigned decimal number; the game answers
//! whether the guess was too small, too large or correct, and ends with the
//! first correct guess. Text that is not a number is answered and otherwise
//! ignored; only the end of the input stream is fatal.
//!
//! The modules `error`, `outcome`, `parse`, `feedback`, `game`, `session` and
//! `target` make up the game. The remaining modules hold small, independent
//! building blocks.

pub mod arith;
pub mod error;
pub mod feedback;
pub mod game;
pub mod largest;
pub mod outcome;
pub mod parse;
pub mod session;
pub mod shapes;
pub mod summary;
pub mod target;
pub mod user;
