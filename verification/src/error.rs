//! What can go wrong while the game runs.

use vstd::prelude::*;

verus! {

/// The two ways in which a turn can fail.
#[derive(Clone, Copy, Debug, PartialEq, Eq, Structural)]
pub enum GameError {
    /// The line was not an unsigned number. The game asks again.
    Parse,
    /// The input stream ended or could not be read. The game cannot go on.
    InputStream,
}

impl GameError {
    /// Only the loss of the input stream ends the game.
    pub open spec fn fatal(self) -> bool {
        self == GameError::InputStream
    }

    /// Whether the game has to stop on this error.
    pub fn is_fatal(&self) -> (b: bool)
        ensures
            b == self.fatal(),
    {
        match self {
            GameError::Parse => false,
            GameError::InputStream => true,
        }
    }
}

} // verus!
