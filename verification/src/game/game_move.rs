use vstd::prelude::*;

use crate::game::board::Position;
use crate::game::mark::Mark;

verus! {

/// A Move represents information about a single move in the game.
#[derive(Debug, Clone, Copy, PartialEq, Eq)]
pub struct Move {
    /// The mark that was played (X or O).
    pub mark: Mark,
    /// The position on the board where the mark was played.
    pub position: Position,
}

impl Default for Move {
    /// An X at the top-left corner.
    fn default() -> (m: Move)
        ensures
            m.mark == Mark::X,
            m.position == (0usize, 0usize),
    {
        Move { mark: Mark::X, position: (0, 0) }
    }
}

} // verus!
