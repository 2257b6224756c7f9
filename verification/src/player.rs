//! The `Player` trait, alongside implementations of the computer players and the human player.

pub mod minimax;
pub mod random;
pub mod tui;

use vstd::prelude::*;

use crate::game::{Board, Mark, Position};

pub use minimax::Minimax;
pub use random::Random;
pub use tui::{PlayerDisconnected, TuiPlayer};

verus! {

/// Why a player could not choose a move.
#[derive(Debug, Clone, Copy, PartialEq, Eq)]
pub enum PlayerError {
    /// The board has no empty cell left.
    NoLegalMoves,
    /// The human player's connection to the interface was closed.
    Disconnected(PlayerDisconnected),
}

/// A `Player` represents an agent in the game capable of choosing their next move.
pub trait Player {
    /// Choose a move based on the current state of the board.
    ///
    /// Implementers return an error if no valid move can be made.
    fn choose_move(&mut self, board: &Board) -> Result<Position, PlayerError>;

    /// Retrieve the mark that this player uses (X or O).
    fn get_mark(&self) -> Mark;
}

} // verus!
