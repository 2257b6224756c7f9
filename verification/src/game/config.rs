use vstd::prelude::*;

use crate::game::mark::Mark;

verus! {

/// Enum representing the various CPU strategies the player can choose to play against.
#[derive(Debug, Clone, Copy, PartialEq, Eq, Structural)]
pub enum OpponentKind {
    Minimax,
    Random,
}

impl OpponentKind {
    /// The name under which the strategy is shown.
    pub fn name(&self) -> (s: &'static str)
        ensures
            s@ == (if *self == OpponentKind::Minimax { "Minimax"@ } else { "Random"@ }),
    {
        match self {
            OpponentKind::Minimax => "Minimax",
            OpponentKind::Random => "Random",
        }
    }
}

/// Configuration for a new game session chosen by the player.
#[derive(Debug, Clone, Copy, PartialEq, Eq, Structural)]
pub struct GameConfig {
    /// The mark the human player will use.
    pub player_mark: Mark,
    /// The CPU opponent's strategy.
    pub opponent: OpponentKind,
    /// Whether the human player should make the first move.
    pub player_first: bool,
}

impl Default for GameConfig {
    /// The human plays X, moves first, against the minimax opponent.
    fn default() -> (c: GameConfig)
        ensures
            c.player_mark == Mark::X,
            c.opponent == OpponentKind::Minimax,
            c.player_first,
    {
        GameConfig { player_mark: Mark::X, opponent: OpponentKind::Minimax, player_first: true }
    }
}

} // verus!
