use vstd::prelude::*;

use crate::game::board::empty_positions;
use crate::game::{Board, Mark, Position};
use crate::player::{Player, PlayerError};

verus! {

#[verifier::external_type_specification]
#[verifier::external_body]
pub struct ExRng(fastrand::Rng);

/// `fastrand::Rng::new`: a generator seeded from the thread's global generator.
#[verifier::external_body]
fn new_rng() -> fastrand::Rng {
    fastrand::Rng::new()
}

/// `fastrand::Rng::choice`: `None` for an empty list, otherwise one of its items,
/// picked at random (which one is left open).
#[verifier::external_body]
fn choose_one(rng: &mut fastrand::Rng, moves: Vec<Position>) -> (choice: Option<Position>)
    ensures
        choice is None <==> moves@.len() == 0,
        choice matches Some(pos) ==> moves@.contains(pos),
{
    rng.choice(moves)
}

/// A `Random` represents a strategy that chooses moves randomly from the available options.
pub struct Random {
    /// The random number generator used to select moves.
    rng: fastrand::Rng,
    mark: Mark,
}

impl Random {
    /// The mark this player uses.
    pub closed spec fn mark_of(&self) -> Mark {
        self.mark
    }

    /// Create a new random player with the given mark.
    pub fn new(mark: Mark) -> (p: Random)
        ensures
            p.mark_of() == mark,
    {
        Random { mark, rng: new_rng() }
    }

    /// The outcome of a random pick among `moves`: the picked position, or
    /// `NoLegalMoves` when nothing could be picked.
    pub fn outcome_of(choice: Option<Position>) -> (res: Result<Position, PlayerError>)
        ensures
            res == (match choice {
                Some(pos) => Ok(pos),
                None => Err(PlayerError::NoLegalMoves),
            }),
    {
        match choice {
            Some(pos) => Ok(pos),
            None => Err(PlayerError::NoLegalMoves),
        }
    }
}

impl Player for Random {
    /// Pick one of the available moves at random; fail when there is none.
    fn choose_move(&mut self, board: &Board) -> (res: Result<Position, PlayerError>)
        ensures
            final(self).mark_of() == old(self).mark_of(),
            res is Err <==> empty_positions(board@).len() == 0,
            res is Err ==> res == Err::<Position, PlayerError>(PlayerError::NoLegalMoves),
            res matches Ok(pos) ==> empty_positions(board@).contains(pos),
    {
        let choice = choose_one(&mut self.rng, board.available_moves());
        Random::outcome_of(choice)
    }

    fn get_mark(&self) -> (m: Mark)
        ensures
            m == self.mark_of(),
    {
        self.mark
    }
}

} // verus!
