use vstd::prelude::*;

use crate::game::{Board, Mark, Position};
use crate::player::{Player, PlayerError};

verus! {

#[verifier::external_type_specification]
#[verifier::external_body]
#[verifier::reject_recursive_types(T)]
pub struct ExReceiver<T>(std::sync::mpsc::Receiver<T>);

/// `std::sync::mpsc::Receiver::recv`: blocks until the interface thread sends a position
/// (`Some`) or closes its end of the channel (`None`). What arrives depends on the other
/// thread, so nothing is stated of it.
#[verifier::external_body]
fn receive(move_rx: &std::sync::mpsc::Receiver<Position>) -> (received: Option<Position>) {
    match move_rx.recv() {
        Ok(pos) => Some(pos),
        Err(_) => None,
    }
}

/// Error returned when the connection to the interface is closed.
#[derive(Debug, Clone, Copy, PartialEq, Eq, Structural)]
pub struct PlayerDisconnected;

impl PlayerDisconnected {
    /// The text that describes the error.
    pub fn message(&self) -> (s: &'static str)
        ensures
            s@ == "player disconnected"@,
    {
        "player disconnected"
    }
}

/// A `TuiPlayer` represents a human player interacting through the terminal interface.
///
/// It receives the player's chosen move from the interface thread via a channel.
pub struct TuiPlayer {
    /// The mark this player is using (X or O).
    mark: Mark,
    /// The receiving end of the move channel.
    move_rx: std::sync::mpsc::Receiver<Position>,
}

impl TuiPlayer {
    /// The mark this player uses.
    pub closed spec fn mark_of(&self) -> Mark {
        self.mark
    }

    /// Create a new interface player with the given mark and channel.
    ///
    /// It is the caller's responsibility to hand the sending end to the interface thread.
    pub fn new(mark: Mark, move_rx: std::sync::mpsc::Receiver<Position>) -> (p: TuiPlayer)
        ensures
            p.mark_of() == mark,
    {
        TuiPlayer { mark, move_rx }
    }

    /// The outcome of waiting for a move: the position that arrived, or
    /// `PlayerDisconnected` when the channel was closed.
    pub fn outcome_of(received: Option<Position>) -> (res: Result<Position, PlayerError>)
        ensures
            res == (match received {
                Some(pos) => Ok(pos),
                None => Err(PlayerError::Disconnected(PlayerDisconnected)),
            }),
    {
        match received {
            Some(pos) => Ok(pos),
            None => Err(PlayerError::Disconnected(PlayerDisconnected)),
        }
    }
}

impl Player for TuiPlayer {
    /// Block until the interface thread sends a move; fail with `PlayerDisconnected`
    /// when the channel is closed.
    fn choose_move(&mut self, _board: &Board) -> (res: Result<Position, PlayerError>)
        ensures
            final(self).mark_of() == old(self).mark_of(),
            res is Ok || res == Err::<Position, PlayerError>(PlayerError::Disconnected(PlayerDisconnected)),
    {
        let received = receive(&self.move_rx);
        TuiPlayer::outcome_of(received)
    }

    fn get_mark(&self) -> (m: Mark)
        ensures
            m == self.mark_of(),
    {
        self.mark
    }
}

} // verus!
