use vstd::prelude::*;

use crate::game::{Board, GameConfig, GameResult, Move, Position};

verus! {

/// An `Id` represents a widget in the interface, used for identification purposes.
#[derive(Debug, Clone, Copy, PartialEq, Eq, Hash, Structural)]
pub enum Id {
    /// The 3×3 grid of tiles, taking up the left side of the screen.
    Board,
    /// The status widget rendered under the board.
    Status,
    /// A sidebar menu containing various options.
    Sidebar,
    /// The "New Game" configuration popup, overlaying the bottom half of the sidebar.
    NewGameModal,
    /// A hidden and entirely invisible widget used to trigger a redraw on window resize.
    RedrawOnResize,
}

/// The messages that widgets emit and the application handles.
#[derive(Debug, Clone, Copy, PartialEq, Eq)]
pub enum Message {
    /// A cell was confirmed as selected by the user; the position goes to the game thread.
    MoveMade(Position),
    /// A user attempted to make an invalid move.
    InvalidMove(InvalidMoveReason),
    /// Force the screen to redraw itself.
    Redraw,
    /// Quit the application.
    AppQuit,
    /// Move keyboard focus to the sidebar.
    FocusSidebar,
    /// Move keyboard focus back to the board.
    FocusBoard,
    /// Open the new game configuration modal.
    OpenNewGameModal,
    /// Start a new game with the given configuration.
    StartGame(GameConfig),
    /// Close the current modal and return to the menu screen.
    CloseModal,
}

/// Why a move the user attempted is invalid.
#[derive(Debug, Clone, Copy, PartialEq, Eq, Structural)]
pub enum InvalidMoveReason {
    /// The user attempted to select a cell that was already occupied.
    CellOccupied,
    /// The user attempted to make a move after the game had already concluded.
    GameOver,
}

/// The name under which a reason is stored in string-valued event data.
pub open spec fn reason_name(reason: InvalidMoveReason) -> Seq<char> {
    match reason {
        InvalidMoveReason::CellOccupied => "CellOccupied"@,
        InvalidMoveReason::GameOver => "GameOver"@,
    }
}

/// The reason that has the given name, if any.
pub open spec fn reason_named(s: Seq<char>) -> Option<InvalidMoveReason> {
    if s == "CellOccupied"@ {
        Some(InvalidMoveReason::CellOccupied)
    } else if s == "GameOver"@ {
        Some(InvalidMoveReason::GameOver)
    } else {
        None
    }
}

impl InvalidMoveReason {
    /// The reason's name, as stored in string-valued event data.
    pub fn name(self) -> (s: &'static str)
        ensures
            s@ == reason_name(self),
    {
        match self {
            InvalidMoveReason::CellOccupied => "CellOccupied",
            InvalidMoveReason::GameOver => "GameOver",
        }
    }

    /// The reason's name as an owned string.
    pub fn name_string(self) -> (s: String)
        ensures
            s@ == reason_name(self),
    {
        String::from_str(self.name())
    }

    /// The reason with the given name; any other text is refused with a message naming it.
    pub fn parse(s: &str) -> (res: Result<InvalidMoveReason, String>)
        ensures
            res is Ok <==> reason_named(s@) is Some,
            res matches Ok(reason) ==> reason_named(s@) == Some(reason),
            res matches Err(msg) ==> msg@ == "Unknown InvalidMoveReason: "@ + s@,
    {
        let owned = String::from_str(s);
        if owned == String::from_str("CellOccupied") {
            Ok(InvalidMoveReason::CellOccupied)
        } else if owned == String::from_str("GameOver") {
            Ok(InvalidMoveReason::GameOver)
        } else {
            let mut msg = String::from_str("Unknown InvalidMoveReason: ");
            msg.append(s);
            Err(msg)
        }
    }
}

/// Parsing a reason's name gives the reason back.
pub proof fn lemma_reason_name_round_trip(reason: InvalidMoveReason)
    ensures
        reason_named(reason_name(reason)) == Some(reason),
{
    reveal_strlit("CellOccupied");
    reveal_strlit("GameOver");
    assert("CellOccupied"@.len() != "GameOver"@.len());
}

/// The events that the game thread raises for the interface.
#[derive(Debug, Clone, PartialEq, Eq)]
pub enum UserEvent {
    GameStarted,
    GameUpdated(GameUpdate),
    InvalidMove(InvalidMoveReason),
}

/// A `GameUpdate` represents an update to the game state that the interface should display.
#[derive(Debug, Clone, PartialEq, Eq)]
pub enum GameUpdate {
    /// The initial state of the game board, sent immediately after game creation.
    Initial(Board),
    /// A move was made on the board.
    Move(Move),
    /// The game has finished with the given result.
    Finished {
        /// The game board at the time of conclusion.
        board: Board,
        /// The result of the game at the moment of its conclusion; never
        /// [`GameResult::Ongoing`].
        result: GameResult,
    },
}

} // verus!
