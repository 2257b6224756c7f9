use vstd::prelude::*;

use crate::game::board::in_bounds;
use crate::game::{GameConfig, Mark, Position};
use crate::renderer::components::board::{board_key_step, lemma_board_keys};
use crate::renderer::event::{Key, KeyEvent};
use crate::renderer::enums::{Id, InvalidMoveReason, Message};

verus! {

/// What the application does outside the library in answer to a message.
#[derive(Debug, Clone, Copy, PartialEq, Eq)]
pub enum UiAction {
    /// Nothing.
    Nothing,
    /// Hand the position to the current game's player, if a game has been started.
    SendMove(Position),
    /// Show the reason's warning in the status widget.
    ShowInvalidMove(InvalidMoveReason),
    /// Restore the terminal before quitting.
    RestoreTerminal,
    /// Give keyboard focus to a widget.
    Focus(Id),
    /// Mount the new game modal unless it is mounted, and give it focus.
    OpenNewGameModal,
    /// Unmount the modal, focus the board, open a new move channel (which disconnects
    /// the previous game's player) and ask the game thread for a game with this configuration.
    StartGame(GameConfig),
    /// Unmount the modal and give focus back to the sidebar.
    CloseModal,
}

/// What handling a message does: the action to perform and the message to handle next.
pub open spec fn model_step(msg: Message) -> (UiAction, Option<Message>) {
    match msg {
        Message::MoveMade(pos) => (UiAction::SendMove(pos), None),
        Message::InvalidMove(reason) => (UiAction::ShowInvalidMove(reason), Some(Message::Redraw)),
        Message::Redraw => (UiAction::Nothing, None),
        Message::AppQuit => (UiAction::RestoreTerminal, None),
        Message::FocusSidebar => (UiAction::Focus(Id::Sidebar), Some(Message::Redraw)),
        Message::FocusBoard => (UiAction::Focus(Id::Board), Some(Message::Redraw)),
        Message::OpenNewGameModal => (UiAction::OpenNewGameModal, Some(Message::Redraw)),
        Message::StartGame(config) => (UiAction::StartGame(config), Some(Message::Redraw)),
        Message::CloseModal => (UiAction::CloseModal, Some(Message::Redraw)),
    }
}

/// Handling a message leads at most to a redraw, and handling a redraw leads nowhere:
/// the chain of messages that one message starts ends after two steps.
pub proof fn lemma_message_chain_ends(msg: Message)
    ensures
        model_step(msg).1 is None || model_step(msg).1 == Some(Message::Redraw),
        model_step(Message::Redraw).1 is None,
{
}

/// Handling a message passes what it carries on unchanged: a move made is handed on as
/// that very position, an invalid move shows that reason, and a new game starts with that
/// configuration; only a request to quit restores the terminal, and only a move made is
/// handed to a player.
pub proof fn lemma_messages_carry_through(pos: Position, reason: InvalidMoveReason, config: GameConfig, msg: Message)
    ensures
        model_step(Message::MoveMade(pos)).0 == UiAction::SendMove(pos),
        model_step(Message::InvalidMove(reason)).0 == UiAction::ShowInvalidMove(reason),
        model_step(Message::StartGame(config)).0 == UiAction::StartGame(config),
        (model_step(msg).0 == UiAction::RestoreTerminal) <==> msg == Message::AppQuit,
        (model_step(msg).0 is SendMove) <==> msg is MoveMade,
{
}

/// Pressing Enter or space on the board, while input is accepted and the cell under the
/// cursor is empty, hands exactly that cell to the player as the move.
pub proof fn lemma_enter_sends_selected_cell(cells: Seq<Option<Mark>>, sel: Position, ke: KeyEvent)
    requires
        in_bounds(sel),
        ke.code == Key::Enter || ke.code == Key::Char(' '),
        cells[3 * sel.0 + sel.1] is None,
    ensures
        board_key_step(cells, sel, false, ke).1 is Some,
        model_step(board_key_step(cells, sel, false, ke).1->0).0 == UiAction::SendMove(sel),
{
    lemma_board_keys(cells, sel, false, ke);
}

/// The application's own state: whether the user asked to quit, and whether the
/// screen must be redrawn.
#[derive(Debug, Clone, Copy, PartialEq, Eq, Structural)]
pub struct ModelState {
    /// Whether the user has requested to quit the application.
    pub quit: bool,
    /// Whether the application should be redrawn.
    pub redraw: bool,
}

impl ModelState {
    /// Neither quitting nor waiting for a redraw.
    pub fn new() -> (s: ModelState)
        ensures
            s == (ModelState { quit: false, redraw: false }),
    {
        ModelState { quit: false, redraw: false }
    }

    /// Update the model after a message is sent from a widget: set the flags, and
    /// return the action to perform and the message to handle next.
    pub fn update(&mut self, msg: Option<Message>) -> (step: (UiAction, Option<Message>))
        ensures
            msg is None ==> step == (UiAction::Nothing, None::<Message>) && *final(self) == *old(self),
            msg matches Some(m) ==> {
                &&& step == model_step(m)
                &&& final(self).quit == (old(self).quit || m == Message::AppQuit)
                &&& final(self).redraw == (old(self).redraw || m == Message::Redraw)
            },
    {
        let Some(msg) = msg else {
            return (UiAction::Nothing, None);
        };
        match msg {
            Message::MoveMade(pos) => (UiAction::SendMove(pos), None),
            Message::InvalidMove(reason) => (UiAction::ShowInvalidMove(reason), Some(Message::Redraw)),
            Message::Redraw => {
                self.redraw = true;
                (UiAction::Nothing, None)
            },
            Message::AppQuit => {
                self.quit = true;
                (UiAction::RestoreTerminal, None)
            },
            Message::FocusSidebar => (UiAction::Focus(Id::Sidebar), Some(Message::Redraw)),
            Message::FocusBoard => (UiAction::Focus(Id::Board), Some(Message::Redraw)),
            Message::OpenNewGameModal => (UiAction::OpenNewGameModal, Some(Message::Redraw)),
            Message::StartGame(config) => (UiAction::StartGame(config), Some(Message::Redraw)),
            Message::CloseModal => (UiAction::CloseModal, Some(Message::Redraw)),
        }
    }
}

} // verus!
