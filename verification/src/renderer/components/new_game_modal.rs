use vstd::prelude::*;

use crate::game::mark::opposite_of;
use crate::game::{GameConfig, Mark, OpponentKind};
use crate::renderer::enums::Message;
use crate::renderer::event::{
    is_confirm_key, is_down_key, is_left_key, is_right_key, is_up_key, AttrValue, Attribute, Cmd,
    CmdResult, Direction, Event, Key, KeyEvent,
};

verus! {

/// The rows of the new game modal, from top to bottom.
#[derive(Debug, Clone, Copy, PartialEq, Eq, Structural)]
pub enum ModalRow {
    Mark,
    Opponent,
    FirstMove,
    Start,
}

/// The row below `row`, wrapping around.
pub open spec fn row_after(row: ModalRow) -> ModalRow {
    match row {
        ModalRow::Mark => ModalRow::Opponent,
        ModalRow::Opponent => ModalRow::FirstMove,
        ModalRow::FirstMove => ModalRow::Start,
        ModalRow::Start => ModalRow::Mark,
    }
}

/// The row above `row`, wrapping around.
pub open spec fn row_before(row: ModalRow) -> ModalRow {
    match row {
        ModalRow::Mark => ModalRow::Start,
        ModalRow::Opponent => ModalRow::Mark,
        ModalRow::FirstMove => ModalRow::Opponent,
        ModalRow::Start => ModalRow::FirstMove,
    }
}

/// The other kind of opponent.
pub open spec fn other_opponent(o: OpponentKind) -> OpponentKind {
    match o {
        OpponentKind::Minimax => OpponentKind::Random,
        OpponentKind::Random => OpponentKind::Minimax,
    }
}

impl ModalRow {
    /// The row below, wrapping around.
    pub fn next(self) -> (row: ModalRow)
        ensures
            row == row_after(self),
    {
        match self {
            ModalRow::Mark => ModalRow::Opponent,
            ModalRow::Opponent => ModalRow::FirstMove,
            ModalRow::FirstMove => ModalRow::Start,
            ModalRow::Start => ModalRow::Mark,
        }
    }

    /// The row above, wrapping around.
    pub fn prev(self) -> (row: ModalRow)
        ensures
            row == row_before(self),
    {
        match self {
            ModalRow::Mark => ModalRow::Start,
            ModalRow::Opponent => ModalRow::Mark,
            ModalRow::FirstMove => ModalRow::Opponent,
            ModalRow::Start => ModalRow::FirstMove,
        }
    }
}

/// Moving down and then up, or up and then down, returns to the starting row, and
/// four moves in one direction go all the way round.
pub proof fn lemma_row_steps(row: ModalRow)
    ensures
        row_before(row_after(row)) == row,
        row_after(row_before(row)) == row,
        row_after(row_after(row_after(row_after(row)))) == row,
        row_before(row_before(row_before(row_before(row)))) == row,
{
}

/// Toggling a setting twice restores it.
pub proof fn lemma_toggles_are_involutions(m: Mark, o: OpponentKind, b: bool)
    ensures
        opposite_of(opposite_of(m)) == m,
        other_opponent(other_opponent(o)) == o,
        !!b == b,
{
}

/// How a part of the modal is shown.
#[derive(Debug, Clone, Copy, PartialEq, Eq, Structural)]
pub enum Highlight {
    /// Plain text.
    Normal,
    /// The label of the row under the cursor.
    Cursor,
    /// A chosen value, or the start button under the cursor.
    Selected,
    /// The start button away from the cursor.
    Unselected,
}

/// How each part of the modal is shown, row by row.
#[derive(Debug, Clone, Copy, PartialEq, Eq, Structural)]
pub struct ModalLook {
    /// Whether the border shows focus.
    pub focused_border: bool,
    pub mark_label: Highlight,
    pub x_value: Highlight,
    pub o_value: Highlight,
    pub opponent_label: Highlight,
    pub minimax_value: Highlight,
    pub random_value: Highlight,
    pub first_move_label: Highlight,
    pub player_value: Highlight,
    pub cpu_value: Highlight,
    pub start_button: Highlight,
}

/// The label style of a row: the cursor's when the modal has focus and the row is under it.
pub open spec fn label_look(focused: bool, cursor: ModalRow, row: ModalRow) -> Highlight {
    if focused && cursor == row {
        Highlight::Cursor
    } else {
        Highlight::Normal
    }
}

/// The style of a value: selected when chosen.
pub open spec fn value_look(chosen: bool) -> Highlight {
    if chosen {
        Highlight::Selected
    } else {
        Highlight::Normal
    }
}

/// A [`NewGameModalComponent`] holds the choices of the "new game" popup.
#[derive(Debug, Clone, Copy, PartialEq, Eq, Structural)]
pub struct NewGameModalComponent {
    /// The selected mark for the player (X or O).
    pub player_mark: Mark,
    /// The kind of opponent to play against.
    pub opponent: OpponentKind,
    /// Whether the player should make the first move.
    pub player_first: bool,
    /// The currently selected row in the modal.
    pub row: ModalRow,
    /// Whether the modal is focused.
    pub focused: bool,
}

/// The state of a new modal: X, against minimax, moving first, cursor on the first row.
pub open spec fn new_modal() -> NewGameModalComponent {
    NewGameModalComponent {
        player_mark: Mark::X,
        opponent: OpponentKind::Minimax,
        player_first: true,
        row: ModalRow::Mark,
        focused: false,
    }
}

/// What a command does to the modal.
pub open spec fn modal_perform(m: NewGameModalComponent, cmd: Cmd) -> (NewGameModalComponent, CmdResult) {
    match cmd {
        Cmd::Move(Direction::Up) => (NewGameModalComponent { row: row_before(m.row), ..m }, CmdResult::Changed),
        Cmd::Move(Direction::Down) => (NewGameModalComponent { row: row_after(m.row), ..m }, CmdResult::Changed),
        Cmd::Move(_) => (
            match m.row {
                ModalRow::Mark => NewGameModalComponent { player_mark: opposite_of(m.player_mark), ..m },
                ModalRow::Opponent => NewGameModalComponent { opponent: other_opponent(m.opponent), ..m },
                ModalRow::FirstMove => NewGameModalComponent { player_first: !m.player_first, ..m },
                ModalRow::Start => m,
            },
            CmdResult::Changed,
        ),
        Cmd::Submit => (m, CmdResult::Submit),
        _ => (m, CmdResult::NoChange),
    }
}

/// The configuration the modal's choices describe.
pub open spec fn config_of(m: NewGameModalComponent) -> GameConfig {
    GameConfig { player_mark: m.player_mark, opponent: m.opponent, player_first: m.player_first }
}

impl NewGameModalComponent {
    /// X, against minimax, moving first, cursor on the first row, without focus.
    pub fn new() -> (m: NewGameModalComponent)
        ensures
            m == new_modal(),
    {
        NewGameModalComponent {
            player_mark: Mark::X,
            opponent: OpponentKind::Minimax,
            row: ModalRow::Mark,
            focused: false,
            player_first: true,
        }
    }

    /// Switch the player's mark.
    pub fn toggle_mark(&mut self)
        ensures
            *final(self) == (NewGameModalComponent { player_mark: opposite_of(old(self).player_mark), ..*old(self) }),
    {
        self.player_mark = self.player_mark.opposite();
    }

    /// Switch the kind of opponent.
    pub fn toggle_opponent(&mut self)
        ensures
            *final(self) == (NewGameModalComponent { opponent: other_opponent(old(self).opponent), ..*old(self) }),
    {
        self.opponent = match self.opponent {
            OpponentKind::Minimax => OpponentKind::Random,
            OpponentKind::Random => OpponentKind::Minimax,
        };
    }

    /// Switch who moves first.
    pub fn toggle_first_move(&mut self)
        ensures
            *final(self) == (NewGameModalComponent { player_first: !old(self).player_first, ..*old(self) }),
    {
        self.player_first = !self.player_first;
    }

    /// Build a [`GameConfig`] based on the current state of the modal.
    pub fn build_config(&self) -> (c: GameConfig)
        ensures
            c == config_of(*self),
    {
        GameConfig { player_mark: self.player_mark, opponent: self.opponent, player_first: self.player_first }
    }

    /// Set an attribute; only the focus flag is taken into account.
    pub fn attr(&mut self, attr: Attribute, val: AttrValue)
        ensures
            *final(self) == (if attr == Attribute::Focus && val is Flag {
                NewGameModalComponent { focused: val->Flag_0, ..*old(self) }
            } else {
                *old(self)
            }),
    {
        if attr == Attribute::Focus {
            if let AttrValue::Flag(focused) = val {
                self.focused = focused;
            }
        }
    }

    /// Move the cursor up or down (wrapping around), switch the value of the row under
    /// the cursor with left or right, or confirm.
    pub fn perform(&mut self, cmd: Cmd) -> (res: CmdResult)
        ensures
            (*final(self), res) == modal_perform(*old(self), cmd),
    {
        match cmd {
            Cmd::Move(Direction::Up) => {
                self.row = self.row.prev();
                CmdResult::Changed
            },
            Cmd::Move(Direction::Down) => {
                self.row = self.row.next();
                CmdResult::Changed
            },
            Cmd::Move(Direction::Left) | Cmd::Move(Direction::Right) => {
                match self.row {
                    ModalRow::Mark => self.toggle_mark(),
                    ModalRow::Opponent => self.toggle_opponent(),
                    ModalRow::FirstMove => self.toggle_first_move(),
                    ModalRow::Start => {},
                }
                CmdResult::Changed
            },
            Cmd::Submit => CmdResult::Submit,
            _ => CmdResult::NoChange,
        }
    }

    /// How each part of the modal is shown: the row under the cursor stands out while the
    /// modal has focus, and the chosen values are selected.
    pub fn look(&self) -> (look: ModalLook)
        ensures
            look == (ModalLook {
                focused_border: self.focused,
                mark_label: label_look(self.focused, self.row, ModalRow::Mark),
                x_value: value_look(self.player_mark == Mark::X),
                o_value: value_look(self.player_mark == Mark::O),
                opponent_label: label_look(self.focused, self.row, ModalRow::Opponent),
                minimax_value: value_look(self.opponent == OpponentKind::Minimax),
                random_value: value_look(self.opponent == OpponentKind::Random),
                first_move_label: label_look(self.focused, self.row, ModalRow::FirstMove),
                player_value: value_look(self.player_first),
                cpu_value: value_look(!self.player_first),
                start_button: if self.focused && self.row == ModalRow::Start {
                    Highlight::Selected
                } else {
                    Highlight::Unselected
                },
            }),
    {
        let focused = self.focused;
        let row = self.row;
        ModalLook {
            focused_border: focused,
            mark_label: if focused && row == ModalRow::Mark { Highlight::Cursor } else { Highlight::Normal },
            x_value: if self.player_mark == Mark::X { Highlight::Selected } else { Highlight::Normal },
            o_value: if self.player_mark == Mark::O { Highlight::Selected } else { Highlight::Normal },
            opponent_label: if focused && row == ModalRow::Opponent {
                Highlight::Cursor
            } else {
                Highlight::Normal
            },
            minimax_value: if self.opponent == OpponentKind::Minimax {
                Highlight::Selected
            } else {
                Highlight::Normal
            },
            random_value: if self.opponent == OpponentKind::Random {
                Highlight::Selected
            } else {
                Highlight::Normal
            },
            first_move_label: if focused && row == ModalRow::FirstMove {
                Highlight::Cursor
            } else {
                Highlight::Normal
            },
            player_value: if self.player_first { Highlight::Selected } else { Highlight::Normal },
            cpu_value: if !self.player_first { Highlight::Selected } else { Highlight::Normal },
            start_button: if focused && row == ModalRow::Start {
                Highlight::Selected
            } else {
                Highlight::Unselected
            },
        }
    }
}

/// What a key press does to the modal: the modal after it and the message sent.
pub open spec fn modal_key_step(m: NewGameModalComponent, ke: KeyEvent) -> (NewGameModalComponent, Option<Message>) {
    if ke.code == Key::Esc {
        (m, Some(Message::CloseModal))
    } else if is_up_key(ke.code) {
        (modal_perform(m, Cmd::Move(Direction::Up)).0, Some(Message::Redraw))
    } else if is_down_key(ke.code) {
        (modal_perform(m, Cmd::Move(Direction::Down)).0, Some(Message::Redraw))
    } else if is_left_key(ke.code) {
        (modal_perform(m, Cmd::Move(Direction::Left)).0, Some(Message::Redraw))
    } else if is_right_key(ke.code) {
        (modal_perform(m, Cmd::Move(Direction::Right)).0, Some(Message::Redraw))
    } else if is_confirm_key(ke.code) {
        if m.row == ModalRow::Start {
            (m, Some(Message::StartGame(config_of(m))))
        } else {
            (modal_perform(m, Cmd::Move(Direction::Down)).0, Some(Message::Redraw))
        }
    } else {
        (m, None)
    }
}

/// Pressing Enter on every row in turn walks the cursor down to the start button, and
/// pressing it there starts a game with the choices shown.
pub proof fn lemma_confirm_walks_to_start(m: NewGameModalComponent)
    ensures
        m.row == ModalRow::Start ==> modal_key_step(m, KeyEvent { code: Key::Enter, modifiers: crate::renderer::event::KeyModifiers { bits: 0 } }).1
            == Some(Message::StartGame(config_of(m))),
        m.row != ModalRow::Start ==> modal_key_step(m, KeyEvent { code: Key::Enter, modifiers: crate::renderer::event::KeyModifiers { bits: 0 } }).0.row
            == row_after(m.row),
{
}

/// What the modal's commands do, row by row: Up moves the cursor to the row above
/// (from the mark row it wraps to the start button) and Down to the row below (from the
/// start button it wraps to the mark row), so that Down then Up, or Up then Down, comes
/// back to where it was; neither touches the choices. Left and Right switch the value of
/// the row under the cursor (X and O, minimax and random, who moves first), and nothing
/// on the start button. Submit changes nothing and reports a submission.
pub proof fn lemma_modal_commands(m: NewGameModalComponent)
    ensures
        modal_perform(modal_perform(m, Cmd::Move(Direction::Down)).0, Cmd::Move(Direction::Up)).0 == m,
        modal_perform(modal_perform(m, Cmd::Move(Direction::Up)).0, Cmd::Move(Direction::Down)).0 == m,
        m.row == ModalRow::Mark ==> modal_perform(m, Cmd::Move(Direction::Up)).0.row == ModalRow::Start,
        m.row == ModalRow::Opponent ==> modal_perform(m, Cmd::Move(Direction::Up)).0.row == ModalRow::Mark,
        m.row == ModalRow::FirstMove ==> modal_perform(m, Cmd::Move(Direction::Up)).0.row == ModalRow::Opponent,
        m.row == ModalRow::Start ==> modal_perform(m, Cmd::Move(Direction::Up)).0.row == ModalRow::FirstMove,
        m.row == ModalRow::Mark ==> modal_perform(m, Cmd::Move(Direction::Down)).0.row == ModalRow::Opponent,
        m.row == ModalRow::Opponent ==> modal_perform(m, Cmd::Move(Direction::Down)).0.row == ModalRow::FirstMove,
        m.row == ModalRow::FirstMove ==> modal_perform(m, Cmd::Move(Direction::Down)).0.row == ModalRow::Start,
        m.row == ModalRow::Start ==> modal_perform(m, Cmd::Move(Direction::Down)).0.row == ModalRow::Mark,
        forall|dir: Direction| #![trigger modal_perform(m, Cmd::Move(dir))]
            (dir == Direction::Up || dir == Direction::Down) ==> {
                let after = modal_perform(m, Cmd::Move(dir));
                &&& after.1 == CmdResult::Changed
                &&& after.0.player_mark == m.player_mark
                &&& after.0.opponent == m.opponent
                &&& after.0.player_first == m.player_first
                &&& after.0.focused == m.focused
            },
        forall|dir: Direction| #![trigger modal_perform(m, Cmd::Move(dir))]
            (dir == Direction::Left || dir == Direction::Right) ==> {
                let after = modal_perform(m, Cmd::Move(dir));
                &&& after.1 == CmdResult::Changed
                &&& after.0.row == m.row
                &&& after.0.focused == m.focused
                &&& (after.0.player_mark != m.player_mark) == (m.row == ModalRow::Mark)
                &&& (after.0.opponent != m.opponent) == (m.row == ModalRow::Opponent)
                &&& (after.0.player_first != m.player_first) == (m.row == ModalRow::FirstMove)
            },
        modal_perform(m, Cmd::Submit) == (m, CmdResult::Submit),
{
}

/// The modal as it takes part in the application: it turns key presses into changes
/// of its choices and messages.
#[derive(Debug, Clone, Copy, PartialEq, Eq, Structural)]
pub struct AppNewGameModal {
    pub component: NewGameModalComponent,
}

impl Default for AppNewGameModal {
    fn default() -> (m: AppNewGameModal)
        ensures
            m.component == new_modal(),
    {
        AppNewGameModal::new()
    }
}

impl AppNewGameModal {
    /// A modal with the default choices.
    pub fn new() -> (m: AppNewGameModal)
        ensures
            m.component == new_modal(),
    {
        AppNewGameModal { component: NewGameModalComponent::new() }
    }

    /// Forward a command to the modal.
    pub fn perform(&mut self, cmd: Cmd) -> (res: CmdResult)
        ensures
            (final(self).component, res) == modal_perform(old(self).component, cmd),
    {
        self.component.perform(cmd)
    }

    /// Answer a key press: Esc closes the modal, arrows and vim/wasd keys move the cursor
    /// or switch values, Enter or space starts the game on the start button and otherwise
    /// moves the cursor down.
    pub fn handle_key_event(&mut self, ke: &KeyEvent) -> (msg: Option<Message>)
        ensures
            (final(self).component, msg) == modal_key_step(old(self).component, *ke),
    {
        match ke.code {
            Key::Esc => Some(Message::CloseModal),
            Key::Up | Key::Char('k') | Key::Char('w') => {
                let _ = self.perform(Cmd::Move(Direction::Up));
                Some(Message::Redraw)
            },
            Key::Down | Key::Char('j') | Key::Char('s') => {
                let _ = self.perform(Cmd::Move(Direction::Down));
                Some(Message::Redraw)
            },
            Key::Left | Key::Char('h') | Key::Char('a') => {
                let _ = self.perform(Cmd::Move(Direction::Left));
                Some(Message::Redraw)
            },
            Key::Right | Key::Char('l') | Key::Char('d') => {
                let _ = self.perform(Cmd::Move(Direction::Right));
                Some(Message::Redraw)
            },
            Key::Enter | Key::Char(' ') => {
                let config = self.component.build_config();
                match self.component.row {
                    ModalRow::Start => Some(Message::StartGame(config)),
                    _ => {
                        let _ = self.perform(Cmd::Move(Direction::Down));
                        Some(Message::Redraw)
                    },
                }
            },
            _ => None,
        }
    }

    /// Answer an event: only key presses matter to the modal.
    pub fn on(&mut self, ev: &Event) -> (msg: Option<Message>)
        ensures
            ev matches Event::Keyboard(ke) ==> (final(self).component, msg) == modal_key_step(
                old(self).component,
                *ke,
            ),
            !(ev is Keyboard) ==> *final(self) == *old(self) && msg is None,
    {
        match ev {
            Event::Keyboard(ke) => self.handle_key_event(ke),
            _ => None,
        }
    }
}

} // verus!
