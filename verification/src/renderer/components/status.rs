use vstd::prelude::*;

use crate::game::{Board, GameResult, Mark, Move};
use crate::renderer::enums::{reason_named, GameUpdate, InvalidMoveReason, Message, UserEvent};
use crate::renderer::event::{is_ctrl_c, AttrValue, Attribute, Event, Key};

verus! {

/// The character of decimal digit `d`.
pub open spec fn digit_char(d: nat) -> char {
    (48 + d) as char
}

/// The decimal representation of `n`.
pub open spec fn decimal(n: nat) -> Seq<char>
    decreases n,
{
    if n < 10 {
        seq![digit_char(n)]
    } else {
        decimal(n / 10) + seq![digit_char(n % 10)]
    }
}

/// The one-character string of decimal digit `d`.
fn digit_str(d: usize) -> (s: &'static str)
    requires
        d < 10,
    ensures
        s@ == seq![digit_char(d as nat)],
{
    proof {
        reveal_strlit("0");
        reveal_strlit("1");
        reveal_strlit("2");
        reveal_strlit("3");
        reveal_strlit("4");
        reveal_strlit("5");
        reveal_strlit("6");
        reveal_strlit("7");
        reveal_strlit("8");
        reveal_strlit("9");
    }
    match d {
        0 => "0",
        1 => "1",
        2 => "2",
        3 => "3",
        4 => "4",
        5 => "5",
        6 => "6",
        7 => "7",
        8 => "8",
        _ => "9",
    }
}

/// Append the decimal representation of `n` to `s`.
fn append_decimal(s: &mut String, n: usize)
    ensures
        final(s)@ == old(s)@ + decimal(n as nat),
    decreases n,
{
    if n >= 10 {
        append_decimal(s, n / 10);
    }
    s.append(digit_str(n % 10));
}

/// The text of a mark.
pub open spec fn mark_text(m: Mark) -> Seq<char> {
    if m == Mark::X {
        "X"@
    } else {
        "O"@
    }
}

/// The status line announcing a move, counting rows and columns from 1.
pub open spec fn move_text(mv: Move) -> Seq<char> {
    mark_text(mv.mark) + " moved to ("@ + decimal((mv.position.0 + 1) as nat) + ","@ + decimal(
        (mv.position.1 + 1) as nat,
    ) + ")"@
}

/// The status line announcing a game update.
pub open spec fn update_text(update: GameUpdate) -> Seq<char> {
    match update {
        GameUpdate::Initial(_) => "New game started"@,
        GameUpdate::Move(mv) => move_text(mv),
        GameUpdate::Finished { result, .. } => match result {
            GameResult::Winner(m) => "Game over: "@ + mark_text(m) + " wins!"@,
            _ => "Game over: Draw"@,
        },
    }
}

/// The status lines, spelled out: a finished game announces "Game over: X wins!" or
/// "Game over: O wins!" after the winner, or "Game over: Draw"; a new game announces
/// "New game started"; a move on the board announces its mark and its row and column
/// counted from 1, as in "X moved to (1,3)".
pub proof fn lemma_update_texts(board: Board, mv: Move)
    ensures
        update_text(GameUpdate::Finished { board, result: GameResult::Winner(Mark::X) }) == "Game over: X wins!"@,
        update_text(GameUpdate::Finished { board, result: GameResult::Winner(Mark::O) }) == "Game over: O wins!"@,
        update_text(GameUpdate::Finished { board, result: GameResult::Draw }) == "Game over: Draw"@,
        update_text(GameUpdate::Initial(board)) == "New game started"@,
        mv.position.0 < 3 && mv.position.1 < 3 ==> update_text(GameUpdate::Move(mv)) == (if mv.mark == Mark::X {
            "X moved to ("@
        } else {
            "O moved to ("@
        }) + seq![(49 + mv.position.0) as char, ',', (49 + mv.position.1) as char, ')'],
{
    reveal_strlit("Game over: X wins!");
    reveal_strlit("Game over: O wins!");
    reveal_strlit("Game over: ");
    reveal_strlit(" wins!");
    reveal_strlit("X");
    reveal_strlit("O");
    reveal_strlit("X moved to (");
    reveal_strlit("O moved to (");
    reveal_strlit(" moved to (");
    reveal_strlit(",");
    reveal_strlit(")");
    assert("Game over: "@ + "X"@ + " wins!"@ =~= "Game over: X wins!"@);
    assert("Game over: "@ + "O"@ + " wins!"@ =~= "Game over: O wins!"@);
    if mv.position.0 < 3 && mv.position.1 < 3 {
        let r = (mv.position.0 + 1) as nat;
        let c = (mv.position.1 + 1) as nat;
        assert(decimal(r) == seq![digit_char(r)]);
        assert(decimal(c) == seq![digit_char(c)]);
        assert(digit_char(r) == (49 + mv.position.0) as char);
        assert(digit_char(c) == (49 + mv.position.1) as char);
        assert(mark_text(mv.mark) + " moved to ("@ =~= (if mv.mark == Mark::X {
            "X moved to ("@
        } else {
            "O moved to ("@
        }));
        assert(move_text(mv) =~= (if mv.mark == Mark::X {
            "X moved to ("@
        } else {
            "O moved to ("@
        }) + seq![(49 + mv.position.0) as char, ',', (49 + mv.position.1) as char, ')']);
    }
}

/// The warning shown for an invalid move.
pub open spec fn warning_text(reason: InvalidMoveReason) -> Seq<char> {
    match reason {
        InvalidMoveReason::CellOccupied => "Invalid move: Cell is already occupied!"@,
        InvalidMoveReason::GameOver => "Invalid move: Game is already over!"@,
    }
}

/// The warning shown after a first Ctrl+C.
pub open spec fn ctrl_c_text() -> Seq<char> {
    "Press Ctrl+C again to quit."@
}

/// The texts of an optional string.
pub open spec fn text_of(s: Option<String>) -> Option<Seq<char>> {
    match s {
        Some(s) => Some(s@),
        None => None,
    }
}

/// What the status widget holds: its message, its warning, and whether the warning came
/// from a Ctrl+C.
pub open spec fn status_view(s: StatusComponent) -> (Seq<char>, Option<Seq<char>>, bool) {
    (s.message@, text_of(s.warning_message), s.warning_from_ctrl_c)
}

/// What an event does to the status widget: its state after it and the message sent.
pub open spec fn status_step(v: (Seq<char>, Option<Seq<char>>, bool), ev: Event) -> (
    (Seq<char>, Option<Seq<char>>, bool),
    Option<Message>,
) {
    match ev {
        Event::User(UserEvent::GameUpdated(update)) => ((update_text(update), v.1, v.2), Some(Message::Redraw)),
        Event::Keyboard(ke) => if is_ctrl_c(ke) {
            if v.1 is Some && v.2 {
                (v, Some(Message::AppQuit))
            } else {
                ((v.0, Some(ctrl_c_text()), true), Some(Message::Redraw))
            }
        } else if v.1 is Some {
            ((v.0, None, false), Some(Message::Redraw))
        } else {
            (v, None)
        },
        _ => (v, None),
    }
}

/// Pressing Ctrl+C twice in a row quits: the first press quits or arms the warning, and
/// the second then quits. Any other key clears a warning.
pub proof fn lemma_ctrl_c_twice_quits(v: (Seq<char>, Option<Seq<char>>, bool), ke: crate::renderer::event::KeyEvent, other: crate::renderer::event::KeyEvent)
    requires
        is_ctrl_c(ke),
        !is_ctrl_c(other),
    ensures
        status_step(v, Event::Keyboard(ke)).1 == Some(Message::AppQuit) || status_step(
            status_step(v, Event::Keyboard(ke)).0,
            Event::Keyboard(ke),
        ).1 == Some(Message::AppQuit),
        status_step(v, Event::Keyboard(other)).0.1 is None,
{
}

/// A small component that displays messages pertaining to game state, and warnings
/// for invalid moves and for a first Ctrl+C.
pub struct StatusComponent {
    pub message: String,
    /// The warning message that overrides the regular message, if any.
    pub warning_message: Option<String>,
    /// Whether the last warning came from a Ctrl+C press; if so, the next Ctrl+C quits.
    pub warning_from_ctrl_c: bool,
}

impl StatusComponent {
    /// An empty message, no warning.
    pub fn new() -> (s: StatusComponent)
        ensures
            status_view(s) == (Seq::<char>::empty(), None::<Seq<char>>, false),
    {
        StatusComponent { message: String::new(), warning_message: None, warning_from_ctrl_c: false }
    }

    /// Replace the regular message.
    pub fn set(&mut self, msg: String)
        ensures
            status_view(*final(self)) == (msg@, status_view(*old(self)).1, status_view(*old(self)).2),
    {
        self.message = msg;
    }

    /// The line to display: the warning if there is one (shown as a warning), else the
    /// regular message.
    pub fn get_display_line(&self) -> (line: (&String, bool))
        ensures
            line.1 == self.warning_message is Some,
            line.0@ == (match self.warning_message {
                Some(w) => w@,
                None => self.message@,
            }),
    {
        if let Some(warning) = &self.warning_message {
            (warning, true)
        } else {
            (&self.message, false)
        }
    }

    /// Set an attribute: content naming an invalid move's reason shows its warning;
    /// anything else is ignored.
    pub fn attr(&mut self, attr: Attribute, val: AttrValue)
        ensures
            status_view(*final(self)) == (if attr == Attribute::Content && val is String
                && reason_named(val->String_0@) is Some {
                (
                    status_view(*old(self)).0,
                    Some(warning_text(reason_named(val->String_0@).unwrap())),
                    false,
                )
            } else {
                status_view(*old(self))
            }),
    {
        if attr != Attribute::Content {
            return;
        }
        let AttrValue::String(reason) = val else {
            return;
        };
        let Ok(invalid_reason) = InvalidMoveReason::parse(reason.as_str()) else {
            return;
        };
        match invalid_reason {
            InvalidMoveReason::CellOccupied => {
                self.warning_message = Some(String::from_str("Invalid move: Cell is already occupied!"));
            },
            InvalidMoveReason::GameOver => {
                self.warning_message = Some(String::from_str("Invalid move: Game is already over!"));
            },
        }
        self.warning_from_ctrl_c = false;
    }
}

/// The text announcing a move.
fn move_message(mv: &Move) -> (s: String)
    requires
        mv.position.0 < usize::MAX,
        mv.position.1 < usize::MAX,
    ensures
        s@ == move_text(*mv),
{
    let mut s = String::from_str(mv.mark.as_str());
    s.append(" moved to (");
    append_decimal(&mut s, mv.position.0 + 1);
    s.append(",");
    append_decimal(&mut s, mv.position.1 + 1);
    s.append(")");
    s
}

/// Whether an update can be announced: a finished game has a result, and a move's
/// row and column can be counted from 1.
pub open spec fn announceable(update: GameUpdate) -> bool {
    match update {
        GameUpdate::Finished { result, .. } => result != GameResult::Ongoing,
        GameUpdate::Move(mv) => mv.position.0 < usize::MAX && mv.position.1 < usize::MAX,
        _ => true,
    }
}

/// Thin wrapper to integrate `StatusComponent` into the application event loop.
pub struct AppStatusComponent {
    pub component: StatusComponent,
}

impl AppStatusComponent {
    /// An empty message, no warning.
    pub fn new() -> (s: AppStatusComponent)
        ensures
            status_view(s.component) == (Seq::<char>::empty(), None::<Seq<char>>, false),
    {
        AppStatusComponent { component: StatusComponent::new() }
    }

    /// Announce a game update in the regular message.
    pub fn handle_game_update(&mut self, update: &GameUpdate)
        requires
            announceable(*update),
        ensures
            status_view(final(self).component) == (
                update_text(*update),
                status_view(old(self).component).1,
                status_view(old(self).component).2,
            ),
    {
        match update {
            GameUpdate::Initial(_) => {
                self.component.set(String::from_str("New game started"));
            },
            GameUpdate::Move(mv) => {
                self.component.set(move_message(mv));
            },
            GameUpdate::Finished { result, .. } => {
                let msg = match result {
                    GameResult::Winner(m) => {
                        let mut s = String::from_str("Game over: ");
                        s.append(m.as_str());
                        s.append(" wins!");
                        s
                    },
                    _ => String::from_str("Game over: Draw"),
                };
                self.component.set(msg);
            },
        }
    }

    /// Answer an event: game updates are announced; a first Ctrl+C warns and a second
    /// one quits; any other key clears a warning.
    pub fn on(&mut self, ev: &Event) -> (msg: Option<Message>)
        requires
            ev matches Event::User(UserEvent::GameUpdated(update)) ==> announceable(*update),
        ensures
            (status_view(final(self).component), msg) == status_step(status_view(old(self).component), *ev),
    {
        match ev {
            Event::User(UserEvent::GameUpdated(update)) => {
                self.handle_game_update(update);
                Some(Message::Redraw)
            },
            Event::Keyboard(ke) => {
                if ke.code == Key::Char('c') && ke.modifiers.bits == crate::renderer::event::CONTROL_BIT {
                    if self.component.warning_message.is_some() && self.component.warning_from_ctrl_c {
                        Some(Message::AppQuit)
                    } else {
                        self.component.warning_message = Some(String::from_str("Press Ctrl+C again to quit."));
                        self.component.warning_from_ctrl_c = true;
                        Some(Message::Redraw)
                    }
                } else if self.component.warning_message.is_some() {
                    self.component.warning_message = None;
                    self.component.warning_from_ctrl_c = false;
                    Some(Message::Redraw)
                } else {
                    None
                }
            },
            _ => None,
        }
    }
}

} // verus!
