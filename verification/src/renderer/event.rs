//! The input vocabulary of the widgets: key presses, events, commands and attributes,
//! held as plain values. The application converts the terminal library's values into these.

use vstd::prelude::*;

use crate::renderer::enums::UserEvent;

verus! {

/// A key on the keyboard.
#[derive(Debug, Clone, Copy, PartialEq, Eq, Structural)]
pub enum Key {
    Enter,
    Left,
    Right,
    Up,
    Down,
    Tab,
    Esc,
    /// A character key.
    Char(char),
    /// Any key that no widget reacts to.
    Other,
}

/// The modifier keys held during a key press, as a bit set.
#[derive(Debug, Clone, Copy, PartialEq, Eq, Structural)]
pub struct KeyModifiers {
    pub bits: u8,
}

/// The bit of the shift key.
pub const SHIFT_BIT: u8 = 0b0000_0001;

/// The bit of the control key.
pub const CONTROL_BIT: u8 = 0b0000_0010;

/// The bit of the alt key.
pub const ALT_BIT: u8 = 0b0000_0100;

impl KeyModifiers {
    /// No modifier held.
    pub fn none() -> (m: KeyModifiers)
        ensures
            m.bits == 0,
    {
        KeyModifiers { bits: 0 }
    }

    /// The control key alone.
    pub fn control() -> (m: KeyModifiers)
        ensures
            m.bits == CONTROL_BIT,
    {
        KeyModifiers { bits: CONTROL_BIT }
    }
}

/// A key press: the key and the modifiers held with it.
#[derive(Debug, Clone, Copy, PartialEq, Eq, Structural)]
pub struct KeyEvent {
    pub code: Key,
    pub modifiers: KeyModifiers,
}

impl KeyEvent {
    /// A press of `code` with no modifier held.
    pub fn from_key(code: Key) -> (e: KeyEvent)
        ensures
            e == (KeyEvent { code, modifiers: KeyModifiers { bits: 0 } }),
    {
        KeyEvent { code, modifiers: KeyModifiers::none() }
    }

    /// A press of `code` with the given modifiers.
    pub fn new(code: Key, modifiers: KeyModifiers) -> (e: KeyEvent)
        ensures
            e == (KeyEvent { code, modifiers }),
    {
        KeyEvent { code, modifiers }
    }
}

impl From<Key> for KeyEvent {
    /// A press of the key with no modifier held.
    fn from(code: Key) -> (e: KeyEvent) {
        KeyEvent { code, modifiers: KeyModifiers { bits: 0 } }
    }
}

impl vstd::std_specs::convert::FromSpecImpl<Key> for KeyEvent {
    open spec fn obeys_from_spec() -> bool {
        true
    }

    open spec fn from_spec(code: Key) -> KeyEvent {
        KeyEvent { code, modifiers: KeyModifiers { bits: 0 } }
    }
}

/// The keys that move a selection up.
pub open spec fn is_up_key(k: Key) -> bool {
    k == Key::Up || k == Key::Char('k') || k == Key::Char('w')
}

/// The keys that move a selection down.
pub open spec fn is_down_key(k: Key) -> bool {
    k == Key::Down || k == Key::Char('j') || k == Key::Char('s')
}

/// The keys that move a selection left.
pub open spec fn is_left_key(k: Key) -> bool {
    k == Key::Left || k == Key::Char('h') || k == Key::Char('a')
}

/// The keys that move a selection right.
pub open spec fn is_right_key(k: Key) -> bool {
    k == Key::Right || k == Key::Char('l') || k == Key::Char('d')
}

/// The keys that confirm a selection.
pub open spec fn is_confirm_key(k: Key) -> bool {
    k == Key::Enter || k == Key::Char(' ')
}

/// Whether a key press is Ctrl+C, with no other modifier held.
pub open spec fn is_ctrl_c(ke: KeyEvent) -> bool {
    ke.code == Key::Char('c') && ke.modifiers.bits == CONTROL_BIT
}

/// An event that reaches the widgets.
#[derive(Debug, Clone, PartialEq, Eq)]
pub enum Event {
    /// A key press.
    Keyboard(KeyEvent),
    /// The terminal window was resized to (width, height).
    WindowResize(u16, u16),
    /// An event raised by the game.
    User(UserEvent),
    /// Any other event (mouse, focus, paste, tick).
    Other,
}

/// A direction of movement.
#[derive(Debug, Clone, Copy, PartialEq, Eq, Structural)]
pub enum Direction {
    Down,
    Left,
    Right,
    Up,
}

/// A command that a widget performs.
#[derive(Debug, Clone, Copy, PartialEq, Eq)]
pub enum Cmd {
    /// Move the selection in a direction.
    Move(Direction),
    /// Confirm the selection.
    Submit,
    /// A command named by a string; used to carry why a command was refused.
    Custom(&'static str),
}

/// What performing a command did.
#[derive(Debug, Clone, Copy, PartialEq, Eq)]
pub enum CmdResult {
    /// The widget's state changed.
    Changed,
    /// The selection was confirmed.
    Submit,
    /// The command was refused; the carried command says why.
    Invalid(Cmd),
    /// Nothing happened.
    NoChange,
}

/// An attribute of a widget that the application can set.
#[derive(Debug, Clone, Copy, PartialEq, Eq, Structural)]
pub enum Attribute {
    /// Whether the widget has keyboard focus.
    Focus,
    /// The widget's content.
    Content,
    /// Any other attribute.
    Other,
}

/// The value given to an attribute.
#[derive(Debug, Clone, PartialEq, Eq)]
pub enum AttrValue {
    Flag(bool),
    String(String),
    /// Any other kind of value.
    Other,
}


} // verus!
