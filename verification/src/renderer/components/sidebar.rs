use vstd::prelude::*;

use crate::renderer::enums::Message;
use crate::renderer::event::{
    is_confirm_key, is_down_key, is_up_key, AttrValue, Attribute, Cmd, CmdResult, Direction, Event,
    Key, KeyEvent,
};

verus! {

/// The options of the sidebar menu, in the order shown.
#[derive(Debug, Clone, Copy, PartialEq, Eq, Structural)]
pub enum SidebarOption {
    /// Open a new game. Pulls up a modal to configure players/difficulty.
    NewGame,
    /// Forcibly quit the application.
    Quit,
}

/// The option after `opt`, wrapping around.
pub open spec fn option_after(opt: SidebarOption) -> SidebarOption {
    match opt {
        SidebarOption::NewGame => SidebarOption::Quit,
        SidebarOption::Quit => SidebarOption::NewGame,
    }
}

/// The option before `opt`, wrapping around.
pub open spec fn option_before(opt: SidebarOption) -> SidebarOption {
    match opt {
        SidebarOption::NewGame => SidebarOption::Quit,
        SidebarOption::Quit => SidebarOption::NewGame,
    }
}

/// The label under which an option is shown.
pub open spec fn option_label(opt: SidebarOption) -> Seq<char> {
    match opt {
        SidebarOption::NewGame => "New Game"@,
        SidebarOption::Quit => "Quit"@,
    }
}

/// The message that choosing an option sends.
pub open spec fn option_message(opt: SidebarOption) -> Message {
    match opt {
        SidebarOption::NewGame => Message::OpenNewGameModal,
        SidebarOption::Quit => Message::AppQuit,
    }
}

impl SidebarOption {
    /// All options, in the order shown.
    pub fn all() -> (opts: [SidebarOption; 2])
        ensures
            opts@ == seq![SidebarOption::NewGame, SidebarOption::Quit],
    {
        [SidebarOption::NewGame, SidebarOption::Quit]
    }

    /// Obtain the next sidebar option, wrapping around.
    pub fn next(&self) -> (opt: SidebarOption)
        ensures
            opt == option_after(*self),
    {
        match self {
            SidebarOption::NewGame => SidebarOption::Quit,
            SidebarOption::Quit => SidebarOption::NewGame,
        }
    }

    /// Obtain the previous sidebar option, wrapping around.
    pub fn prev(&self) -> (opt: SidebarOption)
        ensures
            opt == option_before(*self),
    {
        match self {
            SidebarOption::NewGame => SidebarOption::Quit,
            SidebarOption::Quit => SidebarOption::NewGame,
        }
    }

    /// The label under which the option is shown.
    pub fn label(&self) -> (s: &'static str)
        ensures
            s@ == option_label(*self),
    {
        match self {
            SidebarOption::NewGame => "New Game",
            SidebarOption::Quit => "Quit",
        }
    }
}

impl From<SidebarOption> for Message {
    /// The message that choosing the option sends.
    fn from(value: SidebarOption) -> (m: Message) {
        match value {
            SidebarOption::NewGame => Message::OpenNewGameModal,
            SidebarOption::Quit => Message::AppQuit,
        }
    }
}

impl vstd::std_specs::convert::FromSpecImpl<SidebarOption> for Message {
    open spec fn obeys_from_spec() -> bool {
        true
    }

    open spec fn from_spec(value: SidebarOption) -> Message {
        option_message(value)
    }
}

/// Stepping forward and then back through the options, or back and then forward,
/// returns to the starting option.
pub proof fn lemma_option_steps_invert(opt: SidebarOption)
    ensures
        option_before(option_after(opt)) == opt,
        option_after(option_before(opt)) == opt,
{
}

/// The state of the sidebar menu.
#[derive(Debug, Clone, Copy, PartialEq, Eq, Structural)]
pub struct SidebarComponent {
    /// The option under the cursor.
    pub selected_option: SidebarOption,
    /// Whether the sidebar has keyboard focus.
    pub focused: bool,
}

impl SidebarComponent {
    /// A sidebar with the first option selected, without focus.
    pub fn new() -> (s: SidebarComponent)
        ensures
            s == (SidebarComponent { selected_option: SidebarOption::NewGame, focused: false }),
    {
        SidebarComponent { selected_option: SidebarOption::NewGame, focused: false }
    }

    /// Whether an option is shown highlighted: the sidebar has focus and the option is
    /// under the cursor.
    pub fn is_highlighted(&self, opt: SidebarOption) -> (h: bool)
        ensures
            h == (self.focused && opt == self.selected_option),
    {
        self.focused && opt == self.selected_option
    }

    /// The text of an option's menu item: its label after a "» " marker when it is
    /// highlighted, or after two spaces when it is not.
    pub fn item_text(&self, opt: SidebarOption) -> (text: String)
        ensures
            text@ == (if self.focused && opt == self.selected_option { "» "@ } else { "  "@ }) + option_label(opt),
    {
        let mut text = if self.is_highlighted(opt) {
            String::from_str("» ")
        } else {
            String::from_str("  ")
        };
        text.append(opt.label());
        text
    }

    /// Set an attribute; only the focus flag is taken into account.
    pub fn attr(&mut self, attr: Attribute, val: AttrValue)
        ensures
            final(self).selected_option == old(self).selected_option,
            final(self).focused == (if attr == Attribute::Focus && val is Flag {
                val->Flag_0
            } else {
                old(self).focused
            }),
    {
        if attr == Attribute::Focus {
            if let AttrValue::Flag(focused) = val {
                self.focused = focused;
            }
        }
    }

    /// Move the cursor up or down (wrapping around), or confirm the selection.
    pub fn perform(&mut self, cmd: Cmd) -> (res: CmdResult)
        ensures
            final(self).focused == old(self).focused,
            cmd == Cmd::Move(Direction::Up) ==> final(self).selected_option == option_before(
                old(self).selected_option,
            ) && res == CmdResult::Changed,
            cmd == Cmd::Move(Direction::Down) ==> final(self).selected_option == option_after(
                old(self).selected_option,
            ) && res == CmdResult::Changed,
            cmd == Cmd::Submit ==> final(self).selected_option == old(self).selected_option && res
                == CmdResult::Submit,
            cmd != Cmd::Move(Direction::Up) && cmd != Cmd::Move(Direction::Down) && cmd != Cmd::Submit
                ==> *final(self) == *old(self) && res == CmdResult::NoChange,
    {
        match cmd {
            Cmd::Move(Direction::Up) => {
                self.selected_option = self.selected_option.prev();
                CmdResult::Changed
            },
            Cmd::Move(Direction::Down) => {
                self.selected_option = self.selected_option.next();
                CmdResult::Changed
            },
            Cmd::Submit => CmdResult::Submit,
            _ => CmdResult::NoChange,
        }
    }
}

/// The sidebar as it takes part in the application: it turns key presses into
/// cursor moves and messages.
#[derive(Debug, Clone, Copy, PartialEq, Eq, Structural)]
pub struct AppSidebarComponent {
    pub component: SidebarComponent,
}

impl Default for AppSidebarComponent {
    fn default() -> (s: AppSidebarComponent)
        ensures
            s.component == SidebarComponent::new_spec(),
    {
        AppSidebarComponent::new()
    }
}

impl SidebarComponent {
    /// The state of a new sidebar.
    pub open spec fn new_spec() -> SidebarComponent {
        SidebarComponent { selected_option: SidebarOption::NewGame, focused: false }
    }
}

/// What a key press does to the sidebar: the sidebar after it and the message sent.
pub open spec fn sidebar_key_step(s: SidebarComponent, ke: KeyEvent) -> (SidebarComponent, Option<Message>) {
    if is_up_key(ke.code) {
        (SidebarComponent { selected_option: option_before(s.selected_option), ..s }, Some(Message::Redraw))
    } else if is_down_key(ke.code) {
        (SidebarComponent { selected_option: option_after(s.selected_option), ..s }, Some(Message::Redraw))
    } else if is_confirm_key(ke.code) {
        (s, Some(option_message(s.selected_option)))
    } else if ke.code == Key::Tab || ke.code == Key::Esc {
        (s, Some(Message::FocusBoard))
    } else {
        (s, None)
    }
}

/// What a key press does to the sidebar: Enter or space on "New Game" opens the new game
/// modal and on "Quit" quits the application; an arrow key moves the cursor to the other
/// option, wrapping round the two; Tab or Esc hands focus back to the board. Only the
/// arrow keys move the cursor, and nothing changes the focus.
pub proof fn lemma_sidebar_keys(s: SidebarComponent, ke: KeyEvent)
    ensures
        (ke.code == Key::Enter || ke.code == Key::Char(' ')) && s.selected_option == SidebarOption::NewGame
            ==> sidebar_key_step(s, ke) == (s, Some(Message::OpenNewGameModal)),
        (ke.code == Key::Enter || ke.code == Key::Char(' ')) && s.selected_option == SidebarOption::Quit
            ==> sidebar_key_step(s, ke) == (s, Some(Message::AppQuit)),
        ke.code == Key::Up || ke.code == Key::Down ==> sidebar_key_step(s, ke).0.selected_option != s.selected_option
            && sidebar_key_step(s, ke).1 == Some(Message::Redraw),
        ke.code == Key::Tab || ke.code == Key::Esc ==> sidebar_key_step(s, ke) == (s, Some(Message::FocusBoard)),
        !(ke.code == Key::Up || ke.code == Key::Down || ke.code == Key::Char('k') || ke.code == Key::Char('w')
            || ke.code == Key::Char('j') || ke.code == Key::Char('s')) ==> sidebar_key_step(s, ke).0 == s,
        sidebar_key_step(s, ke).0.focused == s.focused,
{
}

impl AppSidebarComponent {
    /// A sidebar with the first option selected, without focus.
    pub fn new() -> (s: AppSidebarComponent)
        ensures
            s.component == SidebarComponent::new_spec(),
    {
        AppSidebarComponent { component: SidebarComponent::new() }
    }

    /// Forward a command to the sidebar.
    pub fn perform(&mut self, cmd: Cmd) -> (res: CmdResult)
        ensures
            final(self).component.focused == old(self).component.focused,
            cmd == Cmd::Move(Direction::Up) ==> final(self).component.selected_option == option_before(
                old(self).component.selected_option,
            ) && res == CmdResult::Changed,
            cmd == Cmd::Move(Direction::Down) ==> final(self).component.selected_option
                == option_after(old(self).component.selected_option) && res == CmdResult::Changed,
            cmd == Cmd::Submit ==> final(self).component == old(self).component && res == CmdResult::Submit,
            cmd != Cmd::Move(Direction::Up) && cmd != Cmd::Move(Direction::Down) && cmd != Cmd::Submit
                ==> *final(self) == *old(self) && res == CmdResult::NoChange,
    {
        self.component.perform(cmd)
    }

    /// Answer a key press: arrows and vim/wasd keys move the cursor, Enter or space
    /// chooses the option under it, Tab or Esc hands focus back to the board.
    pub fn handle_key_event(&mut self, ke: &KeyEvent) -> (msg: Option<Message>)
        ensures
            (final(self).component, msg) == sidebar_key_step(old(self).component, *ke),
    {
        match ke.code {
            Key::Up | Key::Char('k') | Key::Char('w') => {
                let _ = self.perform(Cmd::Move(Direction::Up));
                Some(Message::Redraw)
            },
            Key::Down | Key::Char('j') | Key::Char('s') => {
                let _ = self.perform(Cmd::Move(Direction::Down));
                Some(Message::Redraw)
            },
            Key::Enter | Key::Char(' ') => {
                let CmdResult::Submit = self.perform(Cmd::Submit) else {
                    return None;
                };
                Some(Message::from(self.component.selected_option))
            },
            Key::Tab | Key::Esc => Some(Message::FocusBoard),
            _ => None,
        }
    }

    /// Answer an event: only key presses matter to the sidebar.
    pub fn on(&mut self, ev: &Event) -> (msg: Option<Message>)
        ensures
            ev matches Event::Keyboard(ke) ==> (final(self).component, msg) == sidebar_key_step(
                old(self).component,
                *ke,
            ),
            !(ev is Keyboard) ==> *final(self) == *old(self) && msg is None,
    {
        match ev {
            Event::Keyboard(ke) => self.handle_key_event(ke),
            _ => None,
        }
    }
}

} // verus!
