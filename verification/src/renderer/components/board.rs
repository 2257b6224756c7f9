use vstd::prelude::*;

use crate::game::board::{cell_index, in_bounds, lemma_board_len, place};
use crate::game::{Board, Mark, Position};
use crate::renderer::enums::{
    lemma_reason_name_round_trip, reason_name, GameUpdate, InvalidMoveReason, Message, UserEvent,
};
use crate::renderer::event::{
    is_confirm_key, is_down_key, is_left_key, is_right_key, is_up_key, Cmd, CmdResult, Direction,
    Event, Key, KeyEvent,
};

verus! {

broadcast use lemma_board_len;

/// A rectangular area of the terminal, in cells.
#[derive(Debug, Clone, Copy, PartialEq, Eq, Structural)]
pub struct Area {
    pub x: u16,
    pub y: u16,
    pub width: u16,
    pub height: u16,
}

/// `a + b`, saturating at `u16::MAX`.
pub open spec fn saturating_add(a: u16, b: u16) -> u16 {
    if a + b > u16::MAX {
        u16::MAX
    } else {
        (a + b) as u16
    }
}

/// `a * 2`, saturating at `u16::MAX`.
pub open spec fn saturating_double(a: u16) -> u16 {
    if 2 * a > u16::MAX {
        u16::MAX
    } else {
        (2 * a) as u16
    }
}

/// The area left inside a margin of `horizontal` cells left and right and `vertical`
/// cells above and below; empty at the origin when the margins do not fit.
pub open spec fn inner_spec(area: Area, horizontal: u16, vertical: u16) -> Area {
    if area.width < saturating_double(horizontal) || area.height < saturating_double(vertical) {
        Area { x: 0, y: 0, width: 0, height: 0 }
    } else {
        Area {
            x: saturating_add(area.x, horizontal),
            y: saturating_add(area.y, vertical),
            width: (area.width - saturating_double(horizontal)) as u16,
            height: (area.height - saturating_double(vertical)) as u16,
        }
    }
}

/// `ratatui::layout::Rect::inner` with a `Margin` of `horizontal` and `vertical` cells:
/// the area inside the margin, or the empty area at the origin when the doubled margin
/// exceeds the size (the margin is doubled and added with saturation).
#[verifier::external_body]
fn inner_area(area: Area, horizontal: u16, vertical: u16) -> (inner: Area)
    ensures
        inner == inner_spec(area, horizontal, vertical),
{
    let rect = ratatui::layout::Rect { x: area.x, y: area.y, width: area.width, height: area.height };
    let inner = rect.inner(ratatui::layout::Margin { horizontal, vertical });
    Area { x: inner.x, y: inner.y, width: inner.width, height: inner.height }
}

/// `ratatui::layout::Rect::new`: the area at `(x, y)` of the given size, shrunk so that
/// its right and bottom edges do not pass `u16::MAX`.
#[verifier::external_body]
fn new_area(x: u16, y: u16, width: u16, height: u16) -> (area: Area)
    ensures
        area == (Area {
            x,
            y,
            width: (saturating_add(x, width) - x) as u16,
            height: (saturating_add(y, height) - y) as u16,
        }),
{
    let rect = ratatui::layout::Rect::new(x, y, width, height);
    Area { x: rect.x, y: rect.y, width: rect.width, height: rect.height }
}

/// A length rounded down to a multiple of 3.
pub open spec fn usable_len(len: u16) -> int {
    len - len % 3
}

/// The area of cell `(row, col)` when the inner part of `area` (inside a one-cell margin)
/// is split into a centred 3x3 grid of equal cells.
pub open spec fn cell_area(area: Area, row: int, col: int) -> Area {
    let inner = inner_spec(area, 1, 1);
    let uw = usable_len(inner.width);
    let uh = usable_len(inner.height);
    Area {
        x: (inner.x + (inner.width - uw) / 2 + col * (uw / 3)) as u16,
        y: (inner.y + (inner.height - uh) / 2 + row * (uh / 3)) as u16,
        width: (uw / 3) as u16,
        height: (uh / 3) as u16,
    }
}

/// Whether `area` leaves room for a padded 3x3 grid.
pub open spec fn splittable(area: Area) -> bool {
    let inner = inner_spec(area, 1, 1);
    area.width != 0 && area.height != 0 && usable_len(inner.width) != 0 && usable_len(inner.height) != 0
}

/// The cells of a splittable area form a grid of nine equal, non-empty cells placed side
/// by side: cell `(r, c)` lies `c` cell widths right of and `r` cell heights below the
/// top-left cell. The grid keeps a margin of at least one cell inside the area on every
/// side, leaves fewer than three columns and three rows of the inner part unused, and is
/// centred, the space on the right and below exceeding that on the left and above by at
/// most one.
pub proof fn lemma_cell_grid(area: Area)
    requires
        area.x + area.width <= u16::MAX,
        area.y + area.height <= u16::MAX,
        splittable(area),
    ensures
        ({
            let first = cell_area(area, 0, 0);
            let left = first.x - (area.x + 1);
            let right = (area.x + area.width - 1) - (first.x + 3 * first.width);
            let top = first.y - (area.y + 1);
            let bottom = (area.y + area.height - 1) - (first.y + 3 * first.height);
            &&& first.width > 0 && first.height > 0
            &&& forall|r: int, c: int| 0 <= r < 3 && 0 <= c < 3 ==> {
                let cell = #[trigger] cell_area(area, r, c);
                &&& cell.width == first.width && cell.height == first.height
                &&& cell.x == first.x + c * first.width
                &&& cell.y == first.y + r * first.height
            }
            &&& 0 <= left <= right <= left + 1
            &&& 0 <= top <= bottom <= top + 1
            &&& left + right < 3 && top + bottom < 3
        }),
{
    let inner = inner_spec(area, 1, 1);
    assert(area.width >= 2 && area.height >= 2);
    assert(inner.x == area.x + 1 && inner.width == area.width - 2);
    assert(inner.y == area.y + 1 && inner.height == area.height - 2);
    let uw = usable_len(inner.width);
    let uh = usable_len(inner.height);
    let w = uw / 3;
    let h = uh / 3;
    assert(uw == 3 * w && uh == 3 * h);
    assert forall|r: int, c: int| 0 <= r < 3 && 0 <= c < 3 implies {
        let cell = #[trigger] cell_area(area, r, c);
        &&& cell.width == w && cell.height == h
        &&& cell.x == inner.x + (inner.width - uw) / 2 + c * w
        &&& cell.y == inner.y + (inner.height - uh) / 2 + r * h
    } by {
        assert(0 <= c * w <= 2 * w) by (nonlinear_arith)
            requires
                0 <= c < 3,
                w >= 0,
        ;
        assert(0 <= r * h <= 2 * h) by (nonlinear_arith)
            requires
                0 <= r < 3,
                h >= 0,
        ;
    }
    let first = cell_area(area, 0, 0);
    assert(first.x == inner.x + (inner.width - uw) / 2 && first.width == w);
    assert(first.y == inner.y + (inner.height - uh) / 2 && first.height == h);
}

/// The cursor after a move in direction `dir`, wrapping around the edges.
pub open spec fn cursor_after(sel: Position, dir: Direction) -> Position {
    match dir {
        Direction::Left => (sel.0, ((sel.1 + 2) % 3) as usize),
        Direction::Right => (sel.0, ((sel.1 + 1) % 3) as usize),
        Direction::Up => (((sel.0 + 2) % 3) as usize, sel.1),
        Direction::Down => (((sel.0 + 1) % 3) as usize, sel.1),
    }
}

/// The cursor stays on the board; a move and the opposite move cancel out, and three
/// moves in one direction go all the way round.
pub proof fn lemma_cursor_wraps(sel: Position)
    requires
        in_bounds(sel),
    ensures
        forall|dir: Direction| in_bounds(#[trigger] cursor_after(sel, dir)),
        cursor_after(cursor_after(sel, Direction::Left), Direction::Right) == sel,
        cursor_after(cursor_after(sel, Direction::Right), Direction::Left) == sel,
        cursor_after(cursor_after(sel, Direction::Up), Direction::Down) == sel,
        cursor_after(cursor_after(sel, Direction::Down), Direction::Up) == sel,
        forall|dir: Direction|
            cursor_after(cursor_after(cursor_after(sel, dir), dir), dir) == sel,
{
    assert forall|dir: Direction|
        cursor_after(cursor_after(cursor_after(sel, dir), dir), dir) == sel by {
        match dir {
            Direction::Left => {},
            Direction::Right => {},
            Direction::Up => {},
            Direction::Down => {},
        }
    }
}

/// Why a submission on these cells is refused, if it is.
pub open spec fn refusal(cells: Seq<Option<Mark>>, sel: Position, prevent_input: bool) -> Option<InvalidMoveReason> {
    if prevent_input {
        Some(InvalidMoveReason::GameOver)
    } else if cells[cell_index(sel)] is Some {
        Some(InvalidMoveReason::CellOccupied)
    } else {
        None
    }
}

/// What a key press does on the board: the cursor after it and the message sent.
pub open spec fn board_key_step(cells: Seq<Option<Mark>>, sel: Position, prevent_input: bool, ke: KeyEvent) -> (Position, Option<Message>) {
    if ke.code == Key::Esc {
        (sel, Some(Message::FocusSidebar))
    } else if is_left_key(ke.code) {
        (cursor_after(sel, Direction::Left), Some(Message::Redraw))
    } else if is_right_key(ke.code) {
        (cursor_after(sel, Direction::Right), Some(Message::Redraw))
    } else if is_up_key(ke.code) {
        (cursor_after(sel, Direction::Up), Some(Message::Redraw))
    } else if is_down_key(ke.code) {
        (cursor_after(sel, Direction::Down), Some(Message::Redraw))
    } else if is_confirm_key(ke.code) {
        match refusal(cells, sel, prevent_input) {
            Some(reason) => (sel, Some(Message::InvalidMove(reason))),
            None => (sel, Some(Message::MoveMade(sel))),
        }
    } else {
        (sel, None)
    }
}

/// What a key press on the board does, key by key: Enter or space submits exactly the
/// cell under the cursor, which is sent as the move when input is accepted and the cell
/// is empty and refused otherwise, without moving the cursor; Esc hands focus to the
/// sidebar; the arrow keys step the cursor one cell, wrapping from one edge to the other.
pub proof fn lemma_board_keys(cells: Seq<Option<Mark>>, sel: Position, prevent_input: bool, ke: KeyEvent)
    requires
        in_bounds(sel),
    ensures
        board_key_step(cells, sel, prevent_input, ke).1 matches Some(Message::MoveMade(p)) ==> p == sel
            && board_key_step(cells, sel, prevent_input, ke).0 == sel,
        board_key_step(cells, sel, prevent_input, ke).1 is Some && board_key_step(cells, sel, prevent_input, ke).1->0 is MoveMade
            <==> ((ke.code == Key::Enter || ke.code == Key::Char(' ')) && !prevent_input && cells[3 * sel.0 + sel.1] is None),
        (ke.code == Key::Enter || ke.code == Key::Char(' ')) && prevent_input ==> board_key_step(cells, sel, prevent_input, ke)
            == (sel, Some(Message::InvalidMove(InvalidMoveReason::GameOver))),
        (ke.code == Key::Enter || ke.code == Key::Char(' ')) && !prevent_input && cells[3 * sel.0 + sel.1] is Some
            ==> board_key_step(cells, sel, prevent_input, ke) == (sel, Some(Message::InvalidMove(InvalidMoveReason::CellOccupied))),
        ke.code == Key::Esc ==> board_key_step(cells, sel, prevent_input, ke) == (sel, Some(Message::FocusSidebar)),
        ke.code == Key::Left ==> board_key_step(cells, sel, prevent_input, ke) == (
            (sel.0, if sel.1 == 0 { 2usize } else { (sel.1 - 1) as usize }), Some(Message::Redraw)),
        ke.code == Key::Right ==> board_key_step(cells, sel, prevent_input, ke) == (
            (sel.0, if sel.1 == 2 { 0usize } else { (sel.1 + 1) as usize }), Some(Message::Redraw)),
        ke.code == Key::Up ==> board_key_step(cells, sel, prevent_input, ke) == (
            (if sel.0 == 0 { 2usize } else { (sel.0 - 1) as usize }, sel.1), Some(Message::Redraw)),
        ke.code == Key::Down ==> board_key_step(cells, sel, prevent_input, ke) == (
            (if sel.0 == 2 { 0usize } else { (sel.0 + 1) as usize }, sel.1), Some(Message::Redraw)),
{
}

/// The board widget's state: the board shown, the cell under the cursor, and whether
/// input is refused (when no game is under way).
pub struct BoardComponent {
    pub board: Board,
    /// The position of the selected cell.
    pub selected_cell: Position,
    /// Whether to prevent input from being processed, such as when a game is not active.
    pub prevent_input: bool,
}

impl BoardComponent {
    /// Show `board` with the cursor on the centre cell, accepting input.
    pub fn new(board: Board) -> (c: BoardComponent)
        ensures
            c.board == board,
            c.selected_cell == (1usize, 1usize),
            !c.prevent_input,
    {
        BoardComponent { board, selected_cell: (1, 1), prevent_input: false }
    }

    /// Split `area` into an equally sized 3x3 grid of areas for the cells, inside a
    /// one-cell margin, truncating the size to multiples of 3 and centring the grid.
    ///
    /// Returns `None` if the area is too small for a padded 3x3 grid. The area must not
    /// reach past `u16::MAX`, as no area of a terminal does.
    pub fn split_area_into_cells(area: Area) -> (cells: Option<[[Area; 3]; 3]>)
        requires
            area.x + area.width <= u16::MAX,
            area.y + area.height <= u16::MAX,
        ensures
            cells is None <==> !splittable(area),
            cells matches Some(cells) ==> forall|r: int, c: int|
                0 <= r < 3 && 0 <= c < 3 ==> #[trigger] cells@[r]@[c] == cell_area(area, r, c),
            cells matches Some(cells) ==> 3 * cells@[0]@[0].width == usable_len(inner_spec(area, 1, 1).width)
                && 3 * cells@[0]@[0].height == usable_len(inner_spec(area, 1, 1).height),
    {
        if area.width == 0 || area.height == 0 {
            return None;
        }
        let board_with_margins = inner_area(area, 1, 1);
        // Truncate board dimensions to the next lowest multiple of 3 to ensure equal sizes,
        // using any leftover as padding
        let usable_width = board_with_margins.width - (board_with_margins.width % 3);
        let usable_height = board_with_margins.height - (board_with_margins.height % 3);
        if usable_width == 0 || usable_height == 0 {
            return None;
        }
        let offset_x = board_with_margins.x + ((board_with_margins.width - usable_width) / 2);
        let offset_y = board_with_margins.y + ((board_with_margins.height - usable_height) / 2);
        let cell_width = usable_width / 3;
        let cell_height = usable_height / 3;
        let row0 = [
            new_area(offset_x, offset_y, cell_width, cell_height),
            new_area(offset_x + cell_width, offset_y, cell_width, cell_height),
            new_area(offset_x + 2 * cell_width, offset_y, cell_width, cell_height),
        ];
        let row1 = [
            new_area(offset_x, offset_y + cell_height, cell_width, cell_height),
            new_area(offset_x + cell_width, offset_y + cell_height, cell_width, cell_height),
            new_area(offset_x + 2 * cell_width, offset_y + cell_height, cell_width, cell_height),
        ];
        let row2 = [
            new_area(offset_x, offset_y + 2 * cell_height, cell_width, cell_height),
            new_area(offset_x + cell_width, offset_y + 2 * cell_height, cell_width, cell_height),
            new_area(offset_x + 2 * cell_width, offset_y + 2 * cell_height, cell_width, cell_height),
        ];
        let cells = [row0, row1, row2];
        assert(board_with_margins == inner_spec(area, 1, 1));
        assert(board_with_margins.x + board_with_margins.width <= u16::MAX);
        assert(offset_x + 3 * cell_width <= u16::MAX);
        assert(offset_y + 3 * cell_height <= u16::MAX);
        assert(cells@[0]@[0] == cell_area(area, 0, 0));
        assert(cells@[0]@[1] == cell_area(area, 0, 1));
        assert(cells@[0]@[2] == cell_area(area, 0, 2));
        assert(cells@[1]@[0] == cell_area(area, 1, 0));
        assert(cells@[1]@[1] == cell_area(area, 1, 1));
        assert(cells@[1]@[2] == cell_area(area, 1, 2));
        assert(cells@[2]@[0] == cell_area(area, 2, 0));
        assert(cells@[2]@[1] == cell_area(area, 2, 1));
        assert(cells@[2]@[2] == cell_area(area, 2, 2));
        Some(cells)
    }

    /// Move the cursor (wrapping around the edges), or submit the cell under it: a
    /// submission is refused when input is prevented (the game is over) or the cell is
    /// occupied, the refusal carrying the reason's name.
    pub fn perform(&mut self, cmd: Cmd) -> (res: CmdResult)
        requires
            in_bounds(old(self).selected_cell),
        ensures
            final(self).board == old(self).board,
            final(self).prevent_input == old(self).prevent_input,
            in_bounds(final(self).selected_cell),
            cmd matches Cmd::Move(dir) ==> final(self).selected_cell == cursor_after(
                old(self).selected_cell,
                dir,
            ) && res == CmdResult::Changed,
            !(cmd is Move) ==> final(self).selected_cell == old(self).selected_cell,
            cmd == Cmd::Submit ==> match refusal(
                old(self).board@,
                old(self).selected_cell,
                old(self).prevent_input,
            ) {
                Some(reason) => res matches CmdResult::Invalid(Cmd::Custom(name)) && name@ == reason_name(reason),
                None => res == CmdResult::Submit,
            },
            cmd is Custom ==> res == CmdResult::NoChange,
    {
        proof {
            lemma_cursor_wraps(self.selected_cell);
        }
        match cmd {
            Cmd::Move(Direction::Left) => {
                self.selected_cell.1 = (self.selected_cell.1 + 2) % 3;
                CmdResult::Changed
            },
            Cmd::Move(Direction::Right) => {
                self.selected_cell.1 = (self.selected_cell.1 + 1) % 3;
                CmdResult::Changed
            },
            Cmd::Move(Direction::Up) => {
                self.selected_cell.0 = (self.selected_cell.0 + 2) % 3;
                CmdResult::Changed
            },
            Cmd::Move(Direction::Down) => {
                self.selected_cell.0 = (self.selected_cell.0 + 1) % 3;
                CmdResult::Changed
            },
            Cmd::Submit => {
                let (row, col) = self.selected_cell;
                // do nothing if game over or already occupied
                if self.board.cell(3 * row + col).is_some() || self.prevent_input {
                    let reason = if self.prevent_input {
                        InvalidMoveReason::GameOver
                    } else {
                        InvalidMoveReason::CellOccupied
                    };
                    CmdResult::Invalid(Cmd::Custom(reason.name()))
                } else {
                    CmdResult::Submit
                }
            },
            _ => CmdResult::NoChange,
        }
    }
}

/// The board widget as it takes part in the application: it turns key presses into
/// cursor moves and messages, and follows the game's updates.
pub struct AppBoardComponent {
    pub component: BoardComponent,
}

impl AppBoardComponent {
    /// Show `board` with the cursor on the centre cell, accepting input.
    pub fn new(board: Board) -> (c: AppBoardComponent)
        ensures
            c.component.board == board,
            c.component.selected_cell == (1usize, 1usize),
            !c.component.prevent_input,
    {
        AppBoardComponent { component: BoardComponent::new(board) }
    }

    /// Forward a command to the board widget.
    pub fn perform(&mut self, cmd: Cmd) -> (res: CmdResult)
        requires
            in_bounds(old(self).component.selected_cell),
        ensures
            final(self).component.board == old(self).component.board,
            final(self).component.prevent_input == old(self).component.prevent_input,
            in_bounds(final(self).component.selected_cell),
            cmd matches Cmd::Move(dir) ==> final(self).component.selected_cell == cursor_after(
                old(self).component.selected_cell,
                dir,
            ) && res == CmdResult::Changed,
            !(cmd is Move) ==> final(self).component.selected_cell == old(self).component.selected_cell,
            cmd == Cmd::Submit ==> match refusal(
                old(self).component.board@,
                old(self).component.selected_cell,
                old(self).component.prevent_input,
            ) {
                Some(reason) => res matches CmdResult::Invalid(Cmd::Custom(name)) && name@ == reason_name(reason),
                None => res == CmdResult::Submit,
            },
            cmd is Custom ==> res == CmdResult::NoChange,
    {
        self.component.perform(cmd)
    }

    /// Answer a key press: Esc hands focus to the sidebar, arrows and vim/wasd keys move
    /// the cursor, Enter or space submits the cell under it, which sends the move or says
    /// why it is invalid.
    pub fn handle_key_event(&mut self, ke: &KeyEvent) -> (msg: Option<Message>)
        requires
            in_bounds(old(self).component.selected_cell),
        ensures
            final(self).component.board == old(self).component.board,
            final(self).component.prevent_input == old(self).component.prevent_input,
            in_bounds(final(self).component.selected_cell),
            (final(self).component.selected_cell, msg) == board_key_step(
                old(self).component.board@,
                old(self).component.selected_cell,
                old(self).component.prevent_input,
                *ke,
            ),
            msg matches Some(Message::MoveMade(p)) ==> p == old(self).component.selected_cell,
    {
        proof {
            lemma_board_keys(
                self.component.board@,
                self.component.selected_cell,
                self.component.prevent_input,
                *ke,
            );
        }
        match ke.code {
            Key::Esc => Some(Message::FocusSidebar),
            Key::Left | Key::Char('h') | Key::Char('a') => {
                let _ = self.perform(Cmd::Move(Direction::Left));
                Some(Message::Redraw)
            },
            Key::Right | Key::Char('l') | Key::Char('d') => {
                let _ = self.perform(Cmd::Move(Direction::Right));
                Some(Message::Redraw)
            },
            Key::Up | Key::Char('k') | Key::Char('w') => {
                let _ = self.perform(Cmd::Move(Direction::Up));
                Some(Message::Redraw)
            },
            Key::Down | Key::Char('j') | Key::Char('s') => {
                let _ = self.perform(Cmd::Move(Direction::Down));
                Some(Message::Redraw)
            },
            Key::Enter | Key::Char(' ') => {
                let ghost before = self.component;
                match self.perform(Cmd::Submit) {
                    CmdResult::Submit => Some(Message::MoveMade(self.component.selected_cell)),
                    CmdResult::Invalid(Cmd::Custom(reason_str)) => {
                        proof {
                            let reason = refusal(before.board@, before.selected_cell, before.prevent_input);
                            lemma_reason_name_round_trip(reason.unwrap());
                        }
                        let Ok(reason) = InvalidMoveReason::parse(reason_str) else {
                            return None;
                        };
                        Some(Message::InvalidMove(reason))
                    },
                    _ => None,
                }
            },
            _ => None,
        }
    }

    /// Answer an event: key presses as above; a new game shows its board with the
    /// cursor centred and input accepted, a move is placed on the board, and a finished
    /// game shows its final board and refuses input.
    ///
    /// A move must lie on the board.
    pub fn on(&mut self, ev: &Event) -> (msg: Option<Message>)
        requires
            in_bounds(old(self).component.selected_cell),
            ev matches Event::User(UserEvent::GameUpdated(GameUpdate::Move(m))) ==> in_bounds(m.position),
        ensures
            in_bounds(final(self).component.selected_cell),
            ev matches Event::Keyboard(ke) ==> {
                &&& final(self).component.board == old(self).component.board
                &&& final(self).component.prevent_input == old(self).component.prevent_input
                &&& (final(self).component.selected_cell, msg) == board_key_step(
                    old(self).component.board@,
                    old(self).component.selected_cell,
                    old(self).component.prevent_input,
                    *ke,
                )
            },
            ev matches Event::User(UserEvent::GameUpdated(GameUpdate::Initial(board))) ==> {
                &&& final(self).component.board@ == board@
                &&& final(self).component.selected_cell == (1usize, 1usize)
                &&& !final(self).component.prevent_input
                &&& msg == Some(Message::Redraw)
            },
            ev matches Event::User(UserEvent::GameUpdated(GameUpdate::Move(m))) ==> {
                &&& final(self).component.board@ == place(old(self).component.board@, m.position, m.mark)
                &&& final(self).component.selected_cell == old(self).component.selected_cell
                &&& final(self).component.prevent_input == old(self).component.prevent_input
                &&& msg == Some(Message::Redraw)
            },
            ev matches Event::User(UserEvent::GameUpdated(GameUpdate::Finished { board, .. })) ==> {
                &&& final(self).component.board@ == board@
                &&& final(self).component.selected_cell == old(self).component.selected_cell
                &&& final(self).component.prevent_input
                &&& msg == Some(Message::Redraw)
            },
            !(ev is Keyboard || ev matches Event::User(UserEvent::GameUpdated(_))) ==> {
                &&& final(self).component.board == old(self).component.board
                &&& final(self).component.selected_cell == old(self).component.selected_cell
                &&& final(self).component.prevent_input == old(self).component.prevent_input
                &&& msg is None
            },
    {
        match ev {
            Event::Keyboard(ke) => self.handle_key_event(ke),
            Event::User(UserEvent::GameUpdated(GameUpdate::Initial(board))) => {
                self.component.board = board.clone();
                self.component.selected_cell = (1, 1);  // center
                self.component.prevent_input = false;
                Some(Message::Redraw)
            },
            Event::User(UserEvent::GameUpdated(GameUpdate::Move(m))) => {
                self.component.board.set_mark(m.position, m.mark);
                Some(Message::Redraw)
            },
            Event::User(UserEvent::GameUpdated(GameUpdate::Finished { board, .. })) => {
                self.component.board = board.clone();
                self.component.prevent_input = true;
                Some(Message::Redraw)
            },
            _ => None,
        }
    }
}

} // verus!
