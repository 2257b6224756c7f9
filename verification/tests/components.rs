use ratatui::layout::{Margin, Rect};
use tictactoe::game::{Board, GameConfig, GameResult, Mark, Move, OpponentKind};
use tictactoe::renderer::components::board::{Area, BoardComponent};
use tictactoe::renderer::components::new_game_modal::{Highlight, ModalRow, NewGameModalComponent};
use tictactoe::renderer::components::sidebar::SidebarOption;
use tictactoe::renderer::event::{AttrValue, Attribute, Event, Key, KeyEvent, KeyModifiers};
use tictactoe::renderer::model::{ModelState, UiAction};
use tictactoe::renderer::{
    AppBoardComponent, AppNewGameModal, AppSidebarComponent, AppStatusComponent, GameUpdate, Id,
    InvalidMoveReason, Message, RedrawOnResizeComponent, UserEvent,
};

fn empty_board() -> Board {
    Board::new(vec![vec![None; 3]; 3])
}

/// Create a new empty board component for testing.
fn empty_board_component() -> AppBoardComponent {
    AppBoardComponent::new(empty_board())
}

/// Simulate a keypress.
fn press(board: &mut AppBoardComponent, key: char) -> Option<Message> {
    board.on(&Event::Keyboard(KeyEvent::from(Key::Char(key))))
}

#[test]
fn test_wasd_wraparound_from_origin() {
    let mut board = empty_board_component();
    board.component.selected_cell = (0, 0);

    assert_eq!(press(&mut board, 'a'), Some(Message::Redraw));
    assert_eq!(board.component.selected_cell, (0, 2));

    assert_eq!(press(&mut board, 'w'), Some(Message::Redraw));
    assert_eq!(board.component.selected_cell, (2, 2));

    assert_eq!(press(&mut board, 'd'), Some(Message::Redraw));
    assert_eq!(board.component.selected_cell, (2, 0));

    assert_eq!(press(&mut board, 's'), Some(Message::Redraw));
    assert_eq!(board.component.selected_cell, (0, 0));
}

#[test]
fn test_wasd_wraparound_on_all_edges() {
    let mut board = empty_board_component();
    board.component.selected_cell = (1, 0);

    assert_eq!(press(&mut board, 'a'), Some(Message::Redraw));
    assert_eq!(board.component.selected_cell, (1, 2));

    board.component.selected_cell = (1, 2);
    assert_eq!(press(&mut board, 'd'), Some(Message::Redraw));
    assert_eq!(board.component.selected_cell, (1, 0));

    board.component.selected_cell = (0, 1);
    assert_eq!(press(&mut board, 'w'), Some(Message::Redraw));
    assert_eq!(board.component.selected_cell, (2, 1));

    board.component.selected_cell = (2, 1);
    assert_eq!(press(&mut board, 's'), Some(Message::Redraw));
    assert_eq!(board.component.selected_cell, (0, 1));
}

#[test]
fn test_wasd_non_wraparound_navigation() {
    let mut board = empty_board_component();
    board.component.selected_cell = (1, 1);

    assert_eq!(press(&mut board, 'a'), Some(Message::Redraw));
    assert_eq!(board.component.selected_cell, (1, 0));

    board.component.selected_cell = (1, 1);
    assert_eq!(press(&mut board, 'd'), Some(Message::Redraw));
    assert_eq!(board.component.selected_cell, (1, 2));

    board.component.selected_cell = (1, 1);
    assert_eq!(press(&mut board, 'w'), Some(Message::Redraw));
    assert_eq!(board.component.selected_cell, (0, 1));

    board.component.selected_cell = (1, 1);
    assert_eq!(press(&mut board, 's'), Some(Message::Redraw));
    assert_eq!(board.component.selected_cell, (2, 1));
}

#[test]
fn test_split_area_into_cells_dimensions() {
    let area = Rect::new(0, 0, 77, 16);
    let cells = BoardComponent::split_area_into_cells(Area {
        x: area.x,
        y: area.y,
        width: area.width,
        height: area.height,
    })
    .expect("should split correctly");

    // ensure that all the cells have equal dimensions
    let first_cell = cells[0][0];
    for row in cells.iter().flatten().skip(1) {
        assert_eq!(row.width, first_cell.width);
        assert_eq!(row.height, first_cell.height);
    }

    // ensure that the entirety of the usable inner area (rounded down
    // to multiples of 3) is used by the cells
    let board_with_margins = area.inner(Margin::new(1, 1));
    let total_width: u16 = cells[0].iter().map(|r| r.width).sum();
    let total_height: u16 = cells.iter().map(|row| row[0].height).sum();

    let usable_width = board_with_margins.width - (board_with_margins.width % 3);
    let usable_height = board_with_margins.height - (board_with_margins.height % 3);

    assert_eq!(total_width, usable_width);
    assert_eq!(total_height, usable_height);
}

#[test]
fn split_area_positions_and_small_areas() {
    // 77 wide: inner 75 wide, 25 per cell; 16 high: inner 14 high, 12 usable, offset 1
    let cells = BoardComponent::split_area_into_cells(Area { x: 0, y: 0, width: 77, height: 16 }).unwrap();
    assert_eq!(cells[0][0], Area { x: 1, y: 2, width: 25, height: 4 });
    assert_eq!(cells[2][1], Area { x: 26, y: 10, width: 25, height: 4 });
    assert_eq!(BoardComponent::split_area_into_cells(Area { x: 0, y: 0, width: 0, height: 9 }), None);
    assert_eq!(BoardComponent::split_area_into_cells(Area { x: 0, y: 0, width: 4, height: 9 }), None);
    assert_eq!(BoardComponent::split_area_into_cells(Area { x: 3, y: 3, width: 1, height: 1 }), None);
    assert_eq!(Area { x: 2, y: 3, width: 5, height: 4 }.centre(), Some((4, 5)));
    assert_eq!(Area { x: 2, y: 3, width: 0, height: 4 }.centre(), None);
}

#[test]
fn board_component_submits_and_refuses() {
    let mut board = empty_board_component();
    let enter = Event::Keyboard(KeyEvent::from(Key::Enter));
    assert_eq!(board.on(&enter), Some(Message::MoveMade((1, 1))));
    let update = Event::User(UserEvent::GameUpdated(GameUpdate::Move(Move { mark: Mark::X, position: (1, 1) })));
    assert_eq!(board.on(&update), Some(Message::Redraw));
    assert_eq!(board.on(&enter), Some(Message::InvalidMove(InvalidMoveReason::CellOccupied)));
    let finished = Event::User(UserEvent::GameUpdated(GameUpdate::Finished {
        board: empty_board(),
        result: GameResult::Draw,
    }));
    assert_eq!(board.on(&finished), Some(Message::Redraw));
    assert!(board.component.prevent_input);
    assert_eq!(board.on(&enter), Some(Message::InvalidMove(InvalidMoveReason::GameOver)));
    let initial = Event::User(UserEvent::GameUpdated(GameUpdate::Initial(empty_board())));
    board.component.selected_cell = (0, 2);
    assert_eq!(board.on(&initial), Some(Message::Redraw));
    assert_eq!(board.component.selected_cell, (1, 1));
    assert!(!board.component.prevent_input);
    assert_eq!(board.on(&Event::Keyboard(KeyEvent::from(Key::Esc))), Some(Message::FocusSidebar));
    assert_eq!(board.on(&Event::Keyboard(KeyEvent::from(Key::Char('q')))), None);
    assert_eq!(board.on(&Event::WindowResize(3, 4)), None);
}

#[test]
fn invalid_move_reason_names_round_trip() {
    for reason in [InvalidMoveReason::CellOccupied, InvalidMoveReason::GameOver] {
        assert_eq!(InvalidMoveReason::parse(reason.name()), Ok(reason));
        assert_eq!(InvalidMoveReason::parse(&reason.name_string()), Ok(reason));
    }
    assert_eq!(
        InvalidMoveReason::parse("Occupied"),
        Err("Unknown InvalidMoveReason: Occupied".to_string())
    );
}

#[test]
fn sidebar_keys() {
    let mut sidebar = AppSidebarComponent::new();
    let key = |c: Key| Event::Keyboard(KeyEvent::from(c));
    assert_eq!(sidebar.component.selected_option, SidebarOption::NewGame);
    assert_eq!(sidebar.on(&key(Key::Enter)), Some(Message::OpenNewGameModal));
    assert_eq!(sidebar.on(&key(Key::Char('j'))), Some(Message::Redraw));
    assert_eq!(sidebar.component.selected_option, SidebarOption::Quit);
    assert_eq!(sidebar.on(&key(Key::Char(' '))), Some(Message::AppQuit));
    assert_eq!(sidebar.on(&key(Key::Up)), Some(Message::Redraw));
    assert_eq!(sidebar.component.selected_option, SidebarOption::NewGame);
    assert_eq!(sidebar.on(&key(Key::Tab)), Some(Message::FocusBoard));
    assert_eq!(sidebar.on(&key(Key::Char('x'))), None);
    sidebar.component.attr(Attribute::Focus, AttrValue::Flag(true));
    assert!(sidebar.component.focused);
    assert!(sidebar.component.is_highlighted(SidebarOption::NewGame));
    assert!(!sidebar.component.is_highlighted(SidebarOption::Quit));
    assert_eq!(SidebarOption::Quit.label(), "Quit");
    assert_eq!(sidebar.component.item_text(SidebarOption::NewGame), "» New Game");
    assert_eq!(sidebar.component.item_text(SidebarOption::Quit), "  Quit");
    assert_eq!(Message::from(SidebarOption::Quit), Message::AppQuit);
}

#[test]
fn new_game_modal_keys() {
    let mut modal = AppNewGameModal::new();
    let key = |c: Key| Event::Keyboard(KeyEvent::from(c));
    assert_eq!(modal.on(&key(Key::Char('d'))), Some(Message::Redraw));
    assert_eq!(modal.component.player_mark, Mark::O);
    assert_eq!(modal.on(&key(Key::Enter)), Some(Message::Redraw));
    assert_eq!(modal.component.row, ModalRow::Opponent);
    assert_eq!(modal.on(&key(Key::Left)), Some(Message::Redraw));
    assert_eq!(modal.component.opponent, OpponentKind::Random);
    assert_eq!(modal.on(&key(Key::Down)), Some(Message::Redraw));
    assert_eq!(modal.on(&key(Key::Right)), Some(Message::Redraw));
    assert!(!modal.component.player_first);
    assert_eq!(modal.on(&key(Key::Char('s'))), Some(Message::Redraw));
    assert_eq!(modal.component.row, ModalRow::Start);
    assert_eq!(
        modal.on(&key(Key::Enter)),
        Some(Message::StartGame(GameConfig { player_mark: Mark::O, opponent: OpponentKind::Random, player_first: false }))
    );
    assert_eq!(modal.on(&key(Key::Esc)), Some(Message::CloseModal));
    assert_eq!(modal.on(&key(Key::Down)), Some(Message::Redraw));
    assert_eq!(modal.component.row, ModalRow::Mark);
    assert_eq!(GameConfig::default().opponent, OpponentKind::Minimax);
    assert_eq!(OpponentKind::Random.name(), "Random");
}

#[test]
fn status_messages_and_ctrl_c() {
    let mut status = AppStatusComponent::new();
    let upd = |u: GameUpdate| Event::User(UserEvent::GameUpdated(u));
    status.on(&upd(GameUpdate::Initial(empty_board())));
    assert_eq!(status.component.message, "New game started");
    status.on(&upd(GameUpdate::Move(Move { mark: Mark::X, position: (0, 1) })));
    assert_eq!(status.component.message, "X moved to (1,2)");
    status.on(&upd(GameUpdate::Move(Move { mark: Mark::O, position: (9, 41) })));
    assert_eq!(status.component.message, "O moved to (10,42)");
    status.on(&upd(GameUpdate::Finished { board: empty_board(), result: GameResult::Winner(Mark::O) }));
    assert_eq!(status.component.message, "Game over: O wins!");
    status.on(&upd(GameUpdate::Finished { board: empty_board(), result: GameResult::Draw }));
    assert_eq!(status.component.message, "Game over: Draw");

    let ctrl_c = Event::Keyboard(KeyEvent::new(Key::Char('c'), KeyModifiers::control()));
    assert_eq!(status.on(&ctrl_c), Some(Message::Redraw));
    assert_eq!(status.component.get_display_line(), (&"Press Ctrl+C again to quit.".to_string(), true));
    assert_eq!(status.on(&ctrl_c), Some(Message::AppQuit));
    assert_eq!(status.on(&Event::Keyboard(KeyEvent::from(Key::Char('c')))), Some(Message::Redraw));
    assert_eq!(status.component.warning_message, None);
    assert_eq!(status.on(&Event::Keyboard(KeyEvent::from(Key::Char('c')))), None);

    status.component.attr(Attribute::Content, AttrValue::String(InvalidMoveReason::GameOver.name_string()));
    assert_eq!(status.component.get_display_line(), (&"Invalid move: Game is already over!".to_string(), true));
    // an invalid-move warning is not armed for quitting
    assert_eq!(status.on(&ctrl_c), Some(Message::Redraw));
    status.component.attr(Attribute::Content, AttrValue::String("nonsense".to_string()));
    assert_eq!(status.component.warning_message, Some("Press Ctrl+C again to quit.".to_string()));
}

#[test]
fn redraw_and_model() {
    let mut r = RedrawOnResizeComponent;
    assert_eq!(r.on(&Event::WindowResize(10, 10)), Some(Message::Redraw));
    assert_eq!(r.on(&Event::Other), None);

    let mut model = ModelState::new();
    assert_eq!(model.update(Some(Message::FocusBoard)), (UiAction::Focus(Id::Board), Some(Message::Redraw)));
    assert_eq!(model.update(Some(Message::Redraw)), (UiAction::Nothing, None));
    assert!(model.redraw);
    assert_eq!(model.update(Some(Message::MoveMade((2, 0)))), (UiAction::SendMove((2, 0)), None));
    assert_eq!(model.update(None), (UiAction::Nothing, None));
    assert!(!model.quit);
    assert_eq!(model.update(Some(Message::AppQuit)), (UiAction::RestoreTerminal, None));
    assert!(model.quit);
}

#[test]
fn modal_toggles_twice_restore() {
    let mut m = NewGameModalComponent::new();
    let before = m;
    m.toggle_mark();
    m.toggle_opponent();
    m.toggle_first_move();
    assert_eq!(m.build_config(), GameConfig { player_mark: Mark::O, opponent: OpponentKind::Random, player_first: false });
    m.toggle_mark();
    m.toggle_opponent();
    m.toggle_first_move();
    assert_eq!(m, before);
    for row in [ModalRow::Mark, ModalRow::Opponent, ModalRow::FirstMove, ModalRow::Start] {
        assert_eq!(row.next().prev(), row);
        assert_eq!(row.next().next().next().next(), row);
    }
    assert_eq!(SidebarOption::NewGame.next().prev(), SidebarOption::NewGame);
}

#[test]
fn modal_look_follows_cursor_and_choices() {
    let mut modal = AppNewGameModal::new();
    let look = modal.component.look();
    assert!(!look.focused_border);
    assert_eq!(look.mark_label, Highlight::Normal);
    assert_eq!(look.x_value, Highlight::Selected);
    assert_eq!(look.o_value, Highlight::Normal);
    assert_eq!(look.start_button, Highlight::Unselected);
    modal.component.attr(Attribute::Focus, AttrValue::Flag(true));
    let look = modal.component.look();
    assert!(look.focused_border);
    assert_eq!(look.mark_label, Highlight::Cursor);
    assert_eq!(look.opponent_label, Highlight::Normal);
    modal.component.row = ModalRow::Start;
    assert_eq!(modal.component.look().start_button, Highlight::Selected);
    assert_eq!(modal.component.look().cpu_value, Highlight::Normal);
    assert_eq!(modal.component.look().player_value, Highlight::Selected);
}
