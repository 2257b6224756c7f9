use tictactoe::game::{seat_marks, Game, GameConfig, GameError, GameResult, Mark, Move, OpponentKind};
use tictactoe::renderer::GameUpdate;

fn empty_grid() -> Vec<Vec<Option<Mark>>> {
    vec![vec![None, None, None], vec![None, None, None], vec![None, None, None]]
}

#[test]
fn test_game_play_move() {
    // player 0 always plays (0, 0), player 1 always plays (0, 1)
    let (mut game, initial) = Game::new([Mark::X, Mark::O]).unwrap();

    let new_board = empty_grid();
    assert_eq!(game.board().grid(), new_board);
    assert!(
        matches!(&initial, GameUpdate::Initial(board) if board.grid() == new_board),
        "Game should send initial board state on creation"
    );

    let new_board = vec![vec![Some(Mark::X), None, None], vec![None, None, None], vec![None, None, None]];
    assert_eq!(game.current_player(), Ok(0));
    let updates = game
        .play_move((0, 0))
        .expect("connection to renderer shouldn't fail mid-game");
    assert_eq!(game.board().grid(), new_board);
    assert!(
        matches!(updates.first(), Some(GameUpdate::Move(Move { position, mark }))
            if *position == (0, 0) && *mark == Mark::X),
        "Game should send the move info to the renderer after each move"
    );
    assert_eq!(game.turn(), 1);
    assert_eq!(game.turn_player(), 1);

    let new_board = vec![
        vec![Some(Mark::X), Some(Mark::O), None],
        vec![None, None, None],
        vec![None, None, None],
    ];
    assert_eq!(game.current_player(), Ok(1));
    let updates = game
        .play_move((0, 1))
        .expect("connection to renderer shouldn't fail mid-game");
    assert_eq!(game.board().grid(), new_board);
    assert!(
        matches!(updates.first(), Some(GameUpdate::Move(Move { position, mark }))
            if *position == (0, 1) && *mark == Mark::O),
        "Game should send the move info to the renderer after each move"
    );
    assert_eq!(game.turn(), 2);
    assert_eq!(game.turn_player(), 0);
}

#[test]
fn test_game_finish_game() {
    let (mut game, _initial) = Game::new([Mark::X, Mark::O]).unwrap();

    let upd = game
        .finish_game(GameResult::Winner(Mark::X))
        .expect("connection to renderer shouldn't fail mid-game");

    assert!(
        matches!(upd, GameUpdate::Finished { ref board, result }
            if *board == *game.board() && result == GameResult::Winner(Mark::X)),
        "Game should send the final board state and result to the renderer when the game finishes; got {:?}",
        upd.clone()
    );
    assert!(game.is_finished);
}

#[test]
fn game_refuses_shared_marks() {
    assert_eq!(
        Game::new([Mark::O, Mark::O]).err(),
        Some(GameError::SharedMark { first: 0, second: 1, mark: Mark::O })
    );
}

#[test]
fn game_ends_on_a_win_and_then_refuses_moves() {
    let (mut game, _) = Game::new([Mark::O, Mark::X]).unwrap();
    for pos in [(0, 0), (1, 0), (0, 1), (1, 1)] {
        let updates = game.play_move(pos).unwrap();
        assert_eq!(updates.len(), 1);
    }
    let updates = game.play_move((0, 2)).unwrap();
    assert_eq!(updates.len(), 2);
    assert_eq!(updates[0], GameUpdate::Move(Move { mark: Mark::O, position: (0, 2) }));
    assert!(matches!(&updates[1], GameUpdate::Finished { result: GameResult::Winner(Mark::O), .. }));
    assert!(game.is_finished);
    assert_eq!(game.current_player(), Err(GameError::Finished));
    let before = game.board().grid();
    assert_eq!(game.play_move((2, 2)), Err(GameError::Finished));
    assert_eq!(game.board().grid(), before);
    assert_eq!(game.turn(), 5);
    assert_eq!(game.finish_game(GameResult::Draw), Err(GameError::Finished));
}

#[test]
fn game_ends_in_a_draw() {
    let (mut game, _) = Game::new([Mark::X, Mark::O]).unwrap();
    let moves = [(0, 0), (0, 1), (0, 2), (1, 1), (1, 0), (1, 2), (2, 1), (2, 0), (2, 2)];
    for (i, pos) in moves.iter().enumerate() {
        let updates = game.play_move(*pos).unwrap();
        if i + 1 < moves.len() {
            assert_eq!(updates.len(), 1);
        } else {
            assert!(matches!(&updates[1], GameUpdate::Finished { result: GameResult::Draw, .. }));
        }
    }
    assert_eq!(game.turn_player(), 1);
}

#[test]
fn seating_follows_the_configuration() {
    let c = GameConfig { player_mark: Mark::O, opponent: OpponentKind::Random, player_first: true };
    assert_eq!(seat_marks(c), [Mark::O, Mark::X]);
    let c = GameConfig { player_first: false, ..c };
    assert_eq!(seat_marks(c), [Mark::X, Mark::O]);
}

#[test]
fn turn_count_equals_marks_on_board() {
    let (mut game, _) = Game::new([Mark::X, Mark::O]).unwrap();
    for (k, pos) in [(1, 1), (0, 0), (2, 2), (0, 2)].iter().enumerate() {
        game.play_move(*pos).unwrap();
        let marks = game.board().grid().iter().flatten().filter(|c| c.is_some()).count();
        assert_eq!(game.turn(), k + 1);
        assert_eq!(marks, k + 1);
        assert_eq!(game.turn_player(), (k + 1) % 2);
        assert_eq!(game.is_finished, game.board().state() != GameResult::Ongoing);
    }
}
