use tictactoe::game::{Board, GameResult, Mark, MoveError, Position};

const X: Option<Mark> = Some(Mark::X);
const O: Option<Mark> = Some(Mark::O);
const E: Option<Mark> = None;

fn board(rows: [[Option<Mark>; 3]; 3]) -> Board {
    Board::new(rows.iter().map(|r| r.to_vec()).collect())
}

#[test]
fn test_board_state_x_wins() {
    let board = board([[X, X, X], [O, O, E], [E, E, E]]);
    assert_eq!(board.state(), GameResult::Winner(Mark::X));
}

#[test]
fn test_board_state_x_wins_column() {
    let board = board([[X, O, O], [X, E, E], [X, E, E]]);
    assert_eq!(board.state(), GameResult::Winner(Mark::X));
}

#[test]
fn test_board_state_o_wins() {
    let board = board([[O, X, O], [X, O, E], [X, X, O]]);
    assert_eq!(board.state(), GameResult::Winner(Mark::O));
}

#[test]
fn test_board_state_draw() {
    let board = board([[X, O, X], [O, X, O], [O, X, O]]);
    assert_eq!(board.state(), GameResult::Draw);
}

#[test]
fn test_board_state_ongoing() {
    let board = board([[X, O, X], [O, X, O], [O, X, O]]);
    assert_eq!(board.state(), GameResult::Draw);
}

#[test]
fn test_board_available_moves() {
    let board = board([[X, E, O], [E, E, E], [X, E, E]]);
    let moves: Vec<Position> = board.available_moves();
    assert_eq!(moves, vec![(0, 1), (1, 0), (1, 1), (1, 2), (2, 1), (2, 2)]);
}

#[test]
fn board_state_anti_diagonal_wins() {
    let board = board([[X, O, O], [X, O, E], [O, X, X]]);
    assert_eq!(board.state(), GameResult::Winner(Mark::O));
}

#[test]
fn board_state_really_ongoing() {
    let board = board([[X, O, E], [E, E, E], [E, E, E]]);
    assert_eq!(board.state(), GameResult::Ongoing);
    assert_eq!(board.available_moves().len(), 7);
}

#[test]
fn board_grid_gives_back_contents() {
    let rows = [[X, E, O], [E, O, E], [X, E, E]];
    let b = board(rows);
    let expected: Vec<Vec<Option<Mark>>> = rows.iter().map(|r| r.to_vec()).collect();
    assert_eq!(b.grid(), expected);
    assert_eq!(b.clone().grid(), expected);
}

#[test]
fn board_set_mark_places_and_overwrites() {
    let mut b = board([[E, E, E], [E, E, E], [E, E, E]]);
    b.set_mark((2, 1), Mark::O);
    assert_eq!(b.grid()[2][1], O);
    b.set_mark((2, 1), Mark::X);
    assert_eq!(b.grid()[2][1], X);
    assert_eq!(b.available_moves().len(), 8);
}

#[test]
fn board_validate_positions() {
    let b = board([[X, E, E], [E, E, E], [E, E, E]]);
    assert_eq!(b.validate_board_state((3, 0)), Some(MoveError::OutOfBounds((3, 0))));
    assert_eq!(b.validate_board_state((0, 7)), Some(MoveError::OutOfBounds((0, 7))));
    assert_eq!(b.validate_board_state((0, 0)), Some(MoveError::Occupied((0, 0))));
    assert_eq!(b.validate_board_state((1, 2)), None);
    // legal exactly when among the available moves
    for row in 0..4 {
        for col in 0..4 {
            let legal = b.validate_board_state((row, col)).is_none();
            assert_eq!(legal, b.available_moves().contains(&(row, col)));
        }
    }
}

#[test]
fn mark_opposite_is_an_involution() {
    assert_eq!(Mark::X.opposite(), Mark::O);
    assert_eq!(Mark::O.opposite(), Mark::X);
    assert_eq!(Mark::X.opposite().opposite(), Mark::X);
    assert_eq!(Mark::default(), Mark::X);
    assert_eq!(Mark::O.symbol(), 'O');
    assert_eq!(Mark::X.as_str(), "X");
}
