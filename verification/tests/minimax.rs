use tictactoe::game::{Board, Mark};
use tictactoe::player::minimax::{alpha_beta, minimax_move};
use tictactoe::player::{Minimax, Player, PlayerDisconnected, PlayerError, Random};

const X: Option<Mark> = Some(Mark::X);
const O: Option<Mark> = Some(Mark::O);
const E: Option<Mark> = None;

fn board(rows: [[Option<Mark>; 3]; 3]) -> Board {
    Board::new(rows.iter().map(|r| r.to_vec()).collect())
}

#[test]
fn test_minimax_should_go_for_wins() {
    let board = board([[X, X, E], [O, O, E], [E, E, E]]);
    assert_eq!(minimax_move(&board, Mark::X), (0, 2));
    assert_eq!(minimax_move(&board, Mark::O), (1, 2));
}

#[test]
fn minimax_blocks_a_loss() {
    // O to move must block X's row; every other move loses at once
    let board = board([[X, X, E], [E, O, E], [E, E, E]]);
    assert_eq!(minimax_move(&board, Mark::O), (0, 2));
}

#[test]
fn minimax_prefers_the_last_of_equal_moves() {
    let board = board([[E, E, E], [E, X, E], [E, E, E]]);
    // against X in the centre, O draws only from a corner; the last corner is taken
    let pos = minimax_move(&board, Mark::O);
    assert_eq!(pos, (2, 2));
}

#[test]
fn minimax_player_fails_on_full_board() {
    let full = board([[X, O, X], [O, X, O], [O, X, O]]);
    let mut p = Minimax::new(Mark::X);
    assert_eq!(p.get_mark(), Mark::X);
    assert_eq!(p.choose_move(&full), Err(PlayerError::NoLegalMoves));
}

#[test]
fn random_player_picks_legal_moves() {
    let b = board([[X, E, O], [O, X, E], [E, E, O]]);
    let mut p = Random::new(Mark::O);
    assert_eq!(p.get_mark(), Mark::O);
    for _ in 0..50 {
        let pos = p.choose_move(&b).unwrap();
        assert!(b.available_moves().contains(&pos));
    }
    let full = board([[X, O, X], [O, X, O], [O, X, O]]);
    assert_eq!(p.choose_move(&full), Err(PlayerError::NoLegalMoves));
}

#[test]
fn minimax_player_chooses_the_minimax_move() {
    let b = board([[X, X, E], [O, O, E], [E, E, E]]);
    let mut p = Minimax::new(Mark::O);
    assert_eq!(p.choose_move(&b), Ok((1, 2)));
}

#[test]
fn alpha_beta_scores_finished_boards_for_any_window() {
    let won = board([[X, X, X], [O, O, E], [E, E, E]]);
    let drawn = board([[X, O, X], [O, X, O], [O, X, O]]);
    for (alpha, beta) in [(i32::MIN, i32::MAX), (5, 9), (-9, -5), (0, 1), (3, 3), (7, -7)] {
        for is_max in [true, false] {
            assert_eq!(alpha_beta(&won, Mark::X, alpha, beta, is_max), 1);
            assert_eq!(alpha_beta(&won, Mark::O, alpha, beta, is_max), -1);
            assert_eq!(alpha_beta(&drawn, Mark::O, alpha, beta, is_max), 0);
        }
    }
    // an ongoing board: the full window gives the exact value, any window a value in {-1, 0, 1}
    let open = board([[X, X, E], [O, O, E], [E, E, E]]);
    assert_eq!(alpha_beta(&open, Mark::X, i32::MIN, i32::MAX, true), 1);
    let v = alpha_beta(&open, Mark::X, 2, 3, false);
    assert!((-1..=1).contains(&v));
}

#[test]
fn disconnection_has_its_message() {
    assert_eq!(PlayerDisconnected.message(), "player disconnected");
}
