//! The rules of the game: marks, the board, and the course of a game.

pub mod board;
pub mod config;
pub mod game_move;
pub mod mark;
pub mod result;

pub use board::{Board, MoveError, Position};
pub use config::{GameConfig, OpponentKind};
pub use game_move::Move;
pub use mark::Mark;
pub use result::GameResult;

use vstd::prelude::*;

use crate::game::board::{
    cell_index, in_bounds, lemma_board_len, lemma_empty_board_has_no_marks, lemma_empty_board_ongoing, lemma_legal_iff_empty_position,
    lemma_place_shrinks, marks_placed, outcome, place,
};
use crate::game::mark::opposite_of;
use crate::renderer::GameUpdate;

verus! {

broadcast use lemma_board_len;

/// The number of players in a game.
pub const NUM_PLAYERS: usize = 2;

/// The marks of the two players in turn order: the human player's mark from the
/// configuration, the computer's the opposite one, and the human first exactly when the
/// configuration says so.
pub fn seat_marks(config: GameConfig) -> (marks: [Mark; NUM_PLAYERS])
    ensures
        marks@[0] != marks@[1],
        config.player_first ==> marks@[0] == config.player_mark && marks@[1] == opposite_of(config.player_mark),
        !config.player_first ==> marks@[0] == opposite_of(config.player_mark) && marks@[1] == config.player_mark,
{
    let player = config.player_mark;
    let cpu = player.opposite();
    if config.player_first {
        [player, cpu]
    } else {
        [cpu, player]
    }
}

/// A game played from its start by legal moves (each on an empty cell, while the game is
/// not finished): after `k` moves the turn count is `k`, which is the number of marks on
/// the board; player `k % 2` is to move; and the game is finished exactly when the
/// outcome of the board is decided.
pub proof fn lemma_game_history(games: Seq<Game>, moves: Seq<Position>)
    requires
        games.len() == moves.len() + 1,
        games[0].wf(),
        games[0].turn_of() == 0,
        !games[0].finished(),
        forall|c: int| 0 <= c < 9 ==> (#[trigger] games[0].cells()[c]) is None,
        forall|i: int|
            0 <= i < moves.len() ==> !games[i].finished() && in_bounds(#[trigger] moves[i])
                && games[i].cells()[cell_index(moves[i])] is None && Game::move_played(games[i], games[i + 1], moves[i]),
    ensures
        forall|i: int|
            0 <= i < games.len() ==> {
                &&& (#[trigger] games[i]).wf()
                &&& games[i].turn_of() == i
                &&& marks_placed(games[i].cells()) == i
                &&& games[i].turn_player_of() == i % 2
                &&& games[i].finished() == (outcome(games[i].cells()) != GameResult::Ongoing)
            },
    decreases moves.len(),
{
    if moves.len() == 0 {
        lemma_empty_board_has_no_marks(games[0].cells());
        lemma_empty_board_ongoing(games[0].cells());
    } else {
        let n = moves.len() - 1;
        let prev = games.drop_last();
        lemma_game_history(prev, moves.drop_last());
        assert(in_bounds(moves[n]));
        assert(games[n] == prev[n]);
        let g = games[n];
        lemma_legal_iff_empty_position(g.cells(), moves[n]);
        lemma_place_shrinks(g.cells(), moves[n], g.marks_of()[g.turn_player_of() as int]);
        assert forall|i: int| 0 <= i < games.len() implies {
            &&& (#[trigger] games[i]).wf()
            &&& games[i].turn_of() == i
            &&& marks_placed(games[i].cells()) == i
            &&& games[i].turn_player_of() == i % 2
            &&& games[i].finished() == (outcome(games[i].cells()) != GameResult::Ongoing)
        } by {
            if i < games.len() - 1 {
                assert(games[i] == prev[i]);
            }
        }
    }
}

/// Why the game refused a request.
#[derive(Debug, Clone, Copy, PartialEq, Eq)]
pub enum GameError {
    /// Player `first` shares its mark with player `second`.
    SharedMark { first: usize, second: usize, mark: Mark },
    /// The game is already finished.
    Finished,
}

/// The course of one game: whose turn it is, the board, and whether the game is over.
///
/// The players themselves stay with the caller, which asks the player whose turn it is
/// for a move, hands the move to [`Game::play_move`] and relays the updates it returns.
pub struct Game {
    /// The current turn number (starting from 0).
    turn: usize,
    /// The current state of the game board.
    board: Board,
    /// The marks of the players, in turn order.
    marks: [Mark; NUM_PLAYERS],
    /// The index of the player whose turn it is to play.
    turn_player: usize,
    /// Whether the game has finished. No move is played once it has.
    pub is_finished: bool,
}

impl Game {
    /// The number of moves played so far.
    pub closed spec fn turn_of(&self) -> nat {
        self.turn as nat
    }

    /// The index of the player whose turn it is.
    pub closed spec fn turn_player_of(&self) -> nat {
        self.turn_player as nat
    }

    /// The marks of the players, in turn order.
    pub closed spec fn marks_of(&self) -> Seq<Mark> {
        self.marks@
    }

    /// Whether the game has finished.
    pub closed spec fn finished(&self) -> bool {
        self.is_finished
    }

    /// The cells of the board.
    pub closed spec fn cells(&self) -> Seq<Option<Mark>> {
        self.board@
    }

    /// The players alternate, starting with player 0, and have different marks.
    pub closed spec fn wf(&self) -> bool {
        &&& self.turn_player < NUM_PLAYERS
        &&& self.turn_player == self.turn % 2
        &&& self.marks@[0] != self.marks@[1]
    }

    /// How a move at `pos` takes the game from `before` to `after`: the mover's mark is
    /// placed at `pos`, the turn passes to the other player, and the game is finished
    /// exactly when the new board's outcome is decided.
    pub open spec fn move_played(before: Game, after: Game, pos: Position) -> bool {
        let mark = before.marks_of()[before.turn_player_of() as int];
        let cells = place(before.cells(), pos, mark);
        &&& after.wf()
        &&& after.cells() == cells
        &&& after.turn_of() == before.turn_of() + 1
        &&& after.turn_player_of() == (before.turn_player_of() + 1) % 2
        &&& after.marks_of() == before.marks_of()
        &&& after.finished() == (outcome(cells) != GameResult::Ongoing)
    }

    /// Creates a new game for players with the given marks, who will take turns in the
    /// given order, together with the update that announces the empty board.
    ///
    /// Fails if 2 players share the same mark.
    pub fn new(marks: [Mark; NUM_PLAYERS]) -> (res: Result<(Game, GameUpdate), GameError>)
        ensures
            res is Err <==> marks@[0] == marks@[1],
            res matches Err(e) ==> e == (GameError::SharedMark { first: 0, second: 1, mark: marks@[0] }),
            res matches Ok((game, update)) ==> {
                &&& game.wf()
                &&& game.turn_of() == 0
                &&& game.turn_player_of() == 0
                &&& !game.finished()
                &&& game.marks_of() == marks@
                &&& forall|i: int| 0 <= i < 9 ==> (#[trigger] game.cells()[i]) is None
                &&& marks_placed(game.cells()) == game.turn_of()
                &&& update matches GameUpdate::Initial(board) && board@ == game.cells()
            },
    {
        let mut i: usize = 0;
        while i < NUM_PLAYERS
            invariant
                i <= NUM_PLAYERS,
                forall|a: int, b: int| 0 <= a < i && a < b < NUM_PLAYERS ==> marks@[a] != marks@[b],
            decreases NUM_PLAYERS - i,
        {
            let mut j: usize = i + 1;
            while j < NUM_PLAYERS
                invariant
                    i < NUM_PLAYERS,
                    i + 1 <= j <= NUM_PLAYERS,
                    forall|a: int, b: int| 0 <= a < i && a < b < NUM_PLAYERS ==> marks@[a] != marks@[b],
                    forall|b: int| i < b < j ==> marks@[i as int] != marks@[b],
                decreases NUM_PLAYERS - j,
            {
                if marks[i] == marks[j] {
                    return Err(GameError::SharedMark { first: i, second: j, mark: marks[i] });
                }
                j += 1;
            }
            i += 1;
        }
        let board = Board::empty();
        proof {
            lemma_empty_board_has_no_marks(board@);
        }
        let update = GameUpdate::Initial(board.clone());
        Ok((Game { turn: 0, board, marks, turn_player: 0, is_finished: false }, update))
    }

    /// The number of moves played so far.
    pub fn turn(&self) -> (t: usize)
        ensures
            t == self.turn_of(),
    {
        self.turn
    }

    /// The index of the player whose turn it is.
    pub fn turn_player(&self) -> (p: usize)
        ensures
            p == self.turn_player_of(),
            self.wf() ==> p < NUM_PLAYERS,
    {
        self.turn_player
    }

    /// The current board.
    pub fn board(&self) -> (b: &Board)
        ensures
            b@ == self.cells(),
    {
        &self.board
    }

    /// The mark of player `player`.
    pub fn player_mark(&self, player: usize) -> (m: Mark)
        requires
            player < NUM_PLAYERS,
        ensures
            m == self.marks_of()[player as int],
    {
        self.marks[player]
    }

    /// The player whose turn it is, unless the game is finished.
    pub fn current_player(&self) -> (res: Result<usize, GameError>)
        ensures
            res == (if self.finished() {
                Err::<usize, GameError>(GameError::Finished)
            } else {
                Ok::<usize, GameError>(self.turn_player_of() as usize)
            }),
            self.wf() ==> (res matches Ok(p) ==> p < NUM_PLAYERS),
    {
        self.verify_unfinished()?;
        Ok(self.turn_player)
    }

    /// Play the move that the current player chose: place its mark at `pos` (no check of
    /// legality is made), pass the turn, and return the updates to display, the move and,
    /// if it ended the game, the final board and result.
    ///
    /// Fails, changing nothing, if the game is already finished.
    pub fn play_move(&mut self, pos: Position) -> (res: Result<Vec<GameUpdate>, GameError>)
        requires
            old(self).wf(),
            in_bounds(pos),
            old(self).turn_of() < usize::MAX,
        ensures
            final(self).wf(),
            old(self).finished() ==> res == Err::<Vec<GameUpdate>, GameError>(GameError::Finished)
                && *final(self) == *old(self),
            !old(self).finished() ==> {
                let mark = old(self).marks_of()[old(self).turn_player_of() as int];
                let cells = place(old(self).cells(), pos, mark);
                &&& Game::move_played(*old(self), *final(self), pos)
                &&& old(self).cells()[cell_index(pos)] is None ==> marks_placed(final(self).cells())
                    == marks_placed(old(self).cells()) + 1
                &&& res matches Ok(updates) && {
                    &&& updates@.len() == (if final(self).finished() { 2int } else { 1int })
                    &&& updates@[0] == GameUpdate::Move(Move { mark, position: pos })
                    &&& final(self).finished() ==> (updates@[1] matches GameUpdate::Finished { board, result }
                        && board@ == cells && result == outcome(cells) && result != GameResult::Ongoing)
                }
            },
    {
        self.verify_unfinished()?;
        proof {
            if self.board@[cell_index(pos)] is None {
                lemma_legal_iff_empty_position(self.board@, pos);
                lemma_place_shrinks(self.board@, pos, self.marks@[self.turn_player as int]);
            }
        }
        let mark = self.marks[self.turn_player];
        self.board.set_mark(pos, mark);
        self.turn += 1;
        self.turn_player = (self.turn_player + 1) % NUM_PLAYERS;
        let mut updates: Vec<GameUpdate> = Vec::new();
        updates.push(GameUpdate::Move(Move { mark, position: pos }));
        let result = self.board.state();
        if result != GameResult::Ongoing {
            let finished = self.finish_game(result);
            if let Ok(update) = finished {
                updates.push(update);
            }
        }
        Ok(updates)
    }

    /// Verify that the game is not already finished, returning an error if it is.
    fn verify_unfinished(&self) -> (res: Result<(), GameError>)
        ensures
            res == (if self.finished() {
                Err::<(), GameError>(GameError::Finished)
            } else {
                Ok::<(), GameError>(())
            }),
    {
        if self.is_finished {
            Err(GameError::Finished)
        } else {
            Ok(())
        }
    }

    /// End the game with the given result, returning the update that carries the final
    /// board and the result.
    ///
    /// Fails, changing nothing, if the game is already finished.
    pub fn finish_game(&mut self, result: GameResult) -> (res: Result<GameUpdate, GameError>)
        requires
            result != GameResult::Ongoing,
        ensures
            old(self).finished() ==> res == Err::<GameUpdate, GameError>(GameError::Finished)
                && *final(self) == *old(self),
            !old(self).finished() ==> {
                &&& final(self).finished()
                &&& final(self).cells() == old(self).cells()
                &&& final(self).turn_of() == old(self).turn_of()
                &&& final(self).turn_player_of() == old(self).turn_player_of()
                &&& final(self).marks_of() == old(self).marks_of()
                &&& (final(self).wf() <==> old(self).wf())
                &&& res matches Ok(GameUpdate::Finished { board, result: r }) && board@ == old(self).cells() && r == result
            },
    {
        self.verify_unfinished()?;
        self.is_finished = true;
        Ok(GameUpdate::Finished { board: self.board.clone(), result })
    }
}

} // verus!
