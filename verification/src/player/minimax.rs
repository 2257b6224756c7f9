use vstd::prelude::*;

use crate::game::board::{
    cell_index, empty_positions, in_bounds, lemma_board_len,
    lemma_empty_positions_upto, lemma_legal_iff_empty_position, lemma_place_shrinks, lemma_position_of,
    outcome, place,
    position_of, winner,
};
use crate::game::mark::opposite_of;
use crate::game::{Board, GameResult, Mark, Position};
use crate::player::{Player, PlayerError};

verus! {

broadcast use lemma_board_len;

/// The mark that moves at a node of the game tree: the computer's own mark at
/// maximizing nodes, its opponent's at minimizing nodes.
pub open spec fn mover(cpu: Mark, maximizing: bool) -> Mark {
    if maximizing {
        cpu
    } else {
        opposite_of(cpu)
    }
}

/// The score of a finished game for the computer: 1 if it won, -1 if it lost, 0 for a draw.
pub open spec fn terminal_score(cells: Seq<Option<Mark>>, cpu: Mark) -> int {
    match winner(cells) {
        Some(w) => if w == cpu {
            1
        } else {
            -1
        },
        None => 0,
    }
}

/// The minimax value of a position for the computer playing `cpu`, with `maximizing`
/// telling whether the computer moves next: the score of the finished game that
/// optimal play by both sides leads to.
pub open spec fn minimax_value(cells: Seq<Option<Mark>>, cpu: Mark, maximizing: bool) -> int
    decreases empty_positions(cells).len(), 1nat, 0nat,
{
    if cells.len() != 9 || outcome(cells) != GameResult::Ongoing {
        terminal_score(cells, cpu)
    } else {
        best_of_moves(cells, cpu, maximizing, empty_positions(cells).len())
    }
}

/// The best value reachable through the first `j` empty positions, starting from
/// `i32::MIN` for the computer and `i32::MAX` for its opponent.
pub open spec fn best_of_moves(cells: Seq<Option<Mark>>, cpu: Mark, maximizing: bool, j: nat) -> int
    decreases empty_positions(cells).len(), 0nat, j,
{
    if j == 0 {
        if maximizing {
            i32::MIN as int
        } else {
            i32::MAX as int
        }
    } else if cells.len() != 9 || j > empty_positions(cells).len() {
        0
    } else {
        let moves = empty_positions(cells);
        let child = place(cells, moves[j - 1], mover(cpu, maximizing));
        proof {
            lemma_place_shrinks(cells, moves[j - 1], mover(cpu, maximizing));
        }
        let v = minimax_value(child, cpu, !maximizing);
        let prev = best_of_moves(cells, cpu, maximizing, (j - 1) as nat);
        if maximizing {
            if v > prev {
                v
            } else {
                prev
            }
        } else {
            if v < prev {
                v
            } else {
                prev
            }
        }
    }
}

/// The value for the computer of playing its mark at `pos`, its opponent moving next.
pub open spec fn move_value(cells: Seq<Option<Mark>>, cpu: Mark, pos: Position) -> int {
    minimax_value(place(cells, pos, cpu), cpu, false)
}

/// Whether `pos` is the move the minimax player picks: an empty position of greatest
/// value, and the last such in row-major order.
pub open spec fn is_minimax_choice(cells: Seq<Option<Mark>>, cpu: Mark, pos: Position) -> bool {
    let moves = empty_positions(cells);
    exists|j: int|
        0 <= j < moves.len() && moves[j] == pos && (forall|i: int|
            0 <= i < moves.len() ==> move_value(cells, cpu, #[trigger] moves[i]) <= move_value(cells, cpu, pos))
            && (forall|i: int|
            j < i < moves.len() ==> move_value(cells, cpu, #[trigger] moves[i]) < move_value(cells, cpu, pos))
}

/// The computer's best so far never drops as more moves are considered, and its
/// opponent's never rises.
proof fn lemma_best_of_moves_monotone(cells: Seq<Option<Mark>>, cpu: Mark, maximizing: bool, i: nat, j: nat)
    requires
        cells.len() == 9,
        i <= j <= empty_positions(cells).len(),
    ensures
        maximizing ==> best_of_moves(cells, cpu, maximizing, i) <= best_of_moves(cells, cpu, maximizing, j),
        !maximizing ==> best_of_moves(cells, cpu, maximizing, i) >= best_of_moves(cells, cpu, maximizing, j),
    decreases j,
{
    if i < j {
        lemma_best_of_moves_monotone(cells, cpu, maximizing, i, (j - 1) as nat);
    }
}

/// An ongoing game has an empty position left.
pub proof fn lemma_ongoing_has_move(cells: Seq<Option<Mark>>)
    requires
        cells.len() == 9,
        outcome(cells) == GameResult::Ongoing,
    ensures
        empty_positions(cells).len() > 0,
{
    assert(!(forall|i: int| 0 <= i < 9 ==> (#[trigger] cells[i]) is Some));
    let i = choose|i: int| 0 <= i < 9 && !(cells[i] is Some);
    lemma_position_of(i);
    lemma_legal_iff_empty_position(cells, position_of(i));
}

/// Minimax values lie between -1 and 1.
pub proof fn lemma_value_bounds(cells: Seq<Option<Mark>>, cpu: Mark, maximizing: bool)
    ensures
        -1 <= minimax_value(cells, cpu, maximizing) <= 1,
    decreases empty_positions(cells).len(), 1nat, 0nat,
{
    if cells.len() == 9 && outcome(cells) == GameResult::Ongoing {
        let n = empty_positions(cells).len();
        lemma_ongoing_has_move(cells);
        lemma_best_bounds(cells, cpu, maximizing, n);
    }
}

/// Once one move has been considered, the best so far lies between -1 and 1.
proof fn lemma_best_bounds(cells: Seq<Option<Mark>>, cpu: Mark, maximizing: bool, j: nat)
    requires
        cells.len() == 9,
        1 <= j <= empty_positions(cells).len(),
    ensures
        -1 <= best_of_moves(cells, cpu, maximizing, j) <= 1,
    decreases empty_positions(cells).len(), 0nat, j,
{
    let moves = empty_positions(cells);
    lemma_empty_positions_upto(cells, 9);
    assert(moves.contains(moves[j - 1]));
    lemma_place_shrinks(cells, moves[j - 1], mover(cpu, maximizing));
    lemma_value_bounds(place(cells, moves[j - 1], mover(cpu, maximizing)), cpu, !maximizing);
    if j > 1 {
        lemma_best_bounds(cells, cpu, maximizing, (j - 1) as nat);
    } else {
        assert(best_of_moves(cells, cpu, maximizing, 0) == if maximizing {
            i32::MIN as int
        } else {
            i32::MAX as int
        });
    }
}

/// Alpha-beta search run over the full window `(i32::MIN, i32::MAX)` returns the exact
/// minimax value.
pub proof fn lemma_full_window_is_exact(cells: Seq<Option<Mark>>, cpu: Mark, maximizing: bool, score: i32)
    requires
        score <= i32::MIN ==> minimax_value(cells, cpu, maximizing) <= score,
        i32::MIN < score < i32::MAX ==> minimax_value(cells, cpu, maximizing) == score,
        score >= i32::MAX ==> minimax_value(cells, cpu, maximizing) >= score,
    ensures
        score == minimax_value(cells, cpu, maximizing),
{
    lemma_value_bounds(cells, cpu, maximizing);
}

/// When some empty position wins the game on the spot for the computer, the move the
/// minimax player picks keeps a forced win: its value is 1.
pub proof fn lemma_minimax_keeps_forced_win(cells: Seq<Option<Mark>>, cpu: Mark, win: Position, pos: Position)
    requires
        cells.len() == 9,
        empty_positions(cells).contains(win),
        outcome(place(cells, win, cpu)) == GameResult::Winner(cpu),
        is_minimax_choice(cells, cpu, pos),
    ensures
        move_value(cells, cpu, pos) == 1,
{
    let moves = empty_positions(cells);
    let i = choose|i: int| 0 <= i < moves.len() && moves[i] == win;
    assert(move_value(cells, cpu, moves[i]) == 1);
    lemma_value_bounds(place(cells, pos, cpu), cpu, false);
}

/// The value of the `i`-th empty position's reply: the mark that moves at this node
/// placed there, the other side to move next.
spec fn reply_value(cells: Seq<Option<Mark>>, cpu: Mark, maximizing: bool, i: int) -> int {
    minimax_value(place(cells, empty_positions(cells)[i], mover(cpu, maximizing)), cpu, !maximizing)
}

/// Once `j` replies have been considered, the best so far is the greatest of their values
/// for the computer and the least for its opponent, and is the value of one of them.
proof fn lemma_best_of_moves_is_extreme(cells: Seq<Option<Mark>>, cpu: Mark, maximizing: bool, j: nat)
    requires
        cells.len() == 9,
        1 <= j <= empty_positions(cells).len(),
    ensures
        forall|i: int| 0 <= i < j ==> (maximizing ==> #[trigger] reply_value(cells, cpu, maximizing, i)
            <= best_of_moves(cells, cpu, maximizing, j)) && (!maximizing ==> best_of_moves(cells, cpu, maximizing, j)
            <= reply_value(cells, cpu, maximizing, i)),
        exists|i: int| 0 <= i < j && best_of_moves(cells, cpu, maximizing, j) == #[trigger] reply_value(cells, cpu, maximizing, i),
    decreases j,
{
    let moves = empty_positions(cells);
    lemma_empty_positions_upto(cells, 9);
    assert(moves.contains(moves[j - 1]));
    lemma_place_shrinks(cells, moves[j - 1], mover(cpu, maximizing));
    lemma_value_bounds(place(cells, moves[j - 1], mover(cpu, maximizing)), cpu, !maximizing);
    let v = reply_value(cells, cpu, maximizing, j - 1);
    if j == 1 {
        assert(best_of_moves(cells, cpu, maximizing, 0) == if maximizing {
            i32::MIN as int
        } else {
            i32::MAX as int
        });
        assert(best_of_moves(cells, cpu, maximizing, j) == v);
    } else {
        lemma_best_of_moves_is_extreme(cells, cpu, maximizing, (j - 1) as nat);
        let prev = best_of_moves(cells, cpu, maximizing, (j - 1) as nat);
        if best_of_moves(cells, cpu, maximizing, j) == prev {
            let w = choose|i: int| 0 <= i < j - 1 && prev == #[trigger] reply_value(cells, cpu, maximizing, i);
            assert(0 <= w < j && best_of_moves(cells, cpu, maximizing, j) == reply_value(cells, cpu, maximizing, w));
        } else {
            assert(best_of_moves(cells, cpu, maximizing, j) == v);
        }
    }
}

/// At an ongoing position the minimax value is the best reply of the side to move, taken
/// over every empty position: when the computer (`cpu`) moves it is at least the value of
/// each of its moves, when its opponent (`opposite_of(cpu)`) moves it is at most the value
/// of each of the opponent's moves, and either way some move attains it.
pub proof fn lemma_minimax_value_is_best_reply(cells: Seq<Option<Mark>>, cpu: Mark)
    requires
        cells.len() == 9,
        outcome(cells) == GameResult::Ongoing,
    ensures
        forall|p: Position| #[trigger] empty_positions(cells).contains(p)
            ==> minimax_value(place(cells, p, cpu), cpu, false) <= minimax_value(cells, cpu, true),
        exists|p: Position| #[trigger] empty_positions(cells).contains(p)
            && minimax_value(place(cells, p, cpu), cpu, false) == minimax_value(cells, cpu, true),
        forall|p: Position| #[trigger] empty_positions(cells).contains(p)
            ==> minimax_value(cells, cpu, false) <= minimax_value(place(cells, p, opposite_of(cpu)), cpu, true),
        exists|p: Position| #[trigger] empty_positions(cells).contains(p)
            && minimax_value(place(cells, p, opposite_of(cpu)), cpu, true) == minimax_value(cells, cpu, false),
{
    let moves = empty_positions(cells);
    let n = moves.len();
    lemma_ongoing_has_move(cells);
    lemma_best_of_moves_is_extreme(cells, cpu, true, n);
    lemma_best_of_moves_is_extreme(cells, cpu, false, n);
    assert forall|p: Position| #[trigger] moves.contains(p) implies minimax_value(place(cells, p, cpu), cpu, false)
        <= minimax_value(cells, cpu, true) && minimax_value(cells, cpu, false) <= minimax_value(
        place(cells, p, opposite_of(cpu)), cpu, true) by {
        let i = choose|i: int| 0 <= i < n && moves[i] == p;
        assert(reply_value(cells, cpu, true, i) <= best_of_moves(cells, cpu, true, n));
        assert(best_of_moves(cells, cpu, false, n) <= reply_value(cells, cpu, false, i));
    }
    let a = choose|i: int| 0 <= i < n && best_of_moves(cells, cpu, true, n) == #[trigger] reply_value(cells, cpu, true, i);
    assert(moves.contains(moves[a]));
    let b = choose|i: int| 0 <= i < n && best_of_moves(cells, cpu, false, n) == #[trigger] reply_value(cells, cpu, false, i);
    assert(moves.contains(moves[b]));
}

/// A finished game is worth 1 to the computer when it has won, -1 when its opponent has,
/// and 0 when drawn, whoever is to move.
pub proof fn lemma_minimax_value_of_finished_game(cells: Seq<Option<Mark>>, cpu: Mark, maximizing: bool)
    ensures
        outcome(cells) == GameResult::Winner(cpu) ==> minimax_value(cells, cpu, maximizing) == 1,
        outcome(cells) == GameResult::Winner(opposite_of(cpu)) ==> minimax_value(cells, cpu, maximizing) == -1,
        outcome(cells) == GameResult::Draw ==> minimax_value(cells, cpu, maximizing) == 0,
{
    if outcome(cells) == GameResult::Winner(opposite_of(cpu)) {
        assert(opposite_of(cpu) != cpu);
    }
}

/// A `Minimax` represents a strategy determined by the minimax algorithm.
/// It evaluates the game tree to find the optimal move for the current player
/// (assuming optimal play from the opponent).
pub struct Minimax {
    mark: Mark,
}

impl Minimax {
    /// The mark this player uses.
    pub closed spec fn mark_of(&self) -> Mark {
        self.mark
    }

    /// Create a new Minimax player with the given mark.
    pub fn new(mark: Mark) -> (p: Minimax)
        ensures
            p.mark_of() == mark,
    {
        Minimax { mark }
    }
}

impl Player for Minimax {
    /// Pick the minimax move (see [`minimax_move`]); fail on a full board.
    fn choose_move(&mut self, board: &Board) -> (res: Result<Position, PlayerError>)
        ensures
            final(self).mark_of() == old(self).mark_of(),
            res is Err <==> empty_positions(board@).len() == 0,
            res is Err ==> res == Err::<Position, PlayerError>(PlayerError::NoLegalMoves),
            res matches Ok(pos) ==> is_minimax_choice(board@, old(self).mark_of(), pos),
    {
        if board.available_moves().len() == 0 {
            return Err(PlayerError::NoLegalMoves);
        }
        Ok(minimax_move(board, self.mark))
    }

    fn get_mark(&self) -> (m: Mark)
        ensures
            m == self.mark_of(),
    {
        self.mark
    }
}

/// The value of playing `cpu_mark` at `pos`, computed by alpha-beta search with a full window.
fn move_score(board: &Board, cpu_mark: Mark, pos: Position) -> (score: i32)
    requires
        empty_positions(board@).contains(pos),
    ensures
        score == move_value(board@, cpu_mark, pos),
{
    proof {
        lemma_legal_iff_empty_position(board@, pos);
    }
    let mut b = board.clone();
    b.set_mark(pos, cpu_mark);
    let score = alpha_beta(&b, cpu_mark, i32::MIN, i32::MAX, false);
    proof {
        lemma_full_window_is_exact(b@, cpu_mark, false, score);
    }
    score
}

/// The move the minimax player makes: an empty position of greatest minimax value
/// (the last one in row-major order when several tie).
///
/// The board must have an empty cell.
pub fn minimax_move(board: &Board, cpu_mark: Mark) -> (pos: Position)
    requires
        empty_positions(board@).len() > 0,
    ensures
        is_minimax_choice(board@, cpu_mark, pos),
{
    let moves = board.available_moves();
    let ghost cells = board@;
    proof {
        lemma_empty_positions_upto(cells, 9);
        assert(moves@.contains(moves@[0]));
    }
    let mut best_pos = moves[0];
    let mut best_score = move_score(board, cpu_mark, moves[0]);
    let ghost mut best_idx: int = 0;
    let mut i: usize = 1;
    while i < moves.len()
        invariant
            cells == board@,
            moves@ == empty_positions(cells),
            1 <= i <= moves@.len(),
            0 <= best_idx < i,
            moves@[best_idx] == best_pos,
            best_score == move_value(cells, cpu_mark, best_pos),
            forall|k: int| 0 <= k < i ==> move_value(cells, cpu_mark, #[trigger] moves@[k]) <= best_score,
            forall|k: int| best_idx < k < i ==> move_value(cells, cpu_mark, #[trigger] moves@[k]) < best_score,
        decreases moves@.len() - i,
    {
        proof {
            assert(moves@.contains(moves@[i as int]));
        }
        let score = move_score(board, cpu_mark, moves[i]);
        if score >= best_score {
            best_pos = moves[i];
            best_score = score;
            proof {
                best_idx = i as int;
            }
        }
        i += 1;
    }
    best_pos
}

/// Minimax search with alpha-beta pruning: the value of the position for the computer
/// playing `cpu_mark`, where branches that cannot affect the result within the window
/// `(alpha, beta)` are cut off.
///
/// Within the window the result is the exact minimax value; at or below `alpha` it bounds
/// that value from above, at or above `beta` from below. A finished board is scored as
/// it stands whatever the window; an ongoing one needs `alpha < beta`.
pub fn alpha_beta(board: &Board, cpu_mark: Mark, alpha: i32, beta: i32, is_maximizing: bool) -> (score: i32)
    requires
        outcome(board@) == GameResult::Ongoing ==> alpha < beta,
    ensures
        score <= alpha ==> minimax_value(board@, cpu_mark, is_maximizing) <= score,
        alpha < score < beta ==> minimax_value(board@, cpu_mark, is_maximizing) == score,
        score >= beta ==> minimax_value(board@, cpu_mark, is_maximizing) >= score,
        outcome(board@) != GameResult::Ongoing ==> score == terminal_score(board@, cpu_mark),
        -1 <= score <= 1,
    decreases empty_positions(board@).len(),
{
    let ghost cells = board@;
    let state = board.state();
    // Score terminal positions
    if let GameResult::Winner(winner) = state {
        return if winner == cpu_mark {
            1
        } else {
            -1
        };
    } else if state == GameResult::Draw {
        return 0;
    }
    let current = if is_maximizing {
        cpu_mark
    } else {
        cpu_mark.opposite()
    };
    let mut best = if is_maximizing {
        i32::MIN
    } else {
        i32::MAX
    };
    let mut alpha = alpha;
    let mut beta = beta;
    let ghost alpha0 = alpha;
    let ghost beta0 = beta;
    let moves = board.available_moves();
    proof {
        lemma_empty_positions_upto(cells, 9);
        lemma_ongoing_has_move(cells);
    }
    let ghost init = best;
    let mut i: usize = 0;
    // check each position, stopping early once the window closes
    while i < moves.len() && alpha < beta
        invariant
            cells == board@,
            cells.len() == 9,
            outcome(cells) == GameResult::Ongoing,
            moves@ == empty_positions(cells),
            current == mover(cpu_mark, is_maximizing),
            alpha0 < beta0,
            i <= moves@.len(),
            moves@.len() > 0,
            init == (if is_maximizing { i32::MIN } else { i32::MAX }),
            i == 0 ==> best == init,
            i > 0 ==> -1 <= best <= 1,
            is_maximizing ==> beta == beta0 && alpha == (if best > alpha0 { best } else { alpha0 }),
            !is_maximizing ==> alpha == alpha0 && beta == (if best < beta0 { best } else { beta0 }),
            is_maximizing && best < beta0 ==> best_of_moves(cells, cpu_mark, true, i as nat) <= best,
            is_maximizing && best < beta0 && best > alpha0 ==> best_of_moves(cells, cpu_mark, true, i as nat) == best,
            is_maximizing && best >= beta0 ==> best_of_moves(cells, cpu_mark, true, i as nat) >= best,
            !is_maximizing && best > alpha0 ==> best_of_moves(cells, cpu_mark, false, i as nat) >= best,
            !is_maximizing && best > alpha0 && best < beta0 ==> best_of_moves(cells, cpu_mark, false, i as nat) == best,
            !is_maximizing && best <= alpha0 ==> best_of_moves(cells, cpu_mark, false, i as nat) <= best,
            forall|k: int|
                0 <= k < moves@.len() ==> in_bounds(#[trigger] moves@[k]) && cells[cell_index(moves@[k])] is None,
            forall|p: Position| #[trigger] moves@.contains(p) <==> (in_bounds(p) && cell_index(p) < 9 && cells[cell_index(p)] is None),
        decreases moves@.len() - i,
    {
        let pos = moves[i];
        let mut b = board.clone();
        b.set_mark(pos, current);
        proof {
            assert(moves@.contains(pos));
            lemma_place_shrinks(cells, pos, current);
        }
        let score = alpha_beta(&b, cpu_mark, alpha, beta, !is_maximizing);
        if is_maximizing {
            if score > best {
                best = score;
            }
            if best > alpha {
                alpha = best;
            }
        } else {
            if score < best {
                best = score;
            }
            if best < beta {
                beta = best;
            }
        }
        i += 1;
    }
    proof {
        let n = moves@.len();
        lemma_best_of_moves_monotone(cells, cpu_mark, is_maximizing, i as nat, n);
    }
    best
}

} // verus!
