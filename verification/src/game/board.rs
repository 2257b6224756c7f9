use vstd::prelude::*;

use crate::game::mark::Mark;
use crate::game::result::GameResult;

verus! {

/// An (x, y) position in the playing field: (row, column).
pub type Position = (usize, usize);

/// The cells of a board, held in a two-dimensional `ndarray` array.
///
/// `ndarray::ArrayBase` is bound by `ndarray`'s own `RawData` trait, which Verus cannot
/// be told of, so the array is held in this opaque struct. Its contents are known only
/// through `grid_rows`, and the `ndarray` calls stand behind the crate-private methods
/// below, whose contracts say what they do to the contents.
#[verifier::external_body]
#[derive(Debug, PartialEq, Eq)]
pub struct Grid {
    cells: ndarray::Array2<Option<Mark>>,
}

/// The contents of a grid, row by row.
pub uninterp spec fn grid_rows(g: Grid) -> Seq<Seq<Option<Mark>>>;

impl Grid {
    /// `ndarray::Array2::from_elem`: an array of `nrows` rows of `ncols` copies of
    /// `elem` (it panics when the product of the non-zero lengths exceeds `isize::MAX`).
    #[verifier::external_body]
    pub(crate) fn from_elem(nrows: usize, ncols: usize, elem: Option<Mark>) -> (g: Grid)
        requires
            (if nrows == 0 { 1 } else { nrows as int }) * (if ncols == 0 { 1 } else { ncols as int }) <= isize::MAX,
        ensures
            grid_rows(g) == Seq::new(nrows as nat, |i: int| Seq::new(ncols as nat, |j: int| elem)),
    {
        Grid { cells: ndarray::Array2::from_elem((nrows, ncols), elem) }
    }

    /// `ndarray::ArrayRef::nrows`: the number of rows.
    #[verifier::external_body]
    pub(crate) fn nrows(&self) -> (n: usize)
        ensures
            n == grid_rows(*self).len(),
    {
        self.cells.nrows()
    }

    /// `ndarray::ArrayRef::ncols`: the number of columns, the length of every row.
    #[verifier::external_body]
    pub(crate) fn ncols(&self) -> (n: usize)
        ensures
            forall|i: int| 0 <= i < grid_rows(*self).len() ==> #[trigger] grid_rows(*self)[i].len() == n,
    {
        self.cells.ncols()
    }

    /// `Index<(usize, usize)>` of `ndarray`: the cell at `(row, col)` (it panics out of bounds).
    #[verifier::external_body]
    pub(crate) fn get(&self, row: usize, col: usize) -> (cell: Option<Mark>)
        requires
            row < grid_rows(*self).len(),
            col < grid_rows(*self)[row as int].len(),
        ensures
            cell == grid_rows(*self)[row as int][col as int],
    {
        self.cells[(row, col)]
    }

    /// `IndexMut<(usize, usize)>` of `ndarray`: overwrites the cell at `(row, col)`.
    /// It panics only out of bounds, which `requires` rules out, so it does not unwind.
    #[verifier::external_body]
    pub(crate) fn set(&mut self, row: usize, col: usize, cell: Option<Mark>)
        requires
            row < grid_rows(*old(self)).len(),
            col < grid_rows(*old(self))[row as int].len(),
        ensures
            grid_rows(*final(self)) == grid_rows(*old(self)).update(
                row as int,
                grid_rows(*old(self))[row as int].update(col as int, cell),
            ),
        no_unwind
    {
        self.cells[(row, col)] = cell;
    }
}

impl Clone for Grid {
    /// `Clone` of `ndarray::Array2`: a copy with the same cells.
    #[verifier::external_body]
    fn clone(&self) -> (g: Grid)
        ensures
            grid_rows(g) == grid_rows(*self),
    {
        Grid { cells: self.cells.clone() }
    }
}

/// Why a move cannot be played at a position.
#[derive(Debug, Clone, Copy, PartialEq, Eq)]
pub enum MoveError {
    /// The position lies outside the board.
    OutOfBounds(Position),
    /// The position already holds a mark.
    Occupied(Position),
}

/// Index of a position in the row-major list of the nine cells.
pub open spec fn cell_index(pos: Position) -> int {
    3 * pos.0 + pos.1
}

/// Whether a position lies on the board.
pub open spec fn in_bounds(pos: Position) -> bool {
    pos.0 < 3 && pos.1 < 3
}

/// The row-major cell indices of the `k`-th line, in the order in which lines are
/// checked: the three rows, the three columns, the diagonal, the anti-diagonal.
pub open spec fn line_indices(k: int) -> (int, int, int) {
    if k < 3 {
        (3 * k, 3 * k + 1, 3 * k + 2)
    } else if k < 6 {
        (k - 3, k, k + 3)
    } else if k == 6 {
        (0, 4, 8)
    } else {
        (2, 4, 6)
    }
}

/// The mark that fills all three cells of line `k`, if one does.
pub open spec fn line_owner(cells: Seq<Option<Mark>>, k: int) -> Option<Mark> {
    let (a, b, c) = line_indices(k);
    match cells[a] {
        Some(m) => if cells[b] == Some(m) && cells[c] == Some(m) {
            Some(m)
        } else {
            None
        },
        None => None,
    }
}

/// The owner of the first full line among lines `k..8`.
pub open spec fn first_winner_from(cells: Seq<Option<Mark>>, k: int) -> Option<Mark>
    decreases 8 - k,
{
    if k >= 8 {
        None
    } else {
        match line_owner(cells, k) {
            Some(m) => Some(m),
            None => first_winner_from(cells, k + 1),
        }
    }
}

/// The owner of the first full line, if any line is full.
pub open spec fn winner(cells: Seq<Option<Mark>>) -> Option<Mark> {
    first_winner_from(cells, 0)
}

/// Whether every cell holds a mark.
pub open spec fn all_filled(cells: Seq<Option<Mark>>) -> bool {
    forall|i: int| 0 <= i < 9 ==> (#[trigger] cells[i]) is Some
}

/// The state of a game on these cells.
pub open spec fn outcome(cells: Seq<Option<Mark>>) -> GameResult {
    match winner(cells) {
        Some(m) => GameResult::Winner(m),
        None => if all_filled(cells) {
            GameResult::Draw
        } else {
            GameResult::Ongoing
        },
    }
}

/// The position of the cell with row-major index `i`.
pub open spec fn position_of(i: int) -> Position {
    ((i / 3) as usize, (i % 3) as usize)
}

/// The empty positions among the first `k` cells, in row-major order.
pub open spec fn empty_positions_upto(cells: Seq<Option<Mark>>, k: nat) -> Seq<Position>
    decreases k,
{
    if k == 0 {
        Seq::empty()
    } else {
        let prev = empty_positions_upto(cells, (k - 1) as nat);
        if cells[k - 1] is None {
            prev.push(position_of(k - 1))
        } else {
            prev
        }
    }
}

/// The empty positions of the board, in row-major order.
pub open spec fn empty_positions(cells: Seq<Option<Mark>>) -> Seq<Position> {
    empty_positions_upto(cells, 9)
}

/// The cells with a mark placed at an on-board position.
pub open spec fn place(cells: Seq<Option<Mark>>, pos: Position, mark: Mark) -> Seq<Option<Mark>> {
    cells.update(cell_index(pos), Some(mark))
}

/// The position of a cell index on the board lies on the board and has that index.
pub proof fn lemma_position_of(i: int)
    requires
        0 <= i < 9,
    ensures
        in_bounds(position_of(i)),
        cell_index(position_of(i)) == i,
{
}

/// The empty positions among the first `k` cells are exactly the on-board positions
/// with an index below `k` whose cell is empty, listed by increasing index.
pub proof fn lemma_empty_positions_upto(cells: Seq<Option<Mark>>, k: nat)
    requires
        k <= 9,
    ensures
        forall|p: Position|
            #![trigger empty_positions_upto(cells, k).contains(p)]
            empty_positions_upto(cells, k).contains(p) <==> (in_bounds(p) && cell_index(p) < k
                && cells[cell_index(p)] is None),
        forall|i: int, j: int|
            0 <= i < j < empty_positions_upto(cells, k).len() ==> cell_index(
                #[trigger] empty_positions_upto(cells, k)[i],
            ) < cell_index(#[trigger] empty_positions_upto(cells, k)[j]),
        forall|i: int|
            0 <= i < empty_positions_upto(cells, k).len() ==> in_bounds(
                #[trigger] empty_positions_upto(cells, k)[i],
            ) && cells[cell_index(empty_positions_upto(cells, k)[i])] is None
                && cell_index(empty_positions_upto(cells, k)[i]) < k,
    decreases k,
{
    if k > 0 {
        let prev = empty_positions_upto(cells, (k - 1) as nat);
        lemma_empty_positions_upto(cells, (k - 1) as nat);
        lemma_position_of(k - 1);
        let cur = empty_positions_upto(cells, k);
        if cells[k - 1] is None {
            assert(cur == prev.push(position_of(k - 1)));
            assert forall|p: Position| #[trigger] cur.contains(p) <==> (in_bounds(p) && cell_index(p) < k
                && cells[cell_index(p)] is None) by {
                if in_bounds(p) && cell_index(p) == k - 1 {
                    assert(p == position_of(k - 1));
                    assert(cur[cur.len() - 1] == p);
                }
                if cur.contains(p) {
                    let j = choose|j: int| 0 <= j < cur.len() && cur[j] == p;
                    if j < prev.len() {
                        assert(prev[j] == p);
                    }
                }
                if in_bounds(p) && cell_index(p) < k - 1 && cells[cell_index(p)] is None {
                    assert(prev.contains(p));
                    let j = choose|j: int| 0 <= j < prev.len() && prev[j] == p;
                    assert(cur[j] == p);
                }
            }
        }
    }
}

/// A position is a legal move (on the board, on an empty cell), which is when
/// `validate_board_state` finds nothing against it, exactly when it is among the
/// available moves.
pub proof fn lemma_legal_iff_empty_position(cells: Seq<Option<Mark>>, pos: Position)
    ensures
        (in_bounds(pos) && cells[cell_index(pos)] is None) <==> empty_positions(cells).contains(pos),
{
    lemma_empty_positions_upto(cells, 9);
}

/// The first winner among lines `k..8` is none exactly when none of those lines is full,
/// and otherwise owns one of them.
proof fn lemma_first_winner_from(cells: Seq<Option<Mark>>, k: int)
    requires
        0 <= k <= 8,
    ensures
        first_winner_from(cells, k) is None <==> (forall|j: int| k <= j < 8 ==> #[trigger] line_owner(cells, j) is None),
        first_winner_from(cells, k) matches Some(m) ==> exists|j: int| k <= j < 8 && #[trigger] line_owner(cells, j) == Some(m),
    decreases 8 - k,
{
    if k < 8 {
        lemma_first_winner_from(cells, k + 1);
    }
}

/// What the state of a board means: a winner owns a full line; a draw leaves no full line
/// and no empty cell; an ongoing game has no full line and an empty cell.
pub proof fn lemma_outcome_meaning(cells: Seq<Option<Mark>>)
    ensures
        outcome(cells) matches GameResult::Winner(m) ==> exists|k: int|
            0 <= k < 8 && #[trigger] line_owner(cells, k) == Some(m),
        outcome(cells) == GameResult::Draw <==> (all_filled(cells) && forall|k: int|
            0 <= k < 8 ==> #[trigger] line_owner(cells, k) is None),
        outcome(cells) == GameResult::Ongoing <==> (!all_filled(cells) && forall|k: int|
            0 <= k < 8 ==> #[trigger] line_owner(cells, k) is None),
{
    lemma_first_winner_from(cells, 0);
}

/// Reading back the grid of a board built from 3x3 contents gives the contents.
pub proof fn lemma_grid_reads_back(contents: Seq<Seq<Option<Mark>>>, b: Board, rows: Seq<Seq<Option<Mark>>>)
    requires
        contents.len() == 3,
        forall|i: int| 0 <= i < 3 ==> #[trigger] contents[i].len() == 3,
        forall|r: int, c: int| 0 <= r < 3 && 0 <= c < 3 ==> b@[3 * r + c] == #[trigger] contents[r][c],
        rows.len() == 3,
        forall|r: int| 0 <= r < 3 ==> (#[trigger] rows[r]).len() == 3,
        forall|r: int, c: int| 0 <= r < 3 && 0 <= c < 3 ==> #[trigger] rows[r][c] == b@[3 * r + c],
    ensures
        rows == contents,
{
    assert forall|r: int| 0 <= r < 3 implies #[trigger] rows[r] == contents[r] by {
        assert(rows[r] =~= contents[r]);
    }
    assert(rows =~= contents);
}

/// The number of marks on the board.
pub open spec fn marks_placed(cells: Seq<Option<Mark>>) -> int {
    9 - empty_positions(cells).len()
}

/// On cells that are all empty, every one of the first `k` positions is listed.
proof fn lemma_empty_cells_upto(cells: Seq<Option<Mark>>, k: nat)
    requires
        k <= 9,
        forall|i: int| 0 <= i < 9 ==> (#[trigger] cells[i]) is None,
    ensures
        empty_positions_upto(cells, k).len() == k,
    decreases k,
{
    if k > 0 {
        lemma_empty_cells_upto(cells, (k - 1) as nat);
    }
}

/// An empty board has no marks.
pub proof fn lemma_empty_board_has_no_marks(cells: Seq<Option<Mark>>)
    requires
        forall|i: int| 0 <= i < 9 ==> (#[trigger] cells[i]) is None,
    ensures
        marks_placed(cells) == 0,
{
    lemma_empty_cells_upto(cells, 9);
}

/// Placing a mark on an empty cell leaves one empty cell fewer among the first `k`
/// cells once `k` passes it.
proof fn lemma_place_shrinks_upto(cells: Seq<Option<Mark>>, pos: Position, mark: Mark, k: nat)
    requires
        cells.len() == 9,
        in_bounds(pos),
        cells[cell_index(pos)] is None,
        k <= 9,
    ensures
        empty_positions_upto(place(cells, pos, mark), k).len() + (if cell_index(pos) < k { 1int } else { 0int })
            == empty_positions_upto(cells, k).len(),
    decreases k,
{
    if k > 0 {
        lemma_place_shrinks_upto(cells, pos, mark, (k - 1) as nat);
    }
}

/// Placing a mark on an empty position leaves one empty position fewer.
pub proof fn lemma_place_shrinks(cells: Seq<Option<Mark>>, pos: Position, mark: Mark)
    requires
        cells.len() == 9,
        empty_positions(cells).contains(pos),
    ensures
        empty_positions(place(cells, pos, mark)).len() + 1 == empty_positions(cells).len(),
{
    lemma_legal_iff_empty_position(cells, pos);
    lemma_place_shrinks_upto(cells, pos, mark, 9);
}

/// After `k` legal moves from an empty board (each a mark placed on an empty cell),
/// `k` marks are on the board.
pub proof fn lemma_legal_moves_count(boards: Seq<Seq<Option<Mark>>>, moves: Seq<Position>, marks: Seq<Mark>)
    requires
        boards.len() == moves.len() + 1,
        marks.len() == moves.len(),
        forall|i: int| 0 <= i < boards.len() ==> (#[trigger] boards[i]).len() == 9,
        forall|c: int| 0 <= c < 9 ==> (#[trigger] boards[0][c]) is None,
        forall|i: int|
            0 <= i < moves.len() ==> in_bounds(#[trigger] moves[i]) && boards[i][cell_index(moves[i])] is None
                && boards[i + 1] == place(boards[i], moves[i], marks[i]),
    ensures
        forall|i: int| 0 <= i < boards.len() ==> marks_placed(#[trigger] boards[i]) == i,
    decreases moves.len(),
{
    if moves.len() == 0 {
        lemma_empty_board_has_no_marks(boards[0]);
    } else {
        let n = moves.len() - 1;
        lemma_legal_moves_count(boards.drop_last(), moves.drop_last(), marks.drop_last());
        assert(in_bounds(moves[n]) && boards[n][cell_index(moves[n])] is None);
        assert(boards[n] == boards.drop_last()[n]);
        assert(marks_placed(boards[n]) == n);
        lemma_legal_iff_empty_position(boards[n], moves[n]);
        lemma_place_shrinks(boards[n], moves[n], marks[n]);
        assert forall|i: int| 0 <= i < boards.len() implies marks_placed(#[trigger] boards[i]) == i by {
            if i < boards.len() - 1 {
                assert(boards[i] == boards.drop_last()[i]);
            }
        }
    }
}

/// A board with no marks is an ongoing game.
pub proof fn lemma_empty_board_ongoing(cells: Seq<Option<Mark>>)
    requires
        cells.len() == 9,
        forall|i: int| 0 <= i < 9 ==> (#[trigger] cells[i]) is None,
    ensures
        outcome(cells) == GameResult::Ongoing,
{
    lemma_outcome_meaning(cells);
    assert(cells[0] is None);
    assert forall|k: int| 0 <= k < 8 implies #[trigger] line_owner(cells, k) is None by {
        let (a, b, c) = line_indices(k);
        assert(cells[a] is None);
    }
}

/// Whether cells `a`, `b` and `c` all hold `m`.
pub open spec fn holds_three(cells: Seq<Option<Mark>>, a: int, b: int, c: int, m: Mark) -> bool {
    cells[a] == Some(m) && cells[b] == Some(m) && cells[c] == Some(m)
}

/// Whether `m` fills one of the eight lines of the board: a row, a column or a diagonal.
pub open spec fn has_line_of(cells: Seq<Option<Mark>>, m: Mark) -> bool {
    ||| holds_three(cells, 0, 1, 2, m)
    ||| holds_three(cells, 3, 4, 5, m)
    ||| holds_three(cells, 6, 7, 8, m)
    ||| holds_three(cells, 0, 3, 6, m)
    ||| holds_three(cells, 1, 4, 7, m)
    ||| holds_three(cells, 2, 5, 8, m)
    ||| holds_three(cells, 0, 4, 8, m)
    ||| holds_three(cells, 2, 4, 6, m)
}

/// The state of a board follows its lines: a game is won only by a mark that fills a
/// row, a column or a diagonal, and is won as soon as some mark fills one (by that mark
/// when the other fills none); with no line filled it is a draw on a full board and
/// ongoing otherwise.
pub proof fn lemma_outcome_follows_lines(cells: Seq<Option<Mark>>)
    requires
        cells.len() == 9,
    ensures
        outcome(cells) matches GameResult::Winner(m) ==> has_line_of(cells, m),
        has_line_of(cells, Mark::X) || has_line_of(cells, Mark::O) ==> outcome(cells) is Winner,
        has_line_of(cells, Mark::X) && !has_line_of(cells, Mark::O) ==> outcome(cells) == GameResult::Winner(Mark::X),
        has_line_of(cells, Mark::O) && !has_line_of(cells, Mark::X) ==> outcome(cells) == GameResult::Winner(Mark::O),
        outcome(cells) == GameResult::Draw <==> (!has_line_of(cells, Mark::X) && !has_line_of(cells, Mark::O)
            && forall|i: int| 0 <= i < 9 ==> (#[trigger] cells[i]) is Some),
        outcome(cells) == GameResult::Ongoing <==> (!has_line_of(cells, Mark::X) && !has_line_of(cells, Mark::O)
            && exists|i: int| 0 <= i < 9 && (#[trigger] cells[i]) is None),
{
    lemma_outcome_meaning(cells);
    assert forall|m: Mark| has_line_of(cells, m) implies exists|k: int| 0 <= k < 8 && #[trigger] line_owner(cells, k) == Some(m) by {
        if holds_three(cells, 0, 1, 2, m) {
            assert(line_owner(cells, 0) == Some(m));
        } else if holds_three(cells, 3, 4, 5, m) {
            assert(line_owner(cells, 1) == Some(m));
        } else if holds_three(cells, 6, 7, 8, m) {
            assert(line_owner(cells, 2) == Some(m));
        } else if holds_three(cells, 0, 3, 6, m) {
            assert(line_owner(cells, 3) == Some(m));
        } else if holds_three(cells, 1, 4, 7, m) {
            assert(line_owner(cells, 4) == Some(m));
        } else if holds_three(cells, 2, 5, 8, m) {
            assert(line_owner(cells, 5) == Some(m));
        } else if holds_three(cells, 0, 4, 8, m) {
            assert(line_owner(cells, 6) == Some(m));
        } else {
            assert(line_owner(cells, 7) == Some(m));
        }
    }
    assert forall|k: int| 0 <= k < 8 && #[trigger] line_owner(cells, k) is Some implies has_line_of(cells, line_owner(cells, k)->0) by {
    }
    if outcome(cells) is Winner {
        let m = outcome(cells)->0;
        let k = choose|k: int| 0 <= k < 8 && #[trigger] line_owner(cells, k) == Some(m);
        assert(has_line_of(cells, line_owner(cells, k)->0));
    }
    if has_line_of(cells, Mark::X) && !has_line_of(cells, Mark::O) && outcome(cells) is Winner {
        let m = outcome(cells)->0;
        let k = choose|k: int| 0 <= k < 8 && #[trigger] line_owner(cells, k) == Some(m);
        assert(has_line_of(cells, line_owner(cells, k)->0));
    }
    if has_line_of(cells, Mark::O) && !has_line_of(cells, Mark::X) && outcome(cells) is Winner {
        let m = outcome(cells)->0;
        let k = choose|k: int| 0 <= k < 8 && #[trigger] line_owner(cells, k) == Some(m);
        assert(has_line_of(cells, line_owner(cells, k)->0));
    }
}

/// A Board represents a 3x3 tic-tac-toe grid.
#[derive(Debug, PartialEq, Eq)]
pub struct Board {
    /// The underlying square grid of cells.
    grid: Grid,
}

/// The row-major cell indices of the `k`-th line.
fn line_at(k: usize) -> (line: (usize, usize, usize))
    requires
        k < 8,
    ensures
        line.0 < 9 && line.1 < 9 && line.2 < 9,
        (line.0 as int, line.1 as int, line.2 as int) == line_indices(k as int),
{
    if k < 3 {
        (3 * k, 3 * k + 1, 3 * k + 2)
    } else if k < 6 {
        (k - 3, k, k + 3)
    } else if k == 6 {
        (0, 4, 8)
    } else {
        (2, 4, 6)
    }
}

impl View for Board {
    type V = Seq<Option<Mark>>;

    /// The nine cells in row-major order.
    closed spec fn view(&self) -> Seq<Option<Mark>> {
        Seq::new(9, |i: int| grid_rows(self.grid)[i / 3][i % 3])
    }
}

/// A board always has nine cells.
pub broadcast proof fn lemma_board_len(b: Board)
    ensures
        #[trigger] b@.len() == 9,
{
}

impl Clone for Board {
    /// A copy of the board with the same cells.
    fn clone(&self) -> (b: Board)
        ensures
            b@ == self@,
    {
        proof {
            use_type_invariant(self);
        }
        Board { grid: self.grid.clone() }
    }
}

impl Board {
    #[verifier::type_invariant]
    spec fn is_three_by_three(self) -> bool {
        &&& grid_rows(self.grid).len() == 3
        &&& forall|i: int| 0 <= i < 3 ==> #[trigger] grid_rows(self.grid)[i].len() == 3
    }

    /// Create a new 3x3 board with the given contents, given row by row.
    ///
    /// The contents must be 3x3.
    pub fn new(contents: Vec<Vec<Option<Mark>>>) -> (b: Board)
        requires
            contents@.len() == 3,
            forall|i: int| 0 <= i < 3 ==> #[trigger] contents@[i]@.len() == 3,
        ensures
            forall|r: int, c: int|
                0 <= r < 3 && 0 <= c < 3 ==> b@[3 * r + c] == #[trigger] contents@[r]@[c],
    {
        let mut grid = Grid::from_elem(3, 3, None);
        let mut r: usize = 0;
        while r < 3
            invariant
                r <= 3,
                contents@.len() == 3,
                forall|i: int| 0 <= i < 3 ==> #[trigger] contents@[i]@.len() == 3,
                grid_rows(grid).len() == 3,
                forall|i: int| 0 <= i < 3 ==> #[trigger] grid_rows(grid)[i].len() == 3,
                forall|i: int, j: int|
                    0 <= i < r && 0 <= j < 3 ==> grid_rows(grid)[i][j] == #[trigger] contents@[i]@[j],
            decreases 3 - r,
        {
            let mut c: usize = 0;
            while c < 3
                invariant
                    r < 3,
                    c <= 3,
                    contents@.len() == 3,
                    forall|i: int| 0 <= i < 3 ==> #[trigger] contents@[i]@.len() == 3,
                    grid_rows(grid).len() == 3,
                    forall|i: int| 0 <= i < 3 ==> #[trigger] grid_rows(grid)[i].len() == 3,
                    forall|i: int, j: int|
                        0 <= i < r && 0 <= j < 3 ==> grid_rows(grid)[i][j] == #[trigger] contents@[i]@[j],
                    forall|j: int| 0 <= j < c ==> grid_rows(grid)[r as int][j] == #[trigger] contents@[r as int]@[j],
                decreases 3 - c,
            {
                grid.set(r, c, contents[r][c]);
                c += 1;
            }
            r += 1;
        }
        let b = Board { grid };
        assert forall|i: int, j: int| 0 <= i < 3 && 0 <= j < 3 implies b@[3 * i + j] == #[trigger] contents@[i]@[j] by {
            assert((3 * i + j) / 3 == i && (3 * i + j) % 3 == j);
        }
        b
    }

    /// A board with no marks.
    pub(crate) fn empty() -> (b: Board)
        ensures
            forall|i: int| 0 <= i < 9 ==> (#[trigger] b@[i]) is None,
    {
        Board { grid: Grid::from_elem(3, 3, None) }
    }

    /// The cell with row-major index `i`.
    pub(crate) fn cell(&self, i: usize) -> (cell: Option<Mark>)
        requires
            i < 9,
        ensures
            cell == self@[i as int],
    {
        proof {
            use_type_invariant(self);
        }
        self.grid.get(i / 3, i % 3)
    }

    /// A copy of the current grid, row by row.
    pub fn grid(&self) -> (rows: Vec<Vec<Option<Mark>>>)
        ensures
            rows@.len() == 3,
            forall|r: int| 0 <= r < 3 ==> (#[trigger] rows@[r])@.len() == 3,
            forall|r: int, c: int| 0 <= r < 3 && 0 <= c < 3 ==> #[trigger] rows@[r]@[c] == self@[3 * r + c],
    {
        proof {
            use_type_invariant(self);
        }
        let mut rows: Vec<Vec<Option<Mark>>> = Vec::new();
        let mut r: usize = 0;
        while r < 3
            invariant
                r <= 3,
                rows@.len() == r,
                grid_rows(self.grid).len() == 3,
                forall|i: int| 0 <= i < 3 ==> #[trigger] grid_rows(self.grid)[i].len() == 3,
                forall|i: int| 0 <= i < r ==> (#[trigger] rows@[i])@.len() == 3,
                forall|i: int, j: int| 0 <= i < r && 0 <= j < 3 ==> #[trigger] rows@[i]@[j] == grid_rows(self.grid)[i][j],
            decreases 3 - r,
        {
            let mut row: Vec<Option<Mark>> = Vec::new();
            let mut c: usize = 0;
            while c < 3
                invariant
                    r < 3,
                    c <= 3,
                    row@.len() == c,
                    grid_rows(self.grid).len() == 3,
                    forall|i: int| 0 <= i < 3 ==> #[trigger] grid_rows(self.grid)[i].len() == 3,
                    forall|j: int| 0 <= j < c ==> #[trigger] row@[j] == grid_rows(self.grid)[r as int][j],
                decreases 3 - c,
            {
                row.push(self.grid.get(r, c));
                c += 1;
            }
            rows.push(row);
            r += 1;
        }
        assert forall|i: int, j: int| 0 <= i < 3 && 0 <= j < 3 implies #[trigger] rows@[i]@[j] == self@[3 * i + j] by {
            assert((3 * i + j) / 3 == i && (3 * i + j) % 3 == j);
        }
        rows
    }

    /// Set the mark at the given position.
    /// Does not check whether the move is legal: an occupied cell is overwritten.
    pub fn set_mark(&mut self, pos: Position, mark: Mark)
        requires
            in_bounds(pos),
        ensures
            final(self)@ == place(old(self)@, pos, mark),
    {
        proof {
            use_type_invariant(&*self);
        }
        let (row, col) = pos;
        self.grid.set(row, col, Some(mark));
        assert(self@ =~= place(old(self)@, pos, mark)) by {
            assert forall|i: int| 0 <= i < 9 implies #[trigger] self@[i] == place(old(self)@, pos, mark)[i] by {
                if i == cell_index(pos) {
                    assert(i / 3 == row && i % 3 == col);
                } else {
                    assert(i / 3 != row || i % 3 != col);
                }
            }
        }
    }

    /// Check for the current state of the game: win, loss or draw.
    ///
    /// Lines are checked in the order rows, columns, diagonal, anti-diagonal; if lines of
    /// both marks are full (which no legal game reaches), the first full line decides.
    pub fn state(&self) -> (res: GameResult)
        ensures
            res == outcome(self@),
    {
        let mut k: usize = 0;
        while k < 8
            invariant
                k <= 8,
                winner(self@) == first_winner_from(self@, k as int),
            decreases 8 - k,
        {
            let (a, b, c) = line_at(k);
            if let Some(mark) = self.cell(a) {
                if self.cell(b) == Some(mark) && self.cell(c) == Some(mark) {
                    return GameResult::Winner(mark);
                }
            }
            k += 1;
        }
        if self.is_full() {
            GameResult::Draw
        } else {
            GameResult::Ongoing
        }
    }

    /// Validate whether a move is legal given the current board state:
    /// the position must be on the board and unoccupied.
    pub fn validate_board_state(&self, pos: Position) -> (err: Option<MoveError>)
        ensures
            err == (if !in_bounds(pos) {
                Some(MoveError::OutOfBounds(pos))
            } else if self@[cell_index(pos)] is Some {
                Some(MoveError::Occupied(pos))
            } else {
                None
            }),
    {
        proof {
            use_type_invariant(self);
        }
        assert(grid_rows(self.grid)[0].len() == 3);
        let (row, col) = pos;
        if row >= self.grid.nrows() || col >= self.grid.ncols() {
            return Some(MoveError::OutOfBounds(pos));
        }
        if self.grid.get(row, col).is_some() {
            return Some(MoveError::Occupied(pos));
        }
        None
    }

    /// Check whether the board is currently full.
    fn is_full(&self) -> (full: bool)
        ensures
            full == all_filled(self@),
    {
        let mut i: usize = 0;
        while i < 9
            invariant
                i <= 9,
                forall|j: int| 0 <= j < i ==> (#[trigger] self@[j]) is Some,
            decreases 9 - i,
        {
            if self.cell(i).is_none() {
                return false;
            }
            i += 1;
        }
        true
    }

    /// The empty positions of the board, in row-major order.
    pub fn available_moves(&self) -> (moves: Vec<Position>)
        ensures
            moves@ == empty_positions(self@),
    {
        let mut moves: Vec<Position> = Vec::new();
        let mut i: usize = 0;
        while i < 9
            invariant
                i <= 9,
                moves@ == empty_positions_upto(self@, i as nat),
            decreases 9 - i,
        {
            if self.cell(i).is_none() {
                moves.push((i / 3, i % 3));
            }
            i += 1;
        }
        moves
    }
}

} // verus!
