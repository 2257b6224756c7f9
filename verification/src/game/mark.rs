use vstd::prelude::*;

verus! {

/// A Mark represents a player's move on the board, either an X or an O.
#[derive(Debug, Clone, Copy, PartialEq, Eq, Structural)]
pub enum Mark {
    X,
    O,
}

/// The mark played by the opponent of whoever plays `m`.
pub open spec fn opposite_of(m: Mark) -> Mark {
    match m {
        Mark::X => Mark::O,
        Mark::O => Mark::X,
    }
}

impl Default for Mark {
    /// X is the default mark.
    fn default() -> (m: Mark)
        ensures
            m == Mark::X,
    {
        Mark::X
    }
}

impl Mark {
    /// Returns the opposite mark (X becomes O, and O becomes X).
    pub fn opposite(&self) -> (m: Mark)
        ensures
            m == opposite_of(*self),
            m != *self,
    {
        match self {
            Mark::X => Mark::O,
            Mark::O => Mark::X,
        }
    }

    /// The character by which the mark is shown.
    pub fn symbol(&self) -> (c: char)
        ensures
            c == (if *self == Mark::X { 'X' } else { 'O' }),
    {
        match self {
            Mark::X => 'X',
            Mark::O => 'O',
        }
    }

    /// The mark's character as a one-character string.
    pub fn as_str(&self) -> (s: &'static str)
        ensures
            s@ == (if *self == Mark::X { "X"@ } else { "O"@ }),
    {
        match self {
            Mark::X => "X",
            Mark::O => "O",
        }
    }
}

/// Taking the opposite mark twice gives the mark back, and no mark is its own opposite.
pub proof fn lemma_opposite_involution(m: Mark)
    ensures
        opposite_of(opposite_of(m)) == m,
        opposite_of(m) != m,
{
}

} // verus!
