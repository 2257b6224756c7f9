use vstd::prelude::*;

use crate::game::Mark;
use crate::renderer::components::board::Area;

verus! {

/// A CellComponent displays the contents of a single cell on the board.
#[derive(Debug, Clone, Copy, PartialEq, Eq, Structural)]
pub struct CellComponent {
    pub mark: Option<Mark>,
}

impl CellComponent {
    /// The character drawn in the cell: the mark's, or none for an empty cell.
    pub fn glyph(&self) -> (ch: Option<char>)
        ensures
            ch == (match self.mark {
                Some(Mark::X) => Some('X'),
                Some(Mark::O) => Some('O'),
                None => None,
            }),
    {
        match self.mark {
            Some(m) => Some(m.symbol()),
            None => None,
        }
    }
}

impl Area {
    /// The cell at the centre of the area, where a mark is drawn; none for an empty area.
    pub fn centre(&self) -> (c: Option<(u16, u16)>)
        requires
            self.x + self.width <= u16::MAX,
            self.y + self.height <= u16::MAX,
        ensures
            c == (if self.width == 0 || self.height == 0 {
                None
            } else {
                Some(((self.x + self.width / 2) as u16, (self.y + self.height / 2) as u16))
            }),
    {
        if self.width == 0 || self.height == 0 {
            return None;
        }
        Some((self.x + self.width / 2, self.y + self.height / 2))
    }
}

} // verus!
