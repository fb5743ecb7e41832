use vstd::prelude::*;

verus! {

/// The content of one square of a field or of a block.
#[derive(Debug, Clone, Copy, PartialEq, Eq, Structural, Hash)]
pub enum Cell {
    /// Nothing.
    Empty,
    /// An ordinary occupied cell.
    Normal,
    /// A bomb.
    Bomb,
    /// Upper left part of a big bomb; this part carries the explosion.
    BigBombUpperLeft,
    /// Upper right part of a big bomb.
    BigBombUpperRight,
    /// Lower left part of a big bomb.
    BigBombLowerLeft,
    /// Lower right part of a big bomb.
    BigBombLowerRight,
}

/// Whether a cell is the center of an explosion when it is set off.
pub open spec fn spec_is_explodable(c: Cell) -> bool {
    c == Cell::Bomb || c == Cell::BigBombUpperLeft
}

impl Cell {
    /// Whether this cell is empty.
    pub fn is_empty(&self) -> (r: bool)
        ensures
            r == (*self == Cell::Empty),
    {
        match self {
            Cell::Empty => true,
            _ => false,
        }
    }

    /// Whether this cell explodes when it is set off: a bomb, or the upper left part of a big bomb.
    pub fn is_explodable(&self) -> (r: bool)
        ensures
            r == spec_is_explodable(*self),
    {
        match self {
            Cell::Bomb | Cell::BigBombUpperLeft => true,
            _ => false,
        }
    }
}

} // verus!
