//! The primitives a movement is built on: a cell of the grid and a direction
//! on the screen.

use vstd::prelude::*;

verus! {

/// A cell of the character grid: `x` is the column, `y` the row. Rows are
/// counted from the top of the screen, columns from the left.
#[derive(Copy, Clone, Debug, PartialEq, Eq, Structural, PartialOrd, Ord, Hash)]
pub struct Coords {
    pub x: u32,
    pub y: u32,
}

/// A direction of travel on the screen.
#[derive(Copy, Clone, Debug, PartialEq, Eq, Structural, Hash)]
pub enum Direction {
    Up,
    Down,
    Left,
    Right,
}

impl Coords {
    /// Reading order: `self` comes before `other` when it lies on an earlier
    /// row, or on the same row in an earlier column.
    ///
    /// This is not the order of `<` on `Coords`, which goes by the fields as
    /// they are declared and so by the column first.
    pub open spec fn precedes(self, other: Coords) -> bool {
        self.y < other.y || (self.y == other.y && self.x < other.x)
    }
}

} // verus!
