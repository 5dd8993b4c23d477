//! Plain coordinate types: terminal sizes, screen positions, and logical
//! text locations.

use vstd::prelude::*;

verus! {

/// `a - b`, floored at zero.
pub open spec fn floor_sub(a: int, b: int) -> int {
    if a >= b {
        a - b
    } else {
        0
    }
}

/// `a + b`, capped at the machine word.
pub open spec fn cap_add(a: int, b: int) -> int {
    if a + b > usize::MAX {
        usize::MAX as int
    } else {
        a + b
    }
}

/// A viewport size in terminal rows and columns.
#[derive(Clone, Copy, PartialEq, Eq, Structural, Debug)]
pub struct Size {
    pub height: usize,
    pub width: usize,
}

/// A physical screen coordinate.
#[derive(Clone, Copy, PartialEq, Eq, Structural, Debug)]
pub struct Position {
    pub col: usize,
    pub row: usize,
}

impl Position {
    /// Componentwise difference, floored at zero.
    pub fn saturating_sub(self, other: Self) -> (r: Self)
        ensures
            r.row == if self.row >= other.row {
                self.row - other.row
            } else {
                0
            },
            r.col == if self.col >= other.col {
                self.col - other.col
            } else {
                0
            },
    {
        Position { row: self.row.saturating_sub(other.row), col: self.col.saturating_sub(other.col) }
    }
}

/// A logical text position: a line of the document and a grapheme-cluster
/// index within it (the index one past the last cluster means end of line).
#[derive(Clone, Copy, PartialEq, Eq, Structural, Debug)]
pub struct Location {
    pub grapheme_index: usize,
    pub line_index: usize,
}

} // verus!
