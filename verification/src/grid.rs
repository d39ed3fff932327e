//! The play field: fixed dimensions defining the valid coordinate range.

use vstd::prelude::*;
use crate::geometry::Vector2;

verus! {

/// Static dimensions of the play field. Immutable after construction; a cell
/// (x, y) is inside the grid iff 0 <= x < cols and 0 <= y < rows. Drawing the
/// reference mesh is left to the embedding program.
pub struct Grid {
    pub rows: i32,
    pub cols: i32,
}

impl Grid {
    /// Whether the cell lies in the valid range [0, cols) x [0, rows).
    pub open spec fn contains(self, c: Vector2) -> bool {
        0 <= c.x < self.cols && 0 <= c.y < self.rows
    }

    pub fn new(rows: i32, cols: i32) -> (g: Grid)
        ensures
            g.rows == rows,
            g.cols == cols,
    {
        Grid { rows, cols }
    }
}

} // verus!
