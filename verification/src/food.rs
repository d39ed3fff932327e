//! The food: a single grid cell plus a display color.

use vstd::prelude::*;
use crate::geometry::{Rgb, Vector2};
use crate::CELL_SIZE;

verus! {

/// One edible cell. Created at a fixed start position, relocated by the game
/// whenever the snake's head occupies it, never destroyed. Drawing the filled
/// square is left to the embedding program.
pub struct Food {
    pub position: Vector2,
    pub color: Rgb,
}

impl Food {
    pub fn new(x: i32, y: i32, color: Rgb) -> (f: Food)
        ensures
            f.position == (Vector2 { x, y }),
            f.color == color,
    {
        Food { position: Vector2 { x, y }, color }
    }

    /// The position scaled from grid cells to pixels.
    pub fn get_position(&self) -> (p: Vector2)
        requires
            i32::MIN <= self.position.x * crate::CELL_SIZE <= i32::MAX,
            i32::MIN <= self.position.y * crate::CELL_SIZE <= i32::MAX,
        ensures
            p.x == self.position.x * crate::CELL_SIZE,
            p.y == self.position.y * crate::CELL_SIZE,
    {
        Vector2 { x: self.position.x * CELL_SIZE, y: self.position.y * CELL_SIZE }
    }
}

} // verus!
