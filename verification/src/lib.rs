//! A minimal grid-based snake game, verified.
//!
//! The simulation (grid, snake, food, game state machine) lives here with
//! contracts; rendering and the clock are left to the embedding program.

pub mod food;
pub mod game;
pub mod geometry;
pub mod grid;
mod rng;
pub mod snake;

use vstd::prelude::*;

verus! {

/// Side length of one grid cell, in pixels.
pub const CELL_SIZE: i32 = 25;

/// Window width in pixels.
pub const WIDTH: i32 = 450;

/// Window height in pixels.
pub const HEIGHT: i32 = 450;

} // verus!
