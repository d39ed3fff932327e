//! Grid coordinates and display colors.

use vstd::prelude::*;

verus! {

/// A discrete grid coordinate. No bounds are enforced at construction;
/// validity is checked by the simulation.
#[derive(Clone, Copy, Debug, PartialEq, Eq, Structural)]
pub struct Vector2 {
    pub x: i32,
    pub y: i32,
}

/// A display color, handed through to whatever does the rendering.
#[derive(Clone, Copy, Debug, PartialEq, Eq, Structural)]
pub struct Rgb {
    pub r: u8,
    pub g: u8,
    pub b: u8,
}

} // verus!
