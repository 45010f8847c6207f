//! Positions and sizes on the character grid.

use vstd::prelude::*;

verus! {

/// A position or size on the character grid, in cells.
#[derive(Clone, Copy, Debug, PartialEq, Eq, Structural)]
pub struct Vec2 {
    /// Horizontal component (column).
    pub x: usize,
    /// Vertical component (row).
    pub y: usize,
}

impl Vec2 {
    /// Builds a vector from its two components.
    pub fn new(x: usize, y: usize) -> (r: Vec2)
        ensures
            r == (Vec2 { x, y }),
    {
        Vec2 { x, y }
    }

    /// The origin.
    pub fn zero() -> (r: Vec2)
        ensures
            r == (Vec2 { x: 0usize, y: 0usize }),
    {
        Vec2 { x: 0, y: 0 }
    }
}

} // verus!
