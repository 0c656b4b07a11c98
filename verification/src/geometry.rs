//! Integer 2-vectors for world positions and atlas coordinates.

use vstd::prelude::*;

verus! {

/// A two-dimensional integer vector. World positions are measured in
/// caller-chosen sub-pixel units; atlas coordinates in tile-grid units.
#[derive(Clone, Copy, Debug, PartialEq, Eq, Structural)]
pub struct Vec2i {
    pub x: i64,
    pub y: i64,
}

impl Vec2i {
    pub fn new(x: i64, y: i64) -> (v: Vec2i)
        ensures
            v.x == x,
            v.y == y,
    {
        Vec2i { x, y }
    }

    /// The zero vector.
    pub fn zero() -> (v: Vec2i)
        ensures
            v.x == 0,
            v.y == 0,
    {
        Vec2i { x: 0, y: 0 }
    }
}

} // verus!
