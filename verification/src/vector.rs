//! Plain coordinate records.

use vstd::prelude::*;

verus! {

/// A point or an extent in the plane, in grid units.
#[derive(Clone, Copy, Debug, PartialEq, Eq)]
pub struct Vector2 {
    pub x: i64,
    pub y: i64,
}

impl Vector2 {
    /// The vector with the given components.
    pub fn new(x: i64, y: i64) -> (v: Self)
        ensures
            v.x == x,
            v.y == y,
    {
        Vector2 { x, y }
    }
}

/// Where a renderable stands in space. A box drives `x` and `y`; `z` (the
/// drawing depth) belongs to whoever owns the renderable.
#[derive(Clone, Copy, Debug, PartialEq, Eq)]
pub struct TransformPosition {
    pub x: i64,
    pub y: i64,
    pub z: i64,
}

} // verus!
