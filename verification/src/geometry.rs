use vstd::prelude::*;

verus! {

/// A point on the battlefield, in whole world units.
#[derive(Clone, Copy, PartialEq, Eq, Structural, Debug)]
pub struct GridPoint {
    pub x: i64,
    pub y: i64,
}

/// An axis-aligned rectangle on the battlefield; `min` is never to the right
/// of or above `max`.
#[derive(Clone, Copy, PartialEq, Eq, Structural, Debug)]
pub struct GridRect {
    pub min: GridPoint,
    pub max: GridPoint,
}

pub open spec fn min_i64(a: i64, b: i64) -> i64 {
    if a <= b { a } else { b }
}

pub open spec fn max_i64(a: i64, b: i64) -> i64 {
    if a <= b { b } else { a }
}

impl GridPoint {
    /// The point `(x, y)`.
    pub fn new(x: i64, y: i64) -> (p: GridPoint)
        ensures
            p.x == x,
            p.y == y,
    {
        GridPoint { x, y }
    }
}

impl GridRect {
    /// The rectangle spanned by two opposite corners, given in any order.
    pub fn from_corners(a: GridPoint, b: GridPoint) -> (r: GridRect)
        ensures
            r.min.x == min_i64(a.x, b.x),
            r.min.y == min_i64(a.y, b.y),
            r.max.x == max_i64(a.x, b.x),
            r.max.y == max_i64(a.y, b.y),
    {
        let min_x = if a.x <= b.x { a.x } else { b.x };
        let min_y = if a.y <= b.y { a.y } else { b.y };
        let max_x = if a.x <= b.x { b.x } else { a.x };
        let max_y = if a.y <= b.y { b.y } else { a.y };
        GridRect { min: GridPoint { x: min_x, y: min_y }, max: GridPoint { x: max_x, y: max_y } }
    }
}

} // verus!
