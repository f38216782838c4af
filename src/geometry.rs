//! Screen positions in whole pixels and the rectangles that clicks land in.
use vstd::prelude::*;

verus! {

/// A point on the screen, in pixels; `y` grows downwards.
#[derive(Clone, Copy, Debug, PartialEq, Eq, Structural)]
pub struct Pos {
    pub x: i32,
    pub y: i32,
}

/// Whether `a + b` stays within `i32`.
pub open spec fn fits(a: int, b: int) -> bool {
    i32::MIN <= a + b <= i32::MAX
}

/// Whether `p` lies strictly inside the open rectangle `left < x < right`,
/// `top < y < bottom`.
pub open spec fn inside(p: Pos, left: int, right: int, top: int, bottom: int) -> bool {
    left < p.x < right && top < p.y < bottom
}

impl Pos {
    pub fn new(x: i32, y: i32) -> (r: Pos)
        ensures
            r.x == x,
            r.y == y,
    {
        Pos { x, y }
    }

    pub fn tuple(tuple: (i32, i32)) -> (r: Pos)
        ensures
            r.x == tuple.0,
            r.y == tuple.1,
    {
        Pos { x: tuple.0, y: tuple.1 }
    }

    /// Component-wise sum.
    pub fn add(self, other: Pos) -> (r: Pos)
        requires
            fits(self.x as int, other.x as int),
            fits(self.y as int, other.y as int),
        ensures
            r.x == self.x + other.x,
            r.y == self.y + other.y,
    {
        Pos { x: self.x + other.x, y: self.y + other.y }
    }
}

/// The four corners of an axis-aligned rectangle.
pub struct Bounds {
    pub top_left: Pos,
    pub top_right: Pos,
    pub bottom_left: Pos,
    pub bottom_right: Pos,
}

impl Bounds {
    pub fn new(top_left: Pos, top_right: Pos, bottom_left: Pos, bottom_right: Pos) -> (r: Bounds)
        ensures
            r.top_left == top_left,
            r.top_right == top_right,
            r.bottom_left == bottom_left,
            r.bottom_right == bottom_right,
    {
        Bounds { top_left, top_right, bottom_left, bottom_right }
    }
}

/// Whether `p` lies strictly inside the rectangle with the given edges.
pub fn hit(p: Pos, left: i32, right: i32, top: i32, bottom: i32) -> (r: bool)
    ensures
        r == inside(p, left as int, right as int, top as int, bottom as int),
{
    left < p.x && p.x < right && top < p.y && p.y < bottom
}

} // verus!
