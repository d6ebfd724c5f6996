//! Screen coordinates and sizes, with arithmetic that stays inside the
//! coordinate range.

use vstd::prelude::*;

verus! {

/// A point on the drawing surface, in whole pixels.
#[derive(Clone, Copy, Debug, PartialEq, Eq, Structural)]
pub struct Point {
    pub x: i64,
    pub y: i64,
}

/// A width and height in whole pixels.
#[derive(Clone, Copy, Debug, PartialEq, Eq, Structural)]
pub struct Size {
    pub w: u32,
    pub h: u32,
}

/// `v` pinned to the range of a coordinate.
pub open spec fn clamp_coord(v: int) -> i64 {
    if v < i64::MIN {
        i64::MIN
    } else if v > i64::MAX {
        i64::MAX
    } else {
        v as i64
    }
}

/// The point `(x, y)`, each coordinate pinned to the coordinate range.
pub open spec fn point_at(x: int, y: int) -> Point {
    Point { x: clamp_coord(x), y: clamp_coord(y) }
}

/// Half of a length, rounded down.
pub open spec fn half(n: u32) -> int {
    n as int / 2
}

/// `v` pinned to the coordinate range.
pub fn clamp_to_coord(v: i128) -> (r: i64)
    ensures
        r == clamp_coord(v as int),
{
    if v < i64::MIN as i128 {
        i64::MIN
    } else if v > i64::MAX as i128 {
        i64::MAX
    } else {
        v as i64
    }
}

impl Point {
    pub fn new(x: i64, y: i64) -> (r: Point)
        ensures
            r.x == x,
            r.y == y,
    {
        Point { x, y }
    }

    /// This point moved forward by half of `s`: the centre of a box of size
    /// `s` whose top-left corner is this point.
    pub fn plus_half(self, s: Size) -> (r: Point)
        ensures
            r == point_at(self.x + half(s.w), self.y + half(s.h)),
    {
        let x = clamp_to_coord(self.x as i128 + (s.w / 2) as i128);
        let y = clamp_to_coord(self.y as i128 + (s.h / 2) as i128);
        Point { x, y }
    }

    /// This point moved back by half of `s`: the top-left corner of a box of
    /// size `s` centred on this point.
    pub fn minus_half(self, s: Size) -> (r: Point)
        ensures
            r == point_at(self.x - half(s.w), self.y - half(s.h)),
    {
        let x = clamp_to_coord(self.x as i128 - (s.w / 2) as i128);
        let y = clamp_to_coord(self.y as i128 - (s.h / 2) as i128);
        Point { x, y }
    }
}

impl Size {
    pub fn new(w: u32, h: u32) -> (r: Size)
        ensures
            r.w == w,
            r.h == h,
    {
        Size { w, h }
    }
}

} // verus!
