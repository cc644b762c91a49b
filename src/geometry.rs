//! Integer geometry: points and rectangles in device units.

use vstd::prelude::*;

verus! {

/// A pointer or origin position.
#[derive(Clone, Copy, Debug, PartialEq, Eq, Structural)]
pub struct Point {
    pub x: i64,
    pub y: i64,
}

/// An axis-aligned rectangle from `(x0, y0)` to `(x1, y1)`.
#[derive(Clone, Copy, Debug, PartialEq, Eq, Structural)]
pub struct Rect {
    pub x0: i64,
    pub y0: i64,
    pub x1: i64,
    pub y1: i64,
}

impl Rect {
    /// The point lies inside: the left and top edges belong to the
    /// rectangle, the right and bottom ones do not.
    pub open spec fn holds(self, x: int, y: int) -> bool {
        self.x0 <= x < self.x1 && self.y0 <= y < self.y1
    }

    /// The vertical coordinate lies within the rectangle's band, both edges
    /// included.
    pub open spec fn spans_y(self, y: int) -> bool {
        self.y0 <= y <= self.y1
    }

    /// The empty rectangle at the origin, which a widget has before its
    /// first layout.
    pub open spec fn zero_spec() -> Rect {
        Rect { x0: 0, y0: 0, x1: 0, y1: 0 }
    }

    pub fn zero() -> (r: Rect)
        ensures
            r == Rect::zero_spec(),
    {
        Rect { x0: 0, y0: 0, x1: 0, y1: 0 }
    }

    pub fn contains(&self, p: Point) -> (r: bool)
        ensures
            r == self.holds(p.x as int, p.y as int),
    {
        self.x0 <= p.x && p.x < self.x1 && self.y0 <= p.y && p.y < self.y1
    }

    pub fn band_contains(&self, y: i64) -> (r: bool)
        ensures
            r == self.spans_y(y as int),
    {
        self.y0 <= y && y <= self.y1
    }
}

} // verus!
