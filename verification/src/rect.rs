//! Axis-aligned rectangles over signed map coordinates, used to carve rooms
//! out of a generated map.

use vstd::prelude::*;

verus! {

/// Signed division by two that rounds toward zero, as the `/` operator of the
/// executable language does.
pub open spec fn div2_toward_zero(a: int) -> int {
    if a >= 0 {
        a / 2
    } else {
        -((-a) / 2)
    }
}

/// A rectangle spanning map coordinates `x1 <= x < x2`, `y1 <= y < y2`.
#[derive(Clone, Copy, PartialEq, Eq, Structural, Debug)]
pub struct Rect {
    pub x1: isize,
    pub x2: isize,
    pub y1: isize,
    pub y2: isize,
}

impl Rect {
    /// Builds the rectangle with corner `(x, y)`, width `w` and height `h`.
    pub fn new(x: isize, y: isize, w: isize, h: isize) -> (r: Rect)
        requires
            isize::MIN <= x + w <= isize::MAX,
            isize::MIN <= y + h <= isize::MAX,
        ensures
            r == (Rect { x1: x, x2: (x + w) as isize, y1: y, y2: (y + h) as isize }),
    {
        Rect { x1: x, y1: y, x2: x + w, y2: y + h }
    }

    /// Returns true exactly when this rectangle overlaps `other` (closed-range
    /// comparison on both axes).
    pub fn intersect(&self, other: &Rect) -> (r: bool)
        ensures
            r == (self.x1 <= other.x2 && self.x2 >= other.x1 && self.y1 <= other.y2
                && self.y2 >= other.y1),
    {
        self.x1 <= other.x2 && self.x2 >= other.x1 && self.y1 <= other.y2 && self.y2 >= other.y1
    }

    /// Returns the center of the rectangle, with each axis midpoint rounded
    /// toward zero.
    pub fn center(&self) -> (c: (isize, isize))
        requires
            isize::MIN <= self.x1 + self.x2 <= isize::MAX,
            isize::MIN <= self.y1 + self.y2 <= isize::MAX,
        ensures
            c.0 == div2_toward_zero(self.x1 + self.x2),
            c.1 == div2_toward_zero(self.y1 + self.y2),
    {
        ((self.x1 + self.x2) / 2, (self.y1 + self.y2) / 2)
    }
}

} // verus!
