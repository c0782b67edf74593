use vstd::prelude::*;

verus! {

/// An axis aligned rectangle in pixel space.
#[derive(PartialEq, Eq, Structural, Hash, Copy, Clone, Debug)]
pub struct Rect {
    pub x: usize,
    pub y: usize,
    pub width: usize,
    pub height: usize,
}

impl Rect {
    /// True when `(px, py)` lies inside the rectangle (right and bottom edges excluded).
    pub open spec fn contains_point(self, px: int, py: int) -> bool {
        self.x <= px < self.x + self.width && self.y <= py < self.y + self.height
    }

    pub fn new(x: usize, y: usize, width: usize, height: usize) -> (r: Self)
        ensures
            r == (Rect { x, y, width, height }),
    {
        Self { x: x, y: y, width: width, height: height }
    }

    pub fn new_with_size(width: usize, height: usize) -> (r: Self)
        ensures
            r == (Rect { x: 0, y: 0, width, height }),
    {
        Self { x: 0, y: 0, width: width, height: height }
    }

    pub fn empty() -> (r: Self)
        ensures
            r == (Rect { x: 0, y: 0, width: 0, height: 0 }),
    {
        Self { x: 0, y: 0, width: 0, height: 0 }
    }

    /// Whether the point lies inside the rectangle. The right and bottom
    /// edges are computed as `x + width` and `y + height`, which must fit
    /// in a `usize`.
    pub fn is_inside(&self, p: (usize, usize)) -> (b: bool)
        requires
            self.x + self.width <= usize::MAX,
            self.y + self.height <= usize::MAX,
        ensures
            b == self.contains_point(p.0 as int, p.1 as int),
    {
        p.0 >= self.x && p.1 >= self.y && p.0 < self.x + self.width && p.1 < self.y + self.height
    }

    pub fn to_usize(&self) -> (t: (usize, usize, usize, usize))
        ensures
            t == (self.x, self.y, self.width, self.height),
    {
        (self.x, self.y, self.width, self.height)
    }
}

} // verus!
