use vstd::prelude::*;

verus! {

/// An axis-aligned rectangle in world pixels, stored by its edges.
#[derive(Debug, Clone, Copy, PartialEq, Eq, Structural)]
pub struct Rect {
    pub left: usize,
    pub top: usize,
    pub right: usize,
    pub bottom: usize,
}

impl Rect {
    /// A rectangle is well formed when its right edge is not left of its left
    /// edge, and its bottom edge is not above its top edge.
    pub open spec fn wf(self) -> bool {
        self.left <= self.right && self.top <= self.bottom
    }

    /// The top-left corner.
    pub fn tl(&self) -> (r: (usize, usize))
        ensures
            r == (self.left, self.top),
    {
        (self.left, self.top)
    }

    pub fn new(left: usize, top: usize, right: usize, bottom: usize) -> (r: Rect)
        ensures
            r == (Rect { left, top, right, bottom }),
    {
        Rect { left, top, right, bottom }
    }

    /// Returns a Rect with all values set to zero.
    pub fn zero() -> (r: Rect)
        ensures
            r == (Rect { left: 0, top: 0, right: 0, bottom: 0 }),
    {
        Rect { left: 0, top: 0, right: 0, bottom: 0 }
    }

    pub fn width(&self) -> (r: usize)
        requires
            self.left <= self.right,
        ensures
            r == self.right - self.left,
    {
        self.right - self.left
    }

    pub fn height(&self) -> (r: usize)
        requires
            self.top <= self.bottom,
        ensures
            r == self.bottom - self.top,
    {
        self.bottom - self.top
    }
}

} // verus!
