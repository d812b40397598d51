use vstd::prelude::*;

verus! {

/// Width and height of a render target, in pixels.
#[derive(Clone, Copy, Debug, PartialEq, Eq, Structural)]
pub struct Size2D {
    pub width: i32,
    pub height: i32,
}

impl Size2D {
    /// A size is usable for a render target when both sides are positive.
    pub open spec fn is_valid(self) -> bool {
        self.width > 0 && self.height > 0
    }

    pub fn new(width: i32, height: i32) -> (r: Size2D)
        ensures
            r.width == width,
            r.height == height,
    {
        Size2D { width, height }
    }

    /// Whether both sides are positive.
    pub fn is_positive(&self) -> (r: bool)
        ensures
            r == self.is_valid(),
    {
        self.width > 0 && self.height > 0
    }
}

} // verus!
