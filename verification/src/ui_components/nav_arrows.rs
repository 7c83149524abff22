use vstd::prelude::*;
use crate::geometry::Rect;

verus! {

/// The back and forward arrows of the top bar.
#[derive(Clone, Copy, Debug, PartialEq, Eq, Structural)]
pub struct NavArrows {
    rect: Rect,
}

impl NavArrows {
    /// The area the arrows are drawn in.
    pub closed spec fn area(self) -> Rect {
        self.rect
    }

    /// The arrows over `rect`.
    pub fn new(rect: Rect) -> (r: NavArrows)
        ensures
            r.area() == rect,
    {
        NavArrows { rect }
    }
}

} // verus!
