use vstd::prelude::*;
use crate::geometry::Rect;

verus! {

/// The window buttons of the top bar.
#[derive(Clone, Copy, Debug, PartialEq, Eq, Structural)]
pub struct WindowButtons {
    rect: Rect,
}

impl WindowButtons {
    /// The area the buttons are drawn in.
    pub closed spec fn area(self) -> Rect {
        self.rect
    }

    /// The buttons over `rect`.
    pub fn new(rect: Rect) -> (r: WindowButtons)
        ensures
            r.area() == rect,
    {
        WindowButtons { rect }
    }
}

} // verus!
