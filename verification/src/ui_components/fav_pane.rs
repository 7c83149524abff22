use vstd::prelude::*;
use crate::geometry::Rect;

verus! {

/// The pane of favourite places, left of the file panes.
#[derive(Clone, Copy, Debug, PartialEq, Eq, Structural)]
pub struct FavPane {
    pub rect: Rect,
}

impl FavPane {
    /// The pane over `rect`.
    pub fn new(rect: Rect) -> (r: FavPane)
        ensures
            r.rect == rect,
    {
        FavPane { rect }
    }
}

} // verus!
