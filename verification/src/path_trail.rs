use vstd::prelude::*;
use crate::geometry::{MouseEvent, Rect};
use crate::hover::{hover_computable, hovered_index, scan_hovered};
use crate::paths::{breadcrumb_trail, pairs_view, trail, trail_defined};

verus! {

/// The trail of directories from the root to the one being browsed, with
/// the area it is drawn in.
pub struct PathTrail {
    /// Each directory's name and path, the root first.
    pub paths: Vec<(String, String)>,
    pub hovered_path: Option<usize>,
    pub rect: Rect,
}

/// Whether `rect.x + rect.width` and `rect.y + rect.height` fit in a `u16`
/// wherever the test of a cell against the rectangle computes them: the
/// bottom edge only once the column is known to be inside and the row not
/// above.
pub open spec fn contains_computable(rect: Rect, column: u16, row: u16) -> bool {
    &&& column >= rect.x ==> rect.x + rect.width <= u16::MAX
    &&& (column >= rect.x && column <= rect.x + rect.width && row >= rect.y) ==> rect.y
        + rect.height <= u16::MAX
}

impl PathTrail {
    /// Whether the cell (`column`, `row`) lies on the trail's area, its
    /// right and bottom edges included.
    pub fn is_mouse_on(&self, column: u16, row: u16) -> (r: bool)
        requires
            contains_computable(self.rect, column, row),
        ensures
            r == self.rect.spec_contains(column, row),
    {
        let Rect { x, y, width, height } = self.rect;
        column >= x && column <= x + width && row >= y && row <= y + height
    }

    /// The place of the directory whose name lies under the event's column:
    /// each name takes its width in bytes plus three columns for the
    /// separator, and counts as hovered from its start to its end.
    pub fn get_hovered_index(&self, event: MouseEvent) -> (r: Option<usize>)
        requires
            hover_computable(pairs_view(self.paths@), event.column, 0),
        ensures
            r == hovered_index(pairs_view(self.paths@), event.column, 0),
            r matches Some(i) ==> i < self.paths@.len(),
    {
        scan_hovered(&self.paths, event.column, 0)
    }

    /// Shows the trail of `path`.
    pub fn load_path(&mut self, path: &String)
        requires
            trail_defined(path@),
        ensures
            pairs_view(final(self).paths@) == trail(path@),
            final(self).hovered_path == old(self).hovered_path,
            final(self).rect == old(self).rect,
    {
        self.paths = breadcrumb_trail(path.as_str()).unwrap();
    }

    /// Shows the trail of `path` where it has one, and says whether it did;
    /// else nothing changes.
    pub fn try_load_path(&mut self, path: &String) -> (r: bool)
        ensures
            r == trail_defined(path@),
            r ==> pairs_view(final(self).paths@) == trail(path@),
            !r ==> pairs_view(final(self).paths@) == pairs_view(old(self).paths@),
            final(self).hovered_path == old(self).hovered_path,
            final(self).rect == old(self).rect,
    {
        if breadcrumb_trail(path.as_str()).is_some() {
            self.load_path(path);
            true
        } else {
            false
        }
    }
}

} // verus!
