use vstd::prelude::*;
use crate::geometry::MouseEvent;
use crate::hover::{hover_computable, hovered_index, scan_hovered};
use crate::paths::{breadcrumb_trail, pairs_view, trail, trail_defined};

verus! {

/// The trail of directories from the root to the one being browsed, shown
/// in the top bar.
pub struct PathBreadcrumbs {
    /// Each directory's name and path, the root first.
    pub paths: Vec<(String, String)>,
    pub hovered_path: Option<usize>,
}

/// What a trail holds, as values.
#[verifier::ext_equal]
pub struct PathBreadcrumbsView {
    pub paths: Seq<(Seq<char>, Seq<char>)>,
    pub hovered_path: Option<usize>,
}

impl View for PathBreadcrumbs {
    type V = PathBreadcrumbsView;

    open spec fn view(&self) -> PathBreadcrumbsView {
        PathBreadcrumbsView { paths: pairs_view(self.paths@), hovered_path: self.hovered_path }
    }
}

impl PathBreadcrumbs {
    /// The trail of `path`, nothing hovered.
    pub fn new(path: &String) -> (r: PathBreadcrumbs)
        requires
            trail_defined(path@),
        ensures
            r@ == (PathBreadcrumbsView { paths: trail(path@), hovered_path: None }),
    {
        let mut path_breadcrumbs = PathBreadcrumbs { paths: Vec::new(), hovered_path: None };
        path_breadcrumbs.load_path(path);
        path_breadcrumbs
    }

    /// The place of the directory whose name lies under the event's column:
    /// each name takes its width in bytes plus three columns for the
    /// separator, and counts as hovered from its start to four columns
    /// before its end.
    pub fn get_hovered_index(&self, event: MouseEvent) -> (r: Option<usize>)
        requires
            hover_computable(pairs_view(self.paths@), event.column, 4),
        ensures
            r == hovered_index(pairs_view(self.paths@), event.column, 4),
            r matches Some(i) ==> i < self@.paths.len(),
    {
        scan_hovered(&self.paths, event.column, 4)
    }

    /// Shows the trail of `path`.
    pub fn load_path(&mut self, path: &String)
        requires
            trail_defined(path@),
        ensures
            final(self)@ == (PathBreadcrumbsView { paths: trail(path@), ..old(self)@ }),
    {
        self.paths = breadcrumb_trail(path.as_str()).unwrap();
    }

    /// Shows the trail of `path` where it has one, and says whether it did;
    /// else nothing changes.
    pub fn try_load_path(&mut self, path: &String) -> (r: bool)
        ensures
            r == trail_defined(path@),
            r ==> final(self)@ == (PathBreadcrumbsView { paths: trail(path@), ..old(self)@ }),
            !r ==> final(self)@ == old(self)@,
    {
        if breadcrumb_trail(path.as_str()).is_some() {
            self.load_path(path);
            true
        } else {
            false
        }
    }
}

} // verus!
