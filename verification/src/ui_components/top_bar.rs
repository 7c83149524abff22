use vstd::prelude::*;
use crate::geometry::Rect;
use crate::paths::{trail, trail_defined};
use crate::ui_components::nav_arrows::NavArrows;
use crate::ui_components::path_breadcrumbs::{PathBreadcrumbs, PathBreadcrumbsView};
use crate::ui_components::window_buttons::WindowButtons;

verus! {

/// The top bar: the trail of the directory being browsed, the navigation
/// arrows and the window buttons.
pub struct TopBar {
    pub path_breadcrumbs: PathBreadcrumbs,
    pub nav_arrows: NavArrows,
    pub window_buttons: WindowButtons,
    pub rect: Rect,
}

/// What the top bar holds, as values.
#[verifier::ext_equal]
pub struct TopBarView {
    pub path_breadcrumbs: PathBreadcrumbsView,
    pub nav_arrows: NavArrows,
    pub window_buttons: WindowButtons,
    pub rect: Rect,
}

impl View for TopBar {
    type V = TopBarView;

    open spec fn view(&self) -> TopBarView {
        TopBarView {
            path_breadcrumbs: self.path_breadcrumbs@,
            nav_arrows: self.nav_arrows,
            window_buttons: self.window_buttons,
            rect: self.rect,
        }
    }
}

impl TopBar {
    /// The top bar over `rect`, showing the trail of `path`.
    pub fn new(path: &String, rect: Rect) -> (r: TopBar)
        requires
            trail_defined(path@),
        ensures
            r@.path_breadcrumbs == (PathBreadcrumbsView { paths: trail(path@), hovered_path: None }),
            r.nav_arrows.area() == rect,
            r.window_buttons.area() == rect,
            r.rect == rect,
    {
        TopBar {
            path_breadcrumbs: PathBreadcrumbs::new(path),
            nav_arrows: NavArrows::new(rect),
            window_buttons: WindowButtons::new(rect),
            rect,
        }
    }

    /// Moves the top bar to `rect`; the arrows and buttons stay.
    pub fn resize(&mut self, rect: Rect)
        ensures
            final(self)@ == (TopBarView { rect, ..old(self)@ }),
    {
        self.rect = rect;
    }
}

} // verus!
