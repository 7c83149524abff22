use vstd::prelude::*;
use crate::finder::Entry;
use crate::geometry::Rect;
use crate::paths::{lemma_trail_paths_defined, trail, trail_defined, trail_is_defined};
use crate::ui_components::bot_bar::{BotBar, BotBarView};
use crate::ui_components::fav_pane::FavPane;
use crate::ui_components::file_pane::FilePaneView;
use crate::ui_components::file_panes::{FilePanes, FilePanesView, wf};
use crate::ui_components::path_breadcrumbs::PathBreadcrumbsView;
use crate::ui_components::top_bar::{TopBar, TopBarView};

verus! {

/// The parts of the screen that a cell can lie on.
#[derive(Clone, Copy, Debug, PartialEq, Eq, Structural)]
pub enum Component {
    TopBar,
    BotBar,
    FavPane,
    FilePanes,
}

/// The areas of the parts of the screen.
#[derive(Clone, Copy, Debug, PartialEq, Eq, Structural)]
pub struct AppLayout {
    pub top_bar: Rect,
    pub bot_bar: Rect,
    pub fav_pane: Rect,
    pub file_panes: Rect,
}

/// The height of the top bar.
pub const TOP_BAR_HEIGHT: u16 = 2;

/// The height of the bottom bar.
pub const BOT_BAR_HEIGHT: u16 = 1;

/// The width of the pane of favourites.
pub const FAV_PANE_WIDTH: u16 = 15;

/// The number of file panes side by side: two.
pub const NR_OF_PANES: usize = 2;

/// The layout of a screen of `width` by `height` cells: the top bar over the
/// first two rows, the bottom bar on the last row, and between them the pane
/// of favourites on the first fifteen columns and the file panes on the
/// rest.
pub open spec fn spec_layout(width: u16, height: u16) -> AppLayout {
    AppLayout {
        top_bar: Rect { x: 0, y: 0, width, height: TOP_BAR_HEIGHT },
        bot_bar: Rect { x: 0, y: (height - BOT_BAR_HEIGHT) as u16, width, height: BOT_BAR_HEIGHT },
        fav_pane: Rect {
            x: 0,
            y: TOP_BAR_HEIGHT,
            width: FAV_PANE_WIDTH,
            height: (height - (TOP_BAR_HEIGHT + BOT_BAR_HEIGHT)) as u16,
        },
        file_panes: Rect {
            x: FAV_PANE_WIDTH,
            y: TOP_BAR_HEIGHT,
            width: (width - FAV_PANE_WIDTH) as u16,
            height: (height - (TOP_BAR_HEIGHT + BOT_BAR_HEIGHT)) as u16,
        },
    }
}

/// Whether a screen is large enough for the layout: as wide as the pane of
/// favourites and as high as the two bars.
pub open spec fn layout_fits(width: u16, height: u16) -> bool {
    width >= FAV_PANE_WIDTH && height >= TOP_BAR_HEIGHT + BOT_BAR_HEIGHT
}

impl AppLayout {
    /// The layout of a screen of `width` by `height` cells.
    pub fn new(width: u16, height: u16) -> (r: AppLayout)
        requires
            layout_fits(width, height),
        ensures
            r == spec_layout(width, height),
    {
        let top_bar_height = TOP_BAR_HEIGHT;
        let bot_bar_height = BOT_BAR_HEIGHT;
        let fav_pane_width = FAV_PANE_WIDTH;
        AppLayout {
            top_bar: Rect { x: 0, y: 0, width: width, height: top_bar_height },
            bot_bar: Rect { x: 0, y: height - bot_bar_height, width: width, height: bot_bar_height },
            fav_pane: Rect {
                x: 0,
                y: top_bar_height,
                width: fav_pane_width,
                height: height - (top_bar_height + bot_bar_height),
            },
            file_panes: Rect {
                x: fav_pane_width,
                y: top_bar_height,
                width: width - fav_pane_width,
                height: height - (top_bar_height + bot_bar_height),
            },
        }
    }
}

/// The parts of the screen tile it: the bars span its width, the two panes
/// share the width left to right, and the top bar, the panes and the bottom
/// bar share its height top to bottom.
pub proof fn law_layout_tiles_screen(width: u16, height: u16)
    requires
        layout_fits(width, height),
    ensures
        ({
            let l = spec_layout(width, height);
            &&& l.top_bar.x == 0 && l.top_bar.y == 0 && l.top_bar.width == width
            &&& l.bot_bar.x == 0 && l.bot_bar.width == width
            &&& l.bot_bar.y + l.bot_bar.height == height
            &&& l.fav_pane.x == 0 && l.file_panes.x == l.fav_pane.x + l.fav_pane.width
            &&& l.fav_pane.width + l.file_panes.width == width
            &&& l.fav_pane.y == l.top_bar.y + l.top_bar.height
            &&& l.file_panes.y == l.fav_pane.y && l.file_panes.height == l.fav_pane.height
            &&& l.fav_pane.y + l.fav_pane.height == l.bot_bar.y
        }),
{
}

/// The whole screen's state.
pub struct App {
    pub top_bar: TopBar,
    pub bot_bar: BotBar,
    pub fav_pane: FavPane,
    pub file_panes: FilePanes,
}

/// What the screen holds, as values.
#[verifier::ext_equal]
pub struct AppView {
    pub top_bar: TopBarView,
    pub bot_bar: BotBarView,
    pub fav_pane: FavPane,
    pub file_panes: FilePanesView,
}

impl View for App {
    type V = AppView;

    open spec fn view(&self) -> AppView {
        AppView {
            top_bar: self.top_bar@,
            bot_bar: self.bot_bar@,
            fav_pane: self.fav_pane,
            file_panes: self.file_panes@,
        }
    }
}

/// Whether every directory of a trail has a trail of its own.
pub open spec fn crumbs_defined(paths: Seq<(Seq<char>, Seq<char>)>) -> bool {
    forall|i: int| 0 <= i < paths.len() ==> trail_defined(#[trigger] paths[i].1)
}

/// What the screen keeps true between events: the file panes are in shape
/// and every directory of the trail has a trail.
pub open spec fn app_wf(a: AppView) -> bool {
    &&& wf(a.file_panes)
    &&& crumbs_defined(a.top_bar.path_breadcrumbs.paths)
}

/// The part of the screen that the cell (`column`, `row`) lies on: the top
/// bar above its height, the bottom bar below its row, the pane of
/// favourites up to its right edge, then the file panes up to theirs.
pub open spec fn spec_component_at(a: AppView, row: u16, column: u16) -> Option<Component> {
    if row < a.top_bar.rect.height {
        Some(Component::TopBar)
    } else if row > a.bot_bar.rect.y {
        Some(Component::BotBar)
    } else if column <= a.fav_pane.rect.width {
        Some(Component::FavPane)
    } else if column <= a.fav_pane.rect.width + a.file_panes.rect.width {
        Some(Component::FilePanes)
    } else {
        None
    }
}

/// Whether the part under a cell can be computed: the right edge of the
/// file panes fits in a `u16` where it is needed.
pub open spec fn component_computable(a: AppView, row: u16, column: u16) -> bool {
    (row >= a.top_bar.rect.height && row <= a.bot_bar.rect.y && column > a.fav_pane.rect.width)
        ==> a.fav_pane.rect.width + a.file_panes.rect.width <= u16::MAX
}

/// The screen with the hovered directory of the trail set to `h`.
pub open spec fn with_hovered(a: AppView, h: Option<usize>) -> AppView {
    AppView {
        top_bar: TopBarView {
            path_breadcrumbs: PathBreadcrumbsView { hovered_path: h, ..a.top_bar.path_breadcrumbs },
            ..a.top_bar
        },
        ..a
    }
}

/// The screen with the trail showing `path`.
pub open spec fn with_trail(a: AppView, path: Seq<char>) -> AppView {
    AppView {
        top_bar: TopBarView {
            path_breadcrumbs: PathBreadcrumbsView { paths: trail(path), ..a.top_bar.path_breadcrumbs },
            ..a.top_bar
        },
        ..a
    }
}

/// The screen with its file panes replaced.
pub open spec fn with_file_panes(a: AppView, fp: FilePanesView) -> AppView {
    AppView { file_panes: fp, ..a }
}

/// The file panes with the pane at `i` replaced.
pub open spec fn with_pane(fp: FilePanesView, i: int, p: FilePaneView) -> FilePanesView {
    FilePanesView { panes: fp.panes.update(i, p), ..fp }
}

/// The file panes with the selection of the pane at `i` set to `sel`.
pub open spec fn with_selection(fp: FilePanesView, i: int, sel: Option<usize>) -> FilePanesView {
    with_pane(fp, i, FilePaneView { selected: sel, ..fp.panes[i] })
}

/// The file panes with those from `k` on closed.
pub open spec fn spec_close_from(fp: FilePanesView, k: int) -> FilePanesView {
    FilePanesView { panes: fp.panes.take(if k < fp.panes.len() { k } else { fp.panes.len() as int }), ..fp }
}

/// The screen as it opens, of size `size`, browsing `path` whose entries are
/// `listing`.
pub open spec fn spec_new_app(a: AppView, size: Rect, path: Seq<char>, listing: Seq<Entry>) -> bool {
    let l = spec_layout(size.width, size.height);
    &&& a.top_bar.path_breadcrumbs == (PathBreadcrumbsView { paths: trail(path), hovered_path: None })
    &&& a.top_bar.rect == l.top_bar
    &&& a.top_bar.nav_arrows.area() == l.top_bar
    &&& a.top_bar.window_buttons.area() == l.top_bar
    &&& a.bot_bar == (BotBarView {
        prompt: crate::prompt::PromptView {
            is_active: false,
            command: crate::command::Command::NoCommand,
            input: Seq::empty(),
            rect: Rect { x: 0, y: 0, width: 0, height: 0 },
            root: path,
            tick: 0,
        },
        rect: l.bot_bar,
    })
    &&& a.fav_pane.rect == l.fav_pane
    &&& a.file_panes == (FilePanesView {
        panes: seq![
            crate::ui_components::file_pane::spec_load_path(
                crate::ui_components::file_pane::spec_empty_pane(
                    Rect {
                        width: crate::ui_components::file_panes::pane_width(l.file_panes, NR_OF_PANES),
                        ..l.file_panes
                    },
                ),
                path,
                listing,
            ),
        ],
        preview: None,
        focused: None,
        hovered: None,
        rect: l.file_panes,
        nr_of_panes: NR_OF_PANES,
    })
}

/// The screen after it was resized to `width` by `height`: the two bars
/// move to their new places; the panes keep theirs.
pub open spec fn spec_resize(a: AppView, width: u16, height: u16) -> AppView {
    let l = spec_layout(width, height);
    AppView {
        top_bar: TopBarView { rect: l.top_bar, ..a.top_bar },
        bot_bar: BotBarView { rect: l.bot_bar, ..a.bot_bar },
        ..a
    }
}

impl App {
    /// The screen of size `size`, browsing `initial_path` whose entries are
    /// `listing`, with room for two file panes side by side, the first one
    /// open on `initial_path`.
    pub fn new(size: Rect, initial_path: &String, listing: Vec<Entry>) -> (r: App)
        requires
            layout_fits(size.width, size.height),
            trail_defined(initial_path@),
        ensures
            app_wf(r@),
            r@.file_panes.nr_of_panes == 2,
            r@.top_bar.rect.y == 0,
            r@.bot_bar.rect.y == size.height - 1,
            spec_new_app(r@, size, initial_path@, listing@),
    {
        let layout = AppLayout::new(size.width, size.height);
        let r = App {
            top_bar: TopBar::new(initial_path, layout.top_bar),
            bot_bar: BotBar::new(initial_path, layout.bot_bar),
            fav_pane: FavPane::new(layout.fav_pane),
            file_panes: FilePanes::new(initial_path, NR_OF_PANES, layout.file_panes, listing),
        };
        proof {
            lemma_trail_paths_defined(initial_path@);
        }
        r
    }

    /// The screen as `new` makes it, or nothing when the screen is too small
    /// for the layout or `initial_path` has no trail.
    pub fn try_new(size: Rect, initial_path: &String, listing: Vec<Entry>) -> (r: Option<App>)
        ensures
            r is Some <==> layout_fits(size.width, size.height) && trail_defined(initial_path@),
            r matches Some(a) ==> app_wf(a@) && a@.file_panes.nr_of_panes == 2
                && spec_new_app(a@, size, initial_path@, listing@),
    {
        if size.width >= FAV_PANE_WIDTH && size.height >= TOP_BAR_HEIGHT + BOT_BAR_HEIGHT
            && trail_is_defined(initial_path) {
            Some(App::new(size, initial_path, listing))
        } else {
            None
        }
    }

    /// Moves the two bars to their places on a screen of `width` by
    /// `height`.
    pub fn resize(&mut self, width: u16, height: u16)
        requires
            layout_fits(width, height),
        ensures
            final(self)@ == spec_resize(old(self)@, width, height),
    {
        let new_layout = AppLayout::new(width, height);
        self.top_bar.resize(new_layout.top_bar);
        self.bot_bar.resize(new_layout.bot_bar);
    }

    /// The part of the screen that the cell (`column`, `row`) lies on.
    pub fn get_component_at(&self, row: u16, column: u16) -> (r: Option<Component>)
        requires
            component_computable(self@, row, column),
        ensures
            r == spec_component_at(self@, row, column),
    {
        if row < self.top_bar.rect.height {
            return Some(Component::TopBar);
        }
        if row > self.bot_bar.rect.y {
            return Some(Component::BotBar);
        }
        if column <= self.fav_pane.rect.width {
            return Some(Component::FavPane);
        }
        if column <= self.fav_pane.rect.width + self.file_panes.rect.width {
            return Some(Component::FilePanes);
        }
        None
    }
}

/// On a screen laid out for `width` by `height` cells, every cell of the
/// screen lies on one of its parts: the top bar on the first two rows, the
/// bottom bar below the last row of the panes, the pane of favourites up to
/// column fifteen and the file panes after it.
pub proof fn law_every_cell_has_a_component(a: AppView, width: u16, height: u16, row: u16, column: u16)
    requires
        layout_fits(width, height),
        a.top_bar.rect == spec_layout(width, height).top_bar,
        a.bot_bar.rect == spec_layout(width, height).bot_bar,
        a.fav_pane.rect == spec_layout(width, height).fav_pane,
        a.file_panes.rect == spec_layout(width, height).file_panes,
        column < width,
    ensures
        component_computable(a, row, column),
        spec_component_at(a, row, column) is Some,
        spec_component_at(a, row, column) == Some(Component::FilePanes) <==> (TOP_BAR_HEIGHT <= row
            <= height - BOT_BAR_HEIGHT && column > FAV_PANE_WIDTH),
{
}

} // verus!
