use vstd::prelude::*;
use crate::app::{
    App,
    AppView,
    Component,
    app_wf,
    component_computable,
    spec_component_at,
    spec_resize,
    layout_fits,
    with_file_panes,
    with_hovered,
    with_trail,
    with_pane,
    with_selection,
    spec_close_from,
};
use crate::finder::{Entry, FileKind};
use crate::geometry::{MouseButton, MouseEvent, MouseEventKind};
use crate::hover::{hover_computable, hover_scan_ok, hovered_index};
use crate::paths::{law_trail_ends_with_path, lemma_trail_paths_defined, trail_defined, trail_is_defined};
use crate::ui_components::file_pane::{
    FilePaneView,
    file_index_computable,
    spec_file_index_at,
    spec_scroll_down,
    spec_scroll_up,
};
use crate::ui_components::file_panes::{
    FilePanesView,
    preview_index,
    preview_rect,
    strings_view,
    listings_view,
    pane_index_computable,
    show_dir_reads,
    show_file_reads,
    spec_pane_index_at,
    spec_show_dir,
    spec_show_file,
    law_show_dir_shows_path,
    law_show_file_previews,
};

verus! {

/// The directory of the trail under the event's column.
pub open spec fn top_bar_hovered(a: AppView, e: MouseEvent) -> Option<usize> {
    hovered_index(a.top_bar.path_breadcrumbs.paths, e.column, 4)
}

/// Whether the event is the release of the left button.
pub open spec fn is_left_click(e: MouseEvent) -> bool {
    e.kind == MouseEventKind::Up(MouseButton::Left)
}

/// A mouse event on the top bar: the directory under the pointer becomes the
/// hovered one; a left click on it shows it in the first pane (closing the
/// others) and in the trail.
pub open spec fn spec_top_bar_mouse(a: AppView, e: MouseEvent, listings: Seq<Seq<Entry>>) -> AppView {
    let h = top_bar_hovered(a, e);
    let a1 = with_hovered(a, h);
    if is_left_click(e) && h is Some {
        let path = a.top_bar.path_breadcrumbs.paths[h->0 as int].1;
        with_trail(with_file_panes(a1, spec_show_dir(a.file_panes, path, 0, listings)), path)
    } else {
        a1
    }
}

/// The pane under the event, when one is open there.
pub open spec fn event_pane(a: AppView, e: MouseEvent) -> Option<usize> {
    spec_pane_index_at(a.file_panes, e.column)
}

/// The entry under a left click in pane `i`, when there is one.
pub open spec fn event_file(a: AppView, e: MouseEvent, i: usize) -> Option<usize> {
    spec_file_index_at(a.file_panes.panes[i as int], e.row)
}

/// Opening entry `fi` of pane `i`: the pane gets the focus and the entry is
/// selected; a directory is shown in the pane to the right and in the
/// trail; a file is previewed to the right, and the trail shows the pane's
/// directory; anything else is only selected.
pub open spec fn spec_open_entry(
    a: AppView,
    i: usize,
    fi: usize,
    listings: Seq<Seq<Entry>>,
    size: Option<u64>,
) -> AppView {
    let pane = a.file_panes.panes[i as int];
    let fp2 = with_selection(FilePanesView { focused: Some(i), ..a.file_panes }, i as int, Some(fi));
    let entry = pane.entries[fi as int];
    match entry.kind {
        FileKind::Dir => with_trail(
            with_file_panes(a, spec_show_dir(fp2, entry.path@, (i + 1) as usize, listings)),
            entry.path@,
        ),
        FileKind::File => with_trail(
            with_file_panes(a, spec_show_file(fp2, entry.path@, (i + 1) as usize, listings, size)),
            pane.current_path,
        ),
        _ => with_file_panes(a, fp2),
    }
}

/// What opening entry `fi` of pane `i` reads: the directories, in order, and
/// the file whose size is shown.
pub open spec fn open_entry_reads(a: AppView, i: usize, fi: usize) -> (Seq<Seq<char>>, Option<Seq<char>>) {
    let fp2 = with_selection(FilePanesView { focused: Some(i), ..a.file_panes }, i as int, Some(fi));
    let entry = a.file_panes.panes[i as int].entries[fi as int];
    match entry.kind {
        FileKind::Dir => (show_dir_reads(fp2, entry.path@, (i + 1) as usize), None),
        FileKind::File => (show_file_reads(fp2, entry.path@, (i + 1) as usize), Some(entry.path@)),
        _ => (Seq::empty(), None),
    }
}

/// Whether entry `fi` of pane `i` can be opened: the path whose trail is
/// then shown has one.
pub open spec fn open_entry_ok(a: AppView, i: usize, fi: usize) -> bool {
    let pane = a.file_panes.panes[i as int];
    match pane.entries[fi as int].kind {
        FileKind::Dir => trail_defined(pane.entries[fi as int].path@),
        FileKind::File => trail_defined(pane.current_path),
        _ => true,
    }
}

/// A left click in pane `i`: on an entry, the entry is opened (see
/// `spec_open_entry`). Off the entries, the pane gets the focus, the panes
/// to its right close, its selection is cleared and the trail shows its
/// directory.
pub open spec fn spec_pane_click(
    a: AppView,
    e: MouseEvent,
    i: usize,
    listings: Seq<Seq<Entry>>,
    size: Option<u64>,
) -> AppView {
    let fp1 = FilePanesView { focused: Some(i), ..a.file_panes };
    let pane = a.file_panes.panes[i as int];
    match event_file(a, e, i) {
        Some(fi) => spec_open_entry(a, i, fi, listings, size),
        None => with_trail(
            with_file_panes(a, with_selection(spec_close_from(fp1, i + 1), i as int, None)),
            pane.current_path,
        ),
    }
}

/// A mouse event on the file panes: a left click is handled by
/// `spec_pane_click`; the wheel scrolls the pane under the pointer.
pub open spec fn spec_file_panes_mouse(
    a: AppView,
    e: MouseEvent,
    listings: Seq<Seq<Entry>>,
    size: Option<u64>,
) -> AppView {
    match event_pane(a, e) {
        None => a,
        Some(i) => if is_left_click(e) {
            spec_pane_click(a, e, i, listings, size)
        } else if e.kind == MouseEventKind::ScrollUp {
            with_file_panes(a, with_pane(a.file_panes, i as int, spec_scroll_up(a.file_panes.panes[i as int])))
        } else if e.kind == MouseEventKind::ScrollDown {
            with_file_panes(a, with_pane(a.file_panes, i as int, spec_scroll_down(a.file_panes.panes[i as int])))
        } else {
            a
        },
    }
}

/// A mouse event: handled by the part of the screen under it, for the top
/// bar and the file panes.
pub open spec fn spec_mouse_event(
    a: AppView,
    e: MouseEvent,
    listings: Seq<Seq<Entry>>,
    size: Option<u64>,
) -> AppView {
    match spec_component_at(a, e.row, e.column) {
        Some(Component::TopBar) => spec_top_bar_mouse(a, e, listings),
        Some(Component::FilePanes) => spec_file_panes_mouse(a, e, listings, size),
        _ => a,
    }
}

/// What handling a mouse event reads from the file system: the directories,
/// in order, and the file whose size is shown.
pub open spec fn mouse_reads(a: AppView, e: MouseEvent) -> (Seq<Seq<char>>, Option<Seq<char>>) {
    match spec_component_at(a, e.row, e.column) {
        Some(Component::TopBar) => {
            let h = top_bar_hovered(a, e);
            if is_left_click(e) && h is Some {
                (show_dir_reads(a.file_panes, a.top_bar.path_breadcrumbs.paths[h->0 as int].1, 0), None)
            } else {
                (Seq::empty(), None)
            }
        },
        Some(Component::FilePanes) => match event_pane(a, e) {
            Some(i) => if is_left_click(e) {
                match event_file(a, e, i) {
                    Some(fi) => open_entry_reads(a, i, fi),
                    None => (Seq::empty(), None),
                }
            } else {
                (Seq::empty(), None)
            },
            None => (Seq::empty(), None),
        },
        _ => (Seq::empty(), None),
    }
}

/// Whether a mouse event can be handled without leaving the range of the
/// numbers involved or loading a trail of a path that has none.
pub open spec fn mouse_event_ok(a: AppView, e: MouseEvent) -> bool {
    &&& component_computable(a, e.row, e.column)
    &&& spec_component_at(a, e.row, e.column) == Some(Component::TopBar) ==> hover_computable(
        a.top_bar.path_breadcrumbs.paths,
        e.column,
        4,
    )
    &&& spec_component_at(a, e.row, e.column) == Some(Component::FilePanes) ==> {
        &&& pane_index_computable(a.file_panes, e.column)
        &&& event_pane(a, e) matches Some(i) ==> {
            let pane = a.file_panes.panes[i as int];
            &&& is_left_click(e) ==> {
                &&& file_index_computable(pane, e.row)
                &&& match event_file(a, e, i) {
                    Some(fi) => open_entry_ok(a, i, fi),
                    None => trail_defined(pane.current_path),
                }
            }
            &&& e.kind == MouseEventKind::ScrollDown ==> pane.scroll_offset < usize::MAX
        }
    }
}


/// A mouse event on the top bar (see `spec_top_bar_mouse`).
fn handle_mouse_event_top_bar(app: &mut App, event: MouseEvent, listings: Vec<Vec<Entry>>)
    requires
        app_wf(old(app)@),
        mouse_event_ok(old(app)@, event),
        spec_component_at(old(app)@, event.row, event.column) == Some(Component::TopBar),
        listings@.len() == mouse_reads(old(app)@, event).0.len(),
    ensures
        app_wf(final(app)@),
        final(app)@ == spec_top_bar_mouse(old(app)@, event, listings_view(listings@)),
{
    let h = app.top_bar.path_breadcrumbs.get_hovered_index(event);
    app.top_bar.path_breadcrumbs.hovered_path = h;
    match event.kind {
        MouseEventKind::Up(MouseButton::Left) => {
            if let Some(path_index) = h {
                let path = app.top_bar.path_breadcrumbs.paths[path_index].1.clone();
                assert(path@ == old(app)@.top_bar.path_breadcrumbs.paths[path_index as int].1);
                app.file_panes.show_dir(&path, 0, listings);
                app.top_bar.path_breadcrumbs.load_path(&path);
                proof {
                    lemma_trail_paths_defined(path@);
                }
            }
        },
        _ => {},
    }
}


/// Opens entry `fi` of pane `i` (see `spec_open_entry`).
fn open_entry(app: &mut App, i: usize, fi: usize, listings: Vec<Vec<Entry>>, size: Option<u64>)
    requires
        app_wf(old(app)@),
        i < old(app)@.file_panes.panes.len(),
        fi < old(app)@.file_panes.panes[i as int].entries.len(),
        open_entry_ok(old(app)@, i, fi),
        listings@.len() == open_entry_reads(old(app)@, i, fi).0.len(),
    ensures
        app_wf(final(app)@),
        final(app)@ == spec_open_entry(old(app)@, i, fi, listings_view(listings@), size),
{
    let ghost a = app@;
    app.file_panes.focused = Some(i);
    let ghost fp1 = app.file_panes@;
    assert(app.file_panes.panes@.len() == fp1.panes.len());
    app.file_panes.panes[i].select(Some(fi));
    assert(app.file_panes@ =~~= with_selection(fp1, i as int, Some(fi)));
    let kind = app.file_panes.panes[i].entries[fi].kind;
    let path = app.file_panes.panes[i].entries[fi].path.clone();
    match kind {
        FileKind::Dir => {
            app.top_bar.path_breadcrumbs.load_path(&path);
            app.file_panes.show_dir(&path, i + 1, listings);
            proof {
                lemma_trail_paths_defined(path@);
            }
        },
        FileKind::File => {
            let cur = app.file_panes.panes[i].current_path.clone();
            app.top_bar.path_breadcrumbs.load_path(&cur);
            app.file_panes.show_file(&path, i + 1, listings, size);
            proof {
                lemma_trail_paths_defined(cur@);
            }
        },
        _ => {},
    }
}

/// A mouse event on the file panes (see `spec_file_panes_mouse`).
fn handle_mouse_event_file_panes(
    app: &mut App,
    event: MouseEvent,
    listings: Vec<Vec<Entry>>,
    size: Option<u64>,
)
    requires
        app_wf(old(app)@),
        mouse_event_ok(old(app)@, event),
        spec_component_at(old(app)@, event.row, event.column) == Some(Component::FilePanes),
        listings@.len() == mouse_reads(old(app)@, event).0.len(),
    ensures
        app_wf(final(app)@),
        final(app)@ == spec_file_panes_mouse(old(app)@, event, listings_view(listings@), size),
{
    let ghost a = app@;
    let row = event.row;
    let col = event.column;
    let pane_index_option = app.file_panes.get_pane_index_at(row, col);
    if pane_index_option.is_none() {
        return ;
    }
    let pane_index = pane_index_option.unwrap();
    match event.kind {
        MouseEventKind::Up(MouseButton::Left) => {
            let fi = app.file_panes.panes[pane_index].get_file_index_at(row, col);
            assert(app@ =~~= a);
            match fi {
                Some(file_index) => {
                    open_entry(app, pane_index, file_index, listings, size);
                },
                None => {
                    app.file_panes.focused = Some(pane_index);
                    app.file_panes.close_from(pane_index + 1);
                    let ghost fp2 = app.file_panes@;
                    assert(fp2.panes.len() == pane_index + 1);
                    assert(app.file_panes.panes@.len() == fp2.panes.len());
                    app.file_panes.panes[pane_index].select(None);
                    assert(app.file_panes@ =~~= with_selection(fp2, pane_index as int, None));
                    let cur = app.file_panes.panes[pane_index].current_path.clone();
                    app.top_bar.path_breadcrumbs.load_path(&cur);
                    proof {
                        lemma_trail_paths_defined(cur@);
                    }
                },
            }
        },
        MouseEventKind::ScrollUp => {
            app.file_panes.panes[pane_index].scroll_up();
            assert(app.file_panes@ =~~= with_pane(
                a.file_panes,
                pane_index as int,
                spec_scroll_up(a.file_panes.panes[pane_index as int]),
            ));
        },
        MouseEventKind::ScrollDown => {
            app.file_panes.panes[pane_index].scroll_down();
            assert(app.file_panes@ =~~= with_pane(
                a.file_panes,
                pane_index as int,
                spec_scroll_down(a.file_panes.panes[pane_index as int]),
            ));
        },
        _ => {},
    }
}

/// A key pressed.
#[derive(Clone, Copy, Debug, PartialEq, Eq, Structural)]
pub enum Key {
    Esc,
    Enter,
    Up,
    Down,
    Left,
    Right,
    Char(char),
    /// Any other key.
    Other,
}

/// An event of the terminal.
#[derive(Clone, Copy, Debug, PartialEq, Eq, Structural)]
pub enum Event {
    Key(Key),
    Mouse(MouseEvent),
    /// The terminal now has this many columns and rows.
    Resize(u16, u16),
    /// Anything else (focus, paste).
    Other,
}

/// The pane that has the focus, when it is open.
pub open spec fn focused_pane(a: AppView) -> Option<usize> {
    match a.file_panes.focused {
        Some(i) => if i < a.file_panes.panes.len() {
            Some(i)
        } else {
            None
        },
        None => None,
    }
}

/// Whether the key moves the selection up: the up arrow or `k`.
pub open spec fn is_up_key(k: Key) -> bool {
    k == Key::Up || k == Key::Char('k')
}

/// Whether the key moves the selection down: the down arrow or `j`.
pub open spec fn is_down_key(k: Key) -> bool {
    k == Key::Down || k == Key::Char('j')
}

/// The selection after moving up: the entry above, none above the first;
/// the first entry when none was selected.
pub open spec fn selection_up(p: FilePaneView) -> Option<usize> {
    match p.selected {
        Some(s) => if s > 0 {
            Some((s - 1) as usize)
        } else {
            Some(s)
        },
        None => if p.entries.len() > 0 {
            Some(0usize)
        } else {
            None
        },
    }
}

/// The selection after moving down: the entry below, none below the last;
/// the first entry when none was selected.
pub open spec fn selection_down(p: FilePaneView) -> Option<usize> {
    match p.selected {
        Some(s) => if s + 1 < p.entries.len() {
            Some((s + 1) as usize)
        } else {
            Some(s)
        },
        None => if p.entries.len() > 0 {
            Some(0usize)
        } else {
            None
        },
    }
}

/// A key other than escape: in the focused pane, the arrows and `j`/`k`
/// move the selection, and enter opens the selected entry (see
/// `spec_open_entry`); nothing happens without a focused pane, or for other
/// keys.
pub open spec fn spec_key(a: AppView, k: Key, listings: Seq<Seq<Entry>>, size: Option<u64>) -> AppView {
    match focused_pane(a) {
        Some(i) => {
            let p = a.file_panes.panes[i as int];
            if is_up_key(k) {
                with_file_panes(a, with_selection(a.file_panes, i as int, selection_up(p)))
            } else if is_down_key(k) {
                with_file_panes(a, with_selection(a.file_panes, i as int, selection_down(p)))
            } else if k == Key::Enter {
                match p.selected {
                    Some(fi) => if fi < p.entries.len() {
                        spec_open_entry(a, i, fi, listings, size)
                    } else {
                        a
                    },
                    None => a,
                }
            } else {
                a
            }
        },
        None => a,
    }
}

/// The entry that enter opens: the selected one of the focused pane, when
/// it is one of its entries.
pub open spec fn entry_to_open(a: AppView, k: Key) -> Option<(usize, usize)> {
    match focused_pane(a) {
        Some(i) => match a.file_panes.panes[i as int].selected {
            Some(fi) => if k == Key::Enter && fi < a.file_panes.panes[i as int].entries.len() {
                Some((i, fi))
            } else {
                None
            },
            None => None,
        },
        None => None,
    }
}

/// Whether an event can be handled (see `mouse_event_ok` and
/// `open_entry_ok`; a resize needs a screen large enough for the layout).
pub open spec fn event_ok(a: AppView, e: Event) -> bool {
    match e {
        Event::Mouse(m) => mouse_event_ok(with_hovered(a, None), m),
        Event::Resize(w, h) => layout_fits(w, h),
        Event::Key(k) => match entry_to_open(a, k) {
            Some((i, fi)) => open_entry_ok(a, i, fi),
            None => true,
        },
        _ => true,
    }
}

/// What handling an event reads from the file system: directories, in
/// order, and the file whose size is shown.
pub open spec fn event_reads(a: AppView, e: Event) -> (Seq<Seq<char>>, Option<Seq<char>>) {
    match e {
        Event::Mouse(m) => mouse_reads(with_hovered(a, None), m),
        Event::Key(k) => match entry_to_open(a, k) {
            Some((i, fi)) => open_entry_reads(a, i, fi),
            None => (Seq::empty(), None),
        },
        _ => (Seq::empty(), None),
    }
}

/// The screen after an event: no directory of the trail stays hovered;
/// escape changes nothing more, another key is handled by `spec_key`, a
/// mouse event by `spec_mouse_event`, a resize by `spec_resize`.
pub open spec fn spec_handle_event(
    a: AppView,
    e: Event,
    listings: Seq<Seq<Entry>>,
    size: Option<u64>,
) -> AppView {
    let a0 = with_hovered(a, None);
    match e {
        Event::Mouse(m) => spec_mouse_event(a0, m, listings, size),
        Event::Resize(w, h) => spec_resize(a0, w, h),
        Event::Key(Key::Esc) => a0,
        Event::Key(k) => spec_key(a0, k, listings, size),
        _ => a0,
    }
}

/// A key other than escape (see `spec_key`).
fn handle_key_event(app: &mut App, key: Key, listings: Vec<Vec<Entry>>, size: Option<u64>)
    requires
        app_wf(old(app)@),
        entry_to_open(old(app)@, key) matches Some((i, fi)) ==> open_entry_ok(old(app)@, i, fi),
        listings@.len() == match entry_to_open(old(app)@, key) {
            Some((i, fi)) => open_entry_reads(old(app)@, i, fi).0.len(),
            None => 0,
        },
    ensures
        app_wf(final(app)@),
        final(app)@ == spec_key(old(app)@, key, listings_view(listings@), size),
{
    let ghost a = app@;
    let i = match app.file_panes.focused {
        Some(i) => i,
        None => {
            return ;
        },
    };
    if i >= app.file_panes.panes.len() {
        return ;
    }
    let n = app.file_panes.panes[i].entries.len();
    let selected = app.file_panes.panes[i].selected;
    match key {
        Key::Up | Key::Char('k') => {
            let sel = match selected {
                Some(s) => if s > 0 {
                    Some(s - 1)
                } else {
                    Some(s)
                },
                None => if n > 0 {
                    Some(0)
                } else {
                    None
                },
            };
            app.file_panes.panes[i].select(sel);
            assert(app.file_panes@ =~~= with_selection(a.file_panes, i as int, sel));
        },
        Key::Down | Key::Char('j') => {
            let sel = match selected {
                Some(s) => if n > 0 && s < n - 1 {
                    Some(s + 1)
                } else {
                    Some(s)
                },
                None => if n > 0 {
                    Some(0)
                } else {
                    None
                },
            };
            app.file_panes.panes[i].select(sel);
            assert(app.file_panes@ =~~= with_selection(a.file_panes, i as int, sel));
        },
        Key::Enter => {
            if let Some(fi) = selected {
                if fi < n {
                    open_entry(app, i, fi, listings, size);
                }
            }
        },
        _ => {},
    }
}

/// A mouse event (see `spec_mouse_event`).
fn handle_mouse_event(app: &mut App, event: MouseEvent, listings: Vec<Vec<Entry>>, size: Option<u64>)
    requires
        app_wf(old(app)@),
        mouse_event_ok(old(app)@, event),
        listings@.len() == mouse_reads(old(app)@, event).0.len(),
    ensures
        app_wf(final(app)@),
        final(app)@ == spec_mouse_event(old(app)@, event, listings_view(listings@), size),
{
    if let Some(component) = app.get_component_at(event.row, event.column) {
        match component {
            Component::TopBar => {
                handle_mouse_event_top_bar(app, event, listings);
            },
            Component::FilePanes => {
                handle_mouse_event_file_panes(app, event, listings, size);
            },
            _ => {},
        }
    }
}

/// Handles an event read from the terminal and says whether the program
/// quits, which it does on escape. `listings` are the entries of the
/// directories that `event_reads` lists, read in that order by the caller,
/// and `size` the length of the file it names, when its metadata could be
/// read.
pub fn handle_event(app: &mut App, event: &Event, listings: Vec<Vec<Entry>>, size: Option<u64>) -> (quit: bool)
    requires
        app_wf(old(app)@),
        event_ok(old(app)@, *event),
        listings@.len() == event_reads(old(app)@, *event).0.len(),
    ensures
        app_wf(final(app)@),
        final(app)@ == spec_handle_event(old(app)@, *event, listings_view(listings@), size),
        quit == (*event == Event::Key(Key::Esc)),
{
    app.top_bar.path_breadcrumbs.hovered_path = None;
    match event {
        Event::Key(Key::Esc) => {
            return true;
        },
        Event::Key(k) => {
            handle_key_event(app, *k, listings, size);
        },
        Event::Mouse(m) => {
            handle_mouse_event(app, *m, listings, size);
        },
        Event::Resize(width, height) => {
            app.resize(*width, *height);
        },
        _ => {},
    }
    false
}

/// What handling an event reads: the directories, in order, and the file
/// whose size is shown.
pub struct Reads {
    pub dirs: Vec<String>,
    pub file: Option<String>,
}

/// The entry that enter opens (see `entry_to_open`).
fn entry_to_open_of(app: &App, key: Key) -> (r: Option<(usize, usize)>)
    ensures
        r == entry_to_open(app@, key),
{
    match key {
        Key::Enter => {},
        _ => {
            return None;
        },
    }
    let i = match app.file_panes.focused {
        Some(i) => i,
        None => {
            return None;
        },
    };
    if i >= app.file_panes.panes.len() {
        return None;
    }
    match app.file_panes.panes[i].selected {
        Some(fi) => if fi < app.file_panes.panes[i].entries.len() {
            Some((i, fi))
        } else {
            None
        },
        None => None,
    }
}

/// What opening entry `fi` of pane `i` reads (see `open_entry_reads`).
fn open_entry_reads_of(app: &App, i: usize, fi: usize) -> (r: Reads)
    requires
        app_wf(app@),
        i < app@.file_panes.panes.len(),
        fi < app@.file_panes.panes[i as int].entries.len(),
    ensures
        strings_view(r.dirs@) == open_entry_reads(app@, i, fi).0,
        match r.file {
            Some(f) => open_entry_reads(app@, i, fi).1 == Some(f@),
            None => open_entry_reads(app@, i, fi).1 is None,
        },
{
    let ghost fp2 = with_selection(
        FilePanesView { focused: Some(i), ..app@.file_panes },
        i as int,
        Some(fi),
    );
    let entry = &app.file_panes.panes[i].entries[fi];
    match entry.kind {
        FileKind::Dir => {
            let dirs = app.file_panes.show_dir_reads_of(&entry.path, i + 1);
            assert(show_dir_reads(fp2, entry.path@, (i + 1) as usize) =~= show_dir_reads(
                app.file_panes@,
                entry.path@,
                (i + 1) as usize,
            ));
            Reads { dirs, file: None }
        },
        FileKind::File => {
            let dirs = app.file_panes.show_file_reads_of(&entry.path, i + 1);
            assert(show_file_reads(fp2, entry.path@, (i + 1) as usize) =~= show_file_reads(
                app.file_panes@,
                entry.path@,
                (i + 1) as usize,
            ));
            Reads { dirs, file: Some(entry.path.clone()) }
        },
        _ => {
            let none = Reads { dirs: Vec::new(), file: None };
            assert(strings_view(none.dirs@) =~= Seq::empty());
            none
        },
    }
}

/// Whether entry `fi` of pane `i` can be opened (see `open_entry_ok`).
fn open_entry_ok_of(app: &App, i: usize, fi: usize) -> (r: bool)
    requires
        i < app@.file_panes.panes.len(),
        fi < app@.file_panes.panes[i as int].entries.len(),
    ensures
        r == open_entry_ok(app@, i, fi),
{
    let pane = &app.file_panes.panes[i];
    match pane.entries[fi].kind {
        FileKind::Dir => trail_is_defined(&pane.entries[fi].path),
        FileKind::File => trail_is_defined(&pane.current_path),
        _ => true,
    }
}

/// What handling `event` reads from the file system (see `event_reads`).
pub fn reads_for_event(app: &App, event: &Event) -> (r: Reads)
    requires
        app_wf(app@),
        event_ok(app@, *event),
    ensures
        strings_view(r.dirs@) == event_reads(app@, *event).0,
        match r.file {
            Some(f) => event_reads(app@, *event).1 == Some(f@),
            None => event_reads(app@, *event).1 is None,
        },
{
    let none = Reads { dirs: Vec::new(), file: None };
    assert(strings_view(none.dirs@) =~= Seq::empty());
    let e = match event {
        Event::Mouse(m) => *m,
        Event::Key(k) => {
            return match entry_to_open_of(app, *k) {
                Some((i, fi)) => open_entry_reads_of(app, i, fi),
                None => none,
            };
        },
        _ => {
            return none;
        },
    };
    let row = e.row;
    let col = e.column;
    match app.get_component_at(row, col) {
        Some(Component::TopBar) => {
            let h = app.top_bar.path_breadcrumbs.get_hovered_index(e);
            match (e.kind, h) {
                (MouseEventKind::Up(MouseButton::Left), Some(i)) => {
                    let path = &app.top_bar.path_breadcrumbs.paths[i].1;
                    Reads { dirs: app.file_panes.show_dir_reads_of(path, 0), file: None }
                },
                _ => none,
            }
        },
        Some(Component::FilePanes) => {
            let pi = match app.file_panes.get_pane_index_at(row, col) {
                Some(pi) => pi,
                None => {
                    return none;
                },
            };
            match e.kind {
                MouseEventKind::Up(MouseButton::Left) => {},
                _ => {
                    return none;
                },
            }
            match app.file_panes.panes[pi].file_index_at_row(row) {
                Some(fi) => open_entry_reads_of(app, pi, fi),
                None => none,
            }
        },
        _ => none,
    }
}

/// Whether `event` can be handled (see `event_ok`).
pub fn can_handle_event(app: &App, event: &Event) -> (r: bool)
    requires
        app_wf(app@),
    ensures
        r == event_ok(app@, *event),
{
    let e = match event {
        Event::Mouse(m) => *m,
        Event::Resize(w, h) => {
            return *w >= crate::app::FAV_PANE_WIDTH && *h >= crate::app::TOP_BAR_HEIGHT
                + crate::app::BOT_BAR_HEIGHT;
        },
        Event::Key(k) => {
            return match entry_to_open_of(app, *k) {
                Some((i, fi)) => open_entry_ok_of(app, i, fi),
                None => true,
            };
        },
        _ => {
            return true;
        },
    };
    let row = e.row;
    let col = e.column;
    if row >= app.top_bar.rect.height && row <= app.bot_bar.rect.y && col > app.fav_pane.rect.width
        && app.fav_pane.rect.width as u32 + app.file_panes.rect.width as u32 > 65535 {
        return false;
    }
    match app.get_component_at(row, col) {
        Some(Component::TopBar) => hover_scan_ok(&app.top_bar.path_breadcrumbs.paths, col, 4),
        Some(Component::FilePanes) => {
            let fp = &app.file_panes;
            if !(fp.rect.x <= col && fp.nr_of_panes as u16 != 0 && fp.rect.width / (
            fp.nr_of_panes as u16) != 0) {
                return false;
            }
            let pi = match fp.get_pane_index_at(row, col) {
                Some(pi) => pi,
                None => {
                    return true;
                },
            };
            let pane = &fp.panes[pi];
            match e.kind {
                MouseEventKind::Up(MouseButton::Left) => {
                    if !pane.file_index_computable_at(row) {
                        return false;
                    }
                    match pane.file_index_at_row(row) {
                        Some(fi) => open_entry_ok_of(app, pi, fi),
                        None => trail_is_defined(&pane.current_path),
                    }
                },
                MouseEventKind::ScrollDown => pane.scroll_offset < usize::MAX,
                _ => true,
            }
        },
        _ => true,
    }
}

/// Handles an event as `handle_event` does, or nothing where it cannot be
/// handled (see `event_ok`) or `listings` is not one listing per directory
/// read; then the screen is left as it was.
pub fn try_handle_event(app: &mut App, event: &Event, listings: Vec<Vec<Entry>>, size: Option<u64>) -> (r: Option<bool>)
    requires
        app_wf(old(app)@),
    ensures
        app_wf(final(app)@),
        r is Some <==> event_ok(old(app)@, *event) && listings@.len() == event_reads(
            old(app)@,
            *event,
        ).0.len(),
        r matches Some(quit) ==> quit == (*event == Event::Key(Key::Esc)) && final(app)@ == spec_handle_event(
            old(app)@,
            *event,
            listings_view(listings@),
            size,
        ),
        r is None ==> final(app)@ == old(app)@,
{
    if !can_handle_event(app, event) {
        return None;
    }
    let reads = reads_for_event(app, event);
    if reads.dirs.len() != listings.len() {
        return None;
    }
    Some(handle_event(app, event, listings, size))
}

/// A left click on a directory in a pane opens it: the last open pane shows
/// it, the trail ends with it, and the pane clicked in has the focus and
/// the directory selected.
pub proof fn law_clicked_directory_is_shown(
    a: AppView,
    m: MouseEvent,
    i: usize,
    fi: usize,
    listings: Seq<Seq<Entry>>,
    size: Option<u64>,
)
    requires
        app_wf(a),
        event_ok(a, Event::Mouse(m)),
        listings.len() == event_reads(a, Event::Mouse(m)).0.len(),
        spec_component_at(a, m.row, m.column) == Some(Component::FilePanes),
        is_left_click(m),
        event_pane(a, m) == Some(i),
        event_file(a, m, i) == Some(fi),
        a.file_panes.panes[i as int].entries[fi as int].kind == FileKind::Dir,
    ensures
        ({
            let r = spec_handle_event(a, Event::Mouse(m), listings, size);
            let path = a.file_panes.panes[i as int].entries[fi as int].path@;
            &&& r.file_panes.panes.last().current_path == path
            &&& r.top_bar.path_breadcrumbs.paths.last().1 == path
            &&& r.file_panes.focused == Some(i)
            &&& i + 1 < a.file_panes.nr_of_panes ==> r.file_panes.panes[i as int].selected == Some(fi)
        }),
{
    let a0 = with_hovered(a, None);
    let path = a.file_panes.panes[i as int].entries[fi as int].path@;
    let fp2 = with_selection(FilePanesView { focused: Some(i), ..a0.file_panes }, i as int, Some(fi));
    law_show_dir_shows_path(fp2, path, (i + 1) as usize, listings);
    law_trail_ends_with_path(path);
}

/// Moving the selection down and back up gives back the selected entry,
/// where moving down moved it.
pub proof fn law_key_up_undoes_down(p: FilePaneView, s: usize)
    requires
        p.selected == Some(s),
        s + 1 < p.entries.len() <= usize::MAX,
    ensures
        selection_up(FilePaneView { selected: selection_down(p), ..p }) == Some(s),
{
}

/// The wheel turned down over an open pane scrolls that pane one entry
/// down exactly when an entry is left below the first one shown and the
/// entries from the first one shown on fill the pane; the pane keeps its
/// entries, directory, selection and area, and the other panes stay as they
/// were.
pub proof fn law_wheel_down_scrolls_the_pane(
    a: AppView,
    m: MouseEvent,
    i: usize,
    listings: Seq<Seq<Entry>>,
    size: Option<u64>,
)
    requires
        app_wf(a),
        event_ok(a, Event::Mouse(m)),
        spec_component_at(a, m.row, m.column) == Some(Component::FilePanes),
        m.kind == MouseEventKind::ScrollDown,
        event_pane(a, m) == Some(i),
    ensures
        ({
            let r = spec_handle_event(a, Event::Mouse(m), listings, size);
            let p = a.file_panes.panes[i as int];
            let q = r.file_panes.panes[i as int];
            &&& r.file_panes.panes.len() == a.file_panes.panes.len()
            &&& q.scroll_offset == if p.scroll_offset + 1 < p.entries.len() && p.entries.len()
                - p.scroll_offset >= p.rect.height {
                p.scroll_offset + 1
            } else {
                p.scroll_offset as int
            }
            &&& q.entries == p.entries
            &&& q.current_path == p.current_path
            &&& q.selected == p.selected
            &&& q.rect == p.rect
            &&& forall|j: int|
                0 <= j < a.file_panes.panes.len() && j != i ==> r.file_panes.panes[j]
                    == a.file_panes.panes[j]
            &&& r.file_panes.focused == a.file_panes.focused
        }),
{
}

/// The wheel turned up over an open pane scrolls that pane one entry up
/// unless it shows its first entry; the other panes stay as they were.
pub proof fn law_wheel_up_scrolls_the_pane(
    a: AppView,
    m: MouseEvent,
    i: usize,
    listings: Seq<Seq<Entry>>,
    size: Option<u64>,
)
    requires
        app_wf(a),
        event_ok(a, Event::Mouse(m)),
        spec_component_at(a, m.row, m.column) == Some(Component::FilePanes),
        m.kind == MouseEventKind::ScrollUp,
        event_pane(a, m) == Some(i),
    ensures
        ({
            let r = spec_handle_event(a, Event::Mouse(m), listings, size);
            let p = a.file_panes.panes[i as int];
            let q = r.file_panes.panes[i as int];
            &&& r.file_panes.panes.len() == a.file_panes.panes.len()
            &&& q.scroll_offset == if p.scroll_offset > 0 {
                p.scroll_offset - 1
            } else {
                0
            }
            &&& q.entries == p.entries
            &&& q.current_path == p.current_path
            &&& q.selected == p.selected
            &&& forall|j: int|
                0 <= j < a.file_panes.panes.len() && j != i ==> r.file_panes.panes[j]
                    == a.file_panes.panes[j]
        }),
{
}

/// A left click on a directory of the trail shows that directory: the row
/// keeps one pane, which lists it with the entries read, the trail ends with
/// it, and that directory stays hovered.
pub proof fn law_clicked_crumb_is_shown(
    a: AppView,
    m: MouseEvent,
    h: usize,
    listings: Seq<Seq<Entry>>,
    size: Option<u64>,
)
    requires
        app_wf(a),
        event_ok(a, Event::Mouse(m)),
        listings.len() == event_reads(a, Event::Mouse(m)).0.len(),
        spec_component_at(a, m.row, m.column) == Some(Component::TopBar),
        is_left_click(m),
        top_bar_hovered(a, m) == Some(h),
    ensures
        ({
            let r = spec_handle_event(a, Event::Mouse(m), listings, size);
            let path = a.top_bar.path_breadcrumbs.paths[h as int].1;
            &&& r.file_panes.panes.len() == 1
            &&& r.file_panes.panes[0].current_path == path
            &&& r.file_panes.panes[0].entries == listings[0]
            &&& r.file_panes.panes[0].selected is None
            &&& r.file_panes.preview is None
            &&& r.top_bar.path_breadcrumbs.paths.last().1 == path
            &&& r.top_bar.path_breadcrumbs.hovered_path == Some(h)
        }),
{
    let a0 = with_hovered(a, None);
    let path = a.top_bar.path_breadcrumbs.paths[h as int].1;
    assert(top_bar_hovered(a0, m) == Some(h));
    law_show_dir_shows_path(a0.file_panes, path, 0, listings);
    law_trail_ends_with_path(path);
}

/// A left click on a file in a pane previews it: the preview shows the
/// file's name and the size read, the trail ends with the pane's directory,
/// and the pane has the focus.
pub proof fn law_clicked_file_is_previewed(
    a: AppView,
    m: MouseEvent,
    i: usize,
    fi: usize,
    listings: Seq<Seq<Entry>>,
    size: Option<u64>,
)
    requires
        app_wf(a),
        event_ok(a, Event::Mouse(m)),
        listings.len() == event_reads(a, Event::Mouse(m)).0.len(),
        spec_component_at(a, m.row, m.column) == Some(Component::FilePanes),
        is_left_click(m),
        event_pane(a, m) == Some(i),
        event_file(a, m, i) == Some(fi),
        a.file_panes.panes[i as int].entries[fi as int].kind == FileKind::File,
    ensures
        ({
            let r = spec_handle_event(a, Event::Mouse(m), listings, size);
            let path = a.file_panes.panes[i as int].entries[fi as int].path@;
            &&& r.file_panes.preview is Some
            &&& r.file_panes.preview->0.file_name == match crate::paths::path_file_name(path) {
                Some(n) => n,
                None => Seq::empty(),
            }
            &&& r.file_panes.preview->0.size == match size {
                Some(n) => crate::ui_components::preview_pane::size_text(n as nat),
                None => Seq::empty(),
            }
            &&& r.top_bar.path_breadcrumbs.paths.last().1 == a.file_panes.panes[i as int].current_path
            &&& r.file_panes.focused == Some(i)
        }),
{
    let a0 = with_hovered(a, None);
    let path = a.file_panes.panes[i as int].entries[fi as int].path@;
    let fp2 = with_selection(FilePanesView { focused: Some(i), ..a0.file_panes }, i as int, Some(fi));
    law_show_file_previews(fp2, path, (i + 1) as usize, listings, size);
    law_trail_ends_with_path(a.file_panes.panes[i as int].current_path);
}

/// A left click in a pane below its entries gives the pane the focus,
/// clears its selection, closes the panes to its right, and the trail ends
/// with its directory.
pub proof fn law_click_below_entries_closes_the_right(
    a: AppView,
    m: MouseEvent,
    i: usize,
    listings: Seq<Seq<Entry>>,
    size: Option<u64>,
)
    requires
        app_wf(a),
        event_ok(a, Event::Mouse(m)),
        spec_component_at(a, m.row, m.column) == Some(Component::FilePanes),
        is_left_click(m),
        event_pane(a, m) == Some(i),
        event_file(a, m, i) is None,
    ensures
        ({
            let r = spec_handle_event(a, Event::Mouse(m), listings, size);
            &&& r.file_panes.panes.len() == i + 1
            &&& r.file_panes.panes[i as int].selected is None
            &&& r.file_panes.panes[i as int].current_path == a.file_panes.panes[i as int].current_path
            &&& forall|j: int| 0 <= j < i ==> r.file_panes.panes[j] == a.file_panes.panes[j]
            &&& r.file_panes.focused == Some(i)
            &&& r.top_bar.path_breadcrumbs.paths.last().1 == a.file_panes.panes[i as int].current_path
        }),
{
    law_trail_ends_with_path(a.file_panes.panes[i as int].current_path);
}

/// Any mouse event on the top bar leaves the directory under the pointer
/// hovered, and one that is not a left click on a directory changes
/// nothing else.
pub proof fn law_top_bar_hover(a: AppView, m: MouseEvent, listings: Seq<Seq<Entry>>, size: Option<u64>)
    requires
        app_wf(a),
        event_ok(a, Event::Mouse(m)),
        spec_component_at(a, m.row, m.column) == Some(Component::TopBar),
    ensures
        ({
            let r = spec_handle_event(a, Event::Mouse(m), listings, size);
            &&& r.top_bar.path_breadcrumbs.hovered_path == top_bar_hovered(a, m)
            &&& !(is_left_click(m) && top_bar_hovered(a, m) is Some) ==> r.file_panes == a.file_panes
                && r.top_bar.path_breadcrumbs.paths == a.top_bar.path_breadcrumbs.paths
        }),
{
}

} // verus!
