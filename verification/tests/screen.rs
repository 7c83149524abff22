use termfinder::app::{App, AppLayout, Component};
use termfinder::event_handler::{can_handle_event, handle_event, reads_for_event, try_handle_event, Event, Key};
use termfinder::finder::{Entry, FileKind};
use termfinder::geometry::{MouseButton, MouseEvent, MouseEventKind, Rect};

fn rect(x: u16, y: u16, width: u16, height: u16) -> Rect {
    Rect { x, y, width, height }
}

fn entry(dir: &str, name: &str, kind: FileKind) -> Entry {
    Entry { name: Some(name.to_string()), path: format!("{}/{}", dir, name), kind }
}

fn home() -> Vec<Entry> {
    vec![
        entry("/home", "docs", FileKind::Dir),
        entry("/home", "a.txt", FileKind::File),
        entry("/home", "link", FileKind::Other),
    ]
}

fn app() -> App {
    App::new(rect(0, 0, 95, 24), &"/home".to_string(), home())
}

fn click(column: u16, row: u16) -> Event {
    Event::Mouse(MouseEvent { kind: MouseEventKind::Up(MouseButton::Left), column, row })
}

fn step(app: &mut App, e: &Event, listings: Vec<Vec<Entry>>, size: Option<u64>) -> bool {
    assert!(can_handle_event(app, e));
    let reads = reads_for_event(app, e);
    assert_eq!(reads.dirs.len(), listings.len());
    handle_event(app, e, listings, size)
}

fn trail(app: &App) -> Vec<String> {
    app.top_bar.path_breadcrumbs.paths.iter().map(|p| p.1.clone()).collect()
}

#[test]
fn layout_tiles_the_screen() {
    let l = AppLayout::new(95, 24);
    assert_eq!(l.top_bar, rect(0, 0, 95, 2));
    assert_eq!(l.bot_bar, rect(0, 23, 95, 1));
    assert_eq!(l.fav_pane, rect(0, 2, 15, 21));
    assert_eq!(l.file_panes, rect(15, 2, 80, 21));
}

#[test]
fn screen_opens_on_the_directory() {
    let a = app();
    assert_eq!(trail(&a), vec!["/", "/home"]);
    assert_eq!(a.file_panes.panes.len(), 1);
    assert_eq!(a.file_panes.panes[0].current_path, "/home");
    assert_eq!(a.file_panes.nr_of_panes, 2);
    assert_eq!(a.file_panes.panes[0].rect, rect(15, 2, 40, 21));
    assert_eq!(a.bot_bar.prompt.root, "/home");
    assert!(App::try_new(rect(0, 0, 95, 24), &"home".to_string(), home()).is_none());
    assert!(App::try_new(rect(0, 0, 14, 24), &"/home".to_string(), home()).is_none());
    assert!(App::try_new(rect(0, 0, 15, 3), &"/home".to_string(), home()).is_some());
}

#[test]
fn cells_are_sorted_into_components() {
    let a = app();
    assert_eq!(a.get_component_at(0, 50), Some(Component::TopBar));
    assert_eq!(a.get_component_at(1, 50), Some(Component::TopBar));
    assert_eq!(a.get_component_at(23, 50), Some(Component::FilePanes));
    assert_eq!(a.get_component_at(24, 50), Some(Component::BotBar));
    assert_eq!(a.get_component_at(10, 15), Some(Component::FavPane));
    assert_eq!(a.get_component_at(10, 16), Some(Component::FilePanes));
    assert_eq!(a.get_component_at(10, 95), Some(Component::FilePanes));
    assert_eq!(a.get_component_at(10, 96), None);
}

#[test]
fn escape_quits() {
    let mut a = app();
    a.top_bar.path_breadcrumbs.hovered_path = Some(0);
    assert!(step(&mut a, &Event::Key(Key::Esc), Vec::new(), None));
    assert_eq!(a.top_bar.path_breadcrumbs.hovered_path, None);
    assert!(!step(&mut a, &Event::Other, Vec::new(), None));
    assert!(!step(&mut a, &Event::Key(Key::Char('q')), Vec::new(), None));
}

#[test]
fn keys_move_the_selection_in_the_focused_pane() {
    let mut a = app();
    // No pane has the focus yet: nothing moves.
    step(&mut a, &Event::Key(Key::Down), Vec::new(), None);
    assert_eq!(a.file_panes.panes[0].selected, None);
    a.file_panes.focused = Some(0);
    step(&mut a, &Event::Key(Key::Char('j')), Vec::new(), None);
    assert_eq!(a.file_panes.panes[0].selected, Some(0));
    step(&mut a, &Event::Key(Key::Down), Vec::new(), None);
    step(&mut a, &Event::Key(Key::Down), Vec::new(), None);
    step(&mut a, &Event::Key(Key::Down), Vec::new(), None);
    assert_eq!(a.file_panes.panes[0].selected, Some(2));
    step(&mut a, &Event::Key(Key::Char('k')), Vec::new(), None);
    assert_eq!(a.file_panes.panes[0].selected, Some(1));
    step(&mut a, &Event::Key(Key::Up), Vec::new(), None);
    step(&mut a, &Event::Key(Key::Up), Vec::new(), None);
    assert_eq!(a.file_panes.panes[0].selected, Some(0));
    step(&mut a, &Event::Key(Key::Left), Vec::new(), None);
    assert_eq!(a.file_panes.panes[0].selected, Some(0));
}

#[test]
fn enter_opens_the_selected_entry() {
    let mut a = app();
    a.file_panes.focused = Some(0);
    // Nothing selected: nothing to open.
    step(&mut a, &Event::Key(Key::Enter), Vec::new(), None);
    assert_eq!(a.file_panes.panes.len(), 1);
    step(&mut a, &Event::Key(Key::Down), Vec::new(), None);
    let e = Event::Key(Key::Enter);
    assert_eq!(reads_for_event(&a, &e).dirs, vec!["/home/docs".to_string()]);
    step(&mut a, &e, vec![vec![entry("/home/docs", "x", FileKind::File)]], None);
    assert_eq!(a.file_panes.panes.len(), 2);
    assert_eq!(a.file_panes.panes[1].current_path, "/home/docs");
    assert_eq!(trail(&a), vec!["/", "/home", "/home/docs"]);
    assert_eq!(a.file_panes.focused, Some(0));
}

#[test]
fn resizing_moves_the_bars_only() {
    let mut a = app();
    assert!(!step(&mut a, &Event::Resize(100, 30), Vec::new(), None));
    assert_eq!(a.top_bar.rect, rect(0, 0, 100, 2));
    assert_eq!(a.bot_bar.rect, rect(0, 29, 100, 1));
    assert_eq!(a.file_panes.rect, rect(15, 2, 80, 21));
    assert!(!can_handle_event(&a, &Event::Resize(10, 30)));
    assert_eq!(try_handle_event(&mut a, &Event::Resize(100, 2), Vec::new(), None), None);
}

#[test]
fn clicking_a_directory_opens_it() {
    let mut a = app();
    // Row 2 is the first entry of the first pane: "docs".
    assert!(!step(&mut a, &click(16, 2), vec![vec![entry("/home/docs", "x", FileKind::File)]], None));
    assert_eq!(a.file_panes.focused, Some(0));
    assert_eq!(a.file_panes.panes[0].selected, Some(0));
    assert_eq!(a.file_panes.panes.len(), 2);
    assert_eq!(a.file_panes.panes[1].current_path, "/home/docs");
    assert_eq!(trail(&a), vec!["/", "/home", "/home/docs"]);
}

#[test]
fn clicking_a_file_previews_it() {
    let mut a = app();
    let e = click(16, 3);
    let reads = reads_for_event(&a, &e);
    assert!(reads.dirs.is_empty());
    assert_eq!(reads.file, Some("/home/a.txt".to_string()));
    assert!(!step(&mut a, &e, Vec::new(), Some(12)));
    assert_eq!(a.file_panes.panes[0].selected, Some(1));
    let p = a.file_panes.preview.as_ref().unwrap();
    assert_eq!(p.file_name, "a.txt");
    assert_eq!(p.size, "12 B");
    assert_eq!(trail(&a), vec!["/", "/home"]);
}

#[test]
fn clicking_below_the_entries_closes_the_panes_right() {
    let mut a = app();
    step(&mut a, &click(16, 2), vec![Vec::new()], None);
    assert_eq!(a.file_panes.panes.len(), 2);
    step(&mut a, &click(16, 10), Vec::new(), None);
    assert_eq!(a.file_panes.panes.len(), 1);
    assert_eq!(a.file_panes.panes[0].selected, None);
    assert_eq!(trail(&a), vec!["/", "/home"]);
}

#[test]
fn clicking_a_crumb_shows_it_in_the_first_pane() {
    let mut a = app();
    step(&mut a, &click(16, 2), vec![Vec::new()], None);
    // "/" is hovered on column 0 only.
    let e = click(0, 0);
    assert_eq!(reads_for_event(&a, &e).dirs, vec!["/".to_string()]);
    step(&mut a, &e, vec![vec![entry("", "home", FileKind::Dir)]], None);
    assert_eq!(a.file_panes.panes.len(), 1);
    assert_eq!(a.file_panes.panes[0].current_path, "/");
    assert_eq!(trail(&a), vec!["/"]);
    assert_eq!(a.top_bar.path_breadcrumbs.hovered_path, Some(0));
}

#[test]
fn hovering_the_top_bar_marks_the_crumb() {
    let mut a = app();
    let e = Event::Mouse(MouseEvent { kind: MouseEventKind::Moved, column: 4, row: 0 });
    step(&mut a, &e, Vec::new(), None);
    assert_eq!(a.top_bar.path_breadcrumbs.hovered_path, Some(1));
}

#[test]
fn the_wheel_scrolls_the_pane() {
    let mut a = app();
    let down = Event::Mouse(MouseEvent { kind: MouseEventKind::ScrollDown, column: 20, row: 5 });
    let up = Event::Mouse(MouseEvent { kind: MouseEventKind::ScrollUp, column: 20, row: 5 });
    // Three entries do not fill 21 rows: no scrolling.
    step(&mut a, &down, Vec::new(), None);
    assert_eq!(a.file_panes.panes[0].scroll_offset, 0);
    a.file_panes.panes[0].scroll_offset = 1;
    step(&mut a, &up, Vec::new(), None);
    assert_eq!(a.file_panes.panes[0].scroll_offset, 0);
}

#[test]
fn events_that_cannot_be_handled_are_refused() {
    let mut a = app();
    a.file_panes.panes[0].entries.push(entry("rel", "x", FileKind::Dir));
    // Row 5 holds the entry with a relative path, which has no trail.
    let e = click(16, 5);
    assert!(!can_handle_event(&a, &e));
    assert_eq!(try_handle_event(&mut a, &e, Vec::new(), None), None);
    assert_eq!(a.file_panes.panes[0].selected, None);
    // Wrong number of listings.
    assert_eq!(try_handle_event(&mut a, &click(16, 2), Vec::new(), None), None);
    assert_eq!(try_handle_event(&mut a, &click(16, 2), vec![Vec::new()], None), Some(false));
}
