use termfinder::file_pane::{FilePane as ListPane, StatefulList};
use termfinder::finder::{Entry, FileKind};
use termfinder::geometry::{rect_new, MouseEvent, MouseEventKind, Rect};
use termfinder::list_state::ListState;
use termfinder::ui_components::file_pane::FilePane;
use termfinder::ui_components::file_panes::FilePanes;

fn entry(dir: &str, name: &str, kind: FileKind) -> Entry {
    Entry { name: Some(name.to_string()), path: format!("{}/{}", dir, name), kind }
}

fn listing(dir: &str, n: usize) -> Vec<Entry> {
    (0..n).map(|i| entry(dir, &format!("f{}", i), FileKind::File)).collect()
}

fn rect(x: u16, y: u16, width: u16, height: u16) -> Rect {
    Rect { x, y, width, height }
}

#[test]
fn list_selection_wraps_both_ways() {
    let mut l = StatefulList::with_items(vec![1, 2, 3]);
    assert_eq!(l.state, ListState { offset: 0, selected: None });
    l.next(10);
    assert_eq!(l.state.selected, Some(0));
    l.next(10);
    l.next(10);
    assert_eq!(l.state.selected, Some(2));
    l.next(10);
    assert_eq!(l.state.selected, Some(0));
    l.previous();
    assert_eq!(l.state.selected, Some(2));
    l.previous();
    assert_eq!(l.state.selected, Some(1));
    l.next(10);
    assert_eq!(l.state.selected, Some(2));
    l.unselect();
    assert_eq!(l.state, ListState { offset: 0, selected: None });
    l.previous();
    assert_eq!(l.state.selected, Some(0));
}

#[test]
fn list_scrolls_with_the_selection() {
    let mut l = StatefulList::with_items(vec![0; 10]);
    for _ in 0..4 {
        l.next(2);
    }
    // Selected 3, which is past 2 + 0: scrolled once.
    assert_eq!(l.state, ListState { offset: 1, selected: Some(3) });
    l.state.select(Some(5));
    l.state.offset = 6;
    l.previous();
    assert_eq!(l.state, ListState { offset: 5, selected: Some(4) });
}

#[test]
fn list_state_select_none_scrolls_to_top() {
    let mut s = ListState { offset: 4, selected: Some(7) };
    s.select(Some(2));
    assert_eq!(s, ListState { offset: 4, selected: Some(2) });
    s.select(None);
    assert_eq!(s, ListState { offset: 0, selected: None });
}

#[test]
fn list_pane_lists_icons_and_names() {
    let mut p = ListPane {
        files: StatefulList::with_items(Vec::new()),
        entries: Vec::new(),
        current_path: String::new(),
        rect: rect(0, 0, 10, 10),
    };
    let l = vec![
        entry("/d", "sub", FileKind::Dir),
        entry("/d", "a.txt", FileKind::File),
        entry("/d", "link", FileKind::Other),
        Entry { name: None, path: "/d/?".to_string(), kind: FileKind::Unknown },
    ];
    p.load_path("/d".to_string(), l);
    assert_eq!(p.current_path, "/d");
    assert_eq!(
        p.files.items,
        vec![
            (" \u{ea83} sub".to_string(), 0),
            (" \u{ea7b} a.txt".to_string(), 1),
            ("link".to_string(), 2),
            ("".to_string(), 3)
        ]
    );
    p.update(listing("/d", 1));
    assert_eq!(p.current_path, "/d");
    assert_eq!(p.files.items, vec![(" \u{ea7b} f0".to_string(), 0)]);
    p.files.state.offset = 3;
    let ev = MouseEvent { kind: MouseEventKind::Moved, column: 0, row: 5 };
    assert_eq!(p.get_index(ev), 6);
    assert!(p.is_mouse_on(10, 10));
    assert!(!p.is_mouse_on(11, 0));
}

#[test]
fn pane_scrolls_within_its_entries() {
    let mut p = FilePane::new(&"/d".to_string(), rect(0, 2, 10, 3), listing("/d", 5));
    assert_eq!(p.current_path, "/d");
    assert_eq!(p.entries.len(), 5);
    p.scroll_up();
    assert_eq!(p.scroll_offset, 0);
    p.scroll_down();
    p.scroll_down();
    assert_eq!(p.scroll_offset, 2);
    // 5 - 2 = 3 entries left, which still fill a height of 3: one more.
    p.scroll_down();
    assert_eq!(p.scroll_offset, 3);
    p.scroll_down();
    assert_eq!(p.scroll_offset, 3);
    p.scroll_up();
    assert_eq!(p.scroll_offset, 2);
}

#[test]
fn pane_entry_under_a_row() {
    let mut p = FilePane::new(&"/d".to_string(), rect(0, 2, 10, 3), listing("/d", 5));
    assert_eq!(p.get_file_index_at(2, 0), Some(0));
    assert_eq!(p.get_file_index_at(6, 0), Some(4));
    assert_eq!(p.get_file_index_at(7, 0), None);
    p.scroll_offset = 2;
    assert_eq!(p.get_file_index_at(4, 0), Some(4));
    assert_eq!(p.get_file_index_at(5, 0), None);
}

#[test]
fn pane_load_clears_selection_but_keeps_scrolling() {
    let mut p = FilePane::new_empty(rect(1, 2, 3, 4));
    assert!(p.entries.is_empty());
    assert_eq!(p.current_path, "");
    p.select(Some(3));
    p.scroll_offset = 2;
    p.load_path(&"/x".to_string(), listing("/x", 2));
    assert_eq!(p.selected, None);
    assert_eq!(p.scroll_offset, 2);
    p.resize(rect(5, 6, 7, 8));
    assert_eq!(p.rect, rect(5, 6, 7, 8));
}

fn panes(n: usize) -> FilePanes {
    FilePanes::new(&"/".to_string(), n, rect(15, 2, 80, 20), listing("", 3))
}

fn paths(fp: &FilePanes) -> Vec<String> {
    fp.panes.iter().map(|p| p.current_path.clone()).collect()
}

#[test]
fn row_opens_with_one_pane() {
    let fp = panes(4);
    assert_eq!(fp.panes.len(), 1);
    assert_eq!(fp.panes[0].rect, rect(15, 2, 20, 20));
    assert_eq!(fp.get_pane_index_at(5, 15), Some(0));
    assert_eq!(fp.get_pane_index_at(5, 34), Some(0));
    assert_eq!(fp.get_pane_index_at(5, 35), None);
}

#[test]
fn showing_directories_opens_and_closes_panes() {
    let mut fp = panes(4);
    fp.show_dir(&"/a".to_string(), 1, vec![listing("/a", 2)]);
    fp.show_dir(&"/a/b".to_string(), 2, vec![listing("/a/b", 1)]);
    assert_eq!(paths(&fp), vec!["/", "/a", "/a/b"]);
    assert_eq!(fp.panes[2].rect, rect(55, 2, 20, 20));
    fp.show_dir(&"/c".to_string(), 1, vec![listing("/c", 4)]);
    assert_eq!(paths(&fp), vec!["/", "/c"]);
    assert_eq!(fp.panes[1].entries.len(), 4);
    assert!(fp.preview.is_none());
}

#[test]
fn showing_past_a_full_row_moves_it_left() {
    let mut fp = panes(3);
    fp.show_dir(&"/a".to_string(), 1, vec![listing("/a", 1)]);
    fp.show_dir(&"/a/b".to_string(), 2, vec![listing("/a/b", 1)]);
    fp.panes[2].select(Some(0));
    let reads = fp.show_dir_reads_of(&"/a/b/c".to_string(), 3);
    assert_eq!(reads, vec!["/a", "/a/b", "/a/b/c"]);
    fp.show_dir(
        &"/a/b/c".to_string(),
        3,
        vec![listing("/a", 1), listing("/a/b", 2), listing("/a/b/c", 3)],
    );
    assert_eq!(paths(&fp), vec!["/a", "/a/b", "/a/b/c"]);
    assert_eq!(fp.panes[1].selected, Some(0));
    assert_eq!(fp.panes[1].entries.len(), 2);
    assert_eq!(fp.panes[2].entries.len(), 3);
    assert_eq!(fp.panes[2].selected, None);
}

#[test]
fn showing_a_file_previews_it() {
    let mut fp = panes(4);
    fp.show_dir(&"/a".to_string(), 1, vec![listing("/a", 2)]);
    fp.show_file(&"/a/notes.txt".to_string(), 2, Vec::new(), Some(2_500));
    assert_eq!(paths(&fp), vec!["/", "/a"]);
    let p = fp.preview.as_ref().unwrap();
    assert_eq!(p.file_name, "notes.txt");
    assert_eq!(p.size, "2 KB");
    assert_eq!(p.rect, rect(55, 2, 40, 20));
    fp.show_dir(&"/b".to_string(), 1, vec![listing("/b", 1)]);
    assert!(fp.preview.is_none());
}

#[test]
fn showing_a_file_past_a_full_row() {
    let mut fp = panes(2);
    fp.show_dir(&"/a".to_string(), 1, vec![listing("/a", 1)]);
    fp.show_file(&"/a/x.png".to_string(), 2, vec![listing("/a", 1), Vec::new()], None);
    assert_eq!(paths(&fp), vec!["/a", "/a/x.png"]);
    let p = fp.preview.as_ref().unwrap();
    assert_eq!(p.size, "");
    assert_eq!(p.rect, rect(55, 2, 40, 20));
}

#[test]
fn resizing_the_row_moves_each_pane() {
    let mut fp = panes(4);
    fp.show_dir(&"/a".to_string(), 1, vec![listing("/a", 1)]);
    fp.resize(rect(0, 0, 40, 10));
    assert_eq!(fp.panes[0].rect, rect(0, 0, 10, 10));
    assert_eq!(fp.panes[1].rect, rect(10, 0, 10, 10));
    fp.close_from(1);
    assert_eq!(fp.panes.len(), 1);
    fp.close_from(5);
    assert_eq!(fp.panes.len(), 1);
}

#[test]
fn large_rects_are_clipped() {
    assert_eq!(rect_new(1, 2, 100, 100), rect(1, 2, 100, 100));
    let r = rect_new(1, 2, 1000, 1000);
    assert_eq!((r.x, r.y), (1, 2));
    assert!((r.width as u32) * (r.height as u32) <= 65535);
    assert!(r.width < 1000);
}
