use termfinder::finder::{joined_path, move_file};
use termfinder::path_trail::PathTrail;
use termfinder::geometry::{MouseButton, MouseEvent, MouseEventKind, Rect};
use termfinder::paths::{breadcrumb_trail, trail_is_defined};
use termfinder::ui_components::path_breadcrumbs::PathBreadcrumbs;

fn pairs(v: &[(&str, &str)]) -> Vec<(String, String)> {
    v.iter().map(|(a, b)| (a.to_string(), b.to_string())).collect()
}

fn at(column: u16) -> MouseEvent {
    MouseEvent { kind: MouseEventKind::Moved, column, row: 0 }
}

#[test]
fn trail_lists_ancestors_from_the_root() {
    let t = breadcrumb_trail("/home/user/docs").unwrap();
    assert_eq!(
        t,
        pairs(&[("/", "/"), ("home", "/home"), ("user", "/home/user"), ("docs", "/home/user/docs")])
    );
}

#[test]
fn trail_of_the_root_is_the_root() {
    assert_eq!(breadcrumb_trail("/").unwrap(), pairs(&[("/", "/")]));
}

#[test]
fn trail_ends_with_the_path() {
    for p in ["/", "/a", "/a/b/c", "/tmp/x y/z"] {
        let t = breadcrumb_trail(p).unwrap();
        assert_eq!(t.last().unwrap().1, p);
    }
}

#[test]
fn relative_paths_have_no_trail() {
    assert!(breadcrumb_trail("a/b").is_none());
    assert!(breadcrumb_trail("").is_none());
    assert!(!trail_is_defined(&"docs".to_string()));
    assert!(trail_is_defined(&"/docs".to_string()));
}

#[test]
fn breadcrumbs_load_a_path() {
    let mut b = PathBreadcrumbs::new(&"/usr/lib".to_string());
    assert_eq!(b.paths, pairs(&[("/", "/"), ("usr", "/usr"), ("lib", "/usr/lib")]));
    assert_eq!(b.hovered_path, None);
    b.hovered_path = Some(1);
    b.load_path(&"/etc".to_string());
    assert_eq!(b.paths, pairs(&[("/", "/"), ("etc", "/etc")]));
    assert_eq!(b.hovered_path, Some(1));
    assert!(!b.try_load_path(&"relative".to_string()));
    assert_eq!(b.paths, pairs(&[("/", "/"), ("etc", "/etc")]));
}

#[test]
fn breadcrumb_under_a_column() {
    // "/" spans 0..4, hovered on 0..=0; "home" spans 4..11, hovered on 4..=7.
    let b = PathBreadcrumbs::new(&"/home/ab".to_string());
    assert_eq!(b.get_hovered_index(at(0)), Some(0));
    assert_eq!(b.get_hovered_index(at(1)), None);
    assert_eq!(b.get_hovered_index(at(4)), Some(1));
    assert_eq!(b.get_hovered_index(at(7)), Some(1));
    assert_eq!(b.get_hovered_index(at(8)), None);
    assert_eq!(b.get_hovered_index(at(11)), Some(2));
    assert_eq!(b.get_hovered_index(at(12)), Some(2));
    assert_eq!(b.get_hovered_index(at(13)), None);
    assert_eq!(b.get_hovered_index(at(500)), None);
}

#[test]
fn path_trail_hover_counts_the_separator() {
    let mut t = PathTrail { paths: Vec::new(), hovered_path: None, rect: Rect { x: 0, y: 0, width: 10, height: 1 } };
    t.load_path(&"/home".to_string());
    assert_eq!(t.paths, pairs(&[("/", "/"), ("home", "/home")]));
    assert_eq!(t.get_hovered_index(at(0)), Some(0));
    assert_eq!(t.get_hovered_index(at(4)), Some(0));
    assert_eq!(t.get_hovered_index(at(5)), Some(1));
    assert_eq!(t.get_hovered_index(at(11)), Some(1));
    assert_eq!(t.get_hovered_index(at(12)), None);
    let _ = MouseButton::Left;
}

#[test]
fn path_trail_mouse_on_its_area() {
    let t = PathTrail { paths: Vec::new(), hovered_path: None, rect: Rect { x: 2, y: 1, width: 10, height: 2 } };
    assert!(t.is_mouse_on(2, 1));
    assert!(t.is_mouse_on(12, 3));
    assert!(!t.is_mouse_on(13, 3));
    assert!(!t.is_mouse_on(1, 1));
    assert!(!t.is_mouse_on(5, 0));
    assert!(!t.is_mouse_on(5, 4));
}

#[test]
fn file_operations_join_paths() {
    assert_eq!(joined_path("/home/u", "notes.txt"), "/home/u/notes.txt");
    assert_eq!(joined_path("/", "x"), "//x");
    assert!(move_file("/a", "b".to_string(), "c".to_string()).is_ok());
}
