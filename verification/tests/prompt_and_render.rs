use termfinder::color::Color;
use termfinder::command::Command;
use termfinder::config::{FilePanesColors, PathTrailColors, PromptBarColors};
use termfinder::finder::{Entry, FileKind};
use termfinder::geometry::Rect;
use termfinder::preview::{preview_choice, PreviewChoice};
use termfinder::prompt::{FileAction, Prompt};
use termfinder::render::{
    bot_bar_label, fav_list_style, pane_lines, pane_list_style, preview_box, preview_text, top_bar_labels,
    trim_filename,
};
use termfinder::ui_components::bot_bar::BotBar;
use termfinder::ui_components::fav_pane::FavPane;
use termfinder::ui_components::file_pane::FilePane;
use termfinder::ui_components::nav_arrows::NavArrows;
use termfinder::ui_components::preview_pane::{decimal_string, format_size, PreviewPane};
use termfinder::ui_components::top_bar::TopBar;
use termfinder::ui_components::window_buttons::WindowButtons;

fn rect(x: u16, y: u16, width: u16, height: u16) -> Rect {
    Rect { x, y, width, height }
}

#[test]
fn prompt_asks_for_a_file_to_create() {
    let mut p = Prompt::new(&"/home".to_string());
    assert!(!p.is_active());
    assert_eq!(p.get_prompt_string(), "");
    p.begin_prompt(Command::Create);
    assert!(p.is_active());
    assert_eq!(p.get_prompt_string(), "Name of file to create: ");
    p.enter_input('a');
    p.enter_input('b');
    p.delete_input();
    p.enter_input('c');
    assert_eq!(p.input, "ac");
    match p.run_command(&"/tmp".to_string()) {
        Some(FileAction::CreateFile { root, name }) => {
            assert_eq!(root, "/tmp");
            assert_eq!(name, "ac");
        }
        None => panic!("no action"),
    }
    assert!(!p.is_active());
    assert_eq!(p.input, "");
}

#[test]
fn prompt_cancel_and_other_commands() {
    let mut p = Prompt::new(&"/".to_string());
    p.delete_input();
    assert_eq!(p.input, "");
    p.begin_prompt(Command::_Rename);
    p.enter_input('é');
    p.delete_input();
    assert_eq!(p.input, "");
    p.enter_input('x');
    assert!(p.run_command(&"/".to_string()).is_none());
    assert_eq!(p.command, Command::_Rename);
    p.begin_prompt(Command::Create);
    p.enter_input('y');
    p.cancel();
    assert!(!p.is_active());
    assert_eq!(p.input, "");
    assert_eq!(p.command, Command::NoCommand);
    assert_eq!(Command::_Search.get_prompt_string(&"/".to_string()), "");
}

#[test]
fn names_are_trimmed() {
    assert_eq!(trim_filename(&"short.txt".to_string()), "short.txt");
    assert_eq!(trim_filename(&"fifteen_chars_x".to_string()), "fifteen_chars_x");
    assert_eq!(trim_filename(&"sixteen_chars_xy".to_string()), "sixteen_...chars_xy");
    assert_eq!(trim_filename(&"a_very_long_file_name.tar.gz".to_string()), "a_very_l...e.tar.gz");
    // Sixteen bytes in four characters.
    assert_eq!(trim_filename(&"😀😀😀😀".to_string()), "😀😀😀😀...😀😀😀😀");
}

#[test]
fn sizes_are_shown_in_thousands() {
    assert_eq!(decimal_string(0), "0");
    assert_eq!(decimal_string(1234567890), "1234567890");
    assert_eq!(decimal_string(u64::MAX), "18446744073709551615");
    assert_eq!(format_size(0), "0 B");
    assert_eq!(format_size(999), "999 B");
    assert_eq!(format_size(1000), "1 KB");
    assert_eq!(format_size(999_999), "999 KB");
    assert_eq!(format_size(1_000_000), "1 MB");
    assert_eq!(format_size(5_500_000_000), "5 GB");
    assert_eq!(format_size(1_000_000_000_000), "1 TB");
    assert_eq!(format_size(u64::MAX), "18446744 TB");
}

#[test]
fn previews_name_the_file() {
    let p = PreviewPane::new(rect(1, 2, 3, 4), &"/a/b/photo.png".to_string(), Some(2048));
    assert_eq!(p.file_name, "photo.png");
    assert_eq!(p.size, "2 KB");
    assert_eq!(preview_text(&p), "photo.png\n2 KB");
    let q = PreviewPane::new(rect(1, 2, 3, 4), &"/".to_string(), None);
    assert_eq!(q.file_name, "");
    assert_eq!(q.size, "");
}

#[test]
fn preview_kind_follows_the_extension() {
    assert_eq!(preview_choice(&"/a/x.png".to_string(), false), PreviewChoice::Image);
    assert_eq!(preview_choice(&"/a/x.jpeg".to_string(), false), PreviewChoice::Image);
    assert_eq!(preview_choice(&"/a/x.jpg".to_string(), false), PreviewChoice::Image);
    assert_eq!(preview_choice(&"/a/x.PNG".to_string(), false), PreviewChoice::File);
    assert_eq!(preview_choice(&"/a/x.txt".to_string(), false), PreviewChoice::File);
    assert_eq!(preview_choice(&"/a/x".to_string(), false), PreviewChoice::Keep);
    assert_eq!(preview_choice(&"/a/x.png".to_string(), true), PreviewChoice::Folder);
}

fn pane_colors() -> FilePanesColors {
    FilePanesColors {
        background: Color::Black,
        border: Color::Red,
        hover: Color::White,
        selected_focus: Color::Magenta,
        selected_no_focus: Color::Gray,
        text_default: Color::White,
        text_selected: Color::Yellow,
    }
}

#[test]
fn pane_lines_mark_the_selection() {
    let entries = vec![
        Entry { name: Some("a".to_string()), path: "/a".to_string(), kind: FileKind::File },
        Entry { name: Some("a_very_long_file_name.txt".to_string()), path: "/b".to_string(), kind: FileKind::File },
        Entry { name: None, path: "/c".to_string(), kind: FileKind::Dir },
    ];
    let mut p = FilePane::new(&"/".to_string(), rect(0, 0, 10, 10), entries);
    p.select(Some(1));
    let lines = pane_lines(&p, &pane_colors(), true);
    assert_eq!(lines.len(), 3);
    assert_eq!(lines[0].text, "a");
    assert_eq!((lines[0].fg, lines[0].bg), (Color::White, None));
    assert_eq!(lines[1].text, "a_very_l...name.txt");
    assert_eq!((lines[1].fg, lines[1].bg), (Color::Yellow, Some(Color::Magenta)));
    assert_eq!(lines[2].text, "");
    let unfocused = pane_lines(&p, &pane_colors(), false);
    assert_eq!(unfocused[1].bg, Some(Color::Gray));
    p.scroll_offset = 2;
    let skipped = pane_lines(&p, &pane_colors(), true);
    assert_eq!(skipped.len(), 1);
    assert_eq!(skipped[0].text, "");
    p.scroll_offset = 7;
    assert!(pane_lines(&p, &pane_colors(), true).is_empty());
}

#[test]
fn top_bar_labels_follow_the_trail() {
    let mut t = TopBar::new(&"/a_directory_name_longer_than_twenty/b".to_string(), rect(0, 0, 80, 2));
    t.path_breadcrumbs.hovered_path = Some(2);
    let colors = PathTrailColors { background: Color::Black, text_default: Color::White, text_hovered: Color::Cyan };
    let labels = top_bar_labels(&t, &colors);
    assert_eq!(labels.len(), 6);
    assert_eq!(labels[0].text, "/");
    assert_eq!(labels[0].rect, rect(0, 0, 1, 2));
    assert_eq!(labels[1].text, " > ");
    assert_eq!(labels[1].rect, rect(1, 0, 3, 2));
    assert_eq!(labels[2].rect, rect(4, 0, 20, 2));
    assert_eq!(labels[2].fg, Some(Color::White));
    assert_eq!(labels[3].rect, rect(24, 0, 3, 2));
    assert_eq!(labels[4].text, "b");
    assert_eq!(labels[4].rect, rect(27, 0, 1, 2));
    assert_eq!(labels[4].fg, Some(Color::Cyan));
    t.resize(rect(0, 0, 10, 2));
    assert_eq!(t.rect, rect(0, 0, 10, 2));
}

#[test]
fn bottom_bar_shows_help_or_the_prompt() {
    let mut b = BotBar::new(&"/".to_string(), rect(0, 23, 80, 1));
    let colors = PromptBarColors {
        background: Color::Blue,
        text_default: Color::White,
        text_hovered: Color::Cyan,
        text_prompt: Color::Green,
    };
    let l = bot_bar_label(&b, &colors);
    assert_eq!(l.text, "C Create    R Rename    M Move    D Delete    O Open    H Help    / Search    F fill");
    assert_eq!((l.fg, l.bg), (Some(Color::White), Some(Color::Blue)));
    assert_eq!(l.rect, rect(0, 23, 80, 1));
    b.prompt.begin_prompt(Command::Create);
    b.prompt.enter_input('n');
    let l = bot_bar_label(&b, &colors);
    assert_eq!(l.text, "Name of file to create: n_");
    assert_eq!(l.fg, Some(Color::Green));
    b.resize(rect(0, 10, 5, 1));
    assert_eq!(b.rect, rect(0, 10, 5, 1));
}

#[test]
fn small_components_keep_their_area() {
    assert_eq!(FavPane::new(rect(0, 2, 15, 5)).rect, rect(0, 2, 15, 5));
    let _ = NavArrows::new(rect(0, 0, 3, 1));
    let _ = WindowButtons::new(rect(0, 0, 5, 1));
}

#[test]
fn list_styles_follow_the_colours() {
    let c = pane_colors();
    let s = pane_list_style(&c, true);
    assert_eq!((s.border_fg, s.highlight_bg, s.highlight_fg), (Color::Red, Color::Magenta, Color::Yellow));
    assert!(s.italic && s.bold && s.right_border_only);
    assert_eq!(pane_list_style(&c, false).highlight_bg, Color::Gray);
    let f = fav_list_style(&c);
    assert_eq!((f.border_fg, f.highlight_bg, f.highlight_fg), (Color::Red, Color::Black, Color::Yellow));
    assert!(f.italic && f.bold && f.right_border_only);
}

#[test]
fn preview_box_is_centred() {
    let p = PreviewPane::new(rect(0, 0, 100, 50), &"/a".to_string(), None);
    assert_eq!(preview_box(&p), rect(40, 20, 20, 10));
    let q = PreviewPane::new(rect(55, 2, 40, 20), &"/a".to_string(), None);
    let b = preview_box(&q);
    assert!(b.x >= 55 && b.x + b.width <= 95 && b.y >= 2 && b.y + b.height <= 22);
    assert!(b.x > 55 && b.y > 2);
}
