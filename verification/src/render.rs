use vstd::prelude::*;
use vstd::string::*;
use vstd::utf8::encode_utf8;
use crate::color::Color;
use ratatui::layout::{Constraint, Direction, Layout};
use crate::command::prompt_text;
use crate::config::{FilePanesColors, PathTrailColors, PromptBarColors};
use crate::geometry::{Rect, rect_new, spec_rect_new};
use crate::finder::Entry;
use crate::ui_components::bot_bar::{BotBar, BotBarView};
use crate::ui_components::file_pane::{FilePane, FilePaneView};
use crate::ui_components::preview_pane::PreviewPane;
use crate::ui_components::top_bar::{TopBar, TopBarView};

verus! {

/// A text to draw, where, and in which colours (none: the terminal's).
pub struct Label {
    pub text: String,
    pub rect: Rect,
    pub fg: Option<Color>,
    pub bg: Option<Color>,
}

/// How a list is drawn as a whole: the colour of its border and the style
/// of its highlighted line.
#[derive(Clone, Copy, Debug, PartialEq, Eq, Structural)]
pub struct ListStyle {
    pub border_fg: Color,
    pub highlight_bg: Color,
    pub highlight_fg: Color,
    pub italic: bool,
    pub bold: bool,
    /// Only the right border is drawn.
    pub right_border_only: bool,
}

/// The style of a pane's list: the border in the border colour, on its
/// right side only; the highlighted line in the selected text colour, italic
/// and bold, on the selection background of a focused or an unfocused pane.
pub fn pane_list_style(colors: &FilePanesColors, is_focused: bool) -> (s: ListStyle)
    ensures
        s.border_fg == colors.border,
        s.highlight_bg == (if is_focused {
            colors.selected_focus
        } else {
            colors.selected_no_focus
        }),
        s.highlight_fg == colors.text_selected,
        s.italic && s.bold,
        s.right_border_only,
{
    let selected_bg = if is_focused {
        colors.selected_focus
    } else {
        colors.selected_no_focus
    };
    ListStyle {
        border_fg: colors.border,
        highlight_bg: selected_bg,
        highlight_fg: colors.text_selected,
        italic: true,
        bold: true,
        right_border_only: true,
    }
}

/// The style of the list of favourites: as a pane's, with the highlighted
/// line on the panes' background.
pub fn fav_list_style(colors: &FilePanesColors) -> (s: ListStyle)
    ensures
        s.border_fg == colors.border,
        s.highlight_bg == colors.background,
        s.highlight_fg == colors.text_selected,
        s.italic && s.bold,
        s.right_border_only,
{
    ListStyle {
        border_fg: colors.border,
        highlight_bg: colors.background,
        highlight_fg: colors.text_selected,
        italic: true,
        bold: true,
        right_border_only: true,
    }
}

/// A line of a pane's list, with its colours.
pub struct ListLine {
    pub text: String,
    pub fg: Color,
    pub bg: Option<Color>,
}

/// How many characters of each end of a long name are kept.
pub open spec fn kept(s: Seq<char>) -> int {
    if s.len() < 8 {
        s.len() as int
    } else {
        8
    }
}

/// A file name as a pane lists it: unchanged below sixteen bytes, else its
/// first eight and last eight characters around `...`.
pub open spec fn spec_trim_filename(s: Seq<char>) -> Seq<char> {
    if (encode_utf8(s).len() as usize) < 16 {
        s
    } else {
        s.subrange(0, kept(s)) + seq!['.', '.', '.'] + s.subrange(s.len() - kept(s), s.len() as int)
    }
}

/// A file name as a pane lists it (see `spec_trim_filename`).
pub fn trim_filename(name: &String) -> (r: String)
    ensures
        r@ == spec_trim_filename(name@),
{
    if name.as_str().len() < 16 {
        name.clone()
    } else {
        let n = name.as_str().unicode_len();
        let k = if n < 8 {
            n
        } else {
            8
        };
        let start = name.as_str().substring_char(0, k);
        let end = name.as_str().substring_char(n - k, n);
        let mut r = start.to_owned();
        r.append("...");
        proof {
            reveal_strlit("...");
        }
        r.append(end);
        r
    }
}

/// A trimmed name keeps at most nineteen characters; a name below sixteen
/// bytes is kept whole.
pub proof fn law_trimmed_name_is_short(s: Seq<char>)
    ensures
        (encode_utf8(s).len() as usize) < 16 ==> spec_trim_filename(s) == s,
        (encode_utf8(s).len() as usize) >= 16 ==> spec_trim_filename(s).len() <= 19
            && spec_trim_filename(s).len() == 2 * kept(s) + 3,
{
}

/// The width of a name in the top bar: its length in bytes, at most twenty.
pub open spec fn crumb_width(name: Seq<char>) -> int {
    let n = encode_utf8(name).len() as usize;
    if n > 20 {
        20
    } else {
        n as int
    }
}

/// The column where the name at place `i` of the trail starts: each name
/// before it takes its width and three columns for ` > `.
pub open spec fn crumb_start(paths: Seq<(Seq<char>, Seq<char>)>, i: int) -> int
    decreases i,
{
    if i <= 0 {
        0
    } else {
        crumb_start(paths, i - 1) + crumb_width(paths[i - 1].0) + 3
    }
}

/// The labels of the top bar: each directory's name, in the hovered colour
/// for the hovered one and the default colour for the others, followed by
/// ` > `; all on the first row, as high as the bar.
pub open spec fn top_bar_labels_ok(labels: Seq<Label>, top_bar: TopBarView, colors: PathTrailColors) -> bool {
    let paths = top_bar.path_breadcrumbs.paths;
    &&& labels.len() == 2 * paths.len()
    &&& forall|i: int|
        0 <= i < paths.len() ==> {
            let name = #[trigger] labels[2 * i];
            let sep = labels[2 * i + 1];
            &&& name.text@ == paths[i].0
            &&& name.rect == spec_rect_new(
                crumb_start(paths, i) as u16,
                0,
                crumb_width(paths[i].0) as u16,
                top_bar.rect.height,
            )
            &&& name.fg == Some(
                if top_bar.path_breadcrumbs.hovered_path == Some(i as usize) {
                    colors.text_hovered
                } else {
                    colors.text_default
                },
            )
            &&& name.bg is None
            &&& sep.text@ == " > "@
            &&& sep.rect == spec_rect_new(
                (crumb_start(paths, i) + crumb_width(paths[i].0)) as u16,
                0,
                3,
                top_bar.rect.height,
            )
            &&& sep.fg is None && sep.bg is None
        }
}

proof fn lemma_crumb_start_bound(paths: Seq<(Seq<char>, Seq<char>)>, i: int)
    requires
        0 <= i,
    ensures
        0 <= crumb_start(paths, i) <= 23 * i,
    decreases i,
{
    if i > 0 {
        lemma_crumb_start_bound(paths, i - 1);
    }
}

/// The labels that draw the top bar (see `top_bar_labels_ok`).
pub fn top_bar_labels(top_bar: &TopBar, colors: &PathTrailColors) -> (r: Vec<Label>)
    requires
        23 * top_bar@.path_breadcrumbs.paths.len() <= usize::MAX,
    ensures
        top_bar_labels_ok(r@, top_bar@, *colors),
{
    let ghost paths = top_bar@.path_breadcrumbs.paths;
    let mut pos: usize = 0;
    let mut labels: Vec<Label> = Vec::new();
    let n = top_bar.path_breadcrumbs.paths.len();
    let mut i: usize = 0;
    proof {
        reveal_strlit(" > ");
    }
    while i < n
        invariant
            n == top_bar.path_breadcrumbs.paths@.len(),
            paths == top_bar@.path_breadcrumbs.paths,
            paths.len() == n,
            23 * n <= usize::MAX,
            i <= n,
            pos == crumb_start(paths, i as int),
            labels@.len() == 2 * i,
            forall|j: int|
                0 <= j < i ==> {
                    let name = #[trigger] labels@[2 * j];
                    let sep = labels@[2 * j + 1];
                    &&& name.text@ == paths[j].0
                    &&& name.rect == spec_rect_new(
                        crumb_start(paths, j) as u16,
                        0,
                        crumb_width(paths[j].0) as u16,
                        top_bar.rect.height,
                    )
                    &&& name.fg == Some(
                        if top_bar.path_breadcrumbs.hovered_path == Some(j as usize) {
                            colors.text_hovered
                        } else {
                            colors.text_default
                        },
                    )
                    &&& name.bg is None
                    &&& sep.text@ == " > "@
                    &&& sep.rect == spec_rect_new(
                        (crumb_start(paths, j) + crumb_width(paths[j].0)) as u16,
                        0,
                        3,
                        top_bar.rect.height,
                    )
                    &&& sep.fg is None && sep.bg is None
                },
        decreases n - i,
    {
        proof {
            lemma_crumb_start_bound(paths, i as int);
            lemma_crumb_start_bound(paths, i + 1);
        }
        let name = &top_bar.path_breadcrumbs.paths[i].0;
        assert(paths[i as int] == (top_bar.path_breadcrumbs.paths@[i as int].0@, top_bar.path_breadcrumbs.paths@[i as int].1@));
        assert(paths[i as int].0 == name@);
        let fg = match top_bar.path_breadcrumbs.hovered_path {
            Some(index) => if index == i {
                colors.text_hovered
            } else {
                colors.text_default
            },
            None => colors.text_default,
        };
        let mut width = name.as_str().len();
        if width > 20 {
            width = 20;
        }
        assert(width == crumb_width(paths[i as int].0));
        assert(crumb_start(paths, i + 1) == crumb_start(paths, i as int) + crumb_width(
            paths[i as int].0,
        ) + 3);
        let ghost before = labels@;
        labels.push(
            Label {
                text: name.clone(),
                rect: rect_new(#[verifier::truncate] (pos as u16), 0, width as u16, top_bar.rect.height),
                fg: Some(fg),
                bg: None,
            },
        );
        pos += width;
        labels.push(
            Label {
                text: String::from_str(" > "),
                rect: rect_new(#[verifier::truncate] (pos as u16), 0, 3, top_bar.rect.height),
                fg: None,
                bg: None,
            },
        );
        pos += 3;
        proof {
            assert forall|j: int| 0 <= j < i + 1 implies {
                let name = #[trigger] labels@[2 * j];
                let sep = labels@[2 * j + 1];
                &&& name.text@ == paths[j].0
                &&& name.rect == spec_rect_new(
                    crumb_start(paths, j) as u16,
                    0,
                    crumb_width(paths[j].0) as u16,
                    top_bar.rect.height,
                )
                &&& name.fg == Some(
                    if top_bar.path_breadcrumbs.hovered_path == Some(j as usize) {
                        colors.text_hovered
                    } else {
                        colors.text_default
                    },
                )
                &&& name.bg is None
                &&& sep.text@ == " > "@
                &&& sep.rect == spec_rect_new(
                    (crumb_start(paths, j) + crumb_width(paths[j].0)) as u16,
                    0,
                    3,
                    top_bar.rect.height,
                )
                &&& sep.fg is None && sep.bg is None
            } by {
                if j < i {
                    assert(labels@[2 * j] == before[2 * j]);
                    assert(labels@[2 * j + 1] == before[2 * j + 1]);
                }
            }
        }
        i = i + 1;
    }
    labels
}

/// The help line of the bottom bar when no command is being entered.
pub open spec fn help_text() -> Seq<char> {
    "C Create    R Rename    M Move    D Delete    O Open    H Help    / Search    F fill"@
}

/// The label of the bottom bar: while a command is entered, its question,
/// the text typed and a `_` cursor, in the prompt colour; else the help
/// line in the default colour; on the bar's background, over the whole bar.
pub open spec fn spec_bot_bar_label(l: Label, bot_bar: BotBarView, colors: PromptBarColors) -> bool {
    let p = bot_bar.prompt;
    &&& l.rect == bot_bar.rect
    &&& l.bg == Some(colors.background)
    &&& if p.is_active {
        &&& l.text@ == prompt_text(p.command) + p.input + seq!['_']
        &&& l.fg == Some(colors.text_prompt)
    } else {
        &&& l.text@ == help_text()
        &&& l.fg == Some(colors.text_default)
    }
}

/// The label that draws the bottom bar (see `spec_bot_bar_label`).
pub fn bot_bar_label(bot_bar: &BotBar, colors: &PromptBarColors) -> (r: Label)
    ensures
        spec_bot_bar_label(r, bot_bar@, *colors),
{
    let prompt = &bot_bar.prompt;
    if prompt.is_active() {
        let mut text = prompt.get_prompt_string();
        text.append(prompt.input.as_str());
        text.append("_");
        proof {
            reveal_strlit("_");
        }
        assert(text@ =~= prompt_text(prompt.command) + prompt.input@ + seq!['_']);
        Label { text, rect: bot_bar.rect, fg: Some(colors.text_prompt), bg: Some(colors.background) }
    } else {
        let text = String::from_str(
            "C Create    R Rename    M Move    D Delete    O Open    H Help    / Search    F fill",
        );
        assert(text@ == help_text());
        Label {
            text,
            rect: bot_bar.rect,
            fg: Some(colors.text_default),
            bg: Some(colors.background),
        }
    }
}

/// The name under which a pane lists an entry: its file name, trimmed, or
/// nothing when the name is not valid UTF-8.
pub open spec fn listed_name(e: Entry) -> Seq<char> {
    match e.name {
        Some(n) => spec_trim_filename(n@),
        None => spec_trim_filename(Seq::empty()),
    }
}

/// The lines of a pane's list: one per entry from the first one shown,
/// the selected entry in the selected text colour on the selection
/// background (that of a focused or of an unfocused pane), the others in the
/// default text colour.
pub open spec fn pane_lines_ok(
    lines: Seq<ListLine>,
    pane: FilePaneView,
    colors: FilePanesColors,
    is_focused: bool,
) -> bool {
    let skip = if pane.scroll_offset < pane.entries.len() {
        pane.scroll_offset as int
    } else {
        pane.entries.len() as int
    };
    let selected_bg = if is_focused {
        colors.selected_focus
    } else {
        colors.selected_no_focus
    };
    &&& lines.len() == pane.entries.len() - skip
    &&& forall|k: int|
        0 <= k < lines.len() ==> {
            let i = k + skip;
            &&& (#[trigger] lines[k]).text@ == listed_name(pane.entries[i])
            &&& if pane.selected == Some(i as usize) {
                lines[k].fg == colors.text_selected && lines[k].bg == Some(selected_bg)
            } else {
                lines[k].fg == colors.text_default && lines[k].bg is None
            }
        }
}

/// The lines that draw a pane's list (see `pane_lines_ok`).
pub fn pane_lines(file_pane: &FilePane, colors: &FilePanesColors, is_focused: bool) -> (r: Vec<ListLine>)
    ensures
        pane_lines_ok(r@, file_pane@, *colors, is_focused),
{
    let selected_bg = if is_focused {
        colors.selected_focus
    } else {
        colors.selected_no_focus
    };
    let n = file_pane.entries.len();
    let skip = if file_pane.scroll_offset < n {
        file_pane.scroll_offset
    } else {
        n
    };
    let mut lines: Vec<ListLine> = Vec::new();
    let mut i: usize = skip;
    while i < n
        invariant
            n == file_pane.entries@.len(),
            skip <= i <= n,
            skip == if file_pane.scroll_offset < n {
                file_pane.scroll_offset
            } else {
                n
            },
            selected_bg == if is_focused {
                colors.selected_focus
            } else {
                colors.selected_no_focus
            },
            lines@.len() == i - skip,
            forall|k: int|
                0 <= k < lines@.len() ==> {
                    let j = k + skip;
                    &&& (#[trigger] lines@[k]).text@ == listed_name(file_pane.entries@[j])
                    &&& if file_pane.selected == Some(j as usize) {
                        lines@[k].fg == colors.text_selected && lines@[k].bg == Some(selected_bg)
                    } else {
                        lines@[k].fg == colors.text_default && lines@[k].bg is None
                    }
                },
        decreases n - i,
    {
        let entry = &file_pane.entries[i];
        let name = match &entry.name {
            Some(n) => n.clone(),
            None => String::new(),
        };
        let text = trim_filename(&name);
        let line = if file_pane.selected == Some(i) {
            ListLine { text, fg: colors.text_selected, bg: Some(selected_bg) }
        } else {
            ListLine { text, fg: colors.text_default, bg: None }
        };
        lines.push(line);
        i = i + 1;
    }
    lines
}

/// What `ratatui::layout::Layout::split` gives for three slots taking 40%,
/// 20% and 40% of `area`, stacked top to bottom when `vertical`, else left
/// to right.
pub uninterp spec fn split_40_20_40(vertical: bool, area: Rect) -> (Rect, Rect, Rect);

/// Calls `ratatui::layout::Layout::split` with three slots of 40%, 20% and
/// 40%; the contract names the three areas it gives, a function of the
/// direction and the area alone.
#[verifier::external_body]
fn split_thirds(vertical: bool, area: Rect) -> (r: (Rect, Rect, Rect))
    ensures
        r == split_40_20_40(vertical, area),
{
    let direction = if vertical { Direction::Vertical } else { Direction::Horizontal };
    let chunks = Layout::default()
        .direction(direction)
        .constraints([Constraint::Percentage(40), Constraint::Percentage(20), Constraint::Percentage(40)])
        .split(ratatui::layout::Rect { x: area.x, y: area.y, width: area.width, height: area.height });
    let c = |r: ratatui::layout::Rect| Rect { x: r.x, y: r.y, width: r.width, height: r.height };
    (c(chunks[0]), c(chunks[1]), c(chunks[2]))
}

/// The area where a preview's text goes: the middle slot of the middle
/// band of the preview pane, each cut 40/20/40.
pub open spec fn spec_preview_box(area: Rect) -> Rect {
    split_40_20_40(false, split_40_20_40(true, area).1).1
}

/// The area where a preview's text goes (see `spec_preview_box`).
pub fn preview_box(preview_pane: &PreviewPane) -> (r: Rect)
    ensures
        r == spec_preview_box(preview_pane.rect),
{
    let (_top, band, _bottom) = split_thirds(true, preview_pane.rect);
    let (_left, middle, _right) = split_thirds(false, band);
    middle
}

/// The text of a preview: the file's name, then its size on the next line.
pub fn preview_text(preview_pane: &PreviewPane) -> (r: String)
    ensures
        r@ == preview_pane.file_name@ + seq!['\n'] + preview_pane.size@,
{
    let mut r = preview_pane.file_name.clone();
    r.append("\n");
    proof {
        reveal_strlit("\n");
    }
    r.append(preview_pane.size.as_str());
    r
}

} // verus!
