use vstd::prelude::*;
use crate::finder::Entry;
use crate::geometry::Rect;
use crate::list_state::ListState;

verus! {

/// A column of the screen listing the entries of one directory.
pub struct FilePane {
    pub entries: Vec<Entry>,
    pub current_path: String,
    pub rect: Rect,
    pub state: ListState,
    pub scroll_offset: usize,
    pub selected: Option<usize>,
}

/// What a file pane holds, as values.
#[verifier::ext_equal]
pub struct FilePaneView {
    pub entries: Seq<Entry>,
    pub current_path: Seq<char>,
    pub rect: Rect,
    pub state: ListState,
    pub scroll_offset: usize,
    pub selected: Option<usize>,
}

impl View for FilePane {
    type V = FilePaneView;

    open spec fn view(&self) -> FilePaneView {
        FilePaneView {
            entries: self.entries@,
            current_path: self.current_path@,
            rect: self.rect,
            state: self.state,
            scroll_offset: self.scroll_offset,
            selected: self.selected,
        }
    }
}

/// An empty pane over `rect`, with no path.
pub open spec fn spec_empty_pane(rect: Rect) -> FilePaneView {
    FilePaneView {
        entries: Seq::empty(),
        current_path: Seq::empty(),
        rect,
        state: ListState { offset: 0, selected: None },
        scroll_offset: 0,
        selected: None,
    }
}

/// The pane showing the directory `path`, whose entries are `listing`;
/// nothing is selected and the scrolling stays as it was.
pub open spec fn spec_load_path(p: FilePaneView, path: Seq<char>, listing: Seq<Entry>) -> FilePaneView {
    FilePaneView { entries: listing, current_path: path, selected: None, ..p }
}

/// The pane scrolled one entry up, unless it shows its first entry.
pub open spec fn spec_scroll_up(p: FilePaneView) -> FilePaneView {
    if p.scroll_offset > 0 {
        FilePaneView { scroll_offset: (p.scroll_offset - 1) as usize, ..p }
    } else {
        p
    }
}

/// Whether scrolling down moves the pane: an entry is left below the first
/// one shown, and the entries from the first one shown on fill the pane's
/// height.
pub open spec fn can_scroll_down(p: FilePaneView) -> bool {
    &&& p.scroll_offset + 1 < p.entries.len()
    &&& p.entries.len() - p.scroll_offset >= p.rect.height
}

/// The pane scrolled one entry down, where it can move.
pub open spec fn spec_scroll_down(p: FilePaneView) -> FilePaneView {
    if can_scroll_down(p) {
        FilePaneView { scroll_offset: (p.scroll_offset + 1) as usize, ..p }
    } else {
        p
    }
}

/// The index of the entry shown on `row`, counted from the pane's top row
/// and the first entry shown.
pub open spec fn file_index_at(p: FilePaneView, row: u16) -> int {
    (row - p.rect.y) + p.scroll_offset
}

/// The entry at `row`, when one is shown there.
pub open spec fn spec_file_index_at(p: FilePaneView, row: u16) -> Option<usize> {
    if file_index_at(p, row) < p.entries.len() {
        Some(file_index_at(p, row) as usize)
    } else {
        None
    }
}

/// Whether `get_file_index_at` can compute the index for `row`: the row is
/// not above the pane and the index fits in a `usize`.
pub open spec fn file_index_computable(p: FilePaneView, row: u16) -> bool {
    p.rect.y <= row && file_index_at(p, row) <= usize::MAX
}

impl FilePane {
    /// A pane over `rect` showing the directory `path`, whose entries are
    /// `listing`.
    pub fn new(path: &String, rect: Rect, listing: Vec<Entry>) -> (r: FilePane)
        ensures
            r@ == spec_load_path(spec_empty_pane(rect), path@, listing@),
    {
        let mut file_pane = FilePane::new_empty(rect);
        file_pane.load_path(path, listing);
        file_pane
    }

    /// An empty pane over `rect`, with no path.
    pub fn new_empty(rect: Rect) -> (r: FilePane)
        ensures
            r@ == spec_empty_pane(rect),
    {
        FilePane {
            entries: Vec::new(),
            current_path: String::new(),
            rect,
            state: ListState::default(),
            scroll_offset: 0,
            selected: None,
        }
    }

    /// Moves the pane to `rect`.
    pub fn resize(&mut self, rect: Rect)
        ensures
            final(self)@ == (FilePaneView { rect, ..old(self)@ }),
    {
        self.rect = rect;
    }

    /// Selects the entry at `index`, or none.
    pub fn select(&mut self, index: Option<usize>)
        ensures
            final(self)@ == (FilePaneView { selected: index, ..old(self)@ }),
    {
        self.selected = index;
    }

    /// Scrolls one entry up, unless the first entry is shown.
    pub fn scroll_up(&mut self)
        ensures
            final(self)@ == spec_scroll_up(old(self)@),
    {
        if self.scroll_offset > 0 {
            self.scroll_offset -= 1;
        }
    }

    /// Scrolls one entry down, where an entry is left below the first one
    /// shown and the rest still fill the pane.
    pub fn scroll_down(&mut self)
        requires
            old(self).scroll_offset < usize::MAX,
        ensures
            final(self)@ == spec_scroll_down(old(self)@),
    {
        if self.scroll_offset + 1 < self.entries.len() && self.entries.len() - self.scroll_offset
            >= self.rect.height as usize {
            self.scroll_offset += 1;
        }
    }

    /// The index of the entry shown on `row`, if there is one.
    pub fn get_file_index_at(&mut self, row: u16, col: u16) -> (r: Option<usize>)
        requires
            file_index_computable(old(self)@, row),
        ensures
            final(self)@ == old(self)@,
            r == spec_file_index_at(old(self)@, row),
    {
        self.file_index_at_row(row)
    }

    /// Whether the index of the entry on `row` can be computed (see
    /// `file_index_computable`).
    pub fn file_index_computable_at(&self, row: u16) -> (r: bool)
        ensures
            r == file_index_computable(self@, row),
    {
        row >= self.rect.y && self.scroll_offset <= usize::MAX - (row - self.rect.y) as usize
    }

    /// The index of the entry shown on `row`, if there is one.
    pub fn file_index_at_row(&self, row: u16) -> (r: Option<usize>)
        requires
            file_index_computable(self@, row),
        ensures
            r == spec_file_index_at(self@, row),
    {
        let offset = self.scroll_offset;
        let file_index = (row - self.rect.y) as usize + offset;
        if file_index < self.entries.len() {
            Some(file_index)
        } else {
            None
        }
    }

    /// Shows the directory `path`, whose entries are `listing` (read from
    /// the file system by the caller); the selection is cleared.
    pub fn load_path(&mut self, path: &String, listing: Vec<Entry>)
        ensures
            final(self)@ == spec_load_path(old(self)@, path@, listing@),
    {
        self.current_path = path.clone();
        self.selected = None;
        self.entries = listing;
    }

    /// Shows the current directory again, with its entries now `listing`.
    pub fn update(&mut self, listing: Vec<Entry>)
        ensures
            final(self)@ == spec_load_path(old(self)@, old(self)@.current_path, listing@),
    {
        let path = self.current_path.clone();
        self.load_path(&path, listing);
    }
}

/// Scrolling down and then up gives back the pane, where scrolling down
/// moved it.
pub proof fn law_scroll_up_undoes_down(p: FilePaneView)
    requires
        can_scroll_down(p),
        p.entries.len() <= usize::MAX,
    ensures
        spec_scroll_up(spec_scroll_down(p)) == p,
{
    assert(spec_scroll_up(spec_scroll_down(p)) =~~= p);
}

/// Scrolling never shows the list from past its last entry, once it starts
/// within the list.
pub proof fn law_scroll_stays_in_list(p: FilePaneView)
    requires
        p.scroll_offset < p.entries.len() <= usize::MAX,
    ensures
        spec_scroll_down(p).scroll_offset < p.entries.len(),
        spec_scroll_up(p).scroll_offset < p.entries.len(),
{
}

} // verus!
