use vstd::prelude::*;
use vstd::string::*;
use crate::finder::{Entry, FileKind};
use crate::geometry::{MouseEvent, Rect};
use crate::list_state::ListState;
use crate::path_trail::contains_computable;

verus! {

/// A list whose items can be selected and scrolled.
pub struct StatefulList<T> {
    pub state: ListState,
    pub items: Vec<T>,
}

/// The item selected after moving down: the next one, wrapping from the last
/// to the first; the first when none was selected.
pub open spec fn next_index(selected: Option<usize>, len: nat) -> usize {
    match selected {
        Some(i) => if i >= len - 1 {
            0
        } else {
            (i + 1) as usize
        },
        None => 0,
    }
}

/// The item selected after moving up: the previous one, wrapping from the
/// first to the last; the first when none was selected.
pub open spec fn previous_index(selected: Option<usize>, len: nat) -> usize {
    match selected {
        Some(i) => if i == 0 {
            (len - 1) as usize
        } else {
            (i - 1) as usize
        },
        None => 0,
    }
}

impl<T> StatefulList<T> {
    /// A list of `items`, none selected, shown from the first.
    pub fn with_items(items: Vec<T>) -> (r: StatefulList<T>)
        ensures
            r.items@ == items@,
            r.state == (ListState { offset: 0, selected: None }),
    {
        StatefulList { state: ListState::default(), items }
    }

    /// Selects the next item, wrapping around; scrolls down one item when
    /// the selection went past `height` items below the first one shown.
    pub fn next(&mut self, height: u16)
        requires
            old(self).state.selected is Some ==> old(self).items@.len() > 0,
            old(self).state.offset + height <= usize::MAX,
        ensures
            final(self).items@ == old(self).items@,
            final(self).state.selected == Some(
                next_index(old(self).state.selected, old(self).items@.len()),
            ),
            final(self).state.offset == if next_index(old(self).state.selected, old(self).items@.len())
                > height + old(self).state.offset {
                old(self).state.offset + 1
            } else {
                old(self).state.offset as int
            },
    {
        let i = match self.state.selected() {
            Some(i) => {
                if i >= self.items.len() - 1 {
                    0
                } else {
                    i + 1
                }
            },
            None => 0,
        };
        self.state.select(Some(i));
        if i > (height as usize + self.state.offset()) {
            self.state.offset = self.state.offset + 1;
        }
    }

    /// Selects the previous item, wrapping around; scrolls up one item when
    /// the selection went above the first one shown.
    pub fn previous(&mut self)
        requires
            old(self).state.selected == Some(0usize) ==> old(self).items@.len() > 0,
        ensures
            final(self).items@ == old(self).items@,
            final(self).state.selected == Some(
                previous_index(old(self).state.selected, old(self).items@.len()),
            ),
            final(self).state.offset == if previous_index(
                old(self).state.selected,
                old(self).items@.len(),
            ) < old(self).state.offset {
                old(self).state.offset - 1
            } else {
                old(self).state.offset as int
            },
    {
        let i = match self.state.selected() {
            Some(i) => {
                if i == 0 {
                    self.items.len() - 1
                } else {
                    i - 1
                }
            },
            None => 0,
        };
        self.state.select(Some(i));
        if i < self.state.offset() {
            self.state.offset = self.state.offset - 1;
        }
    }

    /// Clears the selection, which also shows the list from its first item.
    pub fn unselect(&mut self)
        ensures
            final(self).items@ == old(self).items@,
            final(self).state == (ListState { offset: 0, selected: None }),
    {
        self.state.select(None);
    }
}

/// Moving down and then up selects the item that was selected, in a list
/// that is not empty.
pub proof fn law_previous_undoes_next(i: usize, len: nat)
    requires
        i < len <= usize::MAX,
    ensures
        previous_index(Some(next_index(Some(i), len)), len) == i,
        next_index(Some(previous_index(Some(i), len)), len) == i,
        next_index(Some(i), len) < len,
        previous_index(Some(i), len) < len,
{
}

/// Moving down from item `i` of a list of `len` items selects item
/// `(i + 1) mod len`; moving up selects `(i - 1) mod len`.
pub proof fn law_selection_wraps(i: usize, len: nat)
    requires
        i < len <= usize::MAX,
    ensures
        next_index(Some(i), len) == (i + 1) % (len as int),
        previous_index(Some(i), len) == (i + len - 1) % (len as int),
{
    if i + 1 < len {
        vstd::arithmetic::div_mod::lemma_small_mod((i + 1) as nat, len);
    } else {
        vstd::arithmetic::div_mod::lemma_mod_self_0(len as int);
    }
    if i > 0 {
        vstd::arithmetic::div_mod::lemma_small_mod((i - 1) as nat, len);
        assert((i + len - 1) % (len as int) == (i - 1) % (len as int)) by {
            vstd::arithmetic::div_mod::lemma_mod_add_multiples_vanish((i - 1) as int, len as int);
        }
    } else {
        vstd::arithmetic::div_mod::lemma_small_mod((len - 1) as nat, len);
    }
}

/// The icon in front of an entry's name: a folder for a directory, a page
/// for a file, none for anything else.
pub open spec fn icon(kind: FileKind) -> Seq<char> {
    match kind {
        FileKind::Dir => seq![' ', '\u{ea83}', ' '],
        FileKind::File => seq![' ', '\u{ea7b}', ' '],
        _ => Seq::empty(),
    }
}

/// How an entry is listed: its icon, then its name when the name is valid
/// UTF-8.
pub open spec fn item_name(e: Entry) -> Seq<char> {
    icon(e.kind) + match e.name {
        Some(n) => n@,
        None => Seq::empty(),
    }
}

/// The items listing `entries`: each entry's listed name and its place.
pub open spec fn items_of(entries: Seq<Entry>) -> Seq<(Seq<char>, usize)> {
    Seq::new(entries.len(), |i: int| (item_name(entries[i]), i as usize))
}

/// The texts of a list of items.
pub open spec fn items_view(items: Seq<(String, usize)>) -> Seq<(Seq<char>, usize)> {
    items.map_values(|it: (String, usize)| (it.0@, it.1))
}

/// A pane listing the entries of a directory, with a selectable list of
/// their names.
pub struct FilePane {
    pub files: StatefulList<(String, usize)>,
    pub entries: Vec<Entry>,
    pub current_path: String,
    pub rect: Rect,
}

/// How an entry is listed (see `item_name`).
fn listed_name(e: &Entry) -> (r: String)
    ensures
        r@ == item_name(*e),
{
    let mut text = String::new();
    proof {
        reveal_strlit(" \u{ea83} ");
        reveal_strlit(" \u{ea7b} ");
    }
    match e.kind {
        FileKind::Dir => {
            text.append(" \u{ea83} ");
        },
        FileKind::File => {
            text.append(" \u{ea7b} ");
        },
        _ => {},
    }
    match &e.name {
        Some(name) => {
            text.append(name.as_str());
        },
        None => {},
    }
    assert(text@ =~= item_name(*e));
    text
}

impl FilePane {
    /// Whether the cell (`column`, `row`) lies on the pane, its right and
    /// bottom edges included.
    pub fn is_mouse_on(&self, column: u16, row: u16) -> (r: bool)
        requires
            contains_computable(self.rect, column, row),
        ensures
            r == self.rect.spec_contains(column, row),
    {
        let Rect { x, y, width, height } = self.rect;
        column >= x && column <= x + width && row >= y && row <= y + height
    }

    /// The place of the item on the event's row: the list starts two rows
    /// down, at the first item shown.
    pub fn get_index(&mut self, event: MouseEvent) -> (r: usize)
        requires
            event.row >= 2,
            event.row - 2 + old(self).files.state.offset <= usize::MAX,
        ensures
            r == event.row - 2 + old(self).files.state.offset,
            final(self).files.state == old(self).files.state,
            final(self).files.items@ == old(self).files.items@,
            final(self).entries@ == old(self).entries@,
            final(self).current_path@ == old(self).current_path@,
            final(self).rect == old(self).rect,
    {
        let offset = self.files.state.offset();
        return event.row as usize - 2 + offset;
    }

    /// Shows the directory `path`, whose entries are `listing` (read from
    /// the file system by the caller): the list holds each entry's icon and
    /// name, with its place; the selection and scrolling stay.
    pub fn load_path(&mut self, path: String, listing: Vec<Entry>)
        ensures
            final(self).current_path@ == path@,
            final(self).entries@ == listing@,
            items_view(final(self).files.items@) == items_of(listing@),
            final(self).files.state == old(self).files.state,
            final(self).rect == old(self).rect,
    {
        self.current_path = path;
        self.entries = listing;
        let mut items: Vec<(String, usize)> = Vec::new();
        let n = self.entries.len();
        let mut i: usize = 0;
        while i < n
            invariant
                n == self.entries@.len(),
                i <= n,
                items_view(items@) =~= items_of(self.entries@).take(i as int),
            decreases n - i,
        {
            let name = listed_name(&self.entries[i]);
            let ghost before = items@;
            items.push((name, i));
            assert(items@ == before.push((name, i)));
            assert(items_view(items@) =~= items_view(before).push((name@, i)));
            assert(items_of(self.entries@).take(i + 1) =~= items_of(self.entries@).take(i as int).push(
                (item_name(self.entries@[i as int]), i),
            ));
            i = i + 1;
        }
        self.files.items = items;
    }

    /// Shows the current directory again, with its entries now `listing`.
    pub fn update(&mut self, listing: Vec<Entry>)
        ensures
            final(self).current_path@ == old(self).current_path@,
            final(self).entries@ == listing@,
            items_view(final(self).files.items@) == items_of(listing@),
            final(self).files.state == old(self).files.state,
            final(self).rect == old(self).rect,
    {
        let path = self.current_path.clone();
        self.load_path(path, listing);
    }
}

} // verus!
