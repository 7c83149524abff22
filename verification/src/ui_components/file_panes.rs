use vstd::prelude::*;
use crate::finder::Entry;
use crate::geometry::{Rect, rect_new, spec_rect_new};
use crate::ui_components::file_pane::{FilePane, FilePaneView, spec_empty_pane, spec_load_path};
use crate::ui_components::preview_pane::{PreviewPane, PreviewPaneView, spec_preview};

verus! {

/// The row of file panes: one pane per directory of the path being browsed,
/// at most `nr_of_panes` of them, and a preview of a file to their right.
pub struct FilePanes {
    pub panes: Vec<FilePane>,
    pub preview: Option<PreviewPane>,
    pub focused: Option<usize>,
    pub hovered: Option<usize>,
    pub rect: Rect,
    pub nr_of_panes: usize,
}

/// What the row of file panes holds, as values.
#[verifier::ext_equal]
pub struct FilePanesView {
    pub panes: Seq<FilePaneView>,
    pub preview: Option<PreviewPaneView>,
    pub focused: Option<usize>,
    pub hovered: Option<usize>,
    pub rect: Rect,
    pub nr_of_panes: usize,
}

/// The values of a list of panes.
pub open spec fn panes_view(panes: Seq<FilePane>) -> Seq<FilePaneView> {
    panes.map_values(|p: FilePane| p@)
}

/// The entries of a list of directory listings.
pub open spec fn listings_view(listings: Seq<Vec<Entry>>) -> Seq<Seq<Entry>> {
    listings.map_values(|l: Vec<Entry>| l@)
}

impl View for FilePanes {
    type V = FilePanesView;

    open spec fn view(&self) -> FilePanesView {
        FilePanesView {
            panes: panes_view(self.panes@),
            preview: match self.preview {
                Some(p) => Some(p@),
                None => None,
            },
            focused: self.focused,
            hovered: self.hovered,
            rect: self.rect,
            nr_of_panes: self.nr_of_panes,
        }
    }
}

/// Whether the row is in a shape the operations can work on: between one and
/// `u16::MAX` panes are allowed, no more are open, and the row's right edge
/// fits in a `u16`.
pub open spec fn wf(v: FilePanesView) -> bool {
    &&& 1 <= v.nr_of_panes <= u16::MAX
    &&& v.panes.len() <= v.nr_of_panes
    &&& v.rect.x + v.rect.width <= u16::MAX
}

/// The width of each pane.
pub open spec fn pane_width(rect: Rect, nr_of_panes: usize) -> u16 {
    (rect.width / (nr_of_panes as u16)) as u16
}

/// The area of the pane at `pane_index`.
pub open spec fn spec_rect_from_pane_index(rect: Rect, pane_index: usize, nr_of_panes: usize) -> Rect {
    spec_rect_new(
        (rect.x + pane_width(rect, nr_of_panes) * pane_index) as u16,
        rect.y,
        pane_width(rect, nr_of_panes),
        rect.height,
    )
}

/// The pane at `i` after the row moved one place left: it shows the
/// directory of the pane to its right, with that pane's selection.
pub open spec fn shifted_pane(panes: Seq<FilePaneView>, i: int, listing: Seq<Entry>) -> FilePaneView {
    FilePaneView {
        selected: panes[i + 1].selected,
        ..spec_load_path(panes[i], panes[i + 1].current_path, listing)
    }
}

/// The panes after moving the full row one place left and showing `path`
/// in the last pane.
pub open spec fn spec_shift_panes(
    panes: Seq<FilePaneView>,
    n: int,
    path: Seq<char>,
    listings: Seq<Seq<Entry>>,
) -> Seq<FilePaneView> {
    Seq::new(
        panes.len(),
        |i: int|
            if i < n - 1 {
                shifted_pane(panes, i, listings[i])
            } else if i == n - 1 {
                spec_load_path(panes[i], path, listings[i])
            } else {
                panes[i]
            },
    )
}

/// The directories that showing `path` at `pane_index` reads, in order: when
/// the row is full, the directories of the panes from the second on, then
/// `path`; else `path` alone.
pub open spec fn show_dir_reads(v: FilePanesView, path: Seq<char>, pane_index: usize) -> Seq<Seq<char>> {
    if pane_index == v.nr_of_panes {
        Seq::new((v.nr_of_panes - 1) as nat, |i: int| v.panes[i + 1].current_path).push(path)
    } else {
        seq![path]
    }
}

/// Whether `path` can be shown at `pane_index`: past a full row, or at most
/// one place past the last open pane.
pub open spec fn show_dir_ok(v: FilePanesView, pane_index: usize) -> bool {
    &&& wf(v)
    &&& pane_index == v.nr_of_panes ==> v.panes.len() >= v.nr_of_panes
    &&& pane_index != v.nr_of_panes ==> pane_index <= v.panes.len()
}

/// The row after showing the directory `path` at `pane_index`, whose
/// entries (and those of the directories read before it) are `listings`.
/// Past a full row, the row moves one place left; else a pane is opened at
/// `pane_index` if needed and the panes right of it are closed. The preview
/// is closed.
pub open spec fn spec_show_dir(
    v: FilePanesView,
    path: Seq<char>,
    pane_index: usize,
    listings: Seq<Seq<Entry>>,
) -> FilePanesView {
    if pane_index == v.nr_of_panes {
        FilePanesView {
            panes: spec_shift_panes(v.panes, v.nr_of_panes as int, path, listings),
            preview: None,
            ..v
        }
    } else {
        let opened = if v.panes.len() < pane_index + 1 {
            v.panes.push(spec_empty_pane(spec_rect_from_pane_index(v.rect, pane_index, v.nr_of_panes)))
        } else {
            v.panes
        };
        let loaded = opened.update(pane_index as int, spec_load_path(opened[pane_index as int], path, listings[0]));
        FilePanesView { panes: loaded.take(pane_index + 1), preview: None, ..v }
    }
}

/// The directories that showing the file `path` at `pane_index` reads: when
/// the row is full, those of the panes from the second on, then `path`
/// itself as a directory; else none.
pub open spec fn show_file_reads(v: FilePanesView, path: Seq<char>, pane_index: usize) -> Seq<Seq<char>> {
    if pane_index == v.nr_of_panes {
        Seq::new((v.nr_of_panes - 1) as nat, |i: int| v.panes[i + 1].current_path).push(path)
    } else {
        Seq::empty()
    }
}

/// Whether the file `path` can be shown at `pane_index`: not past the
/// allowed panes, and past a full row only when the row is full.
pub open spec fn show_file_ok(v: FilePanesView, pane_index: usize) -> bool {
    &&& wf(v)
    &&& pane_index <= v.nr_of_panes
    &&& pane_index == v.nr_of_panes ==> v.panes.len() >= v.nr_of_panes
}

/// The place where the preview of a file shown at `pane_index` goes.
pub open spec fn preview_index(v: FilePanesView, pane_index: usize) -> usize {
    if pane_index == v.nr_of_panes {
        (pane_index - 1) as usize
    } else {
        pane_index
    }
}

/// The area of a preview at place `index`: from that place to the right edge
/// of the row.
pub open spec fn preview_rect(rect: Rect, index: usize, nr_of_panes: usize) -> Rect {
    spec_rect_new(
        (rect.x + pane_width(rect, nr_of_panes) * index) as u16,
        rect.y,
        (rect.width - index * pane_width(rect, nr_of_panes)) as u16,
        rect.height,
    )
}

/// The row after showing the file `path` at `pane_index`: the panes from
/// `pane_index` on are closed; past a full row, the row moves one place
/// left and its last pane shows `path` as a directory; the preview of the
/// file (of size `size`, when that could be read) opens at the place that
/// is left.
pub open spec fn spec_show_file(
    v: FilePanesView,
    path: Seq<char>,
    pane_index: usize,
    listings: Seq<Seq<Entry>>,
    size: Option<u64>,
) -> FilePanesView {
    let closed = v.panes.take(if pane_index < v.panes.len() { pane_index as int } else { v.panes.len() as int });
    let panes = if pane_index == v.nr_of_panes {
        spec_shift_panes(closed, v.nr_of_panes as int, path, listings)
    } else {
        closed
    };
    let index = preview_index(v, pane_index);
    FilePanesView {
        panes,
        preview: Some(spec_preview(preview_rect(v.rect, index, v.nr_of_panes), path, size)),
        ..v
    }
}

/// The place of the pane under column `col`, when a pane is open there.
pub open spec fn spec_pane_index_at(v: FilePanesView, col: u16) -> Option<usize> {
    let i = (col - v.rect.x) / (pane_width(v.rect, v.nr_of_panes) as int);
    if i < v.panes.len() {
        Some(i as usize)
    } else {
        None
    }
}

/// Whether the pane under column `col` can be computed: the column is not
/// left of the row and the panes are at least one column wide.
pub open spec fn pane_index_computable(v: FilePanesView, col: u16) -> bool {
    &&& v.rect.x <= col
    &&& (v.nr_of_panes as u16) != 0
    &&& pane_width(v.rect, v.nr_of_panes) != 0
}

impl FilePanes {
    /// A row of at most `nr_of_panes` panes over `rect`, with one pane open
    /// on the directory `path`, whose entries are `listing`.
    pub fn new(path: &String, nr_of_panes: usize, rect: Rect, listing: Vec<Entry>) -> (r: FilePanes)
        requires
            (nr_of_panes as u16) != 0,
        ensures
            1 <= nr_of_panes <= u16::MAX && rect.x + rect.width <= u16::MAX ==> wf(r@),
            r@ == (FilePanesView {
                panes: seq![
                    spec_load_path(
                        spec_empty_pane(
                            Rect { width: pane_width(rect, nr_of_panes), ..rect },
                        ),
                        path@,
                        listing@,
                    ),
                ],
                preview: None,
                focused: None,
                hovered: None,
                rect,
                nr_of_panes,
            }),
    {
        let pane1_rect = Rect {
            x: rect.x,
            y: rect.y,
            height: rect.height,
            width: rect.width / nr_of_panes as u16,
        };
        let mut panes = Vec::new();
        panes.push(FilePane::new(path, pane1_rect, listing));
        let r = FilePanes {
            panes,
            preview: None,
            focused: None,
            hovered: None,
            rect,
            nr_of_panes: nr_of_panes,
        };
        assert(r@.panes =~= seq![panes_view(r.panes@)[0]]);
        r
    }

    /// The area of the pane at `pane_index`.
    fn rect_from_pane_index(rect: Rect, pane_index: usize, nr_of_panes: usize) -> (r: Rect)
        requires
            1 <= nr_of_panes <= u16::MAX,
            pane_index < nr_of_panes,
            rect.x + rect.width <= u16::MAX,
        ensures
            r == spec_rect_from_pane_index(rect, pane_index, nr_of_panes),
    {
        let pane_width = rect.width / nr_of_panes as u16;
        proof {
            assert(pane_width * pane_index <= pane_width * nr_of_panes) by (nonlinear_arith)
                requires
                    pane_index < nr_of_panes,
            ;
            assert(pane_width * nr_of_panes <= rect.width) by (nonlinear_arith)
                requires
                    pane_width == rect.width / (nr_of_panes as u16),
                    nr_of_panes as u16 == nr_of_panes,
                    nr_of_panes >= 1,
            ;
        }
        rect_new(rect.x + pane_width * pane_index as u16, rect.y, pane_width, rect.height)
    }

    /// Moves the row to `rect`, and each open pane to its place in it.
    pub fn resize(&mut self, rect: Rect)
        requires
            wf(old(self)@),
            rect.x + rect.width <= u16::MAX,
        ensures
            final(self)@ == (FilePanesView {
                rect,
                panes: Seq::new(
                    old(self)@.panes.len(),
                    |i: int|
                        FilePaneView {
                            rect: spec_rect_from_pane_index(rect, i as usize, old(self)@.nr_of_panes),
                            ..old(self)@.panes[i]
                        },
                ),
                ..old(self)@
            }),
    {
        self.rect = rect;
        let n = self.panes.len();
        let ghost old_panes = panes_view(self.panes@);
        let mut i: usize = 0;
        while i < n
            invariant
                n == self.panes@.len(),
                n == old_panes.len(),
                i <= n,
                self.rect == rect,
                1 <= self.nr_of_panes <= u16::MAX,
                n <= self.nr_of_panes,
                rect.x + rect.width <= u16::MAX,
                self.nr_of_panes == old(self).nr_of_panes,
                self.preview == old(self).preview,
                self.focused == old(self).focused,
                self.hovered == old(self).hovered,
                old_panes == panes_view(old(self).panes@),
                forall|j: int|
                    0 <= j < i ==> (#[trigger] self.panes@[j])@ == (FilePaneView {
                        rect: spec_rect_from_pane_index(rect, j as usize, self.nr_of_panes),
                        ..old_panes[j]
                    }),
                forall|j: int| i <= j < n ==> (#[trigger] self.panes@[j])@ == old_panes[j],
            decreases n - i,
        {
            let r = Self::rect_from_pane_index(self.rect, i, self.nr_of_panes);
            self.panes[i].resize(r);
            i = i + 1;
        }
        assert(final(self)@.panes =~= Seq::new(
            old(self)@.panes.len(),
            |i: int|
                FilePaneView {
                    rect: spec_rect_from_pane_index(rect, i as usize, old(self)@.nr_of_panes),
                    ..old(self)@.panes[i]
                },
        ));
    }

    /// Moves the full row one place left: each pane shows the directory of
    /// the pane to its right, with its selection, and the last pane shows
    /// `path`; `listings` are the entries of these directories in order.
    fn shift_left(&mut self, path: &String, listings: Vec<Vec<Entry>>)
        requires
            wf(old(self)@),
            old(self).panes@.len() == old(self).nr_of_panes,
            listings@.len() == old(self).nr_of_panes,
        ensures
            final(self)@ == (FilePanesView {
                panes: spec_shift_panes(
                    old(self)@.panes,
                    old(self).nr_of_panes as int,
                    path@,
                    listings_view(listings@),
                ),
                ..old(self)@
            }),
    {
        let ghost old_panes = old(self)@.panes;
        let ghost all = listings_view(listings@);
        let mut listings = listings;
        let n = self.nr_of_panes;
        let mut i: usize = 0;
        while i < n - 1
            invariant
                1 <= n <= u16::MAX,
                n == self.nr_of_panes,
                n == old(self).nr_of_panes,
                self.panes@.len() == n,
                old_panes.len() == n,
                all.len() == n,
                i <= n - 1,
                listings@.len() == n - i,
                forall|k: int| 0 <= k < listings@.len() ==> (#[trigger] listings@[k])@ == all[i + k],
                forall|j: int|
                    0 <= j < i ==> (#[trigger] self.panes@[j])@ == shifted_pane(old_panes, j, all[j]),
                forall|j: int| i <= j < n ==> (#[trigger] self.panes@[j])@ == old_panes[j],
                self.rect == old(self).rect,
                self.preview == old(self).preview,
                self.focused == old(self).focused,
                self.hovered == old(self).hovered,
            decreases n - 1 - i,
        {
            let prev_path = self.panes[i + 1].current_path.clone();
            let sel = self.panes[i + 1].selected;
            assert(listings@[0]@ == all[i as int]);
            let ghost before = listings@;
            let l = listings.remove(0);
            self.panes[i].load_path(&prev_path, l);
            self.panes[i].select(sel);
            assert forall|k: int| 0 <= k < listings@.len() implies (#[trigger] listings@[k])@ == all[
                i + 1 + k] by {
                assert(listings@[k] == before[k + 1]);
            }
            i = i + 1;
        }
        assert(listings@[0]@ == all[n - 1]);
        let l = listings.remove(0);
        self.panes[n - 1].load_path(path, l);
        assert(self@.panes =~= spec_shift_panes(old_panes, n as int, path@, all));
    }

    /// Shows the directory `path` at `pane_index` (see `spec_show_dir`);
    /// `listings` are the entries of the directories that
    /// `show_dir_reads` lists, read in that order by the caller.
    pub fn show_dir(&mut self, path: &String, pane_index: usize, listings: Vec<Vec<Entry>>)
        requires
            show_dir_ok(old(self)@, pane_index),
            listings@.len() == show_dir_reads(old(self)@, path@, pane_index).len(),
        ensures
            wf(final(self)@),
            final(self)@ == spec_show_dir(old(self)@, path@, pane_index, listings_view(listings@)),
    {
        let ghost all = listings_view(listings@);
        let mut listings = listings;
        if pane_index == self.nr_of_panes {
            self.shift_left(path, listings);
        } else {
            let ghost v0 = self@;
            if self.panes.len() < pane_index + 1 {
                let r = Self::rect_from_pane_index(self.rect, pane_index, self.nr_of_panes);
                self.panes.push(FilePane::new_empty(r));
            }
            let ghost opened = self@.panes;
            assert(opened =~= if v0.panes.len() < pane_index + 1 {
                v0.panes.push(spec_empty_pane(spec_rect_from_pane_index(v0.rect, pane_index, v0.nr_of_panes)))
            } else {
                v0.panes
            });
            let l = listings.remove(0);
            self.panes[pane_index].load_path(path, l);
            assert(self@.panes =~= opened.update(
                pane_index as int,
                spec_load_path(opened[pane_index as int], path@, all[0]),
            ));
            self.close_from(pane_index + 1);
        }
        self.preview = None;
        assert(self@ =~~= spec_show_dir(old(self)@, path@, pane_index, all));
    }

    /// Shows the file `path` at `pane_index` (see `spec_show_file`);
    /// `listings` are the entries of the directories that `show_file_reads`
    /// lists, and `size` the file's length when its metadata could be read,
    /// all read by the caller.
    pub fn show_file(
        &mut self,
        path: &String,
        pane_index: usize,
        listings: Vec<Vec<Entry>>,
        size: Option<u64>,
    )
        requires
            show_file_ok(old(self)@, pane_index),
            listings@.len() == show_file_reads(old(self)@, path@, pane_index).len(),
        ensures
            wf(final(self)@),
            final(self)@ == spec_show_file(
                old(self)@,
                path@,
                pane_index,
                listings_view(listings@),
                size,
            ),
    {
        let ghost all = listings_view(listings@);
        self.close_from(pane_index);
        let mut new_index = pane_index;
        if pane_index == self.nr_of_panes {
            self.shift_left(path, listings);
            new_index = new_index - 1;
        }
        let pane_width = self.rect.width / self.nr_of_panes as u16;
        proof {
            let n = self.nr_of_panes;
            assert(pane_width * new_index <= pane_width * n) by (nonlinear_arith)
                requires
                    new_index < n,
            ;
            assert(new_index * pane_width == pane_width * new_index) by (nonlinear_arith);
            assert(pane_width * n <= self.rect.width) by (nonlinear_arith)
                requires
                    pane_width == self.rect.width / (n as u16),
                    n as u16 == n,
                    n >= 1,
            ;
        }
        let width = self.rect.width - (new_index as u16 * pane_width);
        let r = rect_new(self.rect.x + pane_width * new_index as u16, self.rect.y, width, self.rect.height);
        self.preview = Some(PreviewPane::new(r, path, size));
        assert(self@ =~~= spec_show_file(old(self)@, path@, pane_index, all, size));
    }

    /// Closes the panes from `from_index` on.
    pub fn close_from(&mut self, from_index: usize)
        ensures
            final(self)@ == (FilePanesView {
                panes: old(self)@.panes.take(
                    if from_index < old(self)@.panes.len() {
                        from_index as int
                    } else {
                        old(self)@.panes.len() as int
                    },
                ),
                ..old(self)@
            }),
    {
        self.panes.truncate(from_index);
        assert(final(self)@.panes =~= old(self)@.panes.take(
            if from_index < old(self)@.panes.len() {
                from_index as int
            } else {
                old(self)@.panes.len() as int
            },
        ));
    }

    /// The place of the pane under column `col`, when a pane is open there.
    pub fn get_pane_index_at(&self, row: u16, col: u16) -> (r: Option<usize>)
        requires
            pane_index_computable(self@, col),
        ensures
            r == spec_pane_index_at(self@, col),
    {
        let pane_index = ((col - self.rect.x) / (self.rect.width / self.nr_of_panes as u16)) as usize;
        if pane_index < self.panes.len() {
            Some(pane_index)
        } else {
            None
        }
    }
}

/// The texts of a list of strings.
pub open spec fn strings_view(v: Seq<String>) -> Seq<Seq<char>> {
    v.map_values(|s: String| s@)
}

impl FilePanes {
    /// The directories of the panes from the second up to the last allowed
    /// one, then `path`: what moving the full row left reads.
    fn shift_reads(&self, path: &String) -> (r: Vec<String>)
        requires
            wf(self@),
            self@.panes.len() >= self.nr_of_panes,
        ensures
            strings_view(r@) == Seq::new(
                (self.nr_of_panes - 1) as nat,
                |i: int| self@.panes[i + 1].current_path,
            ).push(path@),
    {
        let n = self.nr_of_panes;
        let mut r: Vec<String> = Vec::new();
        let mut i: usize = 1;
        while i < n
            invariant
                1 <= i <= n,
                n == self.nr_of_panes,
                wf(self@),
                self@.panes.len() >= n,
                self.panes@.len() == self@.panes.len(),
                r@.len() == i - 1,
                forall|j: int| 0 <= j < i - 1 ==> (#[trigger] r@[j])@ == self@.panes[j + 1].current_path,
            decreases n - i,
        {
            r.push(self.panes[i].current_path.clone());
            i = i + 1;
        }
        r.push(path.clone());
        assert(strings_view(r@) =~= Seq::new(
            (self.nr_of_panes - 1) as nat,
            |i: int| self@.panes[i + 1].current_path,
        ).push(path@));
        r
    }

    /// The directories that `show_dir` reads (see `show_dir_reads`).
    pub fn show_dir_reads_of(&self, path: &String, pane_index: usize) -> (r: Vec<String>)
        requires
            show_dir_ok(self@, pane_index),
        ensures
            strings_view(r@) == show_dir_reads(self@, path@, pane_index),
    {
        if pane_index == self.nr_of_panes {
            self.shift_reads(path)
        } else {
            let mut r: Vec<String> = Vec::new();
            r.push(path.clone());
            assert(strings_view(r@) =~= seq![path@]);
            r
        }
    }

    /// The directories that `show_file` reads (see `show_file_reads`).
    pub fn show_file_reads_of(&self, path: &String, pane_index: usize) -> (r: Vec<String>)
        requires
            show_file_ok(self@, pane_index),
        ensures
            strings_view(r@) == show_file_reads(self@, path@, pane_index),
    {
        if pane_index == self.nr_of_panes {
            self.shift_reads(path)
        } else {
            let r: Vec<String> = Vec::new();
            assert(strings_view(r@) =~= Seq::empty());
            r
        }
    }
}

/// Showing a directory leaves it in the last open pane, listed with the
/// entries read last, the preview closed; the row is full after moving left,
/// else it ends at the pane where the directory was shown.
pub proof fn law_show_dir_shows_path(
    v: FilePanesView,
    path: Seq<char>,
    pane_index: usize,
    listings: Seq<Seq<Entry>>,
)
    requires
        show_dir_ok(v, pane_index),
        listings.len() == show_dir_reads(v, path, pane_index).len(),
    ensures
        ({
            let r = spec_show_dir(v, path, pane_index, listings);
            &&& wf(r)
            &&& r.panes.len() == if pane_index == v.nr_of_panes {
                v.nr_of_panes as int
            } else {
                pane_index + 1
            }
            &&& r.panes.last().current_path == path
            &&& r.panes.last().entries == listings.last()
            &&& r.panes.last().selected is None
            &&& r.preview is None
        }),
{
}

/// Showing a file opens its preview at the place right of the pane it was
/// shown from, or in the last place after the row moved left.
pub proof fn law_show_file_previews(
    v: FilePanesView,
    path: Seq<char>,
    pane_index: usize,
    listings: Seq<Seq<Entry>>,
    size: Option<u64>,
)
    requires
        show_file_ok(v, pane_index),
        listings.len() == show_file_reads(v, path, pane_index).len(),
    ensures
        ({
            let r = spec_show_file(v, path, pane_index, listings, size);
            &&& wf(r)
            &&& r.preview == Some(
                spec_preview(preview_rect(v.rect, preview_index(v, pane_index), v.nr_of_panes), path, size),
            )
            &&& r.panes.len() == if pane_index == v.nr_of_panes {
                v.nr_of_panes as int
            } else if pane_index < v.panes.len() {
                pane_index as int
            } else {
                v.panes.len() as int
            }
        }),
{
}

} // verus!
