use vstd::prelude::*;
use vstd::utf8::encode_utf8;
use crate::paths::pairs_view;

verus! {

/// How a scan of a trail's names for the one under a column ends.
pub enum HoverScan {
    /// The arithmetic on the names' positions leaves the range of a `u16`.
    Overflows,
    /// The name at this place lies under the column.
    Found(int),
    /// No name lies under the column.
    Missed,
}

/// The width that a name takes in the trail: its length in bytes, cut to a
/// `u16`.
pub open spec fn name_width(name: Seq<char>) -> int {
    ((encode_utf8(name).len() as usize) as u16) as int
}

/// The widths of the names of a trail.
pub open spec fn name_widths(paths: Seq<(Seq<char>, Seq<char>)>) -> Seq<int> {
    paths.map_values(|e: (Seq<char>, Seq<char>)| name_width(e.0))
}

/// Scans the names of a trail from place `i`, whose name starts at column
/// `begin`: each name takes its width and three more columns for the
/// separator. A name lies under `column` when the column is between its
/// start and its end less `slack`.
pub open spec fn hover_scan(widths: Seq<int>, column: int, slack: int, i: int, begin: int) -> HoverScan
    decreases widths.len() - i,
{
    if i < 0 || i >= widths.len() {
        HoverScan::Missed
    } else {
        let end = begin + widths[i] + 3;
        if end > u16::MAX {
            HoverScan::Overflows
        } else if column >= begin && end - slack < 0 {
            HoverScan::Overflows
        } else if column >= begin && column <= end - slack {
            HoverScan::Found(i)
        } else {
            hover_scan(widths, column, slack, i + 1, end)
        }
    }
}

/// The place of the name under `column`, scanning from the first name.
pub open spec fn hovered_index(paths: Seq<(Seq<char>, Seq<char>)>, column: u16, slack: int) -> Option<usize> {
    match hover_scan(name_widths(paths), column as int, slack, 0, 0) {
        HoverScan::Found(i) => Some(i as usize),
        _ => None,
    }
}

/// Whether scanning for the name under `column` stays in the range of a
/// `u16`.
pub open spec fn hover_computable(paths: Seq<(Seq<char>, Seq<char>)>, column: u16, slack: int) -> bool {
    !(hover_scan(name_widths(paths), column as int, slack, 0, 0) is Overflows)
}

proof fn lemma_found_in_range(widths: Seq<int>, column: int, slack: int, i: int, begin: int)
    ensures
        hover_scan(widths, column, slack, i, begin) matches HoverScan::Found(k) ==> 0 <= i <= k
            < widths.len(),
    decreases widths.len() - i,
{
    if 0 <= i < widths.len() {
        lemma_found_in_range(widths, column, slack, i + 1, begin + widths[i] + 3);
    }
}

/// The place of the name of `paths` under `column` (see `hover_scan`).
pub fn scan_hovered(paths: &Vec<(String, String)>, column: u16, slack: u16) -> (r: Option<usize>)
    requires
        slack <= 4,
        hover_computable(pairs_view(paths@), column, slack as int),
    ensures
        r == hovered_index(pairs_view(paths@), column, slack as int),
        r matches Some(i) ==> i < paths@.len(),
{
    let ghost widths = name_widths(pairs_view(paths@));
    let mut begin: u16 = 0;
    let mut end: u16 = 0;
    let mut i: usize = 0;
    let n = paths.len();
    proof {
        lemma_found_in_range(widths, column as int, slack as int, 0, 0);
    }
    while i < n
        invariant
            n == paths@.len(),
            widths.len() == n,
            widths == name_widths(pairs_view(paths@)),
            i <= n,
            slack <= 4,
            hover_scan(widths, column as int, slack as int, 0, 0) == hover_scan(
                widths,
                column as int,
                slack as int,
                i as int,
                end as int,
            ),
            !(hover_scan(widths, column as int, slack as int, 0, 0) is Overflows),
        decreases n - i,
    {
        begin = end;
        let w = #[verifier::truncate] (paths[i].0.as_str().len() as u16);
        assert(w == widths[i as int]);
        end = end + w + 3;
        if column >= begin && column <= end - slack {
            return Some(i);
        }
        i = i + 1;
    }
    None
}

/// Whether scanning `paths` for the name under `column` stays in the range
/// of a `u16` (see `hover_computable`).
pub fn hover_scan_ok(paths: &Vec<(String, String)>, column: u16, slack: u16) -> (r: bool)
    requires
        slack <= 4,
    ensures
        r == hover_computable(pairs_view(paths@), column, slack as int),
{
    let ghost widths = name_widths(pairs_view(paths@));
    let mut end: u32 = 0;
    let mut i: usize = 0;
    let n = paths.len();
    while i < n
        invariant
            n == paths@.len(),
            widths.len() == n,
            widths == name_widths(pairs_view(paths@)),
            i <= n,
            slack <= 4,
            end <= u16::MAX,
            hover_scan(widths, column as int, slack as int, 0, 0) == hover_scan(
                widths,
                column as int,
                slack as int,
                i as int,
                end as int,
            ),
        decreases n - i,
    {
        let begin = end;
        let w = #[verifier::truncate] (paths[i].0.as_str().len() as u16);
        assert(w == widths[i as int]);
        end = begin + w as u32 + 3;
        if end > 65535 {
            return false;
        }
        if column as u32 >= begin && end < slack as u32 {
            return false;
        }
        if column as u32 >= begin && column as u32 <= end - slack as u32 {
            return true;
        }
        i = i + 1;
    }
    true
}

} // verus!
