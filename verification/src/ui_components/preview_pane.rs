use vstd::prelude::*;
use vstd::string::*;
use crate::geometry::Rect;
use crate::paths::{file_name, path_file_name};

verus! {

/// The pane that shows a file's name and size.
pub struct PreviewPane {
    pub rect: Rect,
    pub file_name: String,
    pub size: String,
}

/// What a preview pane holds, as values.
#[verifier::ext_equal]
pub struct PreviewPaneView {
    pub rect: Rect,
    pub file_name: Seq<char>,
    pub size: Seq<char>,
}

impl View for PreviewPane {
    type V = PreviewPaneView;

    open spec fn view(&self) -> PreviewPaneView {
        PreviewPaneView { rect: self.rect, file_name: self.file_name@, size: self.size@ }
    }
}

/// The character of a decimal digit.
pub open spec fn digit_char(d: nat) -> char {
    (48 + d) as char
}

/// The decimal numeral of a number, without leading zeros.
pub open spec fn decimal(n: nat) -> Seq<char>
    decreases n,
{
    if n < 10 {
        seq![digit_char(n)]
    } else {
        decimal(n / 10).push(digit_char(n % 10))
    }
}

/// The size of a file as it is shown: in bytes below a thousand, else in
/// whole kilobytes, megabytes, gigabytes or terabytes (powers of a thousand),
/// the number rounded down.
pub open spec fn size_text(size: nat) -> Seq<char> {
    if size < 1000 {
        decimal(size) + seq![' ', 'B']
    } else if size < 1_000_000 {
        decimal(size / 1000) + seq![' ', 'K', 'B']
    } else if size < 1_000_000_000 {
        decimal(size / 1_000_000) + seq![' ', 'M', 'B']
    } else if size < 1_000_000_000_000 {
        decimal(size / 1_000_000_000) + seq![' ', 'G', 'B']
    } else {
        decimal(size / 1_000_000_000_000) + seq![' ', 'T', 'B']
    }
}

/// The preview of the file at `path`, over `rect`, whose size is `size`
/// when it could be read.
pub open spec fn spec_preview(rect: Rect, path: Seq<char>, size: Option<u64>) -> PreviewPaneView {
    PreviewPaneView {
        rect,
        file_name: match path_file_name(path) {
            Some(n) => n,
            None => Seq::empty(),
        },
        size: match size {
            Some(s) => size_text(s as nat),
            None => Seq::empty(),
        },
    }
}

/// The text of one decimal digit.
fn digit_str(d: u64) -> (r: &'static str)
    requires
        d < 10,
    ensures
        r@ == seq![digit_char(d as nat)],
{
    proof {
        reveal_strlit("0");
        reveal_strlit("1");
        reveal_strlit("2");
        reveal_strlit("3");
        reveal_strlit("4");
        reveal_strlit("5");
        reveal_strlit("6");
        reveal_strlit("7");
        reveal_strlit("8");
        reveal_strlit("9");
    }
    if d == 0 {
        "0"
    } else if d == 1 {
        "1"
    } else if d == 2 {
        "2"
    } else if d == 3 {
        "3"
    } else if d == 4 {
        "4"
    } else if d == 5 {
        "5"
    } else if d == 6 {
        "6"
    } else if d == 7 {
        "7"
    } else if d == 8 {
        "8"
    } else {
        "9"
    }
}

/// The decimal numeral of a number.
pub fn decimal_string(n: u64) -> (r: String)
    ensures
        r@ == decimal(n as nat),
    decreases n,
{
    if n < 10 {
        digit_str(n).to_owned()
    } else {
        let mut s = decimal_string(n / 10);
        s.append(digit_str(n % 10));
        s
    }
}

/// The size of a file as it is shown (see `size_text`).
pub fn format_size(size: u64) -> (r: String)
    ensures
        r@ == size_text(size as nat),
{
    proof {
        reveal_strlit(" B");
        reveal_strlit(" KB");
        reveal_strlit(" MB");
        reveal_strlit(" GB");
        reveal_strlit(" TB");
    }
    if size < 1000 {
        let mut s = decimal_string(size);
        s.append(" B");
        s
    } else if size < 1_000_000 {
        let mut s = decimal_string(size / 1000);
        s.append(" KB");
        s
    } else if size < 1_000_000_000 {
        let mut s = decimal_string(size / 1_000_000);
        s.append(" MB");
        s
    } else if size < 1_000_000_000_000 {
        let mut s = decimal_string(size / 1_000_000_000);
        s.append(" GB");
        s
    } else {
        let mut s = decimal_string(size / 1_000_000_000_000);
        s.append(" TB");
        s
    }
}

impl PreviewPane {
    /// The preview of the file at `path` over `rect`; `size` is the file's
    /// length in bytes, or nothing when its metadata could not be read.
    pub fn new(rect: Rect, path: &String, size: Option<u64>) -> (r: PreviewPane)
        ensures
            r@ == spec_preview(rect, path@, size),
    {
        let file_name = match file_name(path.as_str()) {
            Some(n) => n,
            None => String::new(),
        };
        let size = match size {
            Some(s) => format_size(s),
            None => String::new(),
        };
        PreviewPane { rect, file_name, size }
    }
}

/// A size is shown in the largest unit of bytes, kilobytes, megabytes,
/// gigabytes and terabytes (powers of a thousand) that is not above it, as
/// the whole number of that unit; past a thousand terabytes it stays in
/// terabytes.
pub proof fn law_size_shown_in_largest_unit(size: nat)
    ensures
        size < 1000 ==> size_text(size) == decimal(size) + seq![' ', 'B'],
        1000 <= size < 1_000_000 ==> size_text(size) == decimal(size / 1000) + seq![' ', 'K', 'B'],
        1_000_000 <= size < 1_000_000_000 ==> size_text(size) == decimal(size / 1_000_000) + seq![
            ' ',
            'M',
            'B',
        ],
        1_000_000_000 <= size < 1_000_000_000_000 ==> size_text(size) == decimal(
            size / 1_000_000_000,
        ) + seq![' ', 'G', 'B'],
        1_000_000_000_000 <= size ==> size_text(size) == decimal(size / 1_000_000_000_000)
            + seq![' ', 'T', 'B'],
{
}

/// The numeral of a positive number does not start with `0`.
pub proof fn lemma_decimal_leading_digit(n: nat)
    requires
        n >= 1,
    ensures
        decimal(n).len() >= 1,
        decimal(n)[0] != '0',
    decreases n,
{
    if n >= 10 {
        lemma_decimal_leading_digit(n / 10);
    } else {
        assert(digit_char(n) as int == 48 + n);
    }
}

/// From a thousand bytes on, the number shown is never zero: the text does
/// not start with `0`.
pub proof fn law_shown_number_is_not_zero(size: nat)
    requires
        size >= 1000,
    ensures
        size_text(size)[0] != '0',
{
    if size < 1_000_000 {
        lemma_decimal_leading_digit(size / 1000);
    } else if size < 1_000_000_000 {
        lemma_decimal_leading_digit(size / 1_000_000);
    } else if size < 1_000_000_000_000 {
        lemma_decimal_leading_digit(size / 1_000_000_000);
    } else {
        lemma_decimal_leading_digit(size / 1_000_000_000_000);
    }
}

} // verus!
