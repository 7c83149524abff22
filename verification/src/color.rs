use vstd::prelude::*;
use vstd::string::*;
use vstd::utf8::*;

verus! {

broadcast use vstd::utf8::group_utf8_lib;

/// A terminal colour, as the configuration names it.
#[derive(Clone, Copy, Debug, PartialEq, Eq, Structural)]
pub enum Color {
    Black,
    Red,
    Green,
    Yellow,
    Blue,
    Magenta,
    Cyan,
    Gray,
    DarkGray,
    LightRed,
    LightGreen,
    LightYellow,
    LightBlue,
    LightMagenta,
    LightCyan,
    White,
    Rgb(u8, u8, u8),
}

/// The value of an ASCII hexadecimal digit, in either case.
pub open spec fn hex_value(b: u8) -> Option<u8> {
    if 0x30 <= b <= 0x39 {
        Some((b - 0x30) as u8)
    } else if 0x61 <= b <= 0x66 {
        Some((b - 0x61 + 10) as u8)
    } else if 0x41 <= b <= 0x46 {
        Some((b - 0x41 + 10) as u8)
    } else {
        None
    }
}

/// The number that a two-byte text gives in base 16: an optional `+` sign,
/// then only digits (`u8::from_str_radix(text, 16)` on two bytes).
pub open spec fn hex_pair_value(hi: u8, lo: u8) -> Option<u8> {
    if hi == 0x2b {
        hex_value(lo)
    } else {
        match (hex_value(hi), hex_value(lo)) {
            (Some(h), Some(l)) => Some((h * 16 + l) as u8),
            _ => None,
        }
    }
}

/// Whether taking the byte ranges 1..3, 3..5 and 5..7 of a seven-character
/// text, in that order and stopping at the first range that is no number,
/// meets a range that does not start and end on character boundaries.
pub open spec fn rgb_slicing_panics(s: Seq<char>) -> bool {
    let b = encode_utf8(s);
    &&& s.len() == 7
    &&& {
        ||| !is_char_boundary(b, 1)
        ||| !is_char_boundary(b, 3)
        ||| (hex_pair_value(b[1], b[2]) is Some && !is_char_boundary(b, 5))
        ||| (hex_pair_value(b[1], b[2]) is Some && hex_pair_value(b[3], b[4]) is Some
            && !is_char_boundary(b, 7))
    }
}

/// The colour that a `#rrggbb` code stands for: red when the text is not
/// seven characters long, nothing when one of the three pairs is no number.
pub open spec fn spec_parse_rgb(s: Seq<char>) -> Option<Color> {
    let b = encode_utf8(s);
    if s.len() != 7 {
        Some(Color::Red)
    } else {
        match (hex_pair_value(b[1], b[2]), hex_pair_value(b[3], b[4]), hex_pair_value(b[5], b[6])) {
            (Some(r), Some(g), Some(bl)) => Some(Color::Rgb(r, g, bl)),
            _ => None,
        }
    }
}

/// The colour that a colour name stands for; red for any other text.
pub open spec fn named_color(s: Seq<char>) -> Color {
    if s == "black"@ {
        Color::Black
    } else if s == "red"@ {
        Color::Red
    } else if s == "green"@ {
        Color::Green
    } else if s == "yellow"@ {
        Color::Yellow
    } else if s == "blue"@ {
        Color::Blue
    } else if s == "magenta"@ {
        Color::Magenta
    } else if s == "cyan"@ {
        Color::Cyan
    } else if s == "gray"@ {
        Color::Gray
    } else if s == "darkgray"@ {
        Color::DarkGray
    } else if s == "lightred"@ {
        Color::LightRed
    } else if s == "lightyellow"@ {
        Color::LightYellow
    } else if s == "lightblue"@ {
        Color::LightBlue
    } else if s == "lightmagenta"@ {
        Color::LightMagenta
    } else if s == "lightcyan"@ {
        Color::LightCyan
    } else if s == "white"@ {
        Color::White
    } else {
        Color::Red
    }
}

/// Whether the text starts with `#`.
pub open spec fn starts_with_hash(s: Seq<char>) -> bool {
    s.len() > 0 && s[0] == '#'
}

/// Whether reading a colour from this (already lower-case) text would slice
/// it off a character boundary.
pub open spec fn color_text_panics(s: Seq<char>) -> bool {
    starts_with_hash(s) && rgb_slicing_panics(s)
}

/// The colour that an already lower-case text stands for: a `#rrggbb` code,
/// or one of the colour names; red for anything that is neither.
pub open spec fn spec_color_from_lowercase(s: Seq<char>) -> Color {
    if starts_with_hash(s) {
        match spec_parse_rgb(s) {
            Some(c) => c,
            None => Color::Red,
        }
    } else {
        named_color(s)
    }
}

/// What `str::to_lowercase` gives: the Unicode lower-case form of the text.
pub uninterp spec fn lowercase(s: Seq<char>) -> Seq<char>;

/// The text with its ASCII capital letters put in lower case, every other
/// character kept.
pub open spec fn ascii_lower(s: Seq<char>) -> Seq<char> {
    Seq::new(
        s.len(),
        |i: int|
            if 'A' <= s[i] <= 'Z' {
                ((s[i] as int) + 32) as char
            } else {
                s[i]
            },
    )
}

/// Calls `str::to_lowercase`; its result is left to the name `lowercase`,
/// a function of the text alone. Of an ASCII text the contract states it:
/// the documentation of `str::to_lowercase` and `char::to_lowercase` maps the
/// ASCII capital letters to their small letters and keeps the rest of ASCII.
#[verifier::external_body]
fn to_lowercase(s: &str) -> (r: String)
    ensures
        r@ == lowercase(s@),
        is_ascii_chars(s@) ==> r@ == ascii_lower(s@),
{
    s.to_lowercase()
}

/// Whether two texts hold the same characters.
pub fn str_eq(a: &str, b: &str) -> (r: bool)
    ensures
        r == (a@ == b@),
{
    let n = a.unicode_len();
    if n != b.unicode_len() {
        return false;
    }
    let mut i: usize = 0;
    while i < n
        invariant
            n == a@.len(),
            n == b@.len(),
            i <= n,
            forall|j: int| 0 <= j < i ==> a@[j] == b@[j],
        decreases n - i,
    {
        if a.get_char(i) != b.get_char(i) {
            return false;
        }
        i = i + 1;
    }
    assert(a@ =~= b@);
    true
}

/// The value of an ASCII hexadecimal digit.
fn hex_digit(b: u8) -> (r: Option<u8>)
    ensures
        r == hex_value(b),
{
    if 0x30 <= b && b <= 0x39 {
        Some(b - 0x30)
    } else if 0x61 <= b && b <= 0x66 {
        Some(b - 0x61 + 10)
    } else if 0x41 <= b && b <= 0x46 {
        Some(b - 0x41 + 10)
    } else {
        None
    }
}

/// The number that two bytes give in base 16, with an optional `+` sign.
fn hex_pair(hi: u8, lo: u8) -> (r: Option<u8>)
    ensures
        r == hex_pair_value(hi, lo),
{
    if hi == 0x2b {
        hex_digit(lo)
    } else {
        match (hex_digit(hi), hex_digit(lo)) {
            (Some(h), Some(l)) => Some(h * 16 + l),
            _ => None,
        }
    }
}

proof fn lemma_boundary_in_range(b: Seq<u8>, i: int)
    requires
        valid_utf8(b),
        is_char_boundary(b, i),
    ensures
        0 <= i <= b.len(),
{
}

/// Reads a `#rrggbb` code: red when the text is not seven characters long,
/// nothing when a pair of digits is no number.
fn parse_rbg(hex_code: &str) -> (r: Option<Color>)
    requires
        !rgb_slicing_panics(hex_code@),
    ensures
        r == spec_parse_rgb(hex_code@),
{
    if hex_code.unicode_len() != 7 {
        return Some(Color::Red);
    }
    let bytes = hex_code.as_bytes();
    let ghost b = encode_utf8(hex_code@);
    assert(bytes@ == b);
    proof {
        lemma_boundary_in_range(b, 3);
    }
    let r = hex_pair(bytes[1], bytes[2]);
    if r.is_none() {
        return None;
    }
    proof {
        lemma_boundary_in_range(b, 5);
    }
    let g = hex_pair(bytes[3], bytes[4]);
    if g.is_none() {
        return None;
    }
    proof {
        lemma_boundary_in_range(b, 7);
    }
    let bl = hex_pair(bytes[5], bytes[6]);
    match (r, g, bl) {
        (Some(r), Some(g), Some(bl)) => Some(Color::Rgb(r, g, bl)),
        _ => None,
    }
}

/// Whether reading a colour from this lower-case text would slice it off a
/// character boundary (see `color_text_panics`).
pub fn color_text_would_panic(s: &str) -> (r: bool)
    ensures
        r == color_text_panics(s@),
{
    let n = s.unicode_len();
    if !(n > 0 && s.get_char(0) == '#') || n != 7 {
        return false;
    }
    let bytes = s.as_bytes();
    let ghost b = encode_utf8(s@);
    assert(bytes@ == b);
    if !s.is_char_boundary(1) || !s.is_char_boundary(3) {
        return true;
    }
    proof {
        lemma_boundary_in_range(b, 3);
    }
    if hex_pair(bytes[1], bytes[2]).is_none() {
        return false;
    }
    if !s.is_char_boundary(5) {
        return true;
    }
    proof {
        lemma_boundary_in_range(b, 5);
    }
    if hex_pair(bytes[3], bytes[4]).is_none() {
        return false;
    }
    !s.is_char_boundary(7)
}

/// The colour that an already lower-case text stands for: a `#rrggbb` code,
/// or one of the names black, red, green, yellow, blue, magenta, cyan, gray,
/// darkgray, lightred, lightyellow, lightblue, lightmagenta, lightcyan and
/// white; red for anything else.
pub fn color_from_lowercase(s: &str) -> (c: Color)
    requires
        !color_text_panics(s@),
    ensures
        c == spec_color_from_lowercase(s@),
{
    let n = s.unicode_len();
    if n > 0 && s.get_char(0) == '#' {
        match parse_rbg(s) {
            Some(c) => c,
            None => Color::Red,
        }
    } else if str_eq(s, "black") {
        Color::Black
    } else if str_eq(s, "red") {
        Color::Red
    } else if str_eq(s, "green") {
        Color::Green
    } else if str_eq(s, "yellow") {
        Color::Yellow
    } else if str_eq(s, "blue") {
        Color::Blue
    } else if str_eq(s, "magenta") {
        Color::Magenta
    } else if str_eq(s, "cyan") {
        Color::Cyan
    } else if str_eq(s, "gray") {
        Color::Gray
    } else if str_eq(s, "darkgray") {
        Color::DarkGray
    } else if str_eq(s, "lightred") {
        Color::LightRed
    } else if str_eq(s, "lightyellow") {
        Color::LightYellow
    } else if str_eq(s, "lightblue") {
        Color::LightBlue
    } else if str_eq(s, "lightmagenta") {
        Color::LightMagenta
    } else if str_eq(s, "lightcyan") {
        Color::LightCyan
    } else if str_eq(s, "white") {
        Color::White
    } else {
        Color::Red
    }
}

/// The colour that a configuration text stands for, read without regard to
/// case.
pub open spec fn spec_parse_color(s: Seq<char>) -> Color {
    spec_color_from_lowercase(lowercase(s))
}

/// Whether a configuration text can be read as a colour without slicing it
/// off a character boundary.
pub open spec fn color_text_readable(s: Seq<char>) -> bool {
    !color_text_panics(lowercase(s))
}

/// Whether a configuration text is accepted by `parse_color`: an ASCII
/// text always is; another one where it can be read without slicing off a
/// character boundary.
pub open spec fn color_text_accepted(s: Seq<char>) -> bool {
    is_ascii_chars(s) || color_text_readable(s)
}

/// Putting an ASCII text in lower case gives an ASCII text of the same
/// length.
pub proof fn lemma_ascii_lower_is_ascii(s: Seq<char>)
    requires
        is_ascii_chars(s),
    ensures
        is_ascii_chars(ascii_lower(s)),
        ascii_lower(s).len() == s.len(),
{
    assert forall|i| 0 <= i < ascii_lower(s).len() implies '\0' <= #[trigger] ascii_lower(s)[i]
        <= '\u{7f}' by {
        if 'A' <= s[i] <= 'Z' {
            assert((s[i] as int) + 32 <= 0x7f);
        }
    }
}

/// Reading a colour from an ASCII text never slices off a character
/// boundary.
pub proof fn law_ascii_color_text_never_panics(t: Seq<char>)
    requires
        is_ascii_chars(t),
    ensures
        !color_text_panics(t),
{
    if t.len() == 7 {
        let bytes = encode_utf8(t);
        assert(bytes.len() == 7);
        is_char_boundary_iff_not_is_continuation_byte(bytes, 1);
        is_char_boundary_iff_not_is_continuation_byte(bytes, 3);
        is_char_boundary_iff_not_is_continuation_byte(bytes, 5);
        assert(bytes[1] == t[1] as u8);
        assert(bytes[3] == t[3] as u8);
        assert(bytes[5] == t[5] as u8);
        assert(is_char_boundary(bytes, 7));
    }
}

/// Reads a colour from the configuration: the text is put in lower case,
/// then read as a `#rrggbb` code or a colour name; red for anything else.
/// An ASCII text is read without regard to the case of its letters.
pub fn parse_color(color_str: &str) -> (c: Color)
    requires
        color_text_accepted(color_str@),
    ensures
        c == spec_color_from_lowercase(lowercase(color_str@)),
        is_ascii_chars(color_str@) ==> c == spec_color_from_lowercase(ascii_lower(color_str@)),
{
    let lower = to_lowercase(color_str);
    proof {
        if is_ascii_chars(color_str@) {
            lemma_ascii_lower_is_ascii(color_str@);
            law_ascii_color_text_never_panics(lower@);
        }
    }
    color_from_lowercase(lower.as_str())
}

/// Whether a configuration text can be read as a colour (see
/// `color_text_readable`).
pub fn color_text_is_readable(color_str: &str) -> (r: bool)
    ensures
        r == color_text_readable(color_str@),
        r == color_text_accepted(color_str@),
{
    let lower = to_lowercase(color_str);
    proof {
        if is_ascii_chars(color_str@) {
            lemma_ascii_lower_is_ascii(color_str@);
            law_ascii_color_text_never_panics(lower@);
        }
    }
    !color_text_would_panic(lower.as_str())
}

/// Reads a colour as `parse_color` does, or nothing where that would slice
/// the text off a character boundary.
pub fn try_parse_color(color_str: &str) -> (r: Option<Color>)
    ensures
        r is None <==> color_text_panics(lowercase(color_str@)),
        r matches Some(c) ==> c == spec_color_from_lowercase(lowercase(color_str@)),
        is_ascii_chars(color_str@) ==> r == Some(spec_color_from_lowercase(ascii_lower(color_str@))),
{
    if !color_text_is_readable(color_str) {
        None
    } else {
        Some(parse_color(color_str))
    }
}

/// The lower-case hexadecimal digit of a value below 16.
pub open spec fn hex_digit_char(v: u8) -> char {
    if v < 10 {
        ((v + 0x30) as u8) as char
    } else {
        ((v - 10 + 0x61) as u8) as char
    }
}

/// The `#rrggbb` code of a colour, in lower-case digits.
pub open spec fn rgb_code(r: u8, g: u8, b: u8) -> Seq<char> {
    seq![
        '#',
        hex_digit_char(r / 16),
        hex_digit_char(r % 16),
        hex_digit_char(g / 16),
        hex_digit_char(g % 16),
        hex_digit_char(b / 16),
        hex_digit_char(b % 16),
    ]
}

proof fn lemma_hex_digit_char(v: u8)
    requires
        v < 16,
    ensures
        (hex_digit_char(v) as u32) < 0x80,
        hex_value(hex_digit_char(v) as u8) == Some(v),
        hex_digit_char(v) as u8 != 0x2b,
{
    if v < 10 {
        assert(hex_digit_char(v) as u32 == v + 0x30);
    } else {
        assert(hex_digit_char(v) as u32 == v - 10 + 0x61);
    }
}

/// Every colour given by a `#rrggbb` code of lower-case digits is read back
/// as that colour, and reading it never slices off a character boundary.
pub proof fn law_rgb_code_reads_back(r: u8, g: u8, b: u8)
    ensures
        !color_text_panics(rgb_code(r, g, b)),
        spec_color_from_lowercase(rgb_code(r, g, b)) == Color::Rgb(r, g, b),
{
    let s = rgb_code(r, g, b);
    lemma_hex_digit_char(r / 16);
    lemma_hex_digit_char(r % 16);
    lemma_hex_digit_char(g / 16);
    lemma_hex_digit_char(g % 16);
    lemma_hex_digit_char(b / 16);
    lemma_hex_digit_char(b % 16);
    assert(is_ascii_chars(s));
    let bytes = encode_utf8(s);
    assert(bytes.len() == 7);
    assert(bytes[1] == hex_digit_char(r / 16) as u8);
    assert(bytes[2] == hex_digit_char(r % 16) as u8);
    assert(bytes[3] == hex_digit_char(g / 16) as u8);
    assert(bytes[4] == hex_digit_char(g % 16) as u8);
    assert(bytes[5] == hex_digit_char(b / 16) as u8);
    assert(bytes[6] == hex_digit_char(b % 16) as u8);
    is_char_boundary_iff_not_is_continuation_byte(bytes, 1);
    is_char_boundary_iff_not_is_continuation_byte(bytes, 3);
    is_char_boundary_iff_not_is_continuation_byte(bytes, 5);
    assert(is_char_boundary(bytes, 7));
    assert(hex_pair_value(bytes[1], bytes[2]) == Some(r));
    assert(hex_pair_value(bytes[3], bytes[4]) == Some(g));
    assert(hex_pair_value(bytes[5], bytes[6]) == Some(b));
}

} // verus!
