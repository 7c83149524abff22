use vstd::prelude::*;

verus! {

/// A rectangular area of the terminal, in cells.
#[derive(Clone, Copy, Debug, PartialEq, Eq, Structural)]
pub struct Rect {
    pub x: u16,
    pub y: u16,
    pub width: u16,
    pub height: u16,
}

/// The size that `ratatui::layout::Rect::new` gives an area whose width and
/// height multiply to more than `u16::MAX`: it shrinks both, keeping the
/// aspect ratio, by a floating point computation.
pub uninterp spec fn clipped_size(width: u16, height: u16) -> (u16, u16);

/// Whether a rectangle of this size is kept as it is by `rect_new`.
pub open spec fn area_fits(width: u16, height: u16) -> bool {
    width * height <= u16::MAX
}

/// The rectangle that `rect_new` builds.
pub open spec fn spec_rect_new(x: u16, y: u16, width: u16, height: u16) -> Rect {
    if area_fits(width, height) {
        Rect { x, y, width, height }
    } else {
        Rect { x, y, width: clipped_size(width, height).0, height: clipped_size(width, height).1 }
    }
}

/// Calls `ratatui::layout::Rect::new`. Its source keeps `x` and `y`, keeps the
/// width and height when their product fits in a `u16`, and otherwise shrinks
/// them with a floating point formula, which is left to the name
/// `clipped_size`.
#[verifier::external_body]
pub fn rect_new(x: u16, y: u16, width: u16, height: u16) -> (r: Rect)
    ensures
        r.x == x,
        r.y == y,
        area_fits(width, height) ==> r.width == width && r.height == height,
        !area_fits(width, height) ==> (r.width, r.height) == clipped_size(width, height),
{
    let r = ratatui::layout::Rect::new(x, y, width, height);
    Rect { x: r.x, y: r.y, width: r.width, height: r.height }
}

impl Rect {
    /// Whether the cell at (`column`, `row`) lies in the rectangle, its right
    /// and bottom edges included.
    pub open spec fn spec_contains(self, column: u16, row: u16) -> bool {
        &&& self.x <= column <= self.x + self.width
        &&& self.y <= row <= self.y + self.height
    }
}

/// The button of a mouse event.
#[derive(Clone, Copy, Debug, PartialEq, Eq, Structural)]
pub enum MouseButton {
    Left,
    Right,
    Middle,
}

/// What happened in a mouse event.
#[derive(Clone, Copy, Debug, PartialEq, Eq, Structural)]
pub enum MouseEventKind {
    Down(MouseButton),
    Up(MouseButton),
    Drag(MouseButton),
    Moved,
    ScrollDown,
    ScrollUp,
    ScrollLeft,
    ScrollRight,
}

/// A mouse event at a cell of the terminal.
#[derive(Clone, Copy, Debug, PartialEq, Eq, Structural)]
pub struct MouseEvent {
    pub kind: MouseEventKind,
    pub column: u16,
    pub row: u16,
}

} // verus!
