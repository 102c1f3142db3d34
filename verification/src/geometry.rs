//! Geometry primitives: axis-aligned rectangles, four-sided padding and the
//! alignment / orientation enums shared by every view and widget.

use vstd::prelude::*;

verus! {

/// An axis-aligned rectangle: draw origin `(x, y)` plus a non-negative size.
///
/// Well-formed rectangles keep `x + width` and `y + height` within `i32`,
/// so that hit testing and translation never overflow.
#[derive(Clone, Copy, PartialEq, Eq, Structural, Debug)]
pub struct Rect {
    pub x: i32,
    pub y: i32,
    pub width: u32,
    pub height: u32,
}

impl Rect {
    /// The right and bottom edges stay representable as `i32`.
    pub open spec fn wf(self) -> bool {
        self.x + self.width <= i32::MAX && self.y + self.height <= i32::MAX
    }

    pub open spec fn spec_translate(self, dx: int, dy: int) -> Rect {
        Rect { x: (self.x + dx) as i32, y: (self.y + dy) as i32, ..self }
    }

    /// A point is inside when it lies within the half-open span on both axes.
    pub open spec fn spec_contains(self, px: int, py: int) -> bool {
        self.x <= px < self.x + self.width && self.y <= py < self.y + self.height
    }

    pub fn new(x: i32, y: i32, width: u32, height: u32) -> (r: Rect)
        requires
            x + width <= i32::MAX,
            y + height <= i32::MAX,
        ensures
            r == (Rect { x, y, width, height }),
            r.wf(),
    {
        Rect { x, y, width, height }
    }

    /// Move the rectangle by `(dx, dy)` without changing its size.
    pub fn translate(&self, dx: i32, dy: i32) -> (r: Rect)
        requires
            i32::MIN <= self.x + dx <= i32::MAX,
            i32::MIN <= self.y + dy <= i32::MAX,
        ensures
            r == self.spec_translate(dx as int, dy as int),
    {
        Rect { x: self.x + dx, y: self.y + dy, width: self.width, height: self.height }
    }

    /// Hit test: whether `(px, py)` lies inside the rectangle.
    pub fn contains(&self, px: i32, py: i32) -> (b: bool)
        ensures
            b == self.spec_contains(px as int, py as int),
    {
        self.x <= px && (px as i64) < self.x as i64 + self.width as i64 && self.y <= py
            && (py as i64) < self.y as i64 + self.height as i64
    }

    /// Translating by `(dx, dy)` and back by `(-dx, -dy)` returns to the
    /// original rectangle.
    pub proof fn lemma_translate_round_trip(self, dx: int, dy: int)
        requires
            i32::MIN <= self.x + dx <= i32::MAX,
            i32::MIN <= self.y + dy <= i32::MAX,
        ensures
            self.spec_translate(dx, dy).spec_translate(-dx, -dy) == self,
    {
    }
}

/// Four-sided inset applied by a view around its children.
#[derive(Clone, Copy, PartialEq, Eq, Structural, Debug)]
pub struct Padding {
    pub left: u32,
    pub right: u32,
    pub top: u32,
    pub bottom: u32,
}

impl Padding {
    pub fn new(left: u32, right: u32, top: u32, bottom: u32) -> (p: Padding)
        ensures
            p == (Padding { left, right, top, bottom }),
    {
        Padding { left, right, top, bottom }
    }

    /// The default inset of ten pixels on every side.
    pub fn uniform_default() -> (p: Padding)
        ensures
            p == (Padding { left: 10u32, right: 10u32, top: 10u32, bottom: 10u32 }),
    {
        Padding { left: 10, right: 10, top: 10, bottom: 10 }
    }
}

/// How a view positions its children along its cross axis.
#[derive(Clone, Copy, PartialEq, Eq, Structural, Debug)]
pub enum Alignment {
    Center,
    Left,
    Right,
}

/// Direction of a divider line.
#[derive(Clone, Copy, PartialEq, Eq, Structural, Debug)]
pub enum Orientation {
    Horizontal,
    Vertical,
}

} // verus!
