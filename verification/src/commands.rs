//! Draw commands. Widgets and decorations do not draw themselves; they
//! compute the exact list of primitives a rendering backend must execute.

use vstd::prelude::*;
use crate::color::Color;
use crate::font::FontParams;
use crate::geometry::Rect;

verus! {

/// One rendering primitive, in paint order.
#[derive(PartialEq, Eq, Debug)]
pub enum DrawCmd {
    /// Fill `rect` with an opaque color.
    FillRect { rect: Rect, color: Color },
    /// Fill `rect` with an alpha-blended color.
    FillRectBlended { rect: Rect, color: Color },
    /// Rasterise `text` with `font` in `color` and copy it into `target`.
    DrawText { text: String, font: FontParams, color: Color, target: Rect },
    /// Copy the decoded image behind `resource` into `target`.
    DrawImage { resource: &'static str, target: Rect },
}

} // verus!
