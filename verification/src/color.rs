//! RGBA colors and the default palette used by the widgets.

use vstd::prelude::*;

verus! {

/// An RGBA color; the alpha channel only matters for blended draws.
#[derive(Clone, Copy, PartialEq, Eq, Structural, Debug)]
pub struct Color {
    pub r: u8,
    pub g: u8,
    pub b: u8,
    pub a: u8,
}

impl Color {
    /// An opaque color from its three channels.
    pub fn rgb(r: u8, g: u8, b: u8) -> (c: Color)
        ensures
            c == (Color { r, g, b, a: 0xff }),
    {
        Color { r, g, b, a: 0xff }
    }

    pub fn rgba(r: u8, g: u8, b: u8, a: u8) -> (c: Color)
        ensures
            c == (Color { r, g, b, a }),
    {
        Color { r, g, b, a }
    }
}

/// The default palette.
impl Color {
    pub fn black() -> (c: Color)
        ensures
            c == (Color { r: 0u8, g: 0u8, b: 0u8, a: 0xffu8 }),
    {
        Color { r: 0, g: 0, b: 0, a: 0xff }
    }

    /// The default window background.
    pub fn dark_purple() -> (c: Color)
        ensures
            c == (Color { r: 50u8, g: 50u8, b: 100u8, a: 0xffu8 }),
    {
        Color { r: 50, g: 50, b: 100, a: 0xff }
    }

    /// A still darker shade of the background, for accents.
    pub fn darker_purple() -> (c: Color)
        ensures
            c == (Color { r: 40u8, g: 40u8, b: 80u8, a: 0xffu8 }),
    {
        Color { r: 40, g: 40, b: 80, a: 0xff }
    }

    /// The default button face.
    pub fn manilla() -> (c: Color)
        ensures
            c == (Color { r: 240u8, g: 240u8, b: 200u8, a: 0xffu8 }),
    {
        Color { r: 240, g: 240, b: 200, a: 0xff }
    }

    pub fn white() -> (c: Color)
        ensures
            c == (Color { r: 255u8, g: 255u8, b: 255u8, a: 0xffu8 }),
    {
        Color { r: 255, g: 255, b: 255, a: 0xff }
    }

    pub fn light_gray() -> (c: Color)
        ensures
            c == (Color { r: 200u8, g: 200u8, b: 200u8, a: 0xffu8 }),
    {
        Color { r: 200, g: 200, b: 200, a: 0xff }
    }

    pub fn dark_gray() -> (c: Color)
        ensures
            c == (Color { r: 80u8, g: 80u8, b: 80u8, a: 0xffu8 }),
    {
        Color { r: 80, g: 80, b: 80, a: 0xff }
    }
}

} // verus!
