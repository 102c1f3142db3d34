//! Font parameters. Loading and measuring fonts is the job of an outside
//! measurement service; the library only records which font a text uses and
//! receives the measured pixel size of each string.

use vstd::prelude::*;

verus! {

/// Identifies a font: where it lives and at which point size it is used.
#[derive(Clone, Copy, PartialEq, Eq, Hash, Debug)]
pub struct FontParams {
    /// Path to the font resource.
    pub path: &'static str,
    /// Point size of the font.
    pub point_size: u16,
}

impl FontParams {
    pub fn new(path: &'static str, point_size: u16) -> (f: FontParams)
        ensures
            f == (FontParams { path, point_size }),
    {
        FontParams { path, point_size }
    }

    /// The font every text component starts with.
    pub fn default_font() -> (f: FontParams)
        ensures
            f.point_size == 20u16,
    {
        FontParams { path: "./res/font/OpenSans-Regular.ttf", point_size: 20 }
    }
}

} // verus!
