//! Decorations: non-interactive drawables that take part in layout sizing
//! but never receive events — divider lines and overlay backdrops.

use vstd::prelude::*;
use crate::color::Color;
use crate::commands::DrawCmd;
use crate::geometry::{Orientation, Rect};

verus! {

/// A divider line across its parent, padded before and after.
pub struct Divider {
    pub x: i32,
    pub y: i32,
    pub orientation: Orientation,
    pub thickness: u32,
    pub color: Color,
    pub padding_before: u16,
    pub padding_after: u16,
}

impl Divider {
    pub fn new(orientation: Orientation) -> (d: Divider)
        ensures
            d.x == 0i32 && d.y == 0i32,
            d.orientation == orientation,
            d.thickness == 4u32,
            d.color == (Color { r: 40u8, g: 40u8, b: 80u8, a: 0xffu8 }),
            d.padding_before == 20u16 && d.padding_after == 20u16,
    {
        Divider {
            x: 0,
            y: 0,
            orientation,
            thickness: 4,
            color: Color::darker_purple(),
            padding_before: 20,
            padding_after: 20,
        }
    }

    pub fn with_thickness(self, thickness: u32) -> (d: Divider)
        ensures
            d == (Divider { thickness, ..self }),
    {
        Divider { thickness, ..self }
    }

    pub fn with_color(self, color: Color) -> (d: Divider)
        ensures
            d == (Divider { color, ..self }),
    {
        Divider { color, ..self }
    }

    /// The paddings plus the thickness, clamped into `u32`.
    pub open spec fn spec_extent(self) -> u32 {
        if self.padding_before + self.padding_after + self.thickness <= u32::MAX {
            (self.padding_before + self.padding_after + self.thickness) as u32
        } else {
            u32::MAX
        }
    }

    /// A horizontal divider takes no width of its own; a vertical one takes
    /// its paddings plus its thickness.
    pub open spec fn spec_draw_width(self) -> u32 {
        match self.orientation {
            Orientation::Horizontal => 0u32,
            Orientation::Vertical => self.spec_extent(),
        }
    }

    pub open spec fn spec_draw_height(self) -> u32 {
        match self.orientation {
            Orientation::Horizontal => self.spec_extent(),
            Orientation::Vertical => 0u32,
        }
    }

    /// The paddings plus the thickness, clamped into `u32`.
    pub fn extent(&self) -> (e: u32)
        ensures
            e == self.spec_extent(),
    {
        let pads: u32 = self.padding_before as u32 + self.padding_after as u32;
        if self.thickness <= u32::MAX - pads {
            pads + self.thickness
        } else {
            u32::MAX
        }
    }
}

/// A full-window translucent backdrop drawn under an overlay's content.
pub struct Backdrop {
    pub color: Color,
}

/// A non-interactive drawable owned by a view.
pub enum Decoration {
    Divider(Divider),
    Backdrop(Backdrop),
}

impl Decoration {
    pub open spec fn spec_pos(self) -> (int, int) {
        match self {
            Decoration::Divider(d) => (d.x as int, d.y as int),
            Decoration::Backdrop(_) => (0int, 0int),
        }
    }

    pub open spec fn spec_draw_width(self) -> u32 {
        match self {
            Decoration::Divider(d) => d.spec_draw_width(),
            Decoration::Backdrop(_) => 0u32,
        }
    }

    pub open spec fn spec_draw_height(self) -> u32 {
        match self {
            Decoration::Divider(d) => d.spec_draw_height(),
            Decoration::Backdrop(_) => 0u32,
        }
    }

    /// The decoration's draw origin.
    pub fn pos(&self) -> (p: (i32, i32))
        ensures
            p.0 as int == self.spec_pos().0,
            p.1 as int == self.spec_pos().1,
    {
        match self {
            Decoration::Divider(d) => (d.x, d.y),
            Decoration::Backdrop(_) => (0, 0),
        }
    }

    pub fn draw_width(&self) -> (w: u32)
        ensures
            w == self.spec_draw_width(),
    {
        match self {
            Decoration::Divider(d) => {
                match d.orientation {
                    Orientation::Horizontal => 0,
                    Orientation::Vertical => d.extent(),
                }
            }
            Decoration::Backdrop(_) => 0,
        }
    }

    pub fn draw_height(&self) -> (h: u32)
        ensures
            h == self.spec_draw_height(),
    {
        match self {
            Decoration::Divider(d) => {
                match d.orientation {
                    Orientation::Horizontal => d.extent(),
                    Orientation::Vertical => 0,
                }
            }
            Decoration::Backdrop(_) => 0,
        }
    }

    /// The decoration with its draw origin moved to `(x, y)`; a backdrop
    /// always covers the window and has no position of its own.
    pub open spec fn spec_placed(self, x: i32, y: i32) -> Decoration {
        match self {
            Decoration::Divider(d) => Decoration::Divider(Divider { x, y, ..d }),
            Decoration::Backdrop(b) => Decoration::Backdrop(b),
        }
    }

    pub fn place(&mut self, x: i32, y: i32)
        ensures
            *final(self) == old(self).spec_placed(x, y),
    {
        match self {
            Decoration::Divider(d) => {
                d.x = x;
                d.y = y;
            }
            Decoration::Backdrop(_) => {}
        }
    }

    /// The arithmetic bounds a shift by `(dx, dy)` needs.
    pub open spec fn can_translate(self, dx: int, dy: int) -> bool {
        match self {
            Decoration::Divider(d) => i32::MIN <= d.x + dx <= i32::MAX && i32::MIN <= d.y + dy
                <= i32::MAX,
            Decoration::Backdrop(_) => true,
        }
    }

    pub open spec fn spec_translated(self, dx: i32, dy: i32) -> Decoration {
        match self {
            Decoration::Divider(d) => Decoration::Divider(
                Divider { x: (d.x + dx) as i32, y: (d.y + dy) as i32, ..d },
            ),
            Decoration::Backdrop(b) => Decoration::Backdrop(b),
        }
    }

    pub fn translate(&mut self, dx: i32, dy: i32)
        requires
            old(self).can_translate(dx as int, dy as int),
        ensures
            *final(self) == old(self).spec_translated(dx, dy),
    {
        match self {
            Decoration::Divider(d) => {
                d.x = d.x + dx;
                d.y = d.y + dy;
            }
            Decoration::Backdrop(_) => {}
        }
    }

    /// Whether the render arithmetic stays within the machine ranges.
    pub open spec fn can_render(self, parent: (u32, u32)) -> bool {
        match self {
            Decoration::Divider(d) => {
                &&& i32::MIN <= d.y + d.spec_draw_height() / 2 <= i32::MAX
                &&& i32::MIN <= d.x + d.spec_draw_width() / 2 <= i32::MAX
                &&& d.x + parent.0 <= i32::MAX
                &&& d.y + parent.1 <= i32::MAX
                &&& d.y + d.spec_draw_height() / 2 + d.thickness <= i32::MAX
                &&& d.x + d.spec_draw_width() / 2 + d.thickness <= i32::MAX
            },
            Decoration::Backdrop(_) => parent.0 <= i32::MAX && parent.1 <= i32::MAX,
        }
    }

    /// What the decoration renders as, given the window size: a divider is
    /// one line across the parent, a backdrop one blended fill over the
    /// whole window.
    pub open spec fn render_spec(self, parent: (u32, u32), cmds: Seq<DrawCmd>) -> bool {
        match self {
            Decoration::Divider(d) => {
                &&& cmds.len() == 1
                &&& cmds[0] == (match d.orientation {
                    Orientation::Horizontal => DrawCmd::FillRect {
                        rect: Rect {
                            x: d.x,
                            y: (d.y + d.spec_draw_height() / 2) as i32,
                            width: parent.0,
                            height: d.thickness,
                        },
                        color: d.color,
                    },
                    Orientation::Vertical => DrawCmd::FillRect {
                        rect: Rect {
                            x: (d.x + d.spec_draw_width() / 2) as i32,
                            y: d.y,
                            width: d.thickness,
                            height: parent.1,
                        },
                        color: d.color,
                    },
                })
            },
            Decoration::Backdrop(b) => {
                &&& cmds.len() == 1
                &&& cmds[0] == (DrawCmd::FillRectBlended {
                    rect: Rect { x: 0i32, y: 0i32, width: parent.0, height: parent.1 },
                    color: b.color,
                })
            },
        }
    }

    /// The decoration's draw commands, given the window size.
    pub fn render(&self, parent: (u32, u32)) -> (cmds: Vec<DrawCmd>)
        requires
            self.can_render(parent),
        ensures
            self.render_spec(parent, cmds@),
    {
        let mut cmds: Vec<DrawCmd> = Vec::new();
        match self {
            Decoration::Divider(d) => {
                let cmd = match d.orientation {
                    Orientation::Horizontal => {
                        let h = d.extent();
                        DrawCmd::FillRect {
                            rect: Rect {
                                x: d.x,
                                y: d.y + (h / 2) as i32,
                                width: parent.0,
                                height: d.thickness,
                            },
                            color: d.color,
                        }
                    }
                    Orientation::Vertical => {
                        let w = d.extent();
                        DrawCmd::FillRect {
                            rect: Rect {
                                x: d.x + (w / 2) as i32,
                                y: d.y,
                                width: d.thickness,
                                height: parent.1,
                            },
                            color: d.color,
                        }
                    }
                };
                cmds.push(cmd);
            }
            Decoration::Backdrop(b) => {
                cmds.push(
                    DrawCmd::FillRectBlended {
                        rect: Rect { x: 0, y: 0, width: parent.0, height: parent.1 },
                        color: b.color,
                    },
                );
            }
        }
        cmds
    }
}

} // verus!
