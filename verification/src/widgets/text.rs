//! The text widget. It doubles as the text component other widgets embed:
//! a string, the font it is drawn with, and the measured pixel size the
//! outside measurement service reported for that pair.

use vstd::prelude::*;
use crate::color::Color;
use crate::commands::DrawCmd;
use crate::font::FontParams;
use crate::geometry::Rect;

verus! {

/// A piece of text inside a container rectangle.
pub struct Text {
    pub id: u32,
    /// The boundary the text is positioned within (a button face, a textbox).
    pub container_rect: Rect,
    pub color: Color,
    pub text: String,
    pub font: FontParams,
    /// How far auto-resized text must stay from its boundary.
    pub internal_padding: u32,
    /// Whether the application refreshes this text from its state on rebuild.
    pub has_text_update: bool,
    /// Downscale the text to fit its container when rendering.
    pub auto_resize: bool,
    /// Center the text horizontally on its container's midline.
    pub center_text: bool,
    /// Measured pixel width of the rendered string.
    pub text_width: u32,
    /// Measured pixel height of the rendered string.
    pub text_height: u32,
}

/// The measured size is sane enough for render arithmetic: it fits `i32`.
pub open spec fn text_dims_wf(w: int, h: int) -> bool {
    0 <= w <= i32::MAX && 0 <= h <= i32::MAX
}

impl Text {
    pub open spec fn wf(self) -> bool {
        self.container_rect.wf() && text_dims_wf(self.text_width as int, self.text_height as int)
    }

    pub fn new(id: u32, text: &str) -> (t: Text)
        ensures
            t.id == id,
            t.text@ == text@,
            t.container_rect == (Rect { x: 0i32, y: 0i32, width: 0u32, height: 28u32 }),
            t.color == (Color { r: 0u8, g: 0u8, b: 0u8, a: 0xffu8 }),
            t.font.point_size == 20u16,
            t.internal_padding == 10u32,
            !t.has_text_update,
            !t.auto_resize,
            !t.center_text,
            t.text_width == 100u32,
            t.text_height == 40u32,
            t.wf(),
    {
        Text {
            id,
            container_rect: Rect::new(0, 0, 0, 28),
            color: Color::black(),
            text: text.to_owned(),
            font: FontParams::default_font(),
            internal_padding: 10,
            has_text_update: false,
            auto_resize: false,
            center_text: false,
            text_width: 100,
            text_height: 40,
        }
    }

    /// Center the text on its container's midline when rendering.
    pub fn center(self) -> (t: Text)
        ensures
            t == (Text { center_text: true, ..self }),
    {
        Text { center_text: true, ..self }
    }

    /// Mark that the application refreshes this text from its state whenever
    /// the tree is rebuilt.
    pub fn with_text_update(self) -> (t: Text)
        ensures
            t == (Text { has_text_update: true, ..self }),
    {
        Text { has_text_update: true, ..self }
    }

    pub fn with_color(self, color: Color) -> (t: Text)
        ensures
            t == (Text { color, ..self }),
    {
        Text { color, ..self }
    }

    pub fn with_rgb(self, r: u8, g: u8, b: u8) -> (t: Text)
        ensures
            t == (Text { color: Color { r, g, b, a: 0xffu8 }, ..self }),
    {
        Text { color: Color::rgb(r, g, b), ..self }
    }

    pub fn with_rgba(self, r: u8, g: u8, b: u8, a: u8) -> (t: Text)
        ensures
            t == (Text { color: Color { r, g, b, a }, ..self }),
    {
        Text { color: Color::rgba(r, g, b, a), ..self }
    }

    /// Use the default font at another point size.
    pub fn with_point_size(self, point_size: u16) -> (t: Text)
        ensures
            t == (Text { font: FontParams { point_size, ..self.font }, ..self }),
    {
        Text { font: FontParams { point_size, ..self.font }, ..self }
    }

    pub fn auto_resize(self) -> (t: Text)
        ensures
            t == (Text { auto_resize: true, ..self }),
    {
        Text { auto_resize: true, ..self }
    }

    pub fn rect(&self) -> (r: Rect)
        ensures
            r == self.container_rect,
    {
        self.container_rect
    }

    /// Move the container's draw origin to `(x, y)`, keeping its size.
    pub fn place(&mut self, x: i32, y: i32)
        requires
            x + old(self).container_rect.width <= i32::MAX,
            y + old(self).container_rect.height <= i32::MAX,
        ensures
            *final(self) == (Text {
                container_rect: Rect { x, y, ..old(self).container_rect },
                ..*old(self)
            }),
    {
        self.container_rect = Rect::new(
            x,
            y,
            self.container_rect.width,
            self.container_rect.height,
        );
    }

    pub fn translate(&mut self, dx: i32, dy: i32)
        requires
            i32::MIN <= old(self).container_rect.x + dx <= i32::MAX,
            i32::MIN <= old(self).container_rect.y + dy <= i32::MAX,
        ensures
            *final(self) == (Text {
                container_rect: old(self).container_rect.spec_translate(dx as int, dy as int),
                ..*old(self)
            }),
    {
        self.container_rect = self.container_rect.translate(dx, dy);
    }

    /// Record the measured pixel size of the rendered string.
    pub fn assign_text_dimensions(&mut self, dims: (u32, u32))
        ensures
            *final(self) == (Text { text_width: dims.0, text_height: dims.1, ..*old(self) }),
    {
        self.text_width = dims.0;
        self.text_height = dims.1;
    }

    pub fn draw_width(&self) -> (w: u32)
        ensures
            w == self.text_width,
    {
        self.text_width
    }

    pub fn draw_height(&self) -> (h: u32)
        ensures
            h == self.text_height,
    {
        self.text_height
    }
}

/// The product of two `u32` values stays within `u64`.
pub proof fn lemma_u32_mul_fits(a: int, b: int) by (nonlinear_arith)
    requires
        0 <= a <= u32::MAX,
        0 <= b <= u32::MAX,
    ensures
        0 <= a * b <= u64::MAX,
{
}

/// The downscaled dimension never exceeds its constraint.
proof fn lemma_fit_bounds(tw: int, th: int, wc: int, hc: int) by (nonlinear_arith)
    requires
        0 <= tw <= u32::MAX,
        0 <= th <= u32::MAX,
        0 <= wc <= u32::MAX,
        0 <= hc <= u32::MAX,
        tw > wc || th > hc,
    ensures
        tw * hc > th * wc ==> 0 <= spec_scale_div(hc, wc, tw) <= hc,
        tw * hc <= th * wc ==> 0 <= spec_scale_div(wc, hc, th) <= wc,
{
}

/// Half of `a - b`, rounded toward zero, as Rust's `i32` division does it.
pub open spec fn spec_half_gap(a: int, b: int) -> int {
    if a >= b {
        (a - b) / 2
    } else {
        -((b - a) / 2)
    }
}

/// A side length minus the inset, floored at zero.
pub open spec fn spec_constraint(side: int, pad: int) -> int {
    if pad <= side {
        side - pad
    } else {
        0
    }
}

/// `a * b / c`, clamped into `u32`; the divisor zero yields zero.
pub open spec fn spec_scale_div(a: int, b: int, c: int) -> int {
    if c <= 0 {
        0
    } else if a * b / c > u32::MAX {
        u32::MAX as int
    } else {
        a * b / c
    }
}

impl Text {
    /// The size the text is drawn at when it must fit `container`: kept as
    /// measured when it fits the padded constraints, otherwise downscaled
    /// along its most out-of-bounds dimension, with integer arithmetic.
    pub open spec fn spec_fit_size(self, container: Rect) -> (int, int) {
        let wc = spec_constraint(container.width as int, self.internal_padding as int);
        let hc = spec_constraint(container.height as int, self.internal_padding as int);
        let tw = self.text_width as int;
        let th = self.text_height as int;
        if tw > wc || th > hc {
            if tw * hc > th * wc {
                (wc, spec_scale_div(hc, wc, tw))
            } else {
                (spec_scale_div(wc, hc, th), hc)
            }
        } else {
            (tw, th)
        }
    }

    /// Where the text is drawn when it must fit `container`: the fitted
    /// size, centered inside the container on both axes.
    pub open spec fn spec_fit_rect(self, container: Rect) -> Rect {
        let (w, h) = self.spec_fit_size(container);
        Rect {
            x: (container.x + (container.width - w) / 2) as i32,
            y: (container.y + (container.height - h) / 2) as i32,
            width: w as u32,
            height: h as u32,
        }
    }

    /// The target rectangle of the rendered string: downscaled and centered
    /// when auto-resizing, centered on the container's midline when centered,
    /// otherwise left-aligned; the y position is always centered.
    pub open spec fn spec_target_rect(self) -> Rect {
        let c = self.container_rect;
        if self.auto_resize {
            self.spec_fit_rect(c)
        } else if self.center_text {
            Rect {
                x: (c.x + c.width / 2 - self.text_width / 2) as i32,
                y: (c.y + spec_half_gap(c.height as int, self.text_height as int)) as i32,
                width: self.text_width,
                height: self.text_height,
            }
        } else {
            Rect {
                x: c.x,
                y: (c.y + spec_half_gap(c.height as int, self.text_height as int)) as i32,
                width: self.text_width,
                height: self.text_height,
            }
        }
    }

    /// Whether the target-rectangle arithmetic stays within `i32`.
    pub open spec fn can_target(self) -> bool {
        let c = self.container_rect;
        self.wf() && (self.center_text ==> i32::MIN <= c.x + c.width / 2 - self.text_width / 2)
            && i32::MIN <= c.y + spec_half_gap(c.height as int, self.text_height as int)
    }

    /// Downscale the measured text to fit `container` and center it there.
    pub fn fit_and_center_within_container(&self, container: &Rect) -> (r: Rect)
        requires
            container.wf(),
            text_dims_wf(self.text_width as int, self.text_height as int),
        ensures
            r == self.spec_fit_rect(*container),
    {
        let wc: u32 = if self.internal_padding <= container.width {
            container.width - self.internal_padding
        } else {
            0
        };
        let hc: u32 = if self.internal_padding <= container.height {
            container.height - self.internal_padding
        } else {
            0
        };
        let tw = self.text_width;
        let th = self.text_height;
        proof {
            lemma_u32_mul_fits(tw as int, hc as int);
            lemma_u32_mul_fits(th as int, wc as int);
        }
        let (w, h): (u32, u32) = if tw > wc || th > hc {
            if (tw as u64) * (hc as u64) > (th as u64) * (wc as u64) {
                (wc, Self::scale_div(hc, wc, tw))
            } else {
                (Self::scale_div(wc, hc, th), hc)
            }
        } else {
            (tw, th)
        };
        proof {
            if tw > wc || th > hc {
                lemma_fit_bounds(tw as int, th as int, wc as int, hc as int);
            }
        }
        Rect {
            x: container.x + ((container.width - w) / 2) as i32,
            y: container.y + ((container.height - h) / 2) as i32,
            width: w,
            height: h,
        }
    }

    /// `a * b / c` clamped into `u32`; zero when the divisor is zero.
    fn scale_div(a: u32, b: u32, c: u32) -> (r: u32)
        ensures
            r == spec_scale_div(a as int, b as int, c as int),
    {
        if c == 0 {
            0
        } else {
            proof {
                lemma_u32_mul_fits(a as int, b as int);
            }
            let v: u64 = (a as u64) * (b as u64) / (c as u64);
            if v > u32::MAX as u64 {
                u32::MAX
            } else {
                v as u32
            }
        }
    }

    /// The rectangle the rendered string is copied into.
    pub fn target_rect(&self) -> (r: Rect)
        requires
            self.can_target(),
        ensures
            r == self.spec_target_rect(),
    {
        let c = self.container_rect;
        if self.auto_resize {
            self.fit_and_center_within_container(&c)
        } else {
            let y: i32 = if c.height >= self.text_height {
                c.y + ((c.height - self.text_height) / 2) as i32
            } else {
                c.y - ((self.text_height - c.height) / 2) as i32
            };
            let x: i32 = if self.center_text {
                let cx: i32 = c.x + (c.width / 2) as i32;
                cx - (self.text_width / 2) as i32
            } else {
                c.x
            };
            Rect { x, y, width: self.text_width, height: self.text_height }
        }
    }

    /// What the text renders as: one rasterised string copied into its
    /// target rectangle, whatever the widget's interaction state.
    pub open spec fn render_spec(self, cmds: Seq<DrawCmd>) -> bool {
        &&& cmds.len() == 1
        &&& (cmds[0] matches DrawCmd::DrawText { text, font, color, target } && text@
            == self.text@ && font == self.font && color == self.color && target
            == self.spec_target_rect())
    }

    /// The draw commands, as [`Text::render_spec`] says.
    pub fn render(&self) -> (cmds: Vec<DrawCmd>)
        requires
            self.can_target(),
        ensures
            self.render_spec(cmds@),
    {
        let target = self.target_rect();
        let mut cmds: Vec<DrawCmd> = Vec::new();
        cmds.push(
            DrawCmd::DrawText { text: self.text.clone(), font: self.font, color: self.color, target },
        );
        cmds
    }
}

} // verus!
