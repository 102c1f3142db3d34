//! The scrollbar widget: a slider dragged along a rail, mapping pixel
//! positions to values in a range and back.

use vstd::prelude::*;
use crate::color::Color;
use crate::commands::DrawCmd;
use crate::events::{Action, Event};
use crate::geometry::Rect;
use crate::widgets::text::{spec_half_gap, Text};
use crate::widgets::widget::WidgetState;

verus! {

/// The product of two values from the `i32`/`u32` range fits comfortably
/// within `i128`.
proof fn lemma_wide_mul_fits(a: int, b: int) by (nonlinear_arith)
    requires
        -0x1_0000_0000 <= a <= 0x1_0000_0000,
        -0x1_0000_0000 <= b <= 0x1_0000_0000,
    ensures
        -0x1_0000_0000_0000_0000 <= a * b <= 0x1_0000_0000_0000_0000,
{
}

/// Integer division rounding toward zero, as the machine division does.
pub open spec fn spec_div_trunc(a: int, b: int) -> int {
    if a >= 0 {
        a / b
    } else {
        -((-a) / b)
    }
}

/// Clamp into the `i32` range.
pub open spec fn spec_clamp_i32(v: int) -> int {
    if v < i32::MIN {
        i32::MIN as int
    } else if v > i32::MAX {
        i32::MAX as int
    } else {
        v
    }
}

pub struct ScrollBar {
    pub id: u32,
    /// Smallest value, at the rail's left end.
    pub from: i32,
    /// Largest value, at the rail's right end.
    pub to: i32,
    pub value: i32,
    /// The grabbable knob; this is also the widget's hit-test rectangle.
    pub slider: Rect,
    pub rail: Rect,
    pub value_text: Option<Text>,
    /// Whether a value-changed callback is registered.
    pub has_on_value_changed: bool,
    pub slider_passive_color: Color,
    pub slider_hover_color: Color,
    pub slider_active_color: Color,
    pub rail_passive_color: Color,
    pub rail_hover_color: Color,
}

impl ScrollBar {
    /// The value range is ordered and the rail has positive length, so the
    /// pixel/value maps are defined.
    pub open spec fn wf(self) -> bool {
        self.from < self.to && self.rail.width > 0
    }

    pub fn new(id: u32, from: i32, to: i32, current: i32) -> (s: ScrollBar)
        requires
            from < to,
        ensures
            s.id == id,
            s.from == from,
            s.to == to,
            s.value == current,
            s.slider == (Rect { x: 0i32, y: 0i32, width: 12u32, height: 16u32 }),
            s.rail == (Rect { x: 0i32, y: 0i32, width: 120u32, height: 4u32 }),
            s.value_text is None,
            !s.has_on_value_changed,
            s.wf(),
    {
        ScrollBar {
            id,
            from,
            to,
            value: current,
            slider: Rect::new(0, 0, 12, 16),
            rail: Rect::new(0, 0, 120, 4),
            value_text: None,
            has_on_value_changed: false,
            slider_passive_color: Color::manilla(),
            slider_hover_color: Color::rgb(200, 200, 200),
            slider_active_color: Color::dark_gray(),
            rail_passive_color: Color::light_gray(),
            rail_hover_color: Color::white(),
        }
    }

    pub fn with_length(self, length: u32) -> (s: ScrollBar)
        ensures
            s == (ScrollBar { rail: Rect { width: length, ..self.rail }, ..self }),
    {
        ScrollBar { rail: Rect { width: length, ..self.rail }, ..self }
    }

    pub fn with_thickness(self, thickness: u32) -> (s: ScrollBar)
        ensures
            s == (ScrollBar { rail: Rect { height: thickness, ..self.rail }, ..self }),
    {
        ScrollBar { rail: Rect { height: thickness, ..self.rail }, ..self }
    }

    /// Occupy the value-changed callback slot.
    pub fn with_on_value_changed(self) -> (s: ScrollBar)
        ensures
            s == (ScrollBar { has_on_value_changed: true, ..self }),
    {
        ScrollBar { has_on_value_changed: true, ..self }
    }

    /// The value a pixel position on the rail maps to, clamped into the
    /// range.
    pub open spec fn spec_pixel_to_value(self, pixel: int) -> int {
        let v = spec_div_trunc((pixel - self.rail.x) * (self.to - self.from), self.rail.width as int);
        if v < self.from {
            self.from as int
        } else if v > self.to {
            self.to as int
        } else {
            v
        }
    }

    /// The pixel position a value maps to, clamped into `i32`.
    pub open spec fn spec_value_to_pixel(self, value: int) -> int {
        spec_clamp_i32(
            spec_div_trunc(value * self.rail.width, (self.to - self.from) as int) + self.rail.x,
        )
    }

    /// The slider's x position when the bar holds `value`: centered on the
    /// value's pixel.
    pub open spec fn spec_slider_x(self, value: int) -> int {
        spec_clamp_i32(self.spec_value_to_pixel(value) - self.slider.width / 2)
    }

    /// Map a pixel position on the rail to a value in the range.
    pub fn pixel_to_value(&self, pixel: i32) -> (v: i32)
        requires
            self.wf(),
        ensures
            v == self.spec_pixel_to_value(pixel as int),
            self.from <= v <= self.to,
    {
        proof {
            lemma_wide_mul_fits(pixel - self.rail.x, self.to - self.from);
        }
        let num: i128 = (pixel as i128 - self.rail.x as i128) * (self.to as i128
            - self.from as i128);
        let raw: i128 = num / (self.rail.width as i128);
        if raw < self.from as i128 {
            self.from
        } else if raw > self.to as i128 {
            self.to
        } else {
            raw as i32
        }
    }

    /// Map a value to its pixel position on the rail.
    pub fn value_to_pixel(&self, value: i32) -> (p: i32)
        requires
            self.wf(),
        ensures
            p == self.spec_value_to_pixel(value as int),
    {
        proof {
            lemma_wide_mul_fits(value as int, self.rail.width as int);
        }
        let raw: i128 = (value as i128) * (self.rail.width as i128) / ((self.to as i128)
            - (self.from as i128)) + self.rail.x as i128;
        if raw < i32::MIN as i128 {
            i32::MIN
        } else if raw > i32::MAX as i128 {
            i32::MAX
        } else {
            raw as i32
        }
    }

    pub fn draw_width(&self) -> (w: u32)
        ensures
            w == self.rail.width,
    {
        self.rail.width
    }

    pub fn draw_height(&self) -> (h: u32)
        ensures
            h == self.slider.height,
    {
        self.slider.height
    }

    /// Move the rail's origin to `(x, y)` and center the slider on it.
    pub fn place(&mut self, x: i32, y: i32)
        requires
            old(self).wf(),
            i32::MIN <= y - spec_half_gap(
                old(self).slider.height as int,
                old(self).rail.height as int,
            ) <= i32::MAX,
        ensures
            *final(self) == (ScrollBar {
                rail: Rect { x, y, ..old(self).rail },
                slider: Rect {
                    y: (y - spec_half_gap(
                        old(self).slider.height as int,
                        old(self).rail.height as int,
                    )) as i32,
                    ..old(self).slider
                },
                ..*old(self)
            }),
    {
        self.rail = Rect { x, y, ..self.rail };
        let gap: i32 = if self.slider.height >= self.rail.height {
            ((self.slider.height - self.rail.height) / 2) as i32
        } else {
            -(((self.rail.height - self.slider.height) / 2) as i32)
        };
        self.slider = Rect { y: y - gap, ..self.slider };
    }

    /// Shift the bar by `(dx, dy)`; the slider keeps tracking its value's
    /// pixel on the moved rail.
    pub fn translate(&mut self, dx: i32, dy: i32)
        requires
            old(self).wf(),
            i32::MIN <= old(self).rail.x + dx <= i32::MAX,
            i32::MIN <= old(self).rail.y + dy <= i32::MAX,
            i32::MIN <= old(self).slider.y + dy <= i32::MAX,
        ensures
            *final(self) == (ScrollBar {
                rail: old(self).rail.spec_translate(dx as int, dy as int),
                slider: Rect {
                    x: final(self).spec_slider_x(old(self).value as int) as i32,
                    y: (old(self).slider.y + dy) as i32,
                    ..old(self).slider
                },
                ..*old(self)
            }),
    {
        self.rail = self.rail.translate(dx, dy);
        let px = self.value_to_pixel(self.value);
        let sx: i64 = px as i64 - (self.slider.width / 2) as i64;
        let sx32: i32 = if sx < i32::MIN as i64 {
            i32::MIN
        } else if sx > i32::MAX as i64 {
            i32::MAX
        } else {
            sx as i32
        };
        self.slider = Rect { x: sx32, y: self.slider.y + dy, ..self.slider };
    }
}

/// Exactly how a scrollbar reacts to one routed event: a pointer move drags
/// the slider to the pointer's value and reports it through the occupied
/// callback slot; every other event leaves the bar untouched.
pub open spec fn spec_scrollbar_update(
    a: ScrollBar,
    e: Event,
    b: ScrollBar,
    action: Option<Action>,
) -> bool {
    match e {
        Event::PointerMove { x, y } => {
            &&& b == (ScrollBar {
                value: a.spec_pixel_to_value(x as int) as i32,
                slider: Rect {
                    x: b.spec_slider_x(b.value as int) as i32,
                    ..a.slider
                },
                ..a
            })
            &&& action == (if a.has_on_value_changed {
                Some(Action::ValueChanged { id: a.id, value: a.spec_pixel_to_value(x as int) as i32 })
            } else {
                None::<Action>
            })
        },
        _ => b == a && action is None,
    }
}

impl ScrollBar {
    /// React to one routed event, as [`spec_scrollbar_update`] prescribes.
    pub fn update(&mut self, event: &Event) -> (action: Option<Action>)
        requires
            old(self).wf(),
        ensures
            spec_scrollbar_update(*old(self), *event, *final(self), action),
    {
        match event {
            Event::PointerMove { x, .. } => {
                self.value = self.pixel_to_value(*x);
                let px = self.value_to_pixel(self.value);
                let sx: i64 = px as i64 - (self.slider.width / 2) as i64;
                let sx32: i32 = if sx < i32::MIN as i64 {
                    i32::MIN
                } else if sx > i32::MAX as i64 {
                    i32::MAX
                } else {
                    sx as i32
                };
                self.slider = Rect { x: sx32, ..self.slider };
                if self.has_on_value_changed {
                    Some(Action::ValueChanged { id: self.id, value: self.value })
                } else {
                    None
                }
            }
            _ => None,
        }
    }

    /// What the bar renders as: the rail, then the slider in its state's
    /// color.
    pub open spec fn render_spec(self, state: WidgetState, cmds: Seq<DrawCmd>) -> bool {
        &&& cmds.len() == 2
        &&& cmds[0] == (DrawCmd::FillRect { rect: self.rail, color: self.rail_passive_color })
        &&& cmds[1] == (DrawCmd::FillRect {
            rect: self.slider,
            color: (match state {
                WidgetState::Active => self.slider_active_color,
                WidgetState::Hovering => self.slider_hover_color,
                _ => self.slider_passive_color,
            }),
        })
    }

    /// The draw commands, as [`ScrollBar::render_spec`] says.
    pub fn render(&self, state: WidgetState) -> (cmds: Vec<DrawCmd>)
        ensures
            self.render_spec(state, cmds@),
    {
        let mut cmds: Vec<DrawCmd> = Vec::new();
        cmds.push(DrawCmd::FillRect { rect: self.rail, color: self.rail_passive_color });
        let slider_color = match state {
            WidgetState::Active => self.slider_active_color,
            WidgetState::Hovering => self.slider_hover_color,
            _ => self.slider_passive_color,
        };
        cmds.push(DrawCmd::FillRect { rect: self.slider, color: slider_color });
        cmds
    }
}

} // verus!
