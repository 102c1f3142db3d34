//! The checkbox widget: a toggle square, an optional label beside it and an
//! optional callback slot receiving the new state after each toggle.

use vstd::prelude::*;
use crate::color::Color;
use crate::commands::DrawCmd;
use crate::events::Action;
use crate::geometry::Rect;
use crate::widgets::text::{spec_half_gap, Text};
use crate::widgets::widget::WidgetState;

verus! {

pub struct CheckBox {
    pub id: u32,
    pub rect: Rect,
    pub default_color: Color,
    pub click_color: Color,
    pub hover_color: Color,
    pub check_color: Color,
    pub text: Option<Text>,
    pub is_checked: bool,
    /// Space between the toggle square and the label.
    pub checkbox_padding_right: u32,
    /// Whether a toggle callback is registered.
    pub has_on_check: bool,
    pub checkbox_width: u32,
    pub checkbox_height: u32,
}

impl CheckBox {
    pub fn new(id: u32, is_checked: bool) -> (c: CheckBox)
        ensures
            c.id == id,
            c.is_checked == is_checked,
            c.rect == (Rect { x: 0i32, y: 0i32, width: 100u32, height: 40u32 }),
            c.text is None,
            !c.has_on_check,
            c.checkbox_padding_right == 10u32,
            c.checkbox_width == 20u32,
            c.checkbox_height == 20u32,
    {
        CheckBox {
            id,
            rect: Rect::new(0, 0, 100, 40),
            default_color: Color::manilla(),
            click_color: Color::rgb(140, 140, 140),
            hover_color: Color::rgb(200, 200, 200),
            check_color: Color::rgb(80, 80, 80),
            text: None,
            is_checked,
            checkbox_padding_right: 10,
            has_on_check: false,
            checkbox_width: 20,
            checkbox_height: 20,
        }
    }

    /// Attach a white label to the right of the toggle square.
    pub fn with_text(self, text: &str) -> (c: CheckBox)
        requires
            self.rect.x + self.checkbox_width + self.checkbox_padding_right <= i32::MAX,
            self.rect.y + 28 <= i32::MAX,
        ensures
            c.text matches Some(t) && t.text@ == text@ && t.container_rect.x == self.rect.x
                + self.checkbox_width + self.checkbox_padding_right && t.container_rect.y
                == self.rect.y,
            c == (CheckBox { text: c.text, ..self }),
    {
        let mut attached = Text::new(0, text).with_color(Color::white());
        let tx: i64 = self.rect.x as i64 + self.checkbox_width as i64
            + self.checkbox_padding_right as i64;
        attached.place(tx as i32, self.rect.y);
        CheckBox { text: Some(attached), ..self }
    }

    /// Occupy the toggle callback slot.
    pub fn with_on_check(self) -> (c: CheckBox)
        ensures
            c == (CheckBox { has_on_check: true, ..self }),
    {
        CheckBox { has_on_check: true, ..self }
    }

    /// Start checked.
    pub fn check(self) -> (c: CheckBox)
        ensures
            c == (CheckBox { is_checked: true, ..self }),
    {
        CheckBox { is_checked: true, ..self }
    }

    /// Toggle the checkbox; reports the new state when the callback slot is
    /// occupied.
    pub fn on_check(&mut self) -> (action: Option<Action>)
        ensures
            *final(self) == (CheckBox { is_checked: !old(self).is_checked, ..*old(self) }),
            action == (if old(self).has_on_check {
                Some(Action::Check { id: old(self).id, checked: !old(self).is_checked })
            } else {
                None::<Action>
            }),
    {
        self.is_checked = !self.is_checked;
        if self.has_on_check {
            Some(Action::Check { id: self.id, checked: self.is_checked })
        } else {
            None
        }
    }

    /// Widen the widget to fit the toggle square, the gap and the measured
    /// label, and record the label's size. The checkbox must have a label.
    pub fn assign_text_dimensions(&mut self, dims: (u32, u32))
        requires
            old(self).text is Some,
            old(self).checkbox_width + old(self).checkbox_padding_right + dims.0 <= u32::MAX,
        ensures
            final(self).rect == (Rect {
                width: (old(self).checkbox_width + old(self).checkbox_padding_right
                + dims.0) as u32,
                ..old(self).rect
            }),
            final(self).text matches Some(t) && old(self).text matches Some(ot) && t == (Text {
                text_width: dims.0,
                text_height: dims.1,
                ..ot
            }),
            *final(self) == (CheckBox {
                rect: final(self).rect,
                text: final(self).text,
                ..*old(self)
            }),
    {
        self.rect =
        Rect {
            width: self.checkbox_width + self.checkbox_padding_right + dims.0,
            ..self.rect
        };
        match &mut self.text {
            Some(t) => {
                t.assign_text_dimensions(dims);
            }
            None => {}
        }
    }

    /// Move the checkbox to `(x, y)`; the label container moves past the
    /// toggle square.
    pub fn place(&mut self, x: i32, y: i32)
        requires
            x + old(self).rect.width <= i32::MAX,
            y + old(self).rect.height <= i32::MAX,
            x + old(self).checkbox_width + old(self).checkbox_padding_right <= i32::MAX,
        ensures
            final(self).rect == (Rect { x, y, ..old(self).rect }),
            final(self).text matches Some(t) ==> old(self).text matches Some(ot) && t == (Text {
                container_rect: Rect {
                    x: (x + old(self).checkbox_width + old(self).checkbox_padding_right) as i32,
                    y,
                    width: old(self).rect.width,
                    height: old(self).rect.height,
                },
                ..ot
            }),
            final(self).text is None <==> old(self).text is None,
            *final(self) == (CheckBox {
                rect: final(self).rect,
                text: final(self).text,
                ..*old(self)
            }),
    {
        self.rect = Rect::new(x, y, self.rect.width, self.rect.height);
        let text_x64: i64 = x as i64 + self.checkbox_width as i64
            + self.checkbox_padding_right as i64;
        let text_x: i32 = text_x64 as i32;
        let width = self.rect.width;
        let height = self.rect.height;
        match &mut self.text {
            Some(t) => {
                t.container_rect = Rect { x: text_x, y, width, height };
            }
            None => {}
        }
    }

    /// Shift the checkbox and its label by `(dx, dy)`.
    pub fn translate(&mut self, dx: i32, dy: i32)
        requires
            i32::MIN <= old(self).rect.x + dx <= i32::MAX,
            i32::MIN <= old(self).rect.y + dy <= i32::MAX,
            old(self).text matches Some(t) ==> i32::MIN <= t.container_rect.x + dx <= i32::MAX
                && i32::MIN <= t.container_rect.y + dy <= i32::MAX,
        ensures
            final(self).rect == old(self).rect.spec_translate(dx as int, dy as int),
            final(self).text matches Some(t) ==> old(self).text matches Some(ot) && t == (Text {
                container_rect: ot.container_rect.spec_translate(dx as int, dy as int),
                ..ot
            }),
            final(self).text is None <==> old(self).text is None,
            *final(self) == (CheckBox {
                rect: final(self).rect,
                text: final(self).text,
                ..*old(self)
            }),
    {
        self.rect = self.rect.translate(dx, dy);
        match &mut self.text {
            Some(t) => {
                t.translate(dx, dy);
            }
            None => {}
        }
    }

    pub fn draw_width(&self) -> (w: u32)
        ensures
            w == self.rect.width,
    {
        self.rect.width
    }

    pub fn draw_height(&self) -> (h: u32)
        ensures
            h == self.rect.height,
    {
        self.rect.height
    }

    /// The toggle square, vertically centered on the widget's left edge.
    pub open spec fn spec_box_rect(self) -> Rect {
        Rect {
            x: self.rect.x,
            y: (self.rect.y + spec_half_gap(
                self.rect.height as int,
                self.checkbox_height as int,
            )) as i32,
            width: self.checkbox_width,
            height: self.checkbox_height,
        }
    }

    /// Whether the render arithmetic stays within `i32`.
    pub open spec fn can_render(self) -> bool {
        let by = self.rect.y + spec_half_gap(self.rect.height as int, self.checkbox_height as int);
        self.rect.wf() && 8 <= self.checkbox_width <= i32::MAX && 8 <= self.checkbox_height
            <= i32::MAX && i32::MIN <= by && self.rect.x + self.checkbox_width <= i32::MAX && by
            + self.checkbox_height <= i32::MAX && (self.text matches Some(t) ==> t.can_target())
    }

    /// What the checkbox renders as: the toggle square, the inner check
    /// mark when the box is checked, then the label.
    pub open spec fn render_spec(self, state: WidgetState, cmds: Seq<DrawCmd>) -> bool {
        &&& cmds.len() == 1 + (if self.is_checked {
                1int
            } else {
                0int
            }) + (if self.text is Some {
                1int
            } else {
                0int
            })
        &&& (cmds[0] matches DrawCmd::FillRect { rect, color } && rect == self.spec_box_rect()
            && color == (match state {
            WidgetState::Hovering => self.hover_color,
            WidgetState::Active => self.click_color,
            _ => self.default_color,
        }))
        &&& (self.is_checked ==> (cmds[1] matches DrawCmd::FillRect { rect, color } && rect
            == (Rect {
            x: (self.spec_box_rect().x + 4) as i32,
            y: (self.spec_box_rect().y + 4) as i32,
            width: (self.checkbox_width - 8) as u32,
            height: (self.checkbox_height - 8) as u32,
        }) && color == self.check_color))
        &&& (self.text matches Some(t) ==> (cmds[cmds.len() - 1] matches DrawCmd::DrawText {
            text,
            font,
            color,
            target,
        } && text@ == t.text@ && font == t.font && color == t.color && target
            == t.spec_target_rect()))
    }

    /// The draw commands, as [`CheckBox::render_spec`] says.
    pub fn render(&self, state: WidgetState) -> (cmds: Vec<DrawCmd>)
        requires
            self.can_render(),
        ensures
            self.render_spec(state, cmds@),
    {
        let color = match state {
            WidgetState::Hovering => self.hover_color,
            WidgetState::Active => self.click_color,
            _ => self.default_color,
        };
        let box_y: i32 = if self.rect.height >= self.checkbox_height {
            self.rect.y + ((self.rect.height - self.checkbox_height) / 2) as i32
        } else {
            self.rect.y - ((self.checkbox_height - self.rect.height) / 2) as i32
        };
        let box_rect = Rect {
            x: self.rect.x,
            y: box_y,
            width: self.checkbox_width,
            height: self.checkbox_height,
        };
        let mut cmds: Vec<DrawCmd> = Vec::new();
        cmds.push(DrawCmd::FillRect { rect: box_rect, color });
        if self.is_checked {
            cmds.push(
                DrawCmd::FillRect {
                    rect: Rect {
                        x: box_rect.x + 4,
                        y: box_rect.y + 4,
                        width: self.checkbox_width - 8,
                        height: self.checkbox_height - 8,
                    },
                    color: self.check_color,
                },
            );
        }
        match &self.text {
            Some(t) => {
                let mut text_cmds = t.render();
                cmds.append(&mut text_cmds);
            }
            None => {}
        }
        cmds
    }
}

} // verus!
