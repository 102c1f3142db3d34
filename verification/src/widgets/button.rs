//! The button widget: a colored face, an optional centered label and an
//! optional click callback slot.

use vstd::prelude::*;
use crate::color::Color;
use crate::commands::DrawCmd;
use crate::geometry::Rect;
use crate::widgets::text::Text;
use crate::widgets::widget::WidgetState;

verus! {

pub struct Button {
    pub id: u32,
    pub rect: Rect,
    pub passive_color: Color,
    pub clicking_color: Color,
    pub hover_color: Color,
    /// The button's label, if any; it is not part of the view itself.
    pub text: Option<Text>,
    /// Whether a click callback is registered; the router reports a click
    /// on this button only when the slot is occupied.
    pub has_on_click: bool,
}

impl Button {
    pub fn new(id: u32) -> (b: Button)
        ensures
            b.id == id,
            b.rect == (Rect { x: 0i32, y: 0i32, width: 100u32, height: 40u32 }),
            b.passive_color == (Color { r: 240u8, g: 240u8, b: 200u8, a: 0xffu8 }),
            b.clicking_color == (Color { r: 100u8, g: 100u8, b: 100u8, a: 0xffu8 }),
            b.hover_color == (Color { r: 200u8, g: 200u8, b: 200u8, a: 0xffu8 }),
            b.text is None,
            !b.has_on_click,
    {
        Button {
            id,
            rect: Rect::new(0, 0, 100, 40),
            passive_color: Color::manilla(),
            clicking_color: Color::rgb(100, 100, 100),
            hover_color: Color::rgb(200, 200, 200),
            text: None,
            has_on_click: false,
        }
    }

    /// Label the button with a centered text component.
    pub fn with_text(self, text: &str) -> (b: Button)
        ensures
            b.text matches Some(t) && t.text@ == text@ && t.center_text,
            b == (Button { text: b.text, ..self }),
    {
        Button { text: Some(Text::new(0, text).center()), ..self }
    }

    /// Occupy the click callback slot.
    pub fn with_on_click(self) -> (b: Button)
        ensures
            b == (Button { has_on_click: true, ..self }),
    {
        Button { has_on_click: true, ..self }
    }

    pub fn with_width(self, width: u32) -> (b: Button)
        ensures
            b == (Button { rect: Rect { width, ..self.rect }, ..self }),
    {
        Button { rect: Rect { width, ..self.rect }, ..self }
    }

    pub fn with_height(self, height: u32) -> (b: Button)
        ensures
            b == (Button { rect: Rect { height, ..self.rect }, ..self }),
    {
        Button { rect: Rect { height, ..self.rect }, ..self }
    }

    pub fn with_dimensions(self, width: u32, height: u32) -> (b: Button)
        ensures
            b == (Button { rect: Rect { width, height, ..self.rect }, ..self }),
    {
        Button { rect: Rect { width, height, ..self.rect }, ..self }
    }

    pub fn with_base_color(self, color: Color) -> (b: Button)
        ensures
            b == (Button { passive_color: color, ..self }),
    {
        Button { passive_color: color, ..self }
    }

    pub fn with_hover_color(self, color: Color) -> (b: Button)
        ensures
            b == (Button { hover_color: color, ..self }),
    {
        Button { hover_color: color, ..self }
    }

    pub fn with_click_color(self, color: Color) -> (b: Button)
        ensures
            b == (Button { clicking_color: color, ..self }),
    {
        Button { clicking_color: color, ..self }
    }

    /// Move the button to `(x, y)`; its label container follows the face.
    pub fn place(&mut self, x: i32, y: i32)
        requires
            x + old(self).rect.width <= i32::MAX,
            y + old(self).rect.height <= i32::MAX,
        ensures
            final(self).rect == (Rect { x, y, ..old(self).rect }),
            final(self).text matches Some(t) ==> old(self).text matches Some(ot) && t == (Text {
                container_rect: final(self).rect,
                ..ot
            }),
            final(self).text is None <==> old(self).text is None,
            *final(self) == (Button { rect: final(self).rect, text: final(self).text, ..*old(self) }),
    {
        self.rect = Rect::new(x, y, self.rect.width, self.rect.height);
        match &mut self.text {
            Some(t) => {
                t.container_rect = self.rect;
            }
            None => {}
        }
    }

    /// Shift the button and its label by `(dx, dy)`.
    pub fn translate(&mut self, dx: i32, dy: i32)
        requires
            i32::MIN <= old(self).rect.x + dx <= i32::MAX,
            i32::MIN <= old(self).rect.y + dy <= i32::MAX,
            old(self).text matches Some(t) ==> i32::MIN <= t.container_rect.x + dx <= i32::MAX
                && i32::MIN <= t.container_rect.y + dy <= i32::MAX,
        ensures
            final(self).rect == old(self).rect.spec_translate(dx as int, dy as int),
            final(self).text matches Some(t) ==> old(self).text matches Some(ot) && t == (Text {
                container_rect: ot.container_rect.spec_translate(dx as int, dy as int),
                ..ot
            }),
            final(self).text is None <==> old(self).text is None,
            *final(self) == (Button { rect: final(self).rect, text: final(self).text, ..*old(self) }),
    {
        self.rect = self.rect.translate(dx, dy);
        match &mut self.text {
            Some(t) => {
                t.translate(dx, dy);
            }
            None => {}
        }
    }

    /// Record the label's measured size. The button must have a label.
    pub fn assign_text_dimensions(&mut self, dims: (u32, u32))
        requires
            old(self).text is Some,
        ensures
            final(self).text matches Some(t) && old(self).text matches Some(ot) && t == (Text {
                text_width: dims.0,
                text_height: dims.1,
                ..ot
            }),
            *final(self) == (Button { text: final(self).text, ..*old(self) }),
    {
        match &mut self.text {
            Some(t) => {
                t.assign_text_dimensions(dims);
            }
            None => {}
        }
    }

    pub fn draw_width(&self) -> (w: u32)
        ensures
            w == self.rect.width,
    {
        self.rect.width
    }

    pub fn draw_height(&self) -> (h: u32)
        ensures
            h == self.rect.height,
    {
        self.rect.height
    }

    /// The face color for an interaction state: hover and click colors win
    /// over the passive one.
    pub open spec fn spec_face_color(self, state: WidgetState) -> Color {
        match state {
            WidgetState::Hovering => self.hover_color,
            WidgetState::Active => self.clicking_color,
            _ => self.passive_color,
        }
    }

    /// Whether the render arithmetic stays within the machine ranges.
    pub open spec fn can_render(self) -> bool {
        self.text matches Some(t) ==> t.can_target()
    }

    /// What the button renders as: its face, then its label on top.
    pub open spec fn render_spec(self, state: WidgetState, cmds: Seq<DrawCmd>) -> bool {
        &&& cmds.len() == (if self.text is Some {
            2int
        } else {
            1int
        })
        &&& cmds[0] == (DrawCmd::FillRect { rect: self.rect, color: self.spec_face_color(state) })
        &&& (self.text matches Some(t) ==> (cmds[1] matches DrawCmd::DrawText {
            text,
            font,
            color,
            target,
        } && text@ == t.text@ && font == t.font && color == t.color && target
            == t.spec_target_rect()))
    }

    /// The draw commands for the button, as [`Button::render_spec`] says.
    pub fn render(&self, state: WidgetState) -> (cmds: Vec<DrawCmd>)
        requires
            self.can_render(),
        ensures
            self.render_spec(state, cmds@),
    {
        let color = match state {
            WidgetState::Hovering => self.hover_color,
            WidgetState::Active => self.clicking_color,
            _ => self.passive_color,
        };
        let mut cmds: Vec<DrawCmd> = Vec::new();
        cmds.push(DrawCmd::FillRect { rect: self.rect, color });
        match &self.text {
            Some(t) => {
                let mut text_cmds = t.render();
                cmds.append(&mut text_cmds);
            }
            None => {}
        }
        cmds
    }
}

} // verus!
