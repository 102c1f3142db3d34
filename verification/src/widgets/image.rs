//! The image widget: shows a decoded image resource and can react to
//! clicks, highlighting with a border or a translucent shade while hovered.
//! Decoding the resource is the rendering backend's job; the widget only
//! carries the resource path and the target bounds.

use vstd::prelude::*;
use crate::color::Color;
use crate::commands::DrawCmd;
use crate::events::Action;
use crate::geometry::Rect;
use crate::widgets::widget::WidgetState;

verus! {

pub struct Image {
    pub id: u32,
    pub rect: Rect,
    /// Path to the image resource the backend decodes and copies.
    pub resource_path: &'static str,
    /// Highlight with a border around the image; otherwise shade it.
    pub hover_border: bool,
    pub hover_border_width: u32,
    pub hover_color: Color,
    pub click_color: Color,
    /// Whether a click callback is registered.
    pub has_on_click: bool,
}

impl Image {
    /// An image widget for `resource_path`, drawn within `bounds`.
    pub fn new(id: u32, resource_path: &'static str, bounds: (u32, u32)) -> (w: Image)
        ensures
            w.id == id,
            w.resource_path == resource_path,
            w.rect == (Rect { x: 0i32, y: 0i32, width: bounds.0, height: bounds.1 }),
            w.hover_border,
            w.hover_border_width == 6u32,
            !w.has_on_click,
    {
        Image {
            id,
            rect: Rect { x: 0, y: 0, width: bounds.0, height: bounds.1 },
            resource_path,
            hover_border: true,
            hover_border_width: 6,
            hover_color: Color::darker_purple(),
            click_color: Color::black(),
            has_on_click: false,
        }
    }

    /// Occupy the click callback slot.
    pub fn with_on_click(self) -> (w: Image)
        ensures
            w == (Image { has_on_click: true, ..self }),
    {
        Image { has_on_click: true, ..self }
    }

    /// Highlight with a border around the image while hovered.
    pub fn with_hover_border(self) -> (w: Image)
        ensures
            w == (Image { hover_border: true, ..self }),
    {
        Image { hover_border: true, ..self }
    }

    pub fn with_hover_border_width(self, width: u32) -> (w: Image)
        ensures
            w == (Image { hover_border_width: width, ..self }),
    {
        Image { hover_border_width: width, ..self }
    }

    /// Shade the image with translucent colors while hovered or clicked,
    /// instead of drawing a border.
    pub fn with_hover_shade(self) -> (w: Image)
        ensures
            w == (Image {
                hover_border: false,
                hover_color: Color { r: 30u8, g: 30u8, b: 80u8, a: 100u8 },
                click_color: Color { r: 20u8, g: 20u8, b: 50u8, a: 160u8 },
                ..self
            }),
    {
        Image {
            hover_border: false,
            hover_color: Color::rgba(30, 30, 80, 100),
            click_color: Color::rgba(20, 20, 50, 160),
            ..self
        }
    }

    pub fn with_hover_color(self, color: Color) -> (w: Image)
        ensures
            w == (Image { hover_color: color, ..self }),
    {
        Image { hover_color: color, ..self }
    }

    pub fn with_click_color(self, color: Color) -> (w: Image)
        ensures
            w == (Image { click_color: color, ..self }),
    {
        Image { click_color: color, ..self }
    }

    /// Report a click when the callback slot is occupied.
    pub fn on_click(&self) -> (action: Option<Action>)
        ensures
            action == (if self.has_on_click {
                Some(Action::Click { id: self.id })
            } else {
                None::<Action>
            }),
    {
        if self.has_on_click {
            Some(Action::Click { id: self.id })
        } else {
            None
        }
    }

    pub fn place(&mut self, x: i32, y: i32)
        ensures
            *final(self) == (Image { rect: Rect { x, y, ..old(self).rect }, ..*old(self) }),
    {
        self.rect = Rect { x, y, ..self.rect };
    }

    pub fn translate(&mut self, dx: i32, dy: i32)
        requires
            i32::MIN <= old(self).rect.x + dx <= i32::MAX,
            i32::MIN <= old(self).rect.y + dy <= i32::MAX,
        ensures
            *final(self) == (Image {
                rect: old(self).rect.spec_translate(dx as int, dy as int),
                ..*old(self)
            }),
    {
        self.rect = self.rect.translate(dx, dy);
    }

    pub fn draw_width(&self) -> (w: u32)
        ensures
            w == self.rect.width,
    {
        self.rect.width
    }

    pub fn draw_height(&self) -> (h: u32)
        ensures
            h == self.rect.height,
    {
        self.rect.height
    }

    /// The border drawn around the image while highlighted.
    pub open spec fn spec_border_rect(self) -> Rect {
        Rect {
            x: (self.rect.x - self.hover_border_width) as i32,
            y: (self.rect.y - self.hover_border_width) as i32,
            width: (self.rect.width + 2 * self.hover_border_width) as u32,
            height: (self.rect.height + 2 * self.hover_border_width) as u32,
        }
    }

    /// Whether the border arithmetic stays within the machine ranges.
    pub open spec fn can_render(self) -> bool {
        &&& self.rect.wf()
        &&& i32::MIN <= self.rect.x - self.hover_border_width
        &&& i32::MIN <= self.rect.y - self.hover_border_width
        &&& self.rect.width + 2 * self.hover_border_width <= u32::MAX
        &&& self.rect.height + 2 * self.hover_border_width <= u32::MAX
    }

    /// What the image renders as: a border behind the image while hovered
    /// or clicked in border mode, the image itself, and a translucent shade
    /// on top of it in shade mode.
    pub open spec fn render_spec(self, state: WidgetState, cmds: Seq<DrawCmd>) -> bool {
        let highlighted = state == WidgetState::Hovering || state == WidgetState::Active;
        let highlight_color = if state == WidgetState::Active {
            self.click_color
        } else {
            self.hover_color
        };
        let image_at = if highlighted && self.hover_border {
            1int
        } else {
            0int
        };
        &&& cmds.len() == 1 + (if highlighted {
            1int
        } else {
            0int
        })
        &&& (highlighted && self.hover_border) ==> cmds[0] == (DrawCmd::FillRect {
            rect: self.spec_border_rect(),
            color: highlight_color,
        })
        &&& cmds[image_at] == (DrawCmd::DrawImage {
            resource: self.resource_path,
            target: self.rect,
        })
        &&& (highlighted && !self.hover_border) ==> cmds[1] == (DrawCmd::FillRectBlended {
            rect: self.rect,
            color: highlight_color,
        })
    }

    /// The draw commands, as [`Image::render_spec`] says.
    pub fn render(&self, state: WidgetState) -> (cmds: Vec<DrawCmd>)
        requires
            self.can_render(),
        ensures
            self.render_spec(state, cmds@),
    {
        let highlighted = match state {
            WidgetState::Hovering => true,
            WidgetState::Active => true,
            _ => false,
        };
        let highlight_color = match state {
            WidgetState::Active => self.click_color,
            _ => self.hover_color,
        };
        let mut cmds: Vec<DrawCmd> = Vec::new();
        if highlighted && self.hover_border {
            let bw = self.hover_border_width;
            let border = Rect {
                x: self.rect.x - bw as i32,
                y: self.rect.y - bw as i32,
                width: self.rect.width + 2 * bw,
                height: self.rect.height + 2 * bw,
            };
            cmds.push(DrawCmd::FillRect { rect: border, color: highlight_color });
        }
        cmds.push(DrawCmd::DrawImage { resource: self.resource_path, target: self.rect });
        if highlighted && !self.hover_border {
            cmds.push(DrawCmd::FillRectBlended { rect: self.rect, color: highlight_color });
        }
        cmds
    }
}

} // verus!
