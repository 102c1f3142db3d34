//! The widget capability set: one tagged union over the concrete widget
//! kinds, dispatching geometry, layout, callback and render operations.

use vstd::prelude::*;
use crate::commands::DrawCmd;
use crate::events::{Action, Event};
use crate::geometry::Rect;
use crate::widgets::button::Button;
use crate::widgets::checkbox::CheckBox;
use crate::widgets::image::Image;
use crate::widgets::scrollbar::{spec_scrollbar_update, ScrollBar};
use crate::widgets::text::{spec_half_gap, Text};
use crate::widgets::textbox::{spec_textbox_update, TextBox};

verus! {

/// The visual state a widget is rendered with.
///
/// `Focused` wins over `Active`, which wins over `Hovering`.
#[derive(Clone, Copy, PartialEq, Eq, Structural, Debug)]
pub enum WidgetState {
    Focused,
    Active,
    Hovering,
    Base,
}

/// A leaf element of the component tree.
pub enum Widget {
    Button(Button),
    Text(Text),
    CheckBox(CheckBox),
    TextBox(TextBox),
    ScrollBar(ScrollBar),
    Image(Image),
}

impl Widget {
    pub open spec fn spec_id(self) -> u32 {
        match self {
            Widget::Button(w) => w.id,
            Widget::Text(w) => w.id,
            Widget::CheckBox(w) => w.id,
            Widget::TextBox(w) => w.id,
            Widget::ScrollBar(w) => w.id,
            Widget::Image(w) => w.id,
        }
    }

    /// The widget's hit-test rectangle; for a scrollbar that is the slider.
    pub open spec fn spec_rect(self) -> Rect {
        match self {
            Widget::Button(w) => w.rect,
            Widget::Text(w) => w.container_rect,
            Widget::CheckBox(w) => w.rect,
            Widget::TextBox(w) => w.rect,
            Widget::ScrollBar(w) => w.slider,
            Widget::Image(w) => w.rect,
        }
    }

    /// Only textboxes grab focus when clicked.
    pub open spec fn spec_can_focus(self) -> bool {
        self is TextBox
    }

    pub open spec fn spec_draw_width(self) -> u32 {
        match self {
            Widget::Button(w) => w.rect.width,
            Widget::Text(w) => w.text_width,
            Widget::CheckBox(w) => w.rect.width,
            Widget::TextBox(w) => w.rect.width,
            Widget::ScrollBar(w) => w.rail.width,
            Widget::Image(w) => w.rect.width,
        }
    }

    pub open spec fn spec_draw_height(self) -> u32 {
        match self {
            Widget::Button(w) => w.rect.height,
            Widget::Text(w) => w.text_height,
            Widget::CheckBox(w) => w.rect.height,
            Widget::TextBox(w) => w.rect.height,
            Widget::ScrollBar(w) => w.slider.height,
            Widget::Image(w) => w.rect.height,
        }
    }

    /// What the router must be able to rely on: a scrollbar's pixel/value
    /// maps are defined.
    pub open spec fn wf(self) -> bool {
        self matches Widget::ScrollBar(s) ==> s.wf()
    }

    pub fn id(&self) -> (i: u32)
        ensures
            i == self.spec_id(),
    {
        match self {
            Widget::Button(w) => w.id,
            Widget::Text(w) => w.id,
            Widget::CheckBox(w) => w.id,
            Widget::TextBox(w) => w.id,
            Widget::ScrollBar(w) => w.id,
            Widget::Image(w) => w.id,
        }
    }

    pub fn rect(&self) -> (r: Rect)
        ensures
            r == self.spec_rect(),
    {
        match self {
            Widget::Button(w) => w.rect,
            Widget::Text(w) => w.container_rect,
            Widget::CheckBox(w) => w.rect,
            Widget::TextBox(w) => w.rect,
            Widget::ScrollBar(w) => w.slider,
            Widget::Image(w) => w.rect,
        }
    }

    /// Whether the widget grabs focus when clicked.
    pub fn can_focus(&self) -> (b: bool)
        ensures
            b == self.spec_can_focus(),
    {
        match self {
            Widget::TextBox(_) => true,
            _ => false,
        }
    }

    /// The widget's rendered width, label and sub-objects included.
    pub fn draw_width(&self) -> (w: u32)
        ensures
            w == self.spec_draw_width(),
    {
        match self {
            Widget::Button(w) => w.draw_width(),
            Widget::Text(w) => w.draw_width(),
            Widget::CheckBox(w) => w.draw_width(),
            Widget::TextBox(w) => w.draw_width(),
            Widget::ScrollBar(w) => w.draw_width(),
            Widget::Image(w) => w.draw_width(),
        }
    }

    /// The widget's rendered height, label and sub-objects included.
    pub fn draw_height(&self) -> (h: u32)
        ensures
            h == self.spec_draw_height(),
    {
        match self {
            Widget::Button(w) => w.draw_height(),
            Widget::Text(w) => w.draw_height(),
            Widget::CheckBox(w) => w.draw_height(),
            Widget::TextBox(w) => w.draw_height(),
            Widget::ScrollBar(w) => w.draw_height(),
            Widget::Image(w) => w.draw_height(),
        }
    }

    /// Whether a measurement pass has a text component to size here.
    pub open spec fn spec_has_text_component(self) -> bool {
        match self {
            Widget::Button(w) => w.text is Some,
            Widget::Text(w) => true,
            Widget::CheckBox(w) => w.text is Some,
            Widget::TextBox(w) => w.user_text.text@.len() > 0 || w.default_text.text@.len() > 0,
            Widget::ScrollBar(w) => w.value_text is Some,
            Widget::Image(w) => false,
        }
    }

    /// The text component the measurement pass sizes, if any.
    pub fn text_component(&self) -> (t: Option<&Text>)
        ensures
            t is Some <==> self.spec_has_text_component(),
    {
        match self {
            Widget::Button(w) => w.text.as_ref(),
            Widget::Text(w) => Some(w),
            Widget::CheckBox(w) => w.text.as_ref(),
            Widget::TextBox(w) => w.text_component(),
            Widget::ScrollBar(w) => w.value_text.as_ref(),
            Widget::Image(w) => None,
        }
    }

    /// The arithmetic bound the size assignment needs.
    pub open spec fn can_assign_text(self, dims: (u32, u32)) -> bool {
        self.spec_has_text_component() && (self matches Widget::CheckBox(c)
            ==> c.checkbox_width + c.checkbox_padding_right + dims.0 <= u32::MAX)
    }

    /// The widget after its text component is sized to `dims`.
    pub open spec fn spec_with_text_dims(self, dims: (u32, u32)) -> Widget {
        match self {
            Widget::Button(w) => Widget::Button(
                Button {
                    text: Some(
                        Text {
                            text_width: dims.0,
                            text_height: dims.1,
                            ..w.text->Some_0
                        },
                    ),
                    ..w
                },
            ),
            Widget::Text(w) => Widget::Text(
                Text { text_width: dims.0, text_height: dims.1, ..w },
            ),
            Widget::CheckBox(w) => Widget::CheckBox(
                CheckBox {
                    rect: Rect {
                        width: (w.checkbox_width + w.checkbox_padding_right + dims.0) as u32,
                        ..w.rect
                    },
                    text: Some(
                        Text {
                            text_width: dims.0,
                            text_height: dims.1,
                            ..w.text->Some_0
                        },
                    ),
                    ..w
                },
            ),
            Widget::TextBox(w) => Widget::TextBox(
                if w.user_text.text@.len() > 0 {
                    TextBox {
                        user_text: Text { text_width: dims.0, text_height: dims.1, ..w.user_text },
                        ..w
                    }
                } else {
                    TextBox {
                        default_text: Text {
                            text_width: dims.0,
                            text_height: dims.1,
                            ..w.default_text
                        },
                        ..w
                    }
                },
            ),
            Widget::ScrollBar(w) => Widget::ScrollBar(
                ScrollBar {
                    value_text: Some(
                        Text {
                            text_width: dims.0,
                            text_height: dims.1,
                            ..w.value_text->Some_0
                        },
                    ),
                    ..w
                },
            ),
            Widget::Image(w) => Widget::Image(w),
        }
    }

    /// Size the widget's text component to its measured dimensions. Called
    /// only on widgets that have a text component.
    pub fn assign_text_dimensions(&mut self, dims: (u32, u32))
        requires
            old(self).can_assign_text(dims),
        ensures
            *final(self) == old(self).spec_with_text_dims(dims),
    {
        match self {
            Widget::Button(w) => w.assign_text_dimensions(dims),
            Widget::Text(w) => w.assign_text_dimensions(dims),
            Widget::CheckBox(w) => w.assign_text_dimensions(dims),
            Widget::TextBox(w) => w.assign_text_dimensions(dims),
            Widget::ScrollBar(w) => {
                match &mut w.value_text {
                    Some(t) => {
                        t.assign_text_dimensions(dims);
                    }
                    None => {}
                }
            },
            Widget::Image(_) => {}
        }
    }

    /// The widget's draw origin: the position a placement sets. For a
    /// scrollbar that is the rail's origin, not the slider's.
    pub open spec fn spec_origin(self) -> (int, int) {
        match self {
            Widget::ScrollBar(w) => (w.rail.x as int, w.rail.y as int),
            _ => (self.spec_rect().x as int, self.spec_rect().y as int),
        }
    }

    /// The widget's draw origin.
    pub fn origin(&self) -> (p: (i32, i32))
        ensures
            p.0 as int == self.spec_origin().0,
            p.1 as int == self.spec_origin().1,
    {
        match self {
            Widget::ScrollBar(w) => (w.rail.x, w.rail.y),
            Widget::Button(w) => (w.rect.x, w.rect.y),
            Widget::Text(w) => (w.container_rect.x, w.container_rect.y),
            Widget::CheckBox(w) => (w.rect.x, w.rect.y),
            Widget::TextBox(w) => (w.rect.x, w.rect.y),
            Widget::Image(w) => (w.rect.x, w.rect.y),
        }
    }

    /// The arithmetic bounds a placement at `(x, y)` needs.
    pub open spec fn can_place(self, x: int, y: int) -> bool {
        &&& x + self.spec_rect().width <= i32::MAX
        &&& y + self.spec_rect().height <= i32::MAX
        &&& (self matches Widget::CheckBox(c) ==> x + c.checkbox_width + c.checkbox_padding_right
            <= i32::MAX)
        &&& (self matches Widget::ScrollBar(s) ==> s.wf() && i32::MIN <= y - spec_half_gap(
            s.slider.height as int,
            s.rail.height as int,
        ) <= i32::MAX)
    }

    /// The widget with its draw origin moved to `(x, y)`; sub-objects
    /// follow their owner.
    pub open spec fn spec_placed(self, x: i32, y: i32) -> Widget {
        match self {
            Widget::Button(w) => Widget::Button(
                Button {
                    rect: Rect { x, y, ..w.rect },
                    text: match w.text {
                        Some(t) => Some(Text { container_rect: Rect { x, y, ..w.rect }, ..t }),
                        None => None,
                    },
                    ..w
                },
            ),
            Widget::Text(w) => Widget::Text(
                Text { container_rect: Rect { x, y, ..w.container_rect }, ..w },
            ),
            Widget::CheckBox(w) => Widget::CheckBox(
                CheckBox {
                    rect: Rect { x, y, ..w.rect },
                    text: match w.text {
                        Some(t) => Some(
                            Text {
                                container_rect: Rect {
                                    x: (x + w.checkbox_width + w.checkbox_padding_right) as i32,
                                    y,
                                    width: w.rect.width,
                                    height: w.rect.height,
                                },
                                ..t
                            },
                        ),
                        None => None,
                    },
                    ..w
                },
            ),
            Widget::TextBox(w) => Widget::TextBox(
                TextBox {
                    rect: Rect { x, y, ..w.rect },
                    default_text: Text {
                        container_rect: Rect { x, y, ..w.rect },
                        ..w.default_text
                    },
                    user_text: Text { container_rect: Rect { x, y, ..w.rect }, ..w.user_text },
                    ..w
                },
            ),
            Widget::ScrollBar(w) => Widget::ScrollBar(
                ScrollBar {
                    rail: Rect { x, y, ..w.rail },
                    slider: Rect {
                        y: (y - spec_half_gap(
                            w.slider.height as int,
                            w.rail.height as int,
                        )) as i32,
                        ..w.slider
                    },
                    ..w
                },
            ),
            Widget::Image(w) => Widget::Image(Image { rect: Rect { x, y, ..w.rect }, ..w }),
        }
    }

    /// Move the widget's draw origin to `(x, y)`.
    pub fn place(&mut self, x: i32, y: i32)
        requires
            old(self).can_place(x as int, y as int),
        ensures
            *final(self) == old(self).spec_placed(x, y),
    {
        match self {
            Widget::Button(w) => w.place(x, y),
            Widget::Text(w) => w.place(x, y),
            Widget::CheckBox(w) => w.place(x, y),
            Widget::TextBox(w) => w.place(x, y),
            Widget::ScrollBar(w) => w.place(x, y),
            Widget::Image(w) => w.place(x, y),
        }
    }

    /// The arithmetic bounds a shift by `(dx, dy)` needs: every rectangle
    /// the widget owns stays within `i32`.
    pub open spec fn can_translate(self, dx: int, dy: int) -> bool {
        &&& i32::MIN <= self.spec_rect().x + dx <= i32::MAX
        &&& i32::MIN <= self.spec_rect().y + dy <= i32::MAX
        &&& (match self {
            Widget::Button(w) => w.text matches Some(t) ==> i32::MIN <= t.container_rect.x + dx
                <= i32::MAX && i32::MIN <= t.container_rect.y + dy <= i32::MAX,
            Widget::CheckBox(w) => w.text matches Some(t) ==> i32::MIN <= t.container_rect.x + dx
                <= i32::MAX && i32::MIN <= t.container_rect.y + dy <= i32::MAX,
            Widget::TextBox(w) => {
                &&& i32::MIN <= w.default_text.container_rect.x + dx <= i32::MAX
                &&& i32::MIN <= w.default_text.container_rect.y + dy <= i32::MAX
                &&& i32::MIN <= w.user_text.container_rect.x + dx <= i32::MAX
                &&& i32::MIN <= w.user_text.container_rect.y + dy <= i32::MAX
            },
            Widget::ScrollBar(w) => w.wf() && i32::MIN <= w.rail.x + dx <= i32::MAX && i32::MIN
                <= w.rail.y + dy <= i32::MAX,
            _ => true,
        })
    }

    /// The widget shifted by `(dx, dy)`: every rectangle it owns moves by
    /// the same amount, except a scrollbar's slider, which re-tracks its
    /// value's pixel on the moved rail.
    pub open spec fn spec_translated(self, dx: i32, dy: i32) -> Widget {
        match self {
            Widget::Button(w) => Widget::Button(
                Button {
                    rect: w.rect.spec_translate(dx as int, dy as int),
                    text: match w.text {
                        Some(t) => Some(
                            Text {
                                container_rect: t.container_rect.spec_translate(
                                    dx as int,
                                    dy as int,
                                ),
                                ..t
                            },
                        ),
                        None => None,
                    },
                    ..w
                },
            ),
            Widget::Text(w) => Widget::Text(
                Text { container_rect: w.container_rect.spec_translate(dx as int, dy as int), ..w },
            ),
            Widget::CheckBox(w) => Widget::CheckBox(
                CheckBox {
                    rect: w.rect.spec_translate(dx as int, dy as int),
                    text: match w.text {
                        Some(t) => Some(
                            Text {
                                container_rect: t.container_rect.spec_translate(
                                    dx as int,
                                    dy as int,
                                ),
                                ..t
                            },
                        ),
                        None => None,
                    },
                    ..w
                },
            ),
            Widget::TextBox(w) => Widget::TextBox(
                TextBox {
                    rect: w.rect.spec_translate(dx as int, dy as int),
                    default_text: Text {
                        container_rect: w.default_text.container_rect.spec_translate(
                            dx as int,
                            dy as int,
                        ),
                        ..w.default_text
                    },
                    user_text: Text {
                        container_rect: w.user_text.container_rect.spec_translate(
                            dx as int,
                            dy as int,
                        ),
                        ..w.user_text
                    },
                    ..w
                },
            ),
            Widget::ScrollBar(w) => Widget::ScrollBar(
                ScrollBar {
                    rail: w.rail.spec_translate(dx as int, dy as int),
                    slider: Rect {
                        x: (ScrollBar {
                            rail: w.rail.spec_translate(dx as int, dy as int),
                            ..w
                        }).spec_slider_x(w.value as int) as i32,
                        y: (w.slider.y + dy) as i32,
                        ..w.slider
                    },
                    ..w
                },
            ),
            Widget::Image(w) => Widget::Image(
                Image { rect: w.rect.spec_translate(dx as int, dy as int), ..w },
            ),
        }
    }

    /// Shift the widget by `(dx, dy)`.
    pub fn translate(&mut self, dx: i32, dy: i32)
        requires
            old(self).can_translate(dx as int, dy as int),
        ensures
            *final(self) == old(self).spec_translated(dx, dy),
    {
        match self {
            Widget::Button(w) => w.translate(dx, dy),
            Widget::Text(w) => w.translate(dx, dy),
            Widget::CheckBox(w) => w.translate(dx, dy),
            Widget::TextBox(w) => w.translate(dx, dy),
            Widget::ScrollBar(w) => w.translate(dx, dy),
            Widget::Image(w) => w.translate(dx, dy),
        }
    }

    /// The widget after its click callback ran: a checkbox toggles, every
    /// other widget is unchanged.
    pub open spec fn spec_after_click(self) -> Widget {
        match self {
            Widget::CheckBox(w) => Widget::CheckBox(
                CheckBox { is_checked: !w.is_checked, ..w },
            ),
            _ => self,
        }
    }

    /// What a click on this widget reports: a click or toggle through the
    /// occupied callback slot, nothing otherwise.
    pub open spec fn spec_click_action(self) -> Option<Action> {
        match self {
            Widget::Button(w) => if w.has_on_click {
                Some(Action::Click { id: w.id })
            } else {
                None
            },
            Widget::CheckBox(w) => if w.has_on_check {
                Some(Action::Check { id: w.id, checked: !w.is_checked })
            } else {
                None
            },
            Widget::Image(w) => if w.has_on_click {
                Some(Action::Click { id: w.id })
            } else {
                None
            },
            _ => None,
        }
    }

    /// Run the widget's click callback.
    pub fn on_click(&mut self) -> (action: Option<Action>)
        ensures
            *final(self) == old(self).spec_after_click(),
            action == old(self).spec_click_action(),
    {
        match self {
            Widget::Button(w) => {
                if w.has_on_click {
                    Some(Action::Click { id: w.id })
                } else {
                    None
                }
            }
            Widget::CheckBox(w) => w.on_check(),
            Widget::Image(w) => w.on_click(),
            _ => None,
        }
    }

    /// Exactly how a widget reacts to one routed event: textboxes consume
    /// text input and keys, scrollbars consume pointer motion, and every
    /// other widget ignores everything.
    pub open spec fn spec_update(a: Widget, e: Event, b: Widget, action: Option<Action>) -> bool {
        match a {
            Widget::TextBox(wa) => b matches Widget::TextBox(wb) && spec_textbox_update(
                wa,
                e,
                wb,
                action,
            ),
            Widget::ScrollBar(wa) => b matches Widget::ScrollBar(wb) && spec_scrollbar_update(
                wa,
                e,
                wb,
                action,
            ),
            _ => b == a && action is None,
        }
    }

    /// React to one routed event, as [`Widget::spec_update`] prescribes.
    pub fn update(&mut self, event: &Event) -> (action: Option<Action>)
        requires
            old(self).wf(),
        ensures
            Widget::spec_update(*old(self), *event, *final(self), action),
    {
        match self {
            Widget::TextBox(w) => w.update(event),
            Widget::ScrollBar(w) => w.update(event),
            _ => None,
        }
    }

    /// Whether the widget's render arithmetic stays within the machine
    /// ranges.
    pub open spec fn can_render(self) -> bool {
        match self {
            Widget::Button(w) => w.can_render(),
            Widget::Text(w) => w.can_target(),
            Widget::CheckBox(w) => w.can_render(),
            Widget::TextBox(w) => w.can_render(),
            Widget::ScrollBar(w) => true,
            Widget::Image(w) => w.can_render(),
        }
    }

    /// What the widget renders as, by kind.
    pub open spec fn render_spec(self, state: WidgetState, cmds: Seq<DrawCmd>) -> bool {
        match self {
            Widget::Button(w) => w.render_spec(state, cmds),
            Widget::Text(w) => w.render_spec(cmds),
            Widget::CheckBox(w) => w.render_spec(state, cmds),
            Widget::TextBox(w) => w.render_spec(state, cmds),
            Widget::ScrollBar(w) => w.render_spec(state, cmds),
            Widget::Image(w) => w.render_spec(state, cmds),
        }
    }

    /// The widget's draw commands for this frame, given its interaction
    /// state.
    pub fn render(&self, state: WidgetState) -> (cmds: Vec<DrawCmd>)
        requires
            self.can_render(),
        ensures
            self.render_spec(state, cmds@),
    {
        match self {
            Widget::Button(w) => w.render(state),
            Widget::Text(w) => w.render(),
            Widget::CheckBox(w) => w.render(state),
            Widget::TextBox(w) => w.render(state),
            Widget::ScrollBar(w) => w.render(state),
            Widget::Image(w) => w.render(state),
        }
    }
}

} // verus!
