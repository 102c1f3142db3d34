//! The textbox widget: focusable text entry. The committed text comes from
//! the application on each rebuild; keystrokes between rebuilds accumulate
//! in an input buffer, and every change is reported as an action carrying
//! the full visible text.

use vstd::prelude::*;
use crate::color::Color;
use crate::commands::DrawCmd;
use crate::events::{Action, Event, Key};
use crate::geometry::Rect;
use crate::widgets::text::Text;
use crate::widgets::widget::WidgetState;

verus! {

/// The characters of a string, as a vector.
pub fn chars_of(s: &str) -> (v: Vec<char>)
    ensures
        v@ == s@,
{
    let mut v: Vec<char> = Vec::new();
    for c in it: s.chars()
        invariant
            it.seq() == s@,
            v@ == it.seq().take(it.index() as int),
    {
        v.push(c);
    }
    proof {
        assert(v@ =~= s@);
    }
    v
}

pub struct TextBox {
    pub id: u32,
    pub rect: Rect,
    pub background_color: Color,
    pub focus_color: Color,
    /// Hint shown while no text is committed and the box is unfocused.
    pub default_text: Text,
    /// The committed text, set by the application when the tree is rebuilt.
    pub user_text: Text,
    /// Characters typed since the last rebuild.
    pub input_buffer: Vec<char>,
    /// Whether a text-changed callback is registered.
    pub has_on_text_changed: bool,
    /// Whether a submit callback is registered.
    pub has_on_text_submit: bool,
}

impl TextBox {
    pub fn new(id: u32, text: &str) -> (t: TextBox)
        ensures
            t.id == id,
            t.rect == (Rect { x: 0i32, y: 0i32, width: 100u32, height: 40u32 }),
            t.background_color == (Color { r: 200u8, g: 200u8, b: 200u8, a: 0xffu8 }),
            t.focus_color == (Color { r: 255u8, g: 255u8, b: 255u8, a: 0xffu8 }),
            t.default_text.text@ == Seq::<char>::empty(),
            t.user_text.text@ == text@,
            t.input_buffer@ == Seq::<char>::empty(),
            !t.has_on_text_changed,
            !t.has_on_text_submit,
    {
        proof {
            reveal_strlit("");
        }
        TextBox {
            id,
            rect: Rect::new(0, 0, 100, 40),
            background_color: Color::light_gray(),
            focus_color: Color::white(),
            default_text: Text::new(0, ""),
            user_text: Text::new(0, text),
            input_buffer: Vec::new(),
            has_on_text_changed: false,
            has_on_text_submit: false,
        }
    }

    /// Show `text` in dark gray while the box is empty and unfocused.
    pub fn with_default_text(self, text: &str) -> (t: TextBox)
        ensures
            t.default_text.text@ == text@,
            t == (TextBox { default_text: t.default_text, ..self }),
    {
        TextBox { default_text: Text::new(0, text).with_color(Color::dark_gray()), ..self }
    }

    /// Occupy the text-changed callback slot.
    pub fn with_on_text_changed(self) -> (t: TextBox)
        ensures
            t == (TextBox { has_on_text_changed: true, ..self }),
    {
        TextBox { has_on_text_changed: true, ..self }
    }

    /// Occupy the submit callback slot.
    pub fn with_on_text_submit(self) -> (t: TextBox)
        ensures
            t == (TextBox { has_on_text_submit: true, ..self }),
    {
        TextBox { has_on_text_submit: true, ..self }
    }

    /// The text the user currently sees: the committed text plus whatever
    /// was typed since the last rebuild.
    pub open spec fn spec_visible_text(self) -> Seq<char> {
        self.user_text.text@ + self.input_buffer@
    }

    /// Textboxes grab focus when clicked.
    pub fn can_focus(&self) -> (b: bool)
        ensures
            b,
    {
        true
    }

    /// The component that is measured: the committed text when present,
    /// else the hint, else nothing.
    pub fn text_component(&self) -> (t: Option<&Text>)
        ensures
            t == (if self.user_text.text@.len() > 0 {
                Some(&self.user_text)
            } else if self.default_text.text@.len() > 0 {
                Some(&self.default_text)
            } else {
                None::<&Text>
            }),
    {
        if !self.user_text.text.as_str().is_empty() {
            Some(&self.user_text)
        } else if !self.default_text.text.as_str().is_empty() {
            Some(&self.default_text)
        } else {
            None
        }
    }

    /// Record the measured size on whichever text is measured.
    pub fn assign_text_dimensions(&mut self, dims: (u32, u32))
        ensures
            old(self).user_text.text@.len() > 0 ==> *final(self) == (TextBox {
                user_text: Text {
                    text_width: dims.0,
                    text_height: dims.1,
                    ..old(self).user_text
                },
                ..*old(self)
            }),
            old(self).user_text.text@.len() == 0 && old(self).default_text.text@.len() > 0
                ==> *final(self) == (TextBox {
                default_text: Text {
                    text_width: dims.0,
                    text_height: dims.1,
                    ..old(self).default_text
                },
                ..*old(self)
            }),
            old(self).user_text.text@.len() == 0 && old(self).default_text.text@.len() == 0
                ==> *final(self) == *old(self),
    {
        if !self.user_text.text.as_str().is_empty() {
            self.user_text.assign_text_dimensions(dims);
        } else if !self.default_text.text.as_str().is_empty() {
            self.default_text.assign_text_dimensions(dims);
        }
    }

    /// Move the box to `(x, y)`; both texts share its rectangle.
    pub fn place(&mut self, x: i32, y: i32)
        requires
            x + old(self).rect.width <= i32::MAX,
            y + old(self).rect.height <= i32::MAX,
        ensures
            final(self).rect == (Rect { x, y, ..old(self).rect }),
            *final(self) == (TextBox {
                rect: final(self).rect,
                default_text: Text { container_rect: final(self).rect, ..old(self).default_text },
                user_text: Text { container_rect: final(self).rect, ..old(self).user_text },
                ..*old(self)
            }),
    {
        self.rect = Rect::new(x, y, self.rect.width, self.rect.height);
        self.default_text.container_rect = self.rect;
        self.user_text.container_rect = self.rect;
    }

    /// Shift the box and both texts by `(dx, dy)`.
    pub fn translate(&mut self, dx: i32, dy: i32)
        requires
            i32::MIN <= old(self).rect.x + dx <= i32::MAX,
            i32::MIN <= old(self).rect.y + dy <= i32::MAX,
            i32::MIN <= old(self).default_text.container_rect.x + dx <= i32::MAX,
            i32::MIN <= old(self).default_text.container_rect.y + dy <= i32::MAX,
            i32::MIN <= old(self).user_text.container_rect.x + dx <= i32::MAX,
            i32::MIN <= old(self).user_text.container_rect.y + dy <= i32::MAX,
        ensures
            *final(self) == (TextBox {
                rect: old(self).rect.spec_translate(dx as int, dy as int),
                default_text: Text {
                    container_rect: old(self).default_text.container_rect.spec_translate(
                        dx as int,
                        dy as int,
                    ),
                    ..old(self).default_text
                },
                user_text: Text {
                    container_rect: old(self).user_text.container_rect.spec_translate(
                        dx as int,
                        dy as int,
                    ),
                    ..old(self).user_text
                },
                ..*old(self)
            }),
    {
        self.rect = self.rect.translate(dx, dy);
        self.default_text.translate(dx, dy);
        self.user_text.translate(dx, dy);
    }

    pub fn draw_width(&self) -> (w: u32)
        ensures
            w == self.rect.width,
    {
        self.rect.width
    }

    pub fn draw_height(&self) -> (h: u32)
        ensures
            h == self.rect.height,
    {
        self.rect.height
    }
}

impl TextBox {
    /// The caret drawn while the box is focused: a thin bar just past the
    /// committed text, vertically centered.
    pub open spec fn spec_cursor_rect(self) -> Rect {
        let c = self.user_text.container_rect;
        Rect {
            x: (if self.user_text.text@.len() == 0 {
                c.x + 1
            } else {
                c.x + self.user_text.text_width + 1
            }) as i32,
            y: (c.y + c.height / 2 - 10) as i32,
            width: 3u32,
            height: 20u32,
        }
    }

    /// Whether the render arithmetic stays within `i32`.
    pub open spec fn can_render(self) -> bool {
        let c = self.user_text.container_rect;
        &&& c.wf()
        &&& c.x + self.user_text.text_width + 1 <= i32::MAX
        &&& i32::MIN + 10 <= c.y
        &&& c.y + c.height / 2 + 10 <= i32::MAX
        &&& self.user_text.text@.len() > 0 ==> self.user_text.can_target()
        &&& self.default_text.text@.len() > 0 ==> self.default_text.can_target()
    }

    /// What the box renders as: its face (highlighted while focused), the
    /// caret while focused, then the committed text, or the hint while the
    /// box is empty and unfocused.
    pub open spec fn render_spec(self, state: WidgetState, cmds: Seq<DrawCmd>) -> bool {
        &&& cmds.len() == 1 + (if state == WidgetState::Focused {
                1int
            } else {
                0int
            }) + (if self.user_text.text@.len() > 0 || (state != WidgetState::Focused
            && self.default_text.text@.len() > 0) {
            1int
        } else {
            0int
        })
        &&& cmds[0] == (DrawCmd::FillRect {
            rect: self.rect,
            color: (if state == WidgetState::Focused {
                self.focus_color
            } else {
                self.background_color
            }),
        })
        &&& state == WidgetState::Focused ==> cmds[1] == (DrawCmd::FillRect {
            rect: self.spec_cursor_rect(),
            color: Color { r: 0u8, g: 0u8, b: 0u8, a: 0xffu8 },
        })
        &&& self.user_text.text@.len() > 0 ==> (cmds[cmds.len() - 1]
            matches DrawCmd::DrawText { text, font, color, target } && text@
            == self.user_text.text@ && font == self.user_text.font && color
            == self.user_text.color && target == self.user_text.spec_target_rect())
        &&& self.user_text.text@.len() == 0 && state != WidgetState::Focused
            && self.default_text.text@.len() > 0 ==> (cmds[cmds.len() - 1]
            matches DrawCmd::DrawText { text, font, color, target } && text@
            == self.default_text.text@ && font == self.default_text.font && color
            == self.default_text.color && target == self.default_text.spec_target_rect())
    }

    /// The draw commands, as [`TextBox::render_spec`] says.
    pub fn render(&self, state: WidgetState) -> (cmds: Vec<DrawCmd>)
        requires
            self.can_render(),
        ensures
            self.render_spec(state, cmds@),
    {
        let focused = match state {
            WidgetState::Focused => true,
            _ => false,
        };
        let mut cmds: Vec<DrawCmd> = Vec::new();
        cmds.push(
            DrawCmd::FillRect {
                rect: self.rect,
                color: if focused {
                    self.focus_color
                } else {
                    self.background_color
                },
            },
        );
        let user_empty = self.user_text.text.as_str().is_empty();
        if focused {
            let c = self.user_text.container_rect;
            let cursor_x: i32 = if user_empty {
                c.x + 1
            } else {
                c.x + self.user_text.text_width as i32 + 1
            };
            let cursor_y: i32 = c.y + (c.height / 2) as i32 - 10;
            cmds.push(
                DrawCmd::FillRect {
                    rect: Rect { x: cursor_x, y: cursor_y, width: 3, height: 20 },
                    color: Color::black(),
                },
            );
        }
        if !user_empty {
            let mut text_cmds = self.user_text.render();
            cmds.append(&mut text_cmds);
        } else if !focused && !self.default_text.text.as_str().is_empty() {
            let mut text_cmds = self.default_text.render();
            cmds.append(&mut text_cmds);
        }
        cmds
    }
}

/// Everything of a textbox but its input buffer is unchanged.
pub open spec fn spec_same_but_buffer(a: TextBox, b: TextBox) -> bool {
    b == (TextBox { input_buffer: b.input_buffer, ..a })
}

/// Exactly how a textbox reacts to one routed event.
///
/// Typed text is appended to the buffer; backspace removes the last typed
/// character, or the last committed one once the buffer is empty; enter
/// submits the committed text. Each reaction reports the visible text
/// through the matching occupied callback slot, and every other event
/// leaves the box untouched.
pub open spec fn spec_textbox_update(
    a: TextBox,
    e: Event,
    b: TextBox,
    action: Option<Action>,
) -> bool {
    match e {
        Event::TextInput { text } => {
            if a.has_on_text_changed {
                &&& spec_same_but_buffer(a, b)
                &&& b.input_buffer@ == a.input_buffer@ + text@
                &&& action matches Some(Action::TextChanged { id, text: payload }) && id == a.id
                    && payload@ == b.spec_visible_text()
            } else {
                b == a && action is None
            }
        },
        Event::KeyDown { key: Key::Backspace } => {
            if a.has_on_text_changed {
                &&& spec_same_but_buffer(a, b)
                &&& b.input_buffer@ == (if a.input_buffer@.len() > 0 {
                    a.input_buffer@.drop_last()
                } else {
                    a.input_buffer@
                })
                &&& action matches Some(Action::TextChanged { id, text: payload }) && id == a.id
                    && payload@ == (if a.input_buffer@.len() > 0 {
                    b.spec_visible_text()
                } else if a.user_text.text@.len() > 0 {
                    a.user_text.text@.drop_last()
                } else {
                    a.user_text.text@
                })
            } else {
                b == a && action is None
            }
        },
        Event::KeyDown { key: Key::Return } | Event::KeyDown { key: Key::KeypadEnter } => {
            if a.has_on_text_submit {
                &&& b == a
                &&& action matches Some(Action::TextSubmit { id, text: payload }) && id == a.id
                    && payload@ == a.user_text.text@
            } else {
                b == a && action is None
            }
        },
        _ => b == a && action is None,
    }
}

impl TextBox {
    /// React to one routed event, as [`spec_textbox_update`] prescribes.
    pub fn update(&mut self, event: &Event) -> (action: Option<Action>)
        ensures
            spec_textbox_update(*old(self), *event, *final(self), action),
    {
        match event {
            Event::TextInput { text } => {
                if self.has_on_text_changed {
                    let mut i: usize = 0;
                    let n = text.len();
                    while i < n
                        invariant
                            n == text@.len(),
                            i <= n,
                            spec_same_but_buffer(*old(self), *self),
                            self.input_buffer@ == old(self).input_buffer@ + text@.take(i as int),
                            self.has_on_text_changed,
                        decreases n - i,
                    {
                        let c = text[i];
                        self.input_buffer.push(c);
                        proof {
                            assert(self.input_buffer@ =~= old(self).input_buffer@ + text@.take(
                                i + 1,
                            ));
                        }
                        i = i + 1;
                    }
                    proof {
                        assert(self.input_buffer@ =~= old(self).input_buffer@ + text@);
                    }
                    let mut payload = chars_of(self.user_text.text.as_str());
                    let mut buffered = self.input_buffer.clone();
                    payload.append(&mut buffered);
                    Some(Action::TextChanged { id: self.id, text: payload })
                } else {
                    None
                }
            }
            Event::KeyDown { key: Key::Backspace } => {
                if self.has_on_text_changed {
                    let popped = self.input_buffer.pop();
                    let payload: Vec<char> = if popped.is_some() {
                        let mut p = chars_of(self.user_text.text.as_str());
                        let mut buffered = self.input_buffer.clone();
                        p.append(&mut buffered);
                        p
                    } else {
                        let mut p = chars_of(self.user_text.text.as_str());
                        if p.len() > 0 {
                            p.pop();
                        }
                        p
                    };
                    Some(Action::TextChanged { id: self.id, text: payload })
                } else {
                    None
                }
            }
            Event::KeyDown { key: Key::Return } | Event::KeyDown { key: Key::KeypadEnter } => {
                if self.has_on_text_submit {
                    let payload = chars_of(self.user_text.text.as_str());
                    Some(Action::TextSubmit { id: self.id, text: payload })
                } else {
                    None
                }
            }
            _ => None,
        }
    }
}

} // verus!
