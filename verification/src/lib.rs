//! A declarative GUI toolkit core: views and widgets are composed into a
//! tree, a two-pass layout engine sizes and positions every node, and an
//! event router dispatches pointer and keyboard input to the right widget
//! while tracking hover, click and focus state.
//!
//! Windowing, font rasterisation, image decoding and raw input polling are
//! outside collaborators: the library works on plain values (measured text
//! sizes come in, draw commands and callback actions go out).

pub mod color;
pub mod commands;
pub mod events;
pub mod font;
pub mod geometry;
pub mod laws;
pub mod router;
pub mod views;
pub mod widgets;

pub use color::Color;
pub use commands::DrawCmd;
pub use events::{Action, ApplicationState, Event, Key, PointerButton};
pub use font::FontParams;
pub use geometry::{Alignment, Orientation, Padding, Rect};
pub use router::{handle_event, widget_render_state};
pub use views::divider::{Backdrop, Decoration, Divider};
pub use views::view::{GenerateView, ViewComponent, ViewKind, ViewNode};
pub use widgets::button::Button;
pub use widgets::checkbox::CheckBox;
pub use widgets::image::Image;
pub use widgets::scrollbar::ScrollBar;
pub use widgets::text::Text;
pub use widgets::textbox::TextBox;
pub use widgets::widget::{Widget, WidgetState};
