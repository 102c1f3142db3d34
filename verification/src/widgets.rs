//! Widgets: the leaf elements of the component tree.

pub mod button;
pub mod checkbox;
pub mod image;
pub mod scrollbar;
pub mod text;
pub mod textbox;
pub mod widget;
