//! Component plumbing: fonts, colors, text configuration, view builders
//! and the view-local traversal.

use rust_ui::color::Color;
use rust_ui::events::ApplicationState;
use rust_ui::font::FontParams;
use rust_ui::geometry::{Padding, Rect};
use rust_ui::views::view::{ViewComponent, ViewNode};
use rust_ui::widgets::button::Button;
use rust_ui::widgets::text::Text;
use rust_ui::widgets::widget::Widget;

#[test]
fn font_params_carry_path_and_size() {
    let f = FontParams::new("./res/font/SomeFont.ttf", 14);
    assert_eq!(f.path, "./res/font/SomeFont.ttf");
    assert_eq!(f.point_size, 14);
    assert_eq!(FontParams::default_font().point_size, 20);
    assert_eq!(f, FontParams::new("./res/font/SomeFont.ttf", 14));
}

#[test]
fn palette_colors_are_opaque() {
    assert_eq!(Color::black(), Color { r: 0, g: 0, b: 0, a: 0xff });
    assert_eq!(Color::manilla(), Color { r: 240, g: 240, b: 200, a: 0xff });
    assert_eq!(Color::rgba(1, 2, 3, 4).a, 4);
}

#[test]
fn text_builders_configure_the_component() {
    let t = Text::new(3, "hello")
        .with_rgb(10, 20, 30)
        .center()
        .auto_resize()
        .with_text_update();
    assert_eq!(t.text, "hello");
    assert_eq!(t.color, Color { r: 10, g: 20, b: 30, a: 0xff });
    assert!(t.center_text && t.auto_resize && t.has_text_update);
    assert_eq!(t.font.point_size, 20);
}

#[test]
fn view_builders_configure_padding_and_spacing() {
    let v = ViewNode::vstack(Vec::new()).padding(1, 2, 3, 4).with_spacing(7);
    assert_eq!(v.padding, Padding { left: 1, right: 2, top: 3, bottom: 4 });
    assert_eq!(v.spacing, 7);
    let mut laid = ViewNode::vstack(vec![
        ViewComponent::Widget(Widget::Button(Button::new(1))),
        ViewComponent::Widget(Widget::Button(Button::new(2))),
    ])
    .padding(0, 0, 5, 5)
    .with_spacing(3);
    laid.layout_at(0, 0);
    // heights 40 + 40, one 3-wide gap, paddings 5 + 5
    assert_eq!(laid.draw_height(), 93);
}

#[test]
fn widgets_returns_direct_children_only() {
    let inner = ViewNode::hstack(vec![ViewComponent::Widget(Widget::Button(Button::new(9)))]);
    let v = ViewNode::vstack(vec![
        ViewComponent::Widget(Widget::Button(Button::new(1))),
        ViewComponent::View(Box::new(inner)),
        ViewComponent::Widget(Widget::Button(Button::new(2))),
    ]);
    let direct: Vec<u32> = v.widgets().iter().map(|w| w.id()).collect();
    assert_eq!(direct, vec![1, 2]);
}

#[test]
fn interaction_state_starts_idle() {
    let s = ApplicationState::new();
    assert_eq!(s.hovering, None);
    assert_eq!(s.clicking, None);
    assert_eq!(s.focused, None);
}

#[test]
fn padding_and_rect_constructors() {
    let p = Padding::new(9, 8, 7, 6);
    assert_eq!((p.left, p.right, p.top, p.bottom), (9, 8, 7, 6));
    let r = Rect::new(1, 2, 3, 4);
    assert!(r.contains(1, 2));
    assert!(r.contains(3, 5));
    assert!(!r.contains(4, 2));
    assert!(!r.contains(1, 6));
}
