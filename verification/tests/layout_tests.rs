//! Layout scenarios: stacking, sizing identities, alignment.

use rust_ui::views::view::{ViewComponent, ViewKind, ViewNode};
use rust_ui::widgets::button::Button;
use rust_ui::widgets::widget::Widget;
use rust_ui::geometry::{Alignment, Orientation, Rect};
use rust_ui::views::divider::{Decoration, Divider};

fn three_buttons() -> Vec<ViewComponent> {
    vec![
        ViewComponent::Widget(Widget::Button(Button::new(1))),
        ViewComponent::Widget(Widget::Button(Button::new(2))),
        ViewComponent::Widget(Widget::Button(Button::new(3))),
    ]
}

fn widget_rect(c: &ViewComponent) -> Rect {
    match c {
        ViewComponent::Widget(w) => w.rect(),
        _ => panic!("not a widget"),
    }
}

#[test]
fn vstack_of_three_buttons_is_160_tall() {
    // three 40-tall buttons, spacing 10, padding 10:
    // 3 * 40 + 2 * 10 + 2 * 10 = 160
    let mut v = ViewNode::vstack(three_buttons());
    v.layout_at(0, 0);
    assert_eq!(v.draw_height(), 160);
    assert_eq!(v.draw_width(), 120);
    assert_eq!(v.view_size(), (120, 160));
}

#[test]
fn vstack_children_are_stacked_top_to_bottom() {
    let mut v = ViewNode::vstack(three_buttons());
    v.layout_at(0, 0);
    let ys: Vec<i32> = v.components.iter().map(|c| widget_rect(c).y).collect();
    assert_eq!(ys, vec![10, 60, 110]);
}

#[test]
fn empty_vstack_is_padding_only() {
    let mut v = ViewNode::vstack(Vec::new());
    v.layout_at(0, 0);
    assert_eq!(v.view_size(), (20, 20));
}

#[test]
fn hstack_width_identity() {
    // three 100-wide buttons, spacing 10, padding 10:
    // 3 * 100 + 2 * 10 + 2 * 10 = 340; height = 40 + 2 * 10 = 60
    let mut h = ViewNode::hstack(three_buttons());
    h.layout_at(0, 0);
    assert_eq!(h.draw_width(), 340);
    assert_eq!(h.draw_height(), 60);
}

#[test]
fn hstack_height_is_max_child_height_plus_padding() {
    let tall = Button::new(7).with_height(90);
    let comps = vec![
        ViewComponent::Widget(Widget::Button(Button::new(1))),
        ViewComponent::Widget(Widget::Button(tall)),
    ];
    let mut h = ViewNode::hstack(comps);
    h.layout_at(0, 0);
    assert_eq!(h.draw_height(), 90 + 20);
}

#[test]
fn center_alignment_centers_buttons() {
    let mut v = ViewNode::vstack(three_buttons());
    v.layout_at(0, 0);
    v.align();
    // width 120, button width 100: x = 120 / 2 - 100 / 2 = 10
    for c in v.components.iter() {
        assert_eq!(widget_rect(c).x, 10);
    }
}

#[test]
fn align_twice_equals_align_once() {
    let wide = Button::new(9).with_width(300);
    let comps = vec![
        ViewComponent::Widget(Widget::Button(Button::new(1))),
        ViewComponent::Widget(Widget::Button(wide)),
    ];
    let mut v = ViewNode::vstack(comps).alignment(Alignment::Center);
    v.layout_at(5, 7);
    v.align();
    let once: Vec<Rect> = v.components.iter().map(widget_rect).collect();
    v.align();
    let twice: Vec<Rect> = v.components.iter().map(widget_rect).collect();
    assert_eq!(once, twice);
}

#[test]
fn right_alignment_flushes_to_the_right_edge() {
    let comps = vec![ViewComponent::Widget(Widget::Button(Button::new(1)))];
    let mut v = ViewNode::vstack(comps).alignment(Alignment::Right).fixed_width(200);
    v.layout_at(0, 0);
    v.align();
    // x = 200 - padding.right - 100 = 90
    assert_eq!(widget_rect(&v.components[0]).x, 90);
}

#[test]
fn nested_stack_moves_as_a_whole() {
    let inner = ViewNode::hstack(vec![ViewComponent::Widget(Widget::Button(Button::new(4)))]);
    let comps = vec![
        ViewComponent::Widget(Widget::Button(Button::new(1))),
        ViewComponent::View(Box::new(inner)),
    ];
    let mut v = ViewNode::vstack(comps).alignment(Alignment::Left);
    v.layout_at(0, 0);
    // inner hstack: width 100 + 20 = 120, height 40 + 20 = 60,
    // placed below the 40-tall button plus spacing
    match &v.components[1] {
        ViewComponent::View(sub) => {
            assert_eq!(sub.x, 10);
            assert_eq!(sub.y, 60);
            assert_eq!(sub.view_size(), (120, 60));
            assert_eq!(widget_rect(&sub.components[0]).y, 70);
        }
        _ => panic!("expected a nested view"),
    }
    assert_eq!(v.draw_height(), 40 + 10 + 60 + 20);
}

#[test]
fn fixed_size_short_circuits_parent_sizing() {
    let inner = ViewNode::hstack(vec![ViewComponent::Widget(Widget::Button(Button::new(4)))])
        .fixed_size(30, 20);
    let comps = vec![ViewComponent::View(Box::new(inner))];
    let mut v = ViewNode::vstack(comps);
    v.layout_at(0, 0);
    // the parent sees the assigned 30 x 20, not the intrinsic 120 x 60
    assert_eq!(v.view_size(), (30 + 20, 20 + 20));
}

#[test]
fn divider_takes_part_in_stacking() {
    let comps = vec![
        ViewComponent::Widget(Widget::Button(Button::new(1))),
        ViewComponent::Decoration(Decoration::Divider(Divider::new(Orientation::Horizontal))),
        ViewComponent::Widget(Widget::Button(Button::new(2))),
    ];
    let mut v = ViewNode::vstack(comps);
    v.layout_at(0, 0);
    // divider extent: 20 + 20 + 4 = 44
    assert_eq!(v.draw_height(), 40 + 10 + 44 + 10 + 40 + 20);
    let second_y = widget_rect(&v.components[2]).y;
    assert_eq!(second_y, 10 + 40 + 10 + 44 + 10);
}

#[test]
fn translate_moves_every_frame() {
    let mut v = ViewNode::vstack(three_buttons());
    v.layout_at(0, 0);
    let before: Vec<Rect> = v.components.iter().map(widget_rect).collect();
    v.translate(13, -7);
    assert_eq!(v.x, 13);
    assert_eq!(v.y, -7);
    for (b, c) in before.iter().zip(v.components.iter()) {
        let after = widget_rect(c);
        assert_eq!(after.x, b.x + 13);
        assert_eq!(after.y, b.y - 7);
        assert_eq!(after.width, b.width);
    }
}

#[test]
fn rect_translate_round_trips() {
    let r = Rect::new(12, -9, 30, 40);
    let back = r.translate(100, 200).translate(-100, -200);
    assert_eq!(back, r);
}

#[test]
fn overlay_flattens_with_a_backdrop_first() {
    let content = ViewNode::vstack(vec![ViewComponent::Widget(Widget::Button(Button::new(5)))]);
    let mut root = ViewNode::vstack(vec![ViewComponent::Widget(Widget::Button(Button::new(1)))]);
    let ov = ViewNode::overlay(vec![ViewComponent::View(Box::new(content))]);
    root.push_overlay(ov);
    root.layout_at(0, 0);
    let (widgets, decorations) = root.flatten();
    let ids: Vec<u32> = widgets.iter().map(|w| w.id()).collect();
    assert_eq!(ids, vec![1, 5]);
    assert_eq!(decorations.len(), 1);
    match &decorations[0] {
        Decoration::Backdrop(b) => {
            assert_eq!(b.color.a, 180);
        }
        _ => panic!("expected the overlay backdrop"),
    }
}
