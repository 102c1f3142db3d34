//! Widget-level behavior: builders, measurement, render commands and the
//! pixel/value maps.

use rust_ui::color::Color;
use rust_ui::commands::DrawCmd;
use rust_ui::geometry::Rect;
use rust_ui::widgets::button::Button;
use rust_ui::widgets::checkbox::CheckBox;
use rust_ui::widgets::image::Image;
use rust_ui::widgets::scrollbar::ScrollBar;
use rust_ui::widgets::text::Text;
use rust_ui::widgets::textbox::{chars_of, TextBox};
use rust_ui::widgets::widget::{Widget, WidgetState};

#[test]
fn button_builders_configure_the_face() {
    let b = Button::new(1)
        .with_text("go")
        .with_dimensions(80, 30)
        .with_base_color(Color::rgb(1, 2, 3))
        .with_hover_color(Color::rgb(4, 5, 6))
        .with_click_color(Color::rgb(7, 8, 9))
        .with_on_click();
    assert_eq!(b.rect, Rect { x: 0, y: 0, width: 80, height: 30 });
    assert!(b.has_on_click);
    assert_eq!(b.text.as_ref().unwrap().text, "go");
    assert!(b.text.as_ref().unwrap().center_text);
}

#[test]
fn button_renders_face_then_label() {
    let mut b = Button::new(1).with_text("go");
    b.place(10, 20);
    b.assign_text_dimensions((30, 12));
    let cmds = b.render(WidgetState::Hovering);
    assert_eq!(cmds.len(), 2);
    assert_eq!(
        cmds[0],
        DrawCmd::FillRect {
            rect: Rect { x: 10, y: 20, width: 100, height: 40 },
            color: Color::rgb(200, 200, 200),
        }
    );
    match &cmds[1] {
        DrawCmd::DrawText { text, target, .. } => {
            assert_eq!(text, "go");
            // centered in the face: x = 10 + 50 - 15, y = 20 + (40 - 12) / 2
            assert_eq!(*target, Rect { x: 45, y: 34, width: 30, height: 12 });
        }
        _ => panic!("expected the label"),
    }
}

#[test]
fn checkbox_widens_to_fit_its_label() {
    let mut c = CheckBox::new(2, false).with_text("Lock");
    c.assign_text_dimensions((44, 18));
    // toggle square 20 + gap 10 + label 44
    assert_eq!(c.rect.width, 74);
    let cmds = c.render(WidgetState::Base);
    // unchecked: the square and the label only
    assert_eq!(cmds.len(), 2);
    let checked = c.check();
    let cmds2 = checked.render(WidgetState::Base);
    assert_eq!(cmds2.len(), 3);
    assert_eq!(
        cmds2[1],
        DrawCmd::FillRect {
            rect: Rect { x: 4, y: 14, width: 12, height: 12 },
            color: Color::rgb(80, 80, 80),
        }
    );
}

#[test]
fn text_fits_and_centers_within_a_container() {
    let mut t = Text::new(0, "wide");
    t.assign_text_dimensions((200, 20));
    let fitted = t.fit_and_center_within_container(&Rect { x: 0, y: 0, width: 110, height: 40 });
    // constraints 100 x 30; too wide, so 200 x 20 scales to 100 x 15,
    // centered at ((110 - 100) / 2, (40 - 15) / 2)
    assert_eq!(fitted, Rect { x: 5, y: 12, width: 100, height: 15 });
}

#[test]
fn text_that_fits_is_kept_as_measured() {
    let mut t = Text::new(0, "small");
    t.assign_text_dimensions((40, 10));
    let fitted = t.fit_and_center_within_container(&Rect { x: 0, y: 0, width: 110, height: 40 });
    assert_eq!(fitted, Rect { x: 35, y: 15, width: 40, height: 10 });
}

#[test]
fn scrollbar_maps_pixels_to_values_and_back() {
    let sb = ScrollBar::new(3, 0, 10, 0).with_length(200);
    assert_eq!(sb.pixel_to_value(100), 5);
    assert_eq!(sb.pixel_to_value(-50), 0);
    assert_eq!(sb.pixel_to_value(1000), 10);
    assert_eq!(sb.value_to_pixel(5), 100);
    assert_eq!(sb.value_to_pixel(10), 200);
}

#[test]
fn scrollbar_handles_negative_ranges() {
    let sb = ScrollBar::new(3, -10, 10, 0).with_length(100);
    assert_eq!(sb.pixel_to_value(25), 5);
    assert_eq!(sb.pixel_to_value(-25), -5);
    assert_eq!(sb.value_to_pixel(-10), -50);
}

#[test]
fn image_renders_border_or_shade() {
    let mut img = Image::new(4, "./res/picture.bmp", (100, 80));
    img.place(50, 50);
    let base = img.render(WidgetState::Base);
    assert_eq!(
        base,
        vec![DrawCmd::DrawImage {
            resource: "./res/picture.bmp",
            target: Rect { x: 50, y: 50, width: 100, height: 80 },
        }]
    );
    let hovered = img.render(WidgetState::Hovering);
    assert_eq!(hovered.len(), 2);
    assert_eq!(
        hovered[0],
        DrawCmd::FillRect {
            rect: Rect { x: 44, y: 44, width: 112, height: 92 },
            color: Color::rgb(40, 40, 80),
        }
    );
    let mut shaded = Image::new(4, "./res/picture.bmp", (100, 80)).with_hover_shade();
    shaded.place(50, 50);
    let cmds = shaded.render(WidgetState::Active);
    assert_eq!(cmds.len(), 2);
    assert_eq!(
        cmds[1],
        DrawCmd::FillRectBlended {
            rect: Rect { x: 50, y: 50, width: 100, height: 80 },
            color: Color::rgba(20, 20, 50, 160),
        }
    );
}

#[test]
fn textbox_renders_hint_until_focused() {
    let mut tb = TextBox::new(5, "").with_default_text("Number...");
    tb.place(0, 0);
    let unfocused = tb.render(WidgetState::Base);
    assert_eq!(unfocused.len(), 2);
    match &unfocused[1] {
        DrawCmd::DrawText { text, .. } => assert_eq!(text, "Number..."),
        _ => panic!("expected the hint"),
    }
    let focused = tb.render(WidgetState::Focused);
    // face and caret, no hint
    assert_eq!(focused.len(), 2);
    assert_eq!(
        focused[0],
        DrawCmd::FillRect {
            rect: Rect { x: 0, y: 0, width: 100, height: 40 },
            color: Color::rgb(255, 255, 255),
        }
    );
    match &focused[1] {
        DrawCmd::FillRect { rect, .. } => {
            assert_eq!(*rect, Rect { x: 1, y: 10, width: 3, height: 20 });
        }
        _ => panic!("expected the caret"),
    }
}

#[test]
fn chars_of_reads_the_string() {
    assert_eq!(chars_of("abc"), vec!['a', 'b', 'c']);
    assert_eq!(chars_of(""), Vec::<char>::new());
}

#[test]
fn widget_dispatch_reports_geometry() {
    let mut w = Widget::Button(Button::new(9));
    assert_eq!(w.id(), 9);
    assert_eq!(w.draw_width(), 100);
    assert_eq!(w.draw_height(), 40);
    assert!(!w.can_focus());
    w.place(7, 8);
    assert_eq!(w.rect(), Rect { x: 7, y: 8, width: 100, height: 40 });
    w.translate(-2, 2);
    assert_eq!(w.rect(), Rect { x: 5, y: 10, width: 100, height: 40 });
}
