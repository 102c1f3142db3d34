//! Event-routing scenarios: hover, click, focus, and the widget hooks.

use rust_ui::events::{Action, ApplicationState, Event, Key, PointerButton};
use rust_ui::router::{handle_event, widget_render_state};
use rust_ui::views::view::{ViewComponent, ViewNode};
use rust_ui::widgets::button::Button;
use rust_ui::widgets::checkbox::CheckBox;
use rust_ui::widgets::scrollbar::ScrollBar;
use rust_ui::widgets::textbox::TextBox;
use rust_ui::widgets::widget::{Widget, WidgetState};

fn down(x: i32, y: i32) -> Event {
    Event::PointerDown { button: PointerButton::Primary, x, y }
}

fn up(x: i32, y: i32) -> Event {
    Event::PointerUp { button: PointerButton::Primary, x, y }
}

fn mv(x: i32, y: i32) -> Event {
    Event::PointerMove { x, y }
}

/// A laid-out vertical stack of three buttons with click callbacks.
fn three_button_column() -> Vec<Widget> {
    let mut v = ViewNode::vstack(vec![
        ViewComponent::Widget(Widget::Button(Button::new(1).with_on_click())),
        ViewComponent::Widget(Widget::Button(Button::new(2).with_on_click())),
        ViewComponent::Widget(Widget::Button(Button::new(3).with_on_click())),
    ]);
    v.layout_at(0, 0);
    v.align();
    let (widgets, _) = v.flatten();
    widgets
}

#[test]
fn press_release_clicks_the_middle_button_once() {
    // buttons sit at y = 10, 60, 110, x = 10, each 100 x 40
    let mut widgets = three_button_column();
    let mut state = ApplicationState::new();
    let (q1, a1) = handle_event(&mut state, &mut widgets, &mv(50, 70));
    assert!(!q1 && a1.is_empty());
    assert_eq!(state.hovering, Some(2));
    let (q2, a2) = handle_event(&mut state, &mut widgets, &down(50, 70));
    assert!(!q2 && a2.is_empty());
    assert_eq!(state.clicking, Some(2));
    assert_eq!(state.hovering, None);
    assert_eq!(state.focused, None);
    let (q3, a3) = handle_event(&mut state, &mut widgets, &up(50, 70));
    assert!(!q3);
    assert_eq!(a3, vec![Action::Click { id: 2 }]);
    assert_eq!(state.clicking, None);
    assert_eq!(state.hovering, Some(2));
}

#[test]
fn release_outside_invokes_nothing() {
    let mut widgets = three_button_column();
    let mut state = ApplicationState::new();
    handle_event(&mut state, &mut widgets, &mv(50, 70));
    handle_event(&mut state, &mut widgets, &down(50, 70));
    let (_, acts) = handle_event(&mut state, &mut widgets, &up(500, 500));
    assert!(acts.is_empty());
    assert_eq!(state.clicking, None);
}

#[test]
fn topmost_overlapping_widget_wins() {
    // two buttons sharing (5, 5); the one added second is drawn on top
    let a = Button::new(10).with_dimensions(50, 50);
    let mut b = Button::new(20).with_dimensions(50, 50);
    b.place(0, 0);
    let mut widgets = vec![Widget::Button(a), Widget::Button(b)];
    let mut state = ApplicationState::new();
    handle_event(&mut state, &mut widgets, &mv(5, 5));
    assert_eq!(state.hovering, Some(20));
    handle_event(&mut state, &mut widgets, &down(5, 5));
    assert_eq!(state.clicking, Some(20));
}

#[test]
fn focus_follows_capability() {
    // a textbox grabs focus; a button clears it; empty space clears it
    let mut tb = TextBox::new(7, "");
    tb.place(0, 0);
    let mut button = Button::new(8);
    button.place(0, 100);
    let mut widgets = vec![Widget::TextBox(tb), Widget::Button(button)];
    let mut state = ApplicationState::new();

    handle_event(&mut state, &mut widgets, &mv(5, 5));
    handle_event(&mut state, &mut widgets, &down(5, 5));
    assert_eq!(state.focused, Some(7));

    handle_event(&mut state, &mut widgets, &up(5, 5));
    handle_event(&mut state, &mut widgets, &mv(5, 110));
    handle_event(&mut state, &mut widgets, &down(5, 110));
    assert_eq!(state.focused, None);

    handle_event(&mut state, &mut widgets, &up(5, 110));
    handle_event(&mut state, &mut widgets, &mv(5, 5));
    handle_event(&mut state, &mut widgets, &down(5, 5));
    assert_eq!(state.focused, Some(7));
    handle_event(&mut state, &mut widgets, &up(5, 5));
    handle_event(&mut state, &mut widgets, &down(500, 500));
    assert_eq!(state.focused, None);
}

#[test]
fn checkbox_cycle_toggles_and_reports_once() {
    let mut cb = CheckBox::new(5, false).with_on_check();
    cb.place(0, 0);
    let mut widgets = vec![Widget::CheckBox(cb)];
    let mut state = ApplicationState::new();

    handle_event(&mut state, &mut widgets, &mv(5, 5));
    handle_event(&mut state, &mut widgets, &down(5, 5));
    let (_, acts) = handle_event(&mut state, &mut widgets, &up(5, 5));
    assert_eq!(acts, vec![Action::Check { id: 5, checked: true }]);
    match &widgets[0] {
        Widget::CheckBox(c) => assert!(c.is_checked),
        _ => unreachable!(),
    }

    handle_event(&mut state, &mut widgets, &down(5, 5));
    let (_, acts2) = handle_event(&mut state, &mut widgets, &up(5, 5));
    assert_eq!(acts2, vec![Action::Check { id: 5, checked: false }]);
    match &widgets[0] {
        Widget::CheckBox(c) => assert!(!c.is_checked),
        _ => unreachable!(),
    }
}

#[test]
fn escape_and_quit_end_the_loop() {
    let mut widgets = three_button_column();
    let mut state = ApplicationState::new();
    let (q1, a1) = handle_event(&mut state, &mut widgets, &Event::Quit);
    assert!(q1 && a1.is_empty());
    let (q2, _) = handle_event(
        &mut state,
        &mut widgets,
        &Event::KeyDown { key: Key::Escape },
    );
    assert!(q2);
    let (q3, _) = handle_event(
        &mut state,
        &mut widgets,
        &Event::KeyDown { key: Key::Other(42) },
    );
    assert!(!q3);
}

#[test]
fn clicked_scrollbar_follows_pointer_motion() {
    // rail from x = 0 to 200 mapping 0..=10; the pointer at x = 100 maps
    // to value 5, whose pixel is 100, so the 12-wide slider sits at 94
    let mut sb = ScrollBar::new(6, 0, 10, 0).with_length(200).with_on_value_changed();
    sb.place(0, 0);
    let mut widgets = vec![Widget::ScrollBar(sb)];
    let mut state = ApplicationState::new();
    // grab the slider (it is 12 x 16 at the rail's left end)
    handle_event(&mut state, &mut widgets, &mv(3, 0));
    handle_event(&mut state, &mut widgets, &down(3, 0));
    assert_eq!(state.clicking, Some(6));
    let (_, acts) = handle_event(&mut state, &mut widgets, &mv(100, 0));
    assert_eq!(acts, vec![Action::ValueChanged { id: 6, value: 5 }]);
    match &widgets[0] {
        Widget::ScrollBar(s) => {
            assert_eq!(s.value, 5);
            assert_eq!(s.slider.x, 94);
        }
        _ => unreachable!(),
    }
}

#[test]
fn focused_textbox_consumes_typing() {
    let mut tb = TextBox::new(9, "ab").with_on_text_changed().with_on_text_submit();
    tb.place(0, 0);
    let mut widgets = vec![Widget::TextBox(tb)];
    let mut state = ApplicationState::new();
    handle_event(&mut state, &mut widgets, &mv(5, 5));
    handle_event(&mut state, &mut widgets, &down(5, 5));
    handle_event(&mut state, &mut widgets, &up(5, 5));
    assert_eq!(state.focused, Some(9));

    let (_, a1) = handle_event(
        &mut state,
        &mut widgets,
        &Event::TextInput { text: vec!['c'] },
    );
    assert_eq!(a1, vec![Action::TextChanged { id: 9, text: vec!['a', 'b', 'c'] }]);

    let (_, a2) = handle_event(
        &mut state,
        &mut widgets,
        &Event::KeyDown { key: Key::Backspace },
    );
    assert_eq!(a2, vec![Action::TextChanged { id: 9, text: vec!['a', 'b'] }]);

    let (_, a3) = handle_event(
        &mut state,
        &mut widgets,
        &Event::KeyDown { key: Key::Backspace },
    );
    assert_eq!(a3, vec![Action::TextChanged { id: 9, text: vec!['a'] }]);

    let (_, a4) = handle_event(
        &mut state,
        &mut widgets,
        &Event::KeyDown { key: Key::Return },
    );
    assert_eq!(a4, vec![Action::TextSubmit { id: 9, text: vec!['a', 'b'] }]);
}

#[test]
fn render_state_prefers_focus_over_activity_over_hover() {
    let s = ApplicationState { hovering: Some(1), clicking: Some(2), focused: Some(3) };
    assert_eq!(widget_render_state(&s, 3), WidgetState::Focused);
    assert_eq!(widget_render_state(&s, 2), WidgetState::Active);
    assert_eq!(widget_render_state(&s, 1), WidgetState::Hovering);
    assert_eq!(widget_render_state(&s, 4), WidgetState::Base);
}
