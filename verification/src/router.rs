//! The event router: drives the interaction state machine over the
//! flattened widget list, in z-order. Later widgets are drawn on top, so a
//! later geometric hit overrides an earlier one. Every transition is
//! specified by [`route_rel`].
//!
//! Routing presumes unique widget ids; the engine asks for them rather
//! than leaving collisions to pick an arbitrary target.

use vstd::prelude::*;
use crate::events::{Action, ApplicationState, Event, Key, PointerButton};
use crate::widgets::widget::{Widget, WidgetState};

verus! {

/// Every widget carries a different id.
pub open spec fn unique_ids(ws: Seq<Widget>) -> bool {
    forall|i: int, j: int|
        0 <= i < ws.len() && 0 <= j < ws.len() && i != j ==> (#[trigger] ws[i]).spec_id() != (
        #[trigger] ws[j]).spec_id()
}

/// Every widget meets the router's assumptions.
pub open spec fn all_wf(ws: Seq<Widget>) -> bool {
    forall|i: int| 0 <= i < ws.len() ==> (#[trigger] ws[i]).wf()
}

/// The id the pointer hovers after a scan: the topmost (latest) widget
/// whose frame contains the point and which is not the one being clicked.
pub open spec fn hover_scan(ws: Seq<Widget>, clicking: Option<u32>, x: int, y: int) -> Option<
    u32,
>
    decreases ws,
{
    if ws.len() == 0 {
        None
    } else {
        let w = ws.last();
        if w.spec_rect().spec_contains(x, y) && clicking != Some(w.spec_id()) {
            Some(w.spec_id())
        } else {
            hover_scan(ws.drop_last(), clicking, x, y)
        }
    }
}

/// Whether any widget's frame contains the point.
pub open spec fn any_hit(ws: Seq<Widget>, x: int, y: int) -> bool {
    exists|i: int| 0 <= i < ws.len() && (#[trigger] ws[i]).spec_rect().spec_contains(x, y)
}

/// Whether the widget with this id is hit by the point.
pub open spec fn hit_id(ws: Seq<Widget>, id: u32, x: int, y: int) -> bool {
    exists|i: int|
        0 <= i < ws.len() && (#[trigger] ws[i]).spec_id() == id
            && ws[i].spec_rect().spec_contains(x, y)
}

/// Whether the widget with this id grabs focus when clicked.
pub open spec fn can_focus_id(ws: Seq<Widget>, id: u32) -> bool {
    exists|i: int| 0 <= i < ws.len() && (#[trigger] ws[i]).spec_id() == id && ws[i].spec_can_focus()
}

/// The first index holding the widget with this id.
pub open spec fn first_id_index(ws: Seq<Widget>, id: u32) -> Option<int>
    decreases ws,
{
    if ws.len() == 0 {
        None
    } else if ws.first().spec_id() == id {
        Some(0)
    } else {
        match first_id_index(ws.drop_first(), id) {
            Some(i) => Some(i + 1),
            None => None,
        }
    }
}

pub proof fn lemma_first_id_index(ws: Seq<Widget>, id: u32)
    ensures
        first_id_index(ws, id) matches Some(k) ==> 0 <= k < ws.len() && ws[k].spec_id() == id
            && (forall|j: int| 0 <= j < k ==> (#[trigger] ws[j]).spec_id() != id),
        first_id_index(ws, id) is None ==> forall|j: int|
            0 <= j < ws.len() ==> (#[trigger] ws[j]).spec_id() != id,
    decreases ws,
{
    if ws.len() > 0 && ws.first().spec_id() != id {
        lemma_first_id_index(ws.drop_first(), id);
        assert(forall|j: int|
            0 <= j < ws.len() - 1 ==> #[trigger] ws.drop_first()[j] == ws[j + 1]);
        assert(forall|j: int| 1 <= j < ws.len() ==> (#[trigger] ws[j]) == ws.drop_first()[j - 1]);
    }
}

/// An escape key press or a window-close request ends the frame loop.
pub open spec fn spec_quit(e: Event) -> bool {
    ||| e is Quit
    ||| e matches Event::KeyDown { key: Key::Escape }
}

/// Where an event is routed before generic handling: to the focused
/// widget, else to the one being clicked.
pub open spec fn spec_update_target(s: ApplicationState) -> Option<u32> {
    if s.focused is Some {
        s.focused
    } else {
        s.clicking
    }
}

/// The update-routing phase: the raw event goes to the targeted widget's
/// update hook, which may mutate it and report one action; everything else
/// is untouched.
pub open spec fn update_phase(
    s: ApplicationState,
    ws: Seq<Widget>,
    e: Event,
    ws1: Seq<Widget>,
    act: Option<Action>,
) -> bool {
    match spec_update_target(s) {
        Some(t) => match first_id_index(ws, t) {
            Some(k) => Widget::spec_update(ws[k], e, ws1[k], act) && ws1 == ws.update(k, ws1[k]),
            None => ws1 == ws && act is None,
        },
        None => ws1 == ws && act is None,
    }
}

/// A pointer move: the hover is recomputed by a full scan, so the topmost
/// hit wins and a pressed widget is skipped.
pub open spec fn move_phase(s: ApplicationState, ws: Seq<Widget>, x: int, y: int) -> ApplicationState {
    ApplicationState { hovering: hover_scan(ws, s.clicking, x, y), ..s }
}

/// A primary-button press: the hovered widget, if the pointer is on it, is
/// promoted to clicking and takes or clears focus by its capability;
/// pressing on empty space clears focus.
pub open spec fn down_phase(s: ApplicationState, ws: Seq<Widget>, x: int, y: int) -> ApplicationState {
    if s.hovering matches Some(h) && hit_id(ws, h, x, y) {
        ApplicationState {
            hovering: None,
            clicking: Some(s.hovering->0),
            focused: if can_focus_id(ws, s.hovering->0) {
                Some(s.hovering->0)
            } else {
                None
            },
        }
    } else {
        ApplicationState {
            clicking: None,
            focused: if any_hit(ws, x, y) {
                s.focused
            } else {
                None
            },
            ..s
        }
    }
}

/// A primary-button release while a widget is being clicked: if the
/// pointer is still on that widget its click callback runs, the topmost
/// widget under the pointer becomes hovered, and the click ends.
pub open spec fn up_phase(
    s: ApplicationState,
    ws: Seq<Widget>,
    x: int,
    y: int,
    s2: ApplicationState,
    ws2: Seq<Widget>,
    acts: Seq<Action>,
) -> bool {
    if s.clicking is Some {
        let a = s.clicking->0;
        &&& s2 == (ApplicationState {
            clicking: None,
            hovering: (if any_hit(ws, x, y) {
                hover_scan(ws, None, x, y)
            } else {
                s.hovering
            }),
            ..s
        })
        &&& (if hit_id(ws, a, x, y) {
            &&& first_id_index(ws, a) matches Some(k) && ws2 == ws.update(
                k,
                ws[k].spec_after_click(),
            ) && acts == (match ws[k].spec_click_action() {
                Some(act) => seq![act],
                None => Seq::<Action>::empty(),
            })
        } else {
            ws2 == ws && acts == Seq::<Action>::empty()
        })
    } else {
        s2 == s && ws2 == ws && acts == Seq::<Action>::empty()
    }
}

pub open spec fn act_seq(a: Option<Action>) -> Seq<Action> {
    match a {
        Some(act) => seq![act],
        None => Seq::empty(),
    }
}

/// Exactly what one routed event does: a quit signal ends the loop and
/// changes nothing; any other event is first routed to the focused (else
/// clicked) widget's update hook, and then handled generically — hover
/// rescan on pointer moves, promotion on presses, callback and release on
/// primary-button releases.
pub open spec fn route_rel(
    s: ApplicationState,
    ws: Seq<Widget>,
    e: Event,
    s2: ApplicationState,
    ws2: Seq<Widget>,
    quit: bool,
    acts: Seq<Action>,
) -> bool {
    if spec_quit(e) {
        quit && s2 == s && ws2 == ws && acts == Seq::<Action>::empty()
    } else {
        &&& !quit
        &&& exists|ws1: Seq<Widget>, act1: Option<Action>|
            {
                &&& #[trigger] update_phase(s, ws, e, ws1, act1)
                &&& (match e {
                    Event::PointerMove { x, y } => s2 == move_phase(s, ws1, x as int, y as int)
                        && ws2 == ws1 && acts == act_seq(act1),
                    Event::PointerDown { button: PointerButton::Primary, x, y } => s2
                        == down_phase(s, ws1, x as int, y as int) && ws2 == ws1 && acts == act_seq(
                        act1,
                    ),
                    Event::PointerUp { button: PointerButton::Primary, x, y } => exists|
                        acts2: Seq<Action>,
                    |
                        #[trigger] up_phase(s, ws1, x as int, y as int, s2, ws2, acts2) && acts
                            == act_seq(act1) + acts2,
                    _ => s2 == s && ws2 == ws1 && acts == act_seq(act1),
                })
            }
    }
}

/// Find the first widget carrying this id.
fn find_first_id(widgets: &Vec<Widget>, id: u32) -> (o: Option<usize>)
    ensures
        o matches Some(k) ==> first_id_index(widgets@, id) == Some(k as int),
        o is None ==> first_id_index(widgets@, id) is None,
{
    let n = widgets.len();
    let mut i: usize = 0;
    while i < n
        invariant
            i <= n,
            n == widgets@.len(),
            forall|j: int| 0 <= j < i ==> (#[trigger] widgets@[j]).spec_id() != id,
        decreases n - i,
    {
        if widgets[i].id() == id {
            proof {
                lemma_first_id_index_from_prefix(widgets@, id, i as int);
            }
            return Some(i);
        }
        i = i + 1;
    }
    proof {
        lemma_first_id_index(widgets@, id);
        if first_id_index(widgets@, id) is Some {
            let k = first_id_index(widgets@, id)->0;
            assert(widgets@[k].spec_id() == id);
        }
    }
    None
}

/// When everything before `k` misses the id and `k` carries it, `k` is the
/// first index.
proof fn lemma_first_id_index_from_prefix(ws: Seq<Widget>, id: u32, k: int)
    requires
        0 <= k < ws.len(),
        ws[k].spec_id() == id,
        forall|j: int| 0 <= j < k ==> (#[trigger] ws[j]).spec_id() != id,
    ensures
        first_id_index(ws, id) == Some(k),
    decreases ws,
{
    if k > 0 {
        assert(forall|j: int|
            0 <= j < ws.len() - 1 ==> #[trigger] ws.drop_first()[j] == ws[j + 1]);
        lemma_first_id_index_from_prefix(ws.drop_first(), id, k - 1);
    }
}

/// The topmost widget under the pointer, skipping the one being clicked.
fn scan_hover(widgets: &Vec<Widget>, clicking: Option<u32>, x: i32, y: i32) -> (h: Option<u32>)
    ensures
        h == hover_scan(widgets@, clicking, x as int, y as int),
{
    let n = widgets.len();
    let mut h: Option<u32> = None;
    proof {
        assert(widgets@.take(0) =~= Seq::<Widget>::empty());
    }
    let mut i: usize = 0;
    while i < n
        invariant
            i <= n,
            n == widgets@.len(),
            h == hover_scan(widgets@.take(i as int), clicking, x as int, y as int),
        decreases n - i,
    {
        proof {
            assert(widgets@.take(i + 1).drop_last() =~= widgets@.take(i as int));
            assert(widgets@.take(i + 1).last() == widgets@[i as int]);
        }
        let wid = widgets[i].id();
        let skip = match clicking {
            Some(c) => c == wid,
            None => false,
        };
        if widgets[i].rect().contains(x, y) && !skip {
            h = Some(wid);
        }
        i = i + 1;
    }
    proof {
        assert(widgets@.take(n as int) =~= widgets@);
    }
    h
}

/// Whether any widget is under the pointer.
fn scan_any_hit(widgets: &Vec<Widget>, x: i32, y: i32) -> (b: bool)
    ensures
        b == any_hit(widgets@, x as int, y as int),
{
    let n = widgets.len();
    let mut i: usize = 0;
    while i < n
        invariant
            i <= n,
            n == widgets@.len(),
            forall|j: int|
                0 <= j < i ==> !(#[trigger] widgets@[j]).spec_rect().spec_contains(
                    x as int,
                    y as int,
                ),
        decreases n - i,
    {
        if widgets[i].rect().contains(x, y) {
            return true;
        }
        i = i + 1;
    }
    false
}

/// Whether some widget with this id is under the pointer.
fn scan_hit_id(widgets: &Vec<Widget>, id: u32, x: i32, y: i32) -> (b: bool)
    ensures
        b == hit_id(widgets@, id, x as int, y as int),
{
    let n = widgets.len();
    let mut i: usize = 0;
    while i < n
        invariant
            i <= n,
            n == widgets@.len(),
            forall|j: int|
                0 <= j < i ==> !((#[trigger] widgets@[j]).spec_id() == id
                    && widgets@[j].spec_rect().spec_contains(x as int, y as int)),
        decreases n - i,
    {
        if widgets[i].id() == id && widgets[i].rect().contains(x, y) {
            return true;
        }
        i = i + 1;
    }
    false
}

/// Whether some widget with this id grabs focus when clicked.
fn scan_can_focus_id(widgets: &Vec<Widget>, id: u32) -> (b: bool)
    ensures
        b == can_focus_id(widgets@, id),
{
    let n = widgets.len();
    let mut i: usize = 0;
    while i < n
        invariant
            i <= n,
            n == widgets@.len(),
            forall|j: int|
                0 <= j < i ==> !((#[trigger] widgets@[j]).spec_id() == id
                    && widgets@[j].spec_can_focus()),
        decreases n - i,
    {
        if widgets[i].id() == id && widgets[i].can_focus() {
            return true;
        }
        i = i + 1;
    }
    false
}

/// Feed one input event through the router: update the interaction state,
/// let the targeted widget react, and report the callback invocations the
/// application must perform. Returns whether the frame loop must end,
/// and the actions, in the order they fired.
pub fn handle_event(
    state: &mut ApplicationState,
    widgets: &mut Vec<Widget>,
    event: &Event,
) -> (r: (bool, Vec<Action>))
    requires
        all_wf(old(widgets)@),
    ensures
        route_rel(
            *old(state),
            old(widgets)@,
            *event,
            *final(state),
            final(widgets)@,
            r.0,
            r.1@,
        ),
        all_wf(final(widgets)@),
        final(widgets)@.len() == old(widgets)@.len(),
        forall|i: int|
            0 <= i < old(widgets)@.len() ==> (#[trigger] final(widgets)@[i]).spec_id() == old(
                widgets,
            )@[i].spec_id(),
{
    let ghost s0 = *old(state);
    let ghost ws0 = old(widgets)@;
    let quit = match event {
        Event::Quit => true,
        Event::KeyDown { key: Key::Escape } => true,
        _ => false,
    };
    if quit {
        return (true, Vec::new());
    }
    let mut actions: Vec<Action> = Vec::new();
    // update routing: the focused widget, else the clicked one, sees the
    // raw event first
    let target: Option<u32> = if state.focused.is_some() {
        state.focused
    } else {
        state.clicking
    };
    let upd_act: Option<Action> = match target {
        Some(t) => {
            match find_first_id(widgets, t) {
                Some(k) => {
                    proof {
                        lemma_first_id_index(ws0, t);
                    }
                    let w = &mut widgets[k];
                    w.update(event)
                }
                None => None,
            }
        }
        None => None,
    };
    let ghost ws1 = widgets@;
    let ghost act1 = upd_act;
    match upd_act {
        Some(a) => {
            actions.push(a);
        }
        None => {}
    }
    proof {
        assert(update_phase(s0, ws0, *event, ws1, act1));
        assert(actions@.len() == act_seq(act1).len());
        assert(actions@ =~= act_seq(act1));
    }
    match event {
        Event::PointerMove { x, y } => {
            let h = scan_hover(widgets, state.clicking, *x, *y);
            state.hovering = h;
        }
        Event::PointerDown { button: PointerButton::Primary, x, y } => {
            let hov = state.hovering;
            let promoted = match hov {
                Some(h) => scan_hit_id(widgets, h, *x, *y),
                None => false,
            };
            if promoted {
                let h = match hov {
                    Some(h) => h,
                    None => 0,
                };
                state.hovering = None;
                state.clicking = Some(h);
                state.focused = if scan_can_focus_id(widgets, h) {
                    Some(h)
                } else {
                    None
                };
            } else {
                state.clicking = None;
                if !scan_any_hit(widgets, *x, *y) {
                    state.focused = None;
                }
            }
        }
        Event::PointerUp { button: PointerButton::Primary, x, y } => {
            match state.clicking {
                Some(a) => {
                    let anyh = scan_any_hit(widgets, *x, *y);
                    let h2 = scan_hover(widgets, None, *x, *y);
                    let hit = scan_hit_id(widgets, a, *x, *y);
                    let ghost mut acts2 = Seq::<Action>::empty();
                    if hit {
                        match find_first_id(widgets, a) {
                            Some(k) => {
                                proof {
                                    lemma_first_id_index(ws1, a);
                                }
                                let w = &mut widgets[k];
                                let act = w.on_click();
                                match act {
                                    Some(ac) => {
                                        proof {
                                            acts2 = seq![ac];
                                        }
                                        actions.push(ac);
                                    }
                                    None => {}
                                }
                            }
                            None => {
                                proof {
                                    lemma_first_id_index(ws1, a);
                                    assert(false);
                                }
                            }
                        }
                    }
                    if anyh {
                        state.hovering = h2;
                    }
                    state.clicking = None;
                    proof {
                        assert(up_phase(s0, ws1, *x as int, *y as int, *state, widgets@, acts2));
                        assert(actions@ =~= act_seq(act1) + acts2);
                    }
                }
                None => {
                    proof {
                        assert(up_phase(
                            s0,
                            ws1,
                            *x as int,
                            *y as int,
                            *state,
                            widgets@,
                            Seq::<Action>::empty(),
                        ));
                        assert(actions@ =~= act_seq(act1) + Seq::<Action>::empty());
                    }
                }
            }
        }
        _ => {}
    }
    (false, actions)
}

/// The visual state a widget takes this frame: focus wins over activity,
/// which wins over hover.
pub open spec fn spec_render_state(s: ApplicationState, id: u32) -> WidgetState {
    if s.focused == Some(id) {
        WidgetState::Focused
    } else if s.clicking == Some(id) {
        WidgetState::Active
    } else if s.hovering == Some(id) {
        WidgetState::Hovering
    } else {
        WidgetState::Base
    }
}

/// The visual state the widget with this id is rendered with.
pub fn widget_render_state(s: &ApplicationState, id: u32) -> (st: WidgetState)
    ensures
        st == spec_render_state(*s, id),
{
    if s.focused == Some(id) {
        WidgetState::Focused
    } else if s.clicking == Some(id) {
        WidgetState::Active
    } else if s.hovering == Some(id) {
        WidgetState::Hovering
    } else {
        WidgetState::Base
    }
}

} // verus!
