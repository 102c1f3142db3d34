//! The engine's interaction laws, proved once and for all over the
//! router's transition relation.

use vstd::prelude::*;
use crate::events::{Action, ApplicationState, Event, PointerButton};
use crate::router::{
    act_seq, any_hit, can_focus_id, down_phase, first_id_index, hit_id, hover_scan,
    lemma_first_id_index, move_phase, route_rel, spec_quit, spec_update_target, up_phase,
    update_phase,
};
use crate::widgets::widget::Widget;

verus! {

/// A widget's update hook ignores pointer presses and releases.
pub proof fn lemma_update_ignores_buttons(a: Widget, e: Event, b: Widget, act: Option<Action>)
    requires
        Widget::spec_update(a, e, b, act),
        e is PointerDown || e is PointerUp,
    ensures
        b == a,
        act is None,
{
}

/// When the update hook cannot have changed anything, the update phase is
/// the identity.
pub proof fn lemma_update_phase_buttons(
    s: ApplicationState,
    ws: Seq<Widget>,
    e: Event,
    ws1: Seq<Widget>,
    act: Option<Action>,
)
    requires
        update_phase(s, ws, e, ws1, act),
        e is PointerDown || e is PointerUp,
    ensures
        ws1 == ws,
        act is None,
{
    match spec_update_target(s) {
        Some(t) => {
            match first_id_index(ws, t) {
                Some(k) => {
                    lemma_first_id_index(ws, t);
                    lemma_update_ignores_buttons(ws[k], e, ws1[k], act);
                    assert(ws.update(k, ws1[k]) =~= ws);
                },
                None => {},
            }
        },
        None => {},
    }
}

/// The hover scan picks the topmost hit: when the widget at `j` is under
/// the pointer, is not the one being clicked, and nothing above it is hit,
/// the scan reports the widget at `j`.
pub proof fn lemma_hover_scan_topmost(
    ws: Seq<Widget>,
    clicking: Option<u32>,
    x: int,
    y: int,
    j: int,
)
    requires
        0 <= j < ws.len(),
        ws[j].spec_rect().spec_contains(x, y),
        clicking != Some(ws[j].spec_id()),
        forall|k: int| j < k < ws.len() ==> !(#[trigger] ws[k]).spec_rect().spec_contains(x, y),
    ensures
        hover_scan(ws, clicking, x, y) == Some(ws[j].spec_id()),
    decreases ws,
{
    if j == ws.len() - 1 {
    } else {
        assert(!ws.last().spec_rect().spec_contains(x, y));
        assert(forall|k: int|
            j < k < ws.len() - 1 ==> #[trigger] ws.drop_last()[k] == ws[k]);
        assert(ws.drop_last()[j] == ws[j]);
        lemma_hover_scan_topmost(ws.drop_last(), clicking, x, y, j);
    }
}

/// Hit-test top-wins: with two overlapping widgets sharing the pointer's
/// position — the one at `j` added after the one at `i`, and nothing above
/// it hit — moving the pointer there and pressing the primary button sets
/// `clicking` to the id of the widget at `j`, not the one at `i`.
pub proof fn lemma_hit_test_top_wins(
    s0: ApplicationState,
    s1: ApplicationState,
    s2: ApplicationState,
    ws: Seq<Widget>,
    ws1: Seq<Widget>,
    ws2: Seq<Widget>,
    acts1: Seq<Action>,
    acts2: Seq<Action>,
    i: int,
    j: int,
    x: i32,
    y: i32,
)
    requires
        s0.clicking is None,
        s0.focused is None,
        route_rel(s0, ws, Event::PointerMove { x, y }, s1, ws1, false, acts1),
        route_rel(
            s1,
            ws1,
            Event::PointerDown { button: PointerButton::Primary, x, y },
            s2,
            ws2,
            false,
            acts2,
        ),
        0 <= i < j < ws.len(),
        ws[i].spec_rect().spec_contains(x as int, y as int),
        ws[j].spec_rect().spec_contains(x as int, y as int),
        forall|k: int|
            j < k < ws.len() ==> !(#[trigger] ws[k]).spec_rect().spec_contains(x as int, y as int),
    ensures
        s2.clicking == Some(ws[j].spec_id()),
{
    let e1 = Event::PointerMove { x, y };
    let (wsa, acta) = choose|wsa: Seq<Widget>, acta: Option<Action>|
        {
            &&& #[trigger] update_phase(s0, ws, e1, wsa, acta)
            &&& s1 == move_phase(s0, wsa, x as int, y as int)
            &&& ws1 == wsa
            &&& acts1 == act_seq(acta)
        };
    assert(wsa == ws);
    lemma_hover_scan_topmost(ws, s0.clicking, x as int, y as int, j);
    assert(s1.hovering == Some(ws[j].spec_id()));
    assert(s1.clicking is None && s1.focused is None);
    let e2 = Event::PointerDown { button: PointerButton::Primary, x, y };
    let (wsb, actb) = choose|wsb: Seq<Widget>, actb: Option<Action>|
        {
            &&& #[trigger] update_phase(s1, ws1, e2, wsb, actb)
            &&& s2 == down_phase(s1, wsb, x as int, y as int)
            &&& ws2 == wsb
            &&& acts2 == act_seq(actb)
        };
    assert(wsb == ws1);
    assert(hit_id(ws, ws[j].spec_id(), x as int, y as int));
}

/// Click-release on the same widget: with the widget holding the click
/// under the pointer, a primary-button release runs its click callback
/// exactly once — the reported actions are exactly its one click action —
/// and ends the click.
pub proof fn lemma_click_release_on_widget(
    s1: ApplicationState,
    s2: ApplicationState,
    ws: Seq<Widget>,
    ws2: Seq<Widget>,
    acts: Seq<Action>,
    k: int,
    xid: u32,
    x: i32,
    y: i32,
)
    requires
        s1.clicking == Some(xid),
        first_id_index(ws, xid) == Some(k),
        ws[k].spec_rect().spec_contains(x as int, y as int),
        route_rel(
            s1,
            ws,
            Event::PointerUp { button: PointerButton::Primary, x, y },
            s2,
            ws2,
            false,
            acts,
        ),
    ensures
        s2.clicking is None,
        ws2 == ws.update(k, ws[k].spec_after_click()),
        acts == (match ws[k].spec_click_action() {
            Some(a) => seq![a],
            None => Seq::<Action>::empty(),
        }),
{
    let e = Event::PointerUp { button: PointerButton::Primary, x, y };
    let (wsa, acta) = choose|wsa: Seq<Widget>, acta: Option<Action>|
        {
            &&& #[trigger] update_phase(s1, ws, e, wsa, acta)
            &&& exists|acts2: Seq<Action>|
                #[trigger] up_phase(s1, wsa, x as int, y as int, s2, ws2, acts2) && acts == act_seq(
                    acta,
                ) + acts2
        };
    lemma_update_phase_buttons(s1, ws, e, wsa, acta);
    let acts2 = choose|acts2: Seq<Action>|
        #[trigger] up_phase(s1, wsa, x as int, y as int, s2, ws2, acts2) && acts == act_seq(acta)
            + acts2;
    lemma_first_id_index(ws, xid);
    assert(hit_id(ws, xid, x as int, y as int));
    assert(acts =~= acts2);
}

/// Click-release outside every widget: the click ends, no widget changes,
/// and no callback is invoked.
pub proof fn lemma_click_release_outside(
    s1: ApplicationState,
    s2: ApplicationState,
    ws: Seq<Widget>,
    ws2: Seq<Widget>,
    acts: Seq<Action>,
    xid: u32,
    x: i32,
    y: i32,
)
    requires
        s1.clicking == Some(xid),
        !any_hit(ws, x as int, y as int),
        route_rel(
            s1,
            ws,
            Event::PointerUp { button: PointerButton::Primary, x, y },
            s2,
            ws2,
            false,
            acts,
        ),
    ensures
        s2.clicking is None,
        ws2 == ws,
        acts == Seq::<Action>::empty(),
{
    let e = Event::PointerUp { button: PointerButton::Primary, x, y };
    let (wsa, acta) = choose|wsa: Seq<Widget>, acta: Option<Action>|
        {
            &&& #[trigger] update_phase(s1, ws, e, wsa, acta)
            &&& exists|acts2: Seq<Action>|
                #[trigger] up_phase(s1, wsa, x as int, y as int, s2, ws2, acts2) && acts == act_seq(
                    acta,
                ) + acts2
        };
    lemma_update_phase_buttons(s1, ws, e, wsa, acta);
    let acts2 = choose|acts2: Seq<Action>|
        #[trigger] up_phase(s1, wsa, x as int, y as int, s2, ws2, acts2) && acts == act_seq(acta)
            + acts2;
    assert(!hit_id(ws, xid, x as int, y as int));
    assert(acts =~= Seq::<Action>::empty());
}

/// Focus contract, taking focus: pressing on the hovered widget promotes
/// it, and it takes focus exactly when it can.
pub proof fn lemma_focus_on_press(
    s1: ApplicationState,
    s2: ApplicationState,
    ws: Seq<Widget>,
    ws2: Seq<Widget>,
    acts: Seq<Action>,
    h: u32,
    x: i32,
    y: i32,
)
    requires
        s1.hovering == Some(h),
        hit_id(ws, h, x as int, y as int),
        route_rel(
            s1,
            ws,
            Event::PointerDown { button: PointerButton::Primary, x, y },
            s2,
            ws2,
            false,
            acts,
        ),
    ensures
        s2.clicking == Some(h),
        s2.focused == (if can_focus_id(ws, h) {
            Some(h)
        } else {
            None::<u32>
        }),
{
    let e = Event::PointerDown { button: PointerButton::Primary, x, y };
    let (wsa, acta) = choose|wsa: Seq<Widget>, acta: Option<Action>|
        {
            &&& #[trigger] update_phase(s1, ws, e, wsa, acta)
            &&& s2 == down_phase(s1, wsa, x as int, y as int)
            &&& ws2 == wsa
            &&& acts == act_seq(acta)
        };
    lemma_update_phase_buttons(s1, ws, e, wsa, acta);
}

/// Focus contract, losing focus: pressing on empty space clears focus.
pub proof fn lemma_focus_cleared_on_empty_press(
    s1: ApplicationState,
    s2: ApplicationState,
    ws: Seq<Widget>,
    ws2: Seq<Widget>,
    acts: Seq<Action>,
    x: i32,
    y: i32,
)
    requires
        !any_hit(ws, x as int, y as int),
        route_rel(
            s1,
            ws,
            Event::PointerDown { button: PointerButton::Primary, x, y },
            s2,
            ws2,
            false,
            acts,
        ),
    ensures
        s2.focused is None,
        s2.clicking is None,
{
    let e = Event::PointerDown { button: PointerButton::Primary, x, y };
    let (wsa, acta) = choose|wsa: Seq<Widget>, acta: Option<Action>|
        {
            &&& #[trigger] update_phase(s1, ws, e, wsa, acta)
            &&& s2 == down_phase(s1, wsa, x as int, y as int)
            &&& ws2 == wsa
            &&& acts == act_seq(acta)
        };
    lemma_update_phase_buttons(s1, ws, e, wsa, acta);
    if s1.hovering is Some {
        assert(!hit_id(ws, s1.hovering->0, x as int, y as int));
    }
}

/// A completed click-release cycle on a checkbox flips its state and
/// reports the new state through its occupied callback slot exactly once.
pub proof fn lemma_checkbox_cycle(
    s1: ApplicationState,
    s2: ApplicationState,
    ws: Seq<Widget>,
    ws2: Seq<Widget>,
    acts: Seq<Action>,
    k: int,
    xid: u32,
    x: i32,
    y: i32,
)
    requires
        s1.clicking == Some(xid),
        first_id_index(ws, xid) == Some(k),
        ws[k].spec_rect().spec_contains(x as int, y as int),
        ws[k] matches Widget::CheckBox(c) && c.has_on_check,
        route_rel(
            s1,
            ws,
            Event::PointerUp { button: PointerButton::Primary, x, y },
            s2,
            ws2,
            false,
            acts,
        ),
    ensures
        ws2[k] matches Widget::CheckBox(c2) && ws[k] matches Widget::CheckBox(c) && c2.is_checked
            == !c.is_checked,
        acts.len() == 1,
        ws[k] matches Widget::CheckBox(c) ==> acts[0] == (Action::Check {
            id: xid,
            checked: !c.is_checked,
        }),
        s2.clicking is None,
{
    lemma_click_release_on_widget(s1, s2, ws, ws2, acts, k, xid, x, y);
    lemma_first_id_index(ws, xid);
}

/// The interaction-state invariant is preserved by every routed event: a
/// widget is never both hovered and clicked.
pub proof fn lemma_state_invariant(
    s: ApplicationState,
    s2: ApplicationState,
    ws: Seq<Widget>,
    ws2: Seq<Widget>,
    e: Event,
    quit: bool,
    acts: Seq<Action>,
)
    requires
        s.wf(),
        route_rel(s, ws, e, s2, ws2, quit, acts),
    ensures
        s2.wf(),
{
    if !spec_quit(e) {
        let (wsa, acta) = choose|wsa: Seq<Widget>, acta: Option<Action>|
            {
                &&& #[trigger] update_phase(s, ws, e, wsa, acta)
                &&& (match e {
                    Event::PointerMove { x, y } => s2 == move_phase(s, wsa, x as int, y as int)
                        && ws2 == wsa && acts == act_seq(acta),
                    Event::PointerDown { button: PointerButton::Primary, x, y } => s2
                        == down_phase(s, wsa, x as int, y as int) && ws2 == wsa && acts == act_seq(
                        acta,
                    ),
                    Event::PointerUp { button: PointerButton::Primary, x, y } => exists|
                        acts2: Seq<Action>,
                    |
                        #[trigger] up_phase(s, wsa, x as int, y as int, s2, ws2, acts2) && acts
                            == act_seq(acta) + acts2,
                    _ => s2 == s && ws2 == wsa && acts == act_seq(acta),
                })
            };
        match e {
            Event::PointerMove { x, y } => {
                lemma_hover_scan_not_clicking(wsa, s.clicking, x as int, y as int);
            },
            Event::PointerUp { button: PointerButton::Primary, x, y } => {
                let acts2 = choose|acts2: Seq<Action>|
                    #[trigger] up_phase(s, wsa, x as int, y as int, s2, ws2, acts2) && acts
                        == act_seq(acta) + acts2;
            },
            _ => {},
        }
    }
}

/// The hover scan never reports the widget being clicked.
pub proof fn lemma_hover_scan_not_clicking(ws: Seq<Widget>, clicking: Option<u32>, x: int, y: int)
    ensures
        hover_scan(ws, clicking, x, y) is Some ==> clicking != hover_scan(ws, clicking, x, y),
    decreases ws,
{
    if ws.len() > 0 {
        lemma_hover_scan_not_clicking(ws.drop_last(), clicking, x, y);
    }
}

} // verus!
