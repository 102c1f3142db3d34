//! Input events fed to the router and the callback actions it emits.
//!
//! Callbacks are not stored as closures: a widget records which callback
//! slots are occupied, and the router reports each invocation as an
//! [`Action`] naming the widget. The caller applies the actions to its own
//! application state, which keeps the state mutation outside the engine.

use vstd::prelude::*;

verus! {

/// Keyboard keys the engine reacts to; everything else is `Other`.
#[derive(Clone, Copy, PartialEq, Eq, Structural, Debug)]
pub enum Key {
    Escape,
    Backspace,
    Return,
    KeypadEnter,
    Other(i32),
}

/// Pointer buttons; only the primary one drives click handling.
#[derive(Clone, Copy, PartialEq, Eq, Structural, Debug)]
pub enum PointerButton {
    Primary,
    Secondary,
}

/// One input event drained from the window's queue.
#[derive(PartialEq, Eq, Debug)]
pub enum Event {
    /// The window was asked to close.
    Quit,
    KeyDown { key: Key },
    PointerMove { x: i32, y: i32 },
    PointerDown { button: PointerButton, x: i32, y: i32 },
    PointerUp { button: PointerButton, x: i32, y: i32 },
    TextInput { text: Vec<char> },
}

/// The per-window interaction state: which widget, by id, the pointer
/// hovers, which one is being clicked, and which one holds focus. A widget
/// under a depressed pointer is active, not hovering, so `clicking` and
/// `hovering` never name the same widget.
#[derive(Clone, Copy, PartialEq, Eq, Structural, Debug)]
pub struct ApplicationState {
    pub hovering: Option<u32>,
    pub clicking: Option<u32>,
    pub focused: Option<u32>,
}

impl ApplicationState {
    /// A widget is never both hovered and clicked.
    pub open spec fn wf(self) -> bool {
        self.clicking is Some ==> self.clicking != self.hovering
    }

    pub fn new() -> (s: ApplicationState)
        ensures
            s == (ApplicationState {
                hovering: None::<u32>,
                clicking: None::<u32>,
                focused: None::<u32>,
            }),
            s.wf(),
    {
        ApplicationState { hovering: None, clicking: None, focused: None }
    }
}

/// A callback invocation the router asks the application to perform.
#[derive(PartialEq, Eq, Debug)]
pub enum Action {
    /// The widget's click callback fired.
    Click { id: u32 },
    /// A checkbox was toggled; `checked` is the new state.
    Check { id: u32, checked: bool },
    /// A scrollbar was dragged to `value`.
    ValueChanged { id: u32, value: i32 },
    /// A textbox's visible text changed to `text`.
    TextChanged { id: u32, text: Vec<char> },
    /// A textbox's text was submitted with the enter key.
    TextSubmit { id: u32, text: Vec<char> },
}

} // verus!
