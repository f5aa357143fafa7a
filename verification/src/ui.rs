//! The debug panel's state machine.
//!
//! The event loop around this crate polls the window system, hands each
//! event here as a plain value, and carries out the returned directive.
//! The panel itself holds one piece of state: how often its button has
//! been clicked.

use vstd::prelude::*;

verus! {

/// A window-system event, reduced to what the panel's loop reacts to.
#[derive(Clone, Copy, Debug, PartialEq, Eq, Structural)]
pub enum FrameEvent {
    /// The user asked to close the window.
    CloseRequested,
    /// All pending events are dispatched; a frame may be drawn.
    MainEventsCleared,
    /// Any other event; the loop ignores it.
    Other,
}

/// What the event loop is told to do after an event is handled.
#[derive(Clone, Copy, Debug, PartialEq, Eq, Structural)]
pub enum FlowDirective {
    /// Keep polling for events.
    Poll,
    /// Leave the event loop.
    Exit,
}

/// How the loop reacts to an event: a close request exits, everything
/// else keeps polling.
pub fn event_directive(event: &FrameEvent) -> (d: FlowDirective)
    ensures
        d == (if event is CloseRequested {
            FlowDirective::Exit
        } else {
            FlowDirective::Poll
        }),
{
    match event {
        FrameEvent::CloseRequested => FlowDirective::Exit,
        _ => FlowDirective::Poll,
    }
}

/// Whether an event has the loop draw a panel frame.
pub fn event_draws_frame(event: &FrameEvent) -> (b: bool)
    ensures
        b == (event is MainEventsCleared),
{
    matches!(event, FrameEvent::MainEventsCleared)
}

/// State of the debug panel: the click counter shown on its button.
#[derive(Clone, Copy, Debug, PartialEq, Eq, Structural)]
pub struct UiState {
    pub count: i32,
}

impl UiState {
    /// A fresh panel whose button was never clicked.
    pub fn new() -> (s: UiState)
        ensures
            s.count == 0,
    {
        UiState { count: 0 }
    }

    /// Records one drawn frame: the counter goes up exactly when the
    /// button was clicked during that frame.
    pub fn apply_frame(&mut self, button_clicked: bool)
        requires
            button_clicked ==> old(self).count < i32::MAX,
        ensures
            final(self).count == old(self).count + (if button_clicked {
                1int
            } else {
                0int
            }),
    {
        if button_clicked {
            self.count = self.count + 1;
        }
    }
}

} // verus!
