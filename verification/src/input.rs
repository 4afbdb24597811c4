//! Pointer tracking.
//!
//! [`InputHandler`] consumes one [`InputEvent`] per frame and keeps the
//! current and previous absolute pointer position and the primary
//! button state. The previous position is carried over on every event,
//! whatever its kind, so the per-frame delta decays to zero on frames
//! without pointer motion.

use vstd::prelude::*;

use crate::math::{in_range, v2_add, v2_sub, Vec2, V2};

verus! {

/// Largest coordinate magnitude, in units, the tracker accepts.
pub const MAX_COORD: i64 = 1_000_000_000_000_000;

/// One frame's worth of raw input, already reduced to plain values.
///
/// `CursorMoved` carries the window's absolute origin and the pointer
/// position relative to that window; their sum is the absolute pointer
/// position. `PrimaryButton` reports a state change of the primary
/// button only; changes of other buttons arrive as `Other`.
#[derive(Clone, Copy, Debug)]
pub enum InputEvent {
    CursorMoved { window_origin: Vec2, position: Vec2 },
    PrimaryButton { pressed: bool },
    Other,
}

/// The absolute pointer position an event moves the pointer to, if any.
pub open spec fn event_target(e: InputEvent) -> Option<V2> {
    match e {
        InputEvent::CursorMoved { window_origin, position } => Some(
            v2_add(window_origin@, position@),
        ),
        _ => None,
    }
}

/// An event the tracker can ingest without leaving its coordinate range.
pub open spec fn event_wf(e: InputEvent) -> bool {
    match event_target(e) {
        Some(t) => in_range(t, MAX_COORD as int),
        None => true,
    }
}

/// Tracks the absolute pointer position and primary-button state.
pub struct InputHandler {
    pub mouse_prev: Vec2,
    pub mouse: Vec2,
    pub mouse_down: bool,
}

impl InputHandler {
    /// Both tracked positions lie within the coordinate range.
    pub open spec fn wf(&self) -> bool {
        &&& in_range(self.mouse@, MAX_COORD as int)
        &&& in_range(self.mouse_prev@, MAX_COORD as int)
    }

    /// Starts tracking at the zero position with the button up.
    pub fn new() -> (r: Self)
        ensures
            r.wf(),
            r.mouse@ == (V2 { x: 0, y: 0 }),
            r.mouse_prev@ == (V2 { x: 0, y: 0 }),
            !r.mouse_down,
    {
        InputHandler { mouse_prev: Vec2::zero(), mouse: Vec2::zero(), mouse_down: false }
    }

    /// Ingests one event.
    ///
    /// The previous position always takes the current one; then a move
    /// event sets the current position to the window origin plus the
    /// window-relative pointer position, and a primary-button event
    /// records the new button state.
    pub fn handle(&mut self, event: InputEvent)
        requires
            old(self).wf(),
            event_wf(event),
        ensures
            final(self).wf(),
            final(self).mouse_prev == old(self).mouse,
            final(self).mouse@ == match event_target(event) {
                Some(t) => t,
                None => old(self).mouse@,
            },
            final(self).mouse_down == match event {
                InputEvent::PrimaryButton { pressed } => pressed,
                _ => old(self).mouse_down,
            },
    {
        self.mouse_prev = self.mouse;
        match event {
            InputEvent::CursorMoved { window_origin, position } => {
                self.mouse = window_origin.add(position);
            },
            InputEvent::PrimaryButton { pressed } => {
                self.mouse_down = pressed;
            },
            InputEvent::Other => {},
        }
    }

    /// The pointer motion since the previous event: `mouse - mouse_prev`.
    pub fn mouse_diff(&self) -> (r: Vec2)
        requires
            self.wf(),
        ensures
            r@ == v2_sub(self.mouse@, self.mouse_prev@),
            in_range(r@, 2 * MAX_COORD as int),
    {
        self.mouse.sub(self.mouse_prev)
    }

    /// Whether the primary button is held.
    pub fn mouse_down(&self) -> (r: bool)
        ensures
            r == self.mouse_down,
    {
        self.mouse_down
    }
}

} // verus!
