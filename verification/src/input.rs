//! Input handling: window events as plain values, and the latched input
//! state (cursor position and levers) they drive.
//!
//! Cursor coordinates are IEEE 754 double-precision physical-pixel values;
//! the state stores their bit patterns.

use vstd::prelude::*;
use crate::levers::{LEVER1, Levers};

verus! {

/// Whether a key transition is a press or a release.
#[derive(Clone, Copy, Debug, PartialEq, Eq, Structural)]
pub enum ElementState {
    Pressed,
    Released,
}

/// A keyboard key. Keys this renderer does not interpret are carried as
/// `Other` with the window system's own scan code.
#[derive(Clone, Copy, Debug, PartialEq, Eq, Structural)]
pub enum Key {
    Space,
    Escape,
    Other(u32),
}

/// A window event, as the event-loop driver hands it to the core.
#[derive(Clone, Copy, Debug, PartialEq, Eq, Structural)]
pub enum WindowEvent {
    /// The cursor moved to this physical-pixel position (bit patterns of
    /// two IEEE 754 double-precision values).
    CursorMoved { x_bits: u64, y_bits: u64 },
    /// A key changed state. `None` carries a transition the window system
    /// could not name.
    Keyboard { state: ElementState, key: Option<Key> },
    /// The user asked to close the window.
    CloseRequested,
    /// The window was resized to this physical size.
    Resized { width: u32, height: u32 },
    /// The DPI scale changed, giving the window this new physical size.
    ScaleFactorChanged { width: u32, height: u32 },
    /// Any other window event; the core ignores it.
    Other,
}

/// The latched input state: cursor position and levers.
#[derive(Clone, Copy, Debug, PartialEq, Eq, Structural)]
pub struct InputState {
    pub mouse_x_bits: u64,
    pub mouse_y_bits: u64,
    pub levers: Levers,
}

/// Whether an event is a `Space` key transition, the one kind of keyboard
/// event the input handler consumes.
pub open spec fn is_space_key_event(e: WindowEvent) -> bool {
    e matches WindowEvent::Keyboard { state: _, key } && key == Some(Key::Space)
}

/// What `input` does: the state after the event, and whether the event was
/// consumed. Cursor motion updates the cursor; a `Space` press latches
/// `LEVER1` and a `Space` release clears it; everything else is left to the
/// event-loop driver.
pub open spec fn input_step(s: InputState, e: WindowEvent) -> (InputState, bool) {
    match e {
        WindowEvent::CursorMoved { x_bits, y_bits } => (
            InputState { mouse_x_bits: x_bits, mouse_y_bits: y_bits, ..s },
            true,
        ),
        WindowEvent::Keyboard { state, key } => if key == Some(Key::Space) {
            match state {
                ElementState::Pressed => (
                    InputState { levers: Levers { bits: s.levers.bits | LEVER1 }, ..s },
                    true,
                ),
                ElementState::Released => (
                    InputState { levers: Levers { bits: s.levers.bits & !LEVER1 }, ..s },
                    true,
                ),
            }
        } else {
            (s, false)
        },
        _ => (s, false),
    }
}

impl InputState {
    /// The startup state: cursor at the origin, no lever latched.
    pub fn new() -> (r: InputState)
        ensures
            r.mouse_x_bits == 0,
            r.mouse_y_bits == 0,
            r.levers.bits == 0,
    {
        InputState { mouse_x_bits: 0, mouse_y_bits: 0, levers: Levers::empty() }
    }

    /// Applies one window event; returns whether it was consumed.
    pub fn input(&mut self, event: &WindowEvent) -> (handled: bool)
        ensures
            *final(self) == input_step(*old(self), *event).0,
            handled == input_step(*old(self), *event).1,
    {
        match event {
            WindowEvent::CursorMoved { x_bits, y_bits } => {
                self.mouse_x_bits = *x_bits;
                self.mouse_y_bits = *y_bits;
                true
            },
            WindowEvent::Keyboard { state, key } => {
                match key {
                    Some(Key::Space) => {
                        match state {
                            ElementState::Pressed => {
                                self.levers.insert(LEVER1);
                                true
                            },
                            ElementState::Released => {
                                self.levers.remove(LEVER1);
                                true
                            },
                        }
                    },
                    _ => false,
                }
            },
            _ => false,
        }
    }
}

/// A `Space` press event.
pub open spec fn space_pressed() -> WindowEvent {
    WindowEvent::Keyboard { state: ElementState::Pressed, key: Some(Key::Space) }
}

/// A `Space` release event.
pub open spec fn space_released() -> WindowEvent {
    WindowEvent::Keyboard { state: ElementState::Released, key: Some(Key::Space) }
}

/// Lever semantics, first half: from any state, a `Space` press latches
/// `LEVER1`, and a press followed by a release leaves it clear.
pub proof fn lemma_lever_latch(s: InputState)
    ensures
        input_step(s, space_pressed()).0.levers.spec_contains(LEVER1),
        !input_step(input_step(s, space_pressed()).0, space_released()).0.levers.spec_contains(
            LEVER1,
        ),
{
    let b = s.levers.bits;
    assert((b | 1u32) & 1u32 == 1u32) by (bit_vector);
    assert(((b | 1u32) & !1u32) & 1u32 != 1u32) by (bit_vector);
}

/// Lever semantics, second half: no event other than a `Space` key
/// transition ever changes the levers.
pub proof fn lemma_unrelated_events_leave_levers(s: InputState, e: WindowEvent)
    requires
        !is_space_key_event(e),
    ensures
        input_step(s, e).0.levers == s.levers,
{
}

} // verus!
