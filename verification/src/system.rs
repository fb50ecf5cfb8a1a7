//! The per-tick drain: takes what the store has accumulated and says which
//! events go out on which channel.

use crate::buttons::MouseButtonInput;
use crate::mouse::{BrowserMouse, MouseModel};
use vstd::prelude::*;

verus! {

/// Relative pointer movement since the previous tick.
#[derive(Clone, Copy, Debug, PartialEq, Eq, Hash)]
pub struct MouseMotion {
    pub delta: (i32, i32),
}

/// The absolute pointer position after the movement reported in the same
/// tick.
#[derive(Clone, Copy, Debug, PartialEq, Eq, Hash)]
pub struct CursorMoved {
    pub position: (i32, i32),
}

/// Vertical wheel travel since the previous tick.
#[derive(Clone, Copy, Debug, PartialEq, Eq, Hash, Structural)]
pub struct MouseWheel {
    pub y: i32,
}

/// What one drain sends out, channel by channel.
#[derive(Debug)]
pub struct MouseEvents {
    pub motion: Option<MouseMotion>,
    pub cursor_moved: Option<CursorMoved>,
    pub button_inputs: Vec<MouseButtonInput>,
    pub wheel: Option<MouseWheel>,
}

/// The mathematical content of a [`MouseEvents`].
pub struct Emitted {
    pub motion: Option<MouseMotion>,
    pub cursor_moved: Option<CursorMoved>,
    pub button_inputs: Seq<MouseButtonInput>,
    pub wheel: Option<MouseWheel>,
}

impl Emitted {
    /// A drain that sends nothing on any channel.
    pub open spec fn nothing() -> Emitted {
        Emitted {
            motion: None,
            cursor_moved: None,
            button_inputs: Seq::empty(),
            wheel: None,
        }
    }
}

impl View for MouseEvents {
    type V = Emitted;

    open spec fn view(&self) -> Emitted {
        Emitted {
            motion: self.motion,
            cursor_moved: self.cursor_moved,
            button_inputs: self.button_inputs@,
            wheel: self.wheel,
        }
    }
}

impl MouseModel {
    /// The store right after a drain: both deltas back at zero and the
    /// queue empty. The position and the recorded buttons stay.
    pub open spec fn drained(self) -> MouseModel {
        MouseModel {
            movement_delta: (0, 0),
            scroll_delta: 0,
            pending_button_events: Seq::empty(),
            ..self
        }
    }

    /// What a drain of this store sends out. Motion and position go out
    /// together, and only when the pointer moved in at least one axis; the
    /// queued transitions go out in queue order; the wheel goes out only
    /// when it turned.
    pub open spec fn emitted(self) -> Emitted {
        Emitted {
            motion: if self.movement_delta != (0i32, 0i32) {
                Some(MouseMotion { delta: self.movement_delta })
            } else {
                None
            },
            cursor_moved: if self.movement_delta != (0i32, 0i32) {
                Some(CursorMoved { position: self.position })
            } else {
                None
            },
            button_inputs: self.pending_button_events,
            wheel: if self.scroll_delta != 0 {
                Some(MouseWheel { y: self.scroll_delta })
            } else {
                None
            },
        }
    }
}

/// Drains the store: resets its accumulators and returns the events that
/// stand for what they held.
pub fn emit_mouse_events(mouse: &mut BrowserMouse) -> (events: MouseEvents)
    ensures
        events@ == old(mouse)@.emitted(),
        final(mouse)@ == old(mouse)@.drained(),
        final(mouse)@.consistent(),
{
    let delta: (i32, i32) = mouse.get_delta_and_reset();
    let mut motion: Option<MouseMotion> = None;
    let mut cursor_moved: Option<CursorMoved> = None;
    if delta.0 != 0 || delta.1 != 0 {
        motion = Some(MouseMotion { delta });
        cursor_moved = Some(CursorMoved { position: mouse.position() });
    }
    let button_inputs: Vec<MouseButtonInput> = mouse.get_changes_and_reset();

    let scroll: i32 = mouse.get_scroll_and_reset();
    let mut wheel: Option<MouseWheel> = None;
    if scroll != 0 {
        wheel = Some(MouseWheel { y: scroll });
    }
    MouseEvents { motion, cursor_moved, button_inputs, wheel }
}

} // verus!
