//! A bridge from push-style pointer events to a per-tick pull model.
//!
//! A host delivers mouse movement, button and wheel events whenever it
//! likes. [`BrowserMouse`] absorbs them into small accumulators, and
//! [`emit_mouse_events`] turns what has piled up since the previous tick
//! into discrete events, resetting the accumulators as it goes.
//!
//! Every operation takes the store by exclusive reference, so no event can
//! slip in between the read and the reset of a drain. Callers that need to
//! share the store between contexts put it behind a lock of their choice.

pub mod buttons;
pub mod history;
pub mod mouse;
pub mod system;
pub mod wrap;

pub use buttons::{ElementState, MouseButton, MouseButtonInput, MouseState};
pub use mouse::{BrowserMouse, MouseModel};
pub use system::{emit_mouse_events, CursorMoved, Emitted, MouseEvents, MouseMotion, MouseWheel};
pub use history::HostEvent;
