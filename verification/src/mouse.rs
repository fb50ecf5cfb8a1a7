//! The accumulator store: what has arrived from the host since the last
//! drain, and the operations that absorb events and take the totals out.

use crate::buttons::{leads_to, lemma_transitions_extend_chain, MouseButtonInput, MouseState};
use vstd::prelude::*;
use vstd::wrapping::i32_specs::wrapping_add;

verus! {

/// The mathematical content of a [`BrowserMouse`].
pub struct MouseModel {
    /// Absolute coordinates carried by the latest movement event.
    pub position: (i32, i32),
    /// Relative movement summed, with wrap-around, since the last take.
    pub movement_delta: (i32, i32),
    /// Wheel amounts summed, with wrap-around, since the last take.
    pub scroll_delta: i32,
    /// The buttons as the latest button event reported them.
    pub button_state: MouseState,
    /// Button transitions not yet taken, oldest first.
    pub pending_button_events: Seq<MouseButtonInput>,
}

impl MouseModel {
    /// The store before any event: everything zero, every button released,
    /// nothing pending.
    pub open spec fn initial() -> MouseModel {
        MouseModel {
            position: (0, 0),
            movement_delta: (0, 0),
            scroll_delta: 0,
            button_state: MouseState::all_released(),
            pending_button_events: Seq::empty(),
        }
    }

    /// Whether the queue and the recorded buttons agree: the pending
    /// transitions are a chain of genuine flips that ends in the recorded
    /// state.
    pub open spec fn consistent(self) -> bool {
        leads_to(self.pending_button_events, self.button_state)
    }

    /// The store after a movement event: the position is overwritten, the
    /// relative movement is added to the running delta.
    pub open spec fn moved(
        self,
        client_x: i32,
        client_y: i32,
        movement_x: i32,
        movement_y: i32,
    ) -> MouseModel {
        MouseModel {
            position: (client_x, client_y),
            movement_delta: (
                wrapping_add(self.movement_delta.0, movement_x),
                wrapping_add(self.movement_delta.1, movement_y),
            ),
            ..self
        }
    }

    /// The store after a wheel event of `delta_y`.
    pub open spec fn scrolled(self, delta_y: i32) -> MouseModel {
        MouseModel { scroll_delta: wrapping_add(self.scroll_delta, delta_y), ..self }
    }

    /// The store after a button event carrying the bitmask `buttons`: the
    /// transitions away from the recorded state join the queue, and the
    /// decoded mask becomes the recorded state.
    pub open spec fn clicked(self, buttons: u16) -> MouseModel {
        MouseModel {
            button_state: MouseState::decode(buttons),
            pending_button_events: self.pending_button_events + MouseState::decode(
                buttons,
            ).transitions_from(self.button_state),
            ..self
        }
    }

    /// The store with the movement delta taken out.
    pub open spec fn without_delta(self) -> MouseModel {
        MouseModel { movement_delta: (0, 0), ..self }
    }

    /// The store with the scroll delta taken out.
    pub open spec fn without_scroll(self) -> MouseModel {
        MouseModel { scroll_delta: 0, ..self }
    }

    /// The store with the pending transitions taken out.
    pub open spec fn without_changes(self) -> MouseModel {
        MouseModel { pending_button_events: Seq::empty(), ..self }
    }
}

/// Accumulates pointer input between two drains.
pub struct BrowserMouse {
    x: i32,
    y: i32,
    delta_x: i32,
    delta_y: i32,
    scroll_delta: i32,
    state: MouseState,
    click_changes: Vec<MouseButtonInput>,
}

impl View for BrowserMouse {
    type V = MouseModel;

    closed spec fn view(&self) -> MouseModel {
        MouseModel {
            position: (self.x, self.y),
            movement_delta: (self.delta_x, self.delta_y),
            scroll_delta: self.scroll_delta,
            button_state: self.state,
            pending_button_events: self.click_changes@,
        }
    }
}

impl BrowserMouse {
    /// An empty store.
    pub fn new() -> (mouse: BrowserMouse)
        ensures
            mouse@ == MouseModel::initial(),
            mouse@.consistent(),
    {
        BrowserMouse {
            x: 0,
            y: 0,
            delta_x: 0,
            delta_y: 0,
            scroll_delta: 0,
            state: MouseState::released(),
            click_changes: Vec::new(),
        }
    }

    /// Absorbs a movement event: remembers where the pointer is now and
    /// adds how far it travelled.
    pub fn on_mouse_move(
        &mut self,
        client_x: i32,
        client_y: i32,
        movement_x: i32,
        movement_y: i32,
    )
        ensures
            final(self)@ == old(self)@.moved(client_x, client_y, movement_x, movement_y),
    {
        self.x = client_x;
        self.y = client_y;
        self.delta_x = self.delta_x.wrapping_add(movement_x);
        self.delta_y = self.delta_y.wrapping_add(movement_y);
    }

    /// Absorbs a wheel event.
    pub fn on_wheel(&mut self, delta_y: i32)
        ensures
            final(self)@ == old(self)@.scrolled(delta_y),
    {
        self.scroll_delta = self.scroll_delta.wrapping_add(delta_y);
    }

    /// Absorbs a button-down or button-up event. Both carry the full
    /// pressed-buttons bitmask, and either may flip any of its bits.
    pub fn on_mouse_button(&mut self, buttons: u16)
        ensures
            final(self)@ == old(self)@.clicked(buttons),
            old(self)@.consistent() ==> final(self)@.consistent(),
    {
        let new_state: MouseState = MouseState::from_buttons(buttons);
        let mut changes: Vec<MouseButtonInput> = new_state.events(&self.state);
        proof {
            if self@.consistent() {
                lemma_transitions_extend_chain(self.click_changes@, self.state, new_state);
            }
        }
        self.click_changes.append(&mut changes);
        self.state = new_state;
    }

    /// The absolute position last reported by the host.
    pub fn position(&self) -> (position: (i32, i32))
        ensures
            position == self@.position,
    {
        (self.x, self.y)
    }

    /// Returns the movement accumulated since the previous take and starts
    /// again from zero.
    pub fn get_delta_and_reset(&mut self) -> (delta: (i32, i32))
        ensures
            delta == old(self)@.movement_delta,
            final(self)@ == old(self)@.without_delta(),
    {
        let delta: (i32, i32) = (self.delta_x, self.delta_y);
        self.delta_x = 0;
        self.delta_y = 0;
        delta
    }

    /// Returns the scroll amount accumulated since the previous take and
    /// starts again from zero.
    pub fn get_scroll_and_reset(&mut self) -> (scroll: i32)
        ensures
            scroll == old(self)@.scroll_delta,
            final(self)@ == old(self)@.without_scroll(),
    {
        let scroll: i32 = self.scroll_delta;
        self.scroll_delta = 0;
        scroll
    }

    /// Returns the button transitions queued since the previous take, oldest
    /// first, and empties the queue.
    pub fn get_changes_and_reset(&mut self) -> (changes: Vec<MouseButtonInput>)
        ensures
            changes@ == old(self)@.pending_button_events,
            final(self)@ == old(self)@.without_changes(),
            final(self)@.consistent(),
    {
        let mut changes: Vec<MouseButtonInput> = Vec::new();
        changes.append(&mut self.click_changes);
        changes
    }
}

} // verus!
