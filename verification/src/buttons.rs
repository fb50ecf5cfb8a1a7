//! Button identities, pressed/released states, and edge detection between
//! two snapshots of the three tracked buttons.

use vstd::prelude::*;

verus! {

/// One of the three tracked mouse buttons.
#[derive(Clone, Copy, Debug, PartialEq, Eq, Hash, Structural)]
pub enum MouseButton {
    Left,
    Right,
    Middle,
}

/// Whether a button went down or came up.
#[derive(Clone, Copy, Debug, PartialEq, Eq, Hash, Structural)]
pub enum ElementState {
    Pressed,
    Released,
}

impl ElementState {
    /// The state that corresponds to a pressed flag.
    pub open spec fn of(pressed: bool) -> ElementState {
        if pressed {
            ElementState::Pressed
        } else {
            ElementState::Released
        }
    }

    /// `Pressed` for `true`, `Released` for `false`.
    pub fn from_pressed(pressed: bool) -> (state: ElementState)
        ensures
            state == ElementState::of(pressed),
    {
        if pressed {
            ElementState::Pressed
        } else {
            ElementState::Released
        }
    }
}

/// A single button transition: which button, and what it changed to.
#[derive(Clone, Copy, Debug, PartialEq, Eq, Hash, Structural)]
pub struct MouseButtonInput {
    pub button: MouseButton,
    pub state: ElementState,
}

/// A snapshot of the three tracked buttons.
#[derive(Clone, Copy, Debug, PartialEq, Eq, Hash, Structural)]
pub struct MouseState {
    pub left_clicked: bool,
    pub right_clicked: bool,
    pub middle_clicked: bool,
}

/// The transition of one button between two snapshots: a single entry if the
/// flag changed, nothing if it stayed as it was.
pub open spec fn edge(button: MouseButton, was: bool, is: bool) -> Seq<MouseButtonInput> {
    if was != is {
        seq![MouseButtonInput { button, state: ElementState::of(is) }]
    } else {
        Seq::empty()
    }
}

/// Whether `queue` is a chain of genuine flips that ends in `state`: its
/// last entry names the value its button has in `state`, that button had
/// the opposite value before, and the entries before it form such a chain
/// ending in the snapshot before. A chain never repeats the state a button
/// is already in.
pub open spec fn leads_to(queue: Seq<MouseButtonInput>, state: MouseState) -> bool
    decreases queue.len(),
{
    queue.len() == 0 || {
        let last = queue.last();
        &&& last.state == ElementState::of(state.is_pressed(last.button))
        &&& leads_to(queue.drop_last(), state.with(last.button, !state.is_pressed(last.button)))
    }
}

/// Flipping one button extends a chain by one entry.
pub proof fn lemma_flip_extends_chain(
    queue: Seq<MouseButtonInput>,
    state: MouseState,
    button: MouseButton,
)
    requires
        leads_to(queue, state),
    ensures
        leads_to(
            queue.push(
                MouseButtonInput { button, state: ElementState::of(!state.is_pressed(button)) },
            ),
            state.with(button, !state.is_pressed(button)),
        ),
{
    let pressed = !state.is_pressed(button);
    let longer = queue.push(MouseButtonInput { button, state: ElementState::of(pressed) });
    assert(longer.drop_last() =~= queue);
    assert(state.with(button, pressed).with(button, !pressed) == state);
}

/// The transitions between two snapshots extend a chain that ends in the
/// first into a chain that ends in the second.
pub proof fn lemma_transitions_extend_chain(
    queue: Seq<MouseButtonInput>,
    previous: MouseState,
    current: MouseState,
)
    requires
        leads_to(queue, previous),
    ensures
        leads_to(queue + current.transitions_from(previous), current),
{
    let left = edge(MouseButton::Left, previous.left_clicked, current.left_clicked);
    let right = edge(MouseButton::Right, previous.right_clicked, current.right_clicked);
    let middle = edge(MouseButton::Middle, previous.middle_clicked, current.middle_clicked);
    let after_left = previous.with(MouseButton::Left, current.left_clicked);
    let after_right = after_left.with(MouseButton::Right, current.right_clicked);
    assert(after_right.with(MouseButton::Middle, current.middle_clicked) == current);

    assert(leads_to(queue + left, after_left)) by {
        if previous.left_clicked != current.left_clicked {
            lemma_flip_extends_chain(queue, previous, MouseButton::Left);
            assert(queue + left =~= queue.push(left[0]));
        } else {
            assert(queue + left =~= queue);
            assert(after_left == previous);
        }
    }
    assert(leads_to(queue + left + right, after_right)) by {
        if previous.right_clicked != current.right_clicked {
            lemma_flip_extends_chain(queue + left, after_left, MouseButton::Right);
            assert(queue + left + right =~= (queue + left).push(right[0]));
        } else {
            assert(queue + left + right =~= queue + left);
            assert(after_right == after_left);
        }
    }
    assert(leads_to(queue + left + right + middle, current)) by {
        if previous.middle_clicked != current.middle_clicked {
            lemma_flip_extends_chain(queue + left + right, after_right, MouseButton::Middle);
            assert(queue + left + right + middle =~= (queue + left + right).push(middle[0]));
        } else {
            assert(queue + left + right + middle =~= queue + left + right);
        }
    }
    assert(queue + current.transitions_from(previous) =~= queue + left + right + middle);
}

impl MouseState {
    /// The snapshot with no button held.
    pub open spec fn all_released() -> MouseState {
        MouseState { left_clicked: false, right_clicked: false, middle_clicked: false }
    }

    /// The snapshot encoded by a pressed-buttons bitmask: bit 0 is the left
    /// button, bit 1 the right one, bit 2 the middle one. Higher bits are
    /// ignored.
    pub open spec fn decode(buttons: u16) -> MouseState {
        MouseState {
            left_clicked: buttons & 1 != 0,
            right_clicked: buttons & 2 != 0,
            middle_clicked: buttons & 4 != 0,
        }
    }

    /// Whether `button` is held in this snapshot.
    pub open spec fn is_pressed(self, button: MouseButton) -> bool {
        match button {
            MouseButton::Left => self.left_clicked,
            MouseButton::Right => self.right_clicked,
            MouseButton::Middle => self.middle_clicked,
        }
    }

    /// This snapshot with the flag of `button` set to `pressed`.
    pub open spec fn with(self, button: MouseButton, pressed: bool) -> MouseState {
        match button {
            MouseButton::Left => MouseState { left_clicked: pressed, ..self },
            MouseButton::Right => MouseState { right_clicked: pressed, ..self },
            MouseButton::Middle => MouseState { middle_clicked: pressed, ..self },
        }
    }

    /// The transitions that lead from `previous` to `self`, in the fixed
    /// order left, right, middle.
    pub open spec fn transitions_from(self, previous: MouseState) -> Seq<MouseButtonInput> {
        edge(MouseButton::Left, previous.left_clicked, self.left_clicked)
            + edge(MouseButton::Right, previous.right_clicked, self.right_clicked)
            + edge(MouseButton::Middle, previous.middle_clicked, self.middle_clicked)
    }

    /// A snapshot with every button released.
    pub fn released() -> (state: MouseState)
        ensures
            state == MouseState::all_released(),
    {
        MouseState { left_clicked: false, right_clicked: false, middle_clicked: false }
    }

    /// Decodes a pressed-buttons bitmask.
    pub fn from_buttons(buttons: u16) -> (state: MouseState)
        ensures
            state == MouseState::decode(buttons),
    {
        MouseState {
            left_clicked: buttons & 1 != 0,
            right_clicked: buttons & 2 != 0,
            middle_clicked: buttons & 4 != 0,
        }
    }

    /// The transitions needed to get from `previous` to `self`: one entry
    /// per button whose flag differs, left first, then right, then middle.
    pub fn events(&self, previous: &MouseState) -> (events: Vec<MouseButtonInput>)
        ensures
            events@ == self.transitions_from(*previous),
    {
        let mut events: Vec<MouseButtonInput> = Vec::new();

        if self.left_clicked != previous.left_clicked {
            events.push(
                MouseButtonInput {
                    button: MouseButton::Left,
                    state: ElementState::from_pressed(self.left_clicked),
                },
            );
        }
        if self.right_clicked != previous.right_clicked {
            events.push(
                MouseButtonInput {
                    button: MouseButton::Right,
                    state: ElementState::from_pressed(self.right_clicked),
                },
            );
        }
        if self.middle_clicked != previous.middle_clicked {
            events.push(
                MouseButtonInput {
                    button: MouseButton::Middle,
                    state: ElementState::from_pressed(self.middle_clicked),
                },
            );
        }
        events
    }
}

} // verus!
