//! Runs of host events, and what the store holds after absorbing them.
//!
//! The store's operations are stated one event at a time. The lemmas here
//! lift them to whole runs: what a drain sends out after any run of events,
//! and how two drains share a run between them.

use crate::buttons::{lemma_transitions_extend_chain, MouseState};
use crate::mouse::{BrowserMouse, MouseModel};
use crate::system::{CursorMoved, Emitted};
use crate::wrap::{lemma_wrap_absorbs, lemma_wrap_identity, lemma_wrapping_add_wraps, wrap_i32};
use vstd::prelude::*;
use vstd::seq_lib::{commutative_foldl, lemma_fold_left_permutation};
use vstd::wrapping::i32_specs::wrapping_add;

verus! {

/// An event as the host delivers it, reduced to the fields the store reads.
#[derive(Clone, Copy, Debug, PartialEq, Eq, Hash)]
pub enum HostEvent {
    /// The pointer moved: where it is now, and how far it travelled.
    MouseMove { client_x: i32, client_y: i32, movement_x: i32, movement_y: i32 },
    /// The wheel turned by `delta_y`.
    Wheel { delta_y: i32 },
    /// A button went down or came up; `buttons` is the full pressed-buttons
    /// bitmask after the change.
    MouseButton { buttons: u16 },
}

impl HostEvent {
    /// The relative movement an event contributes: its own for a movement
    /// event, none for any other.
    pub open spec fn movement(self) -> (int, int) {
        match self {
            HostEvent::MouseMove { movement_x, movement_y, .. } => (
                movement_x as int,
                movement_y as int,
            ),
            _ => (0, 0),
        }
    }

    /// The wheel travel an event contributes.
    pub open spec fn scroll(self) -> int {
        match self {
            HostEvent::Wheel { delta_y } => delta_y as int,
            _ => 0,
        }
    }
}

/// The exact sum, axis by axis, of the relative movements in a run.
pub open spec fn total_movement(events: Seq<HostEvent>) -> (int, int)
    decreases events.len(),
{
    if events.len() == 0 {
        (0, 0)
    } else {
        let rest = total_movement(events.drop_last());
        let last = events.last().movement();
        (rest.0 + last.0, rest.1 + last.1)
    }
}

/// The exact sum of the wheel amounts in a run.
pub open spec fn total_scroll(events: Seq<HostEvent>) -> int
    decreases events.len(),
{
    if events.len() == 0 {
        0
    } else {
        total_scroll(events.drop_last()) + events.last().scroll()
    }
}

/// Whether `index` is the place of the last movement event in the run.
pub open spec fn is_latest_move(events: Seq<HostEvent>, index: int) -> bool {
    &&& 0 <= index < events.len()
    &&& events[index] is MouseMove
    &&& forall|later: int| index < later < events.len() ==> !(#[trigger] events[later] is MouseMove)
}

/// Whether `index` is the place of the last button event in the run.
pub open spec fn is_latest_click(events: Seq<HostEvent>, index: int) -> bool {
    &&& 0 <= index < events.len()
    &&& events[index] is MouseButton
    &&& forall|later: int|
        index < later < events.len() ==> !(#[trigger] events[later] is MouseButton)
}

impl MouseModel {
    /// The store after absorbing one event.
    pub open spec fn after(self, event: HostEvent) -> MouseModel {
        match event {
            HostEvent::MouseMove { client_x, client_y, movement_x, movement_y } => self.moved(
                client_x,
                client_y,
                movement_x,
                movement_y,
            ),
            HostEvent::Wheel { delta_y } => self.scrolled(delta_y),
            HostEvent::MouseButton { buttons } => self.clicked(buttons),
        }
    }

    /// The store after absorbing a run of events, oldest first.
    pub open spec fn after_all(self, events: Seq<HostEvent>) -> MouseModel
        decreases events.len(),
    {
        if events.len() == 0 {
            self
        } else {
            self.after_all(events.drop_last()).after(events.last())
        }
    }
}

impl BrowserMouse {
    /// Absorbs one host event, whatever its kind.
    pub fn handle(&mut self, event: HostEvent)
        ensures
            final(self)@ == old(self)@.after(event),
            old(self)@.consistent() ==> final(self)@.consistent(),
    {
        match event {
            HostEvent::MouseMove { client_x, client_y, movement_x, movement_y } => {
                self.on_mouse_move(client_x, client_y, movement_x, movement_y)
            },
            HostEvent::Wheel { delta_y } => self.on_wheel(delta_y),
            HostEvent::MouseButton { buttons } => self.on_mouse_button(buttons),
        }
    }
}

/// After any run of events the two deltas hold the exact sums of what the
/// run contributed, added to what was there before and wrapped into the
/// `i32` range.
pub proof fn lemma_deltas_are_wrapped_sums(start: MouseModel, events: Seq<HostEvent>)
    ensures
        start.after_all(events).movement_delta.0 == wrap_i32(
            start.movement_delta.0 + total_movement(events).0,
        ),
        start.after_all(events).movement_delta.1 == wrap_i32(
            start.movement_delta.1 + total_movement(events).1,
        ),
        start.after_all(events).scroll_delta == wrap_i32(
            start.scroll_delta + total_scroll(events),
        ),
    decreases events.len(),
{
    if events.len() == 0 {
        lemma_wrap_identity(start.movement_delta.0 as int);
        lemma_wrap_identity(start.movement_delta.1 as int);
        lemma_wrap_identity(start.scroll_delta as int);
    } else {
        let prefix = events.drop_last();
        let before = start.after_all(prefix);
        lemma_deltas_are_wrapped_sums(start, prefix);
        match events.last() {
            HostEvent::MouseMove { movement_x, movement_y, .. } => {
                lemma_wrapping_add_wraps(before.movement_delta.0, movement_x);
                lemma_wrapping_add_wraps(before.movement_delta.1, movement_y);
                lemma_wrap_absorbs(
                    start.movement_delta.0 + total_movement(prefix).0,
                    movement_x as int,
                );
                lemma_wrap_absorbs(
                    start.movement_delta.1 + total_movement(prefix).1,
                    movement_y as int,
                );
            },
            HostEvent::Wheel { delta_y } => {
                lemma_wrapping_add_wraps(before.scroll_delta, delta_y);
                lemma_wrap_absorbs(start.scroll_delta + total_scroll(prefix), delta_y as int);
            },
            HostEvent::MouseButton { .. } => {},
        }
    }
}

/// The totals of a run as left folds of addition over its events.
proof fn lemma_totals_are_folds(events: Seq<HostEvent>)
    ensures
        total_movement(events) == events.fold_left(
            (0int, 0int),
            |sum: (int, int), event: HostEvent|
                (sum.0 + event.movement().0, sum.1 + event.movement().1),
        ),
        total_scroll(events) == events.fold_left(
            0int,
            |sum: int, event: HostEvent| sum + event.scroll(),
        ),
    decreases events.len(),
{
    if events.len() > 0 {
        lemma_totals_are_folds(events.drop_last());
    }
}

/// Only the sums matter, not the order in which the events arrive. Two runs
/// made of the same events, however interleaved, leave the same movement
/// delta and the same scroll delta.
pub proof fn lemma_deltas_ignore_order(
    start: MouseModel,
    events: Seq<HostEvent>,
    reordered: Seq<HostEvent>,
)
    requires
        events.to_multiset() == reordered.to_multiset(),
    ensures
        total_movement(events) == total_movement(reordered),
        total_scroll(events) == total_scroll(reordered),
        start.after_all(events).movement_delta == start.after_all(reordered).movement_delta,
        start.after_all(events).scroll_delta == start.after_all(reordered).scroll_delta,
{
    let add_movement = |sum: (int, int), event: HostEvent|
        (sum.0 + event.movement().0, sum.1 + event.movement().1);
    let add_scroll = |sum: int, event: HostEvent| sum + event.scroll();
    lemma_totals_are_folds(events);
    lemma_totals_are_folds(reordered);
    assert(commutative_foldl(add_movement));
    assert(commutative_foldl(add_scroll));
    lemma_fold_left_permutation(events, reordered, add_movement, (0int, 0int));
    lemma_fold_left_permutation(events, reordered, add_scroll, 0int);
    lemma_deltas_are_wrapped_sums(start, events);
    lemma_deltas_are_wrapped_sums(start, reordered);
}

/// Between two drains, movement adds up exactly. Whenever the exact sum of
/// a run's relative movements fits the `i32` range in both axes, the drain
/// that follows the run reports that sum as its motion, and reports no
/// motion and no position if and only if the sum is zero in both axes.
pub proof fn lemma_motion_is_exact_sum(start: MouseModel, events: Seq<HostEvent>)
    requires
        i32::MIN <= total_movement(events).0 <= i32::MAX,
        i32::MIN <= total_movement(events).1 <= i32::MAX,
    ensures
        ({
            let total = total_movement(events);
            let end = start.drained().after_all(events);
            &&& end.movement_delta.0 == total.0
            &&& end.movement_delta.1 == total.1
            &&& total == (0int, 0int) ==> end.emitted().motion is None && end.emitted().cursor_moved
                is None
            &&& total != (0int, 0int) ==> {
                &&& end.emitted().motion matches Some(motion)
                &&& motion.delta.0 == total.0
                &&& motion.delta.1 == total.1
                &&& end.emitted().cursor_moved == Some(CursorMoved { position: end.position })
            }
        }),
{
    lemma_deltas_are_wrapped_sums(start.drained(), events);
    lemma_wrap_identity(total_movement(events).0);
    lemma_wrap_identity(total_movement(events).1);
}

/// Between two drains, wheel amounts add up exactly, opposite signs
/// cancelling. Whenever the exact sum fits the `i32` range, the drain that
/// follows the run reports that sum, and reports no wheel event if and only
/// if the sum is zero.
pub proof fn lemma_scroll_is_exact_sum(start: MouseModel, events: Seq<HostEvent>)
    requires
        i32::MIN <= total_scroll(events) <= i32::MAX,
    ensures
        ({
            let total = total_scroll(events);
            let end = start.drained().after_all(events);
            &&& end.scroll_delta == total
            &&& total == 0 ==> end.emitted().wheel is None
            &&& total != 0 ==> {
                &&& end.emitted().wheel matches Some(wheel)
                &&& wheel.y == total
            }
        }),
{
    lemma_deltas_are_wrapped_sums(start.drained(), events);
    lemma_wrap_identity(total_scroll(events));
}

/// A drain that follows a drain, with no event in between, sends nothing
/// and changes nothing.
pub proof fn lemma_second_drain_is_silent(store: MouseModel)
    ensures
        store.drained().emitted() == Emitted::nothing(),
        store.drained().drained() == store.drained(),
{
}

/// The position the store holds, and so the position a drain reports next
/// to a motion, is the one carried by the latest movement event of the run.
/// A run without movement events leaves the position where it was.
pub proof fn lemma_position_is_latest_move(start: MouseModel, events: Seq<HostEvent>)
    ensures
        (forall|i: int| 0 <= i < events.len() ==> !(#[trigger] events[i] is MouseMove))
            ==> start.after_all(events).position == start.position,
        forall|i: int| #[trigger]
            is_latest_move(events, i) ==> start.after_all(events).position == (
                events[i]->client_x,
                events[i]->client_y,
            ),
        start.after_all(events).emitted().cursor_moved matches Some(moved)
            ==> moved.position == start.after_all(events).position,
    decreases events.len(),
{
    if events.len() > 0 {
        let prefix = events.drop_last();
        lemma_position_is_latest_move(start, prefix);
        assert forall|i: int| #[trigger] is_latest_move(events, i) implies start.after_all(
            events,
        ).position == (events[i]->client_x, events[i]->client_y) by {
            if i < events.len() - 1 {
                assert(!(events[events.len() - 1] is MouseMove));
                assert(is_latest_move(prefix, i)) by {
                    assert forall|later: int| i < later < prefix.len() implies !(
                    #[trigger] prefix[later] is MouseMove) by {
                        assert(prefix[later] == events[later]);
                    }
                }
            }
        }
        if forall|i: int| 0 <= i < events.len() ==> !(#[trigger] events[i] is MouseMove) {
            assert forall|i: int| 0 <= i < prefix.len() implies !(
            #[trigger] prefix[i] is MouseMove) by {
                assert(prefix[i] == events[i]);
            }
            assert(!(events[events.len() - 1] is MouseMove));
        }
    }
}

/// The recorded buttons are the ones decoded from the latest button event
/// of the run. A run without button events leaves them as they were.
pub proof fn lemma_buttons_are_latest_mask(start: MouseModel, events: Seq<HostEvent>)
    ensures
        (forall|i: int| 0 <= i < events.len() ==> !(#[trigger] events[i] is MouseButton))
            ==> start.after_all(events).button_state == start.button_state,
        forall|i: int| #[trigger]
            is_latest_click(events, i) ==> start.after_all(events).button_state
                == MouseState::decode(events[i]->buttons),
    decreases events.len(),
{
    if events.len() > 0 {
        let prefix = events.drop_last();
        lemma_buttons_are_latest_mask(start, prefix);
        assert forall|i: int| #[trigger] is_latest_click(events, i) implies start.after_all(
            events,
        ).button_state == MouseState::decode(events[i]->buttons) by {
            if i < events.len() - 1 {
                assert(!(events[events.len() - 1] is MouseButton));
                assert(is_latest_click(prefix, i)) by {
                    assert forall|later: int| i < later < prefix.len() implies !(
                    #[trigger] prefix[later] is MouseButton) by {
                        assert(prefix[later] == events[later]);
                    }
                }
            }
        }
        if forall|i: int| 0 <= i < events.len() ==> !(#[trigger] events[i] is MouseButton) {
            assert forall|i: int| 0 <= i < prefix.len() implies !(
            #[trigger] prefix[i] is MouseButton) by {
                assert(prefix[i] == events[i]);
            }
            assert(!(events[events.len() - 1] is MouseButton));
        }
    }
}

/// Absorbing two runs one after the other is absorbing them joined.
pub proof fn lemma_runs_join(start: MouseModel, first: Seq<HostEvent>, second: Seq<HostEvent>)
    ensures
        start.after_all(first).after_all(second) == start.after_all(first + second),
    decreases second.len(),
{
    if second.len() == 0 {
        assert(first + second =~= first);
    } else {
        lemma_runs_join(start, first, second.drop_last());
        assert((first + second).drop_last() =~= first + second.drop_last());
    }
}

/// A drain neither loses nor repeats anything. What a drain takes out and
/// what the store accumulates afterwards add up to what the store would
/// hold had the drain not happened: the queues concatenate, the deltas add
/// with wrap-around, and the position and the recorded buttons are the same
/// either way.
pub proof fn lemma_drain_loses_nothing(store: MouseModel, events: Seq<HostEvent>)
    ensures
        ({
            let undrained = store.after_all(events);
            let drained = store.drained().after_all(events);
            &&& undrained.pending_button_events == store.emitted().button_inputs
                + drained.pending_button_events
            &&& undrained.movement_delta.0 == wrapping_add(
                store.movement_delta.0,
                drained.movement_delta.0,
            )
            &&& undrained.movement_delta.1 == wrapping_add(
                store.movement_delta.1,
                drained.movement_delta.1,
            )
            &&& undrained.scroll_delta == wrapping_add(store.scroll_delta, drained.scroll_delta)
            &&& undrained.position == drained.position
            &&& undrained.button_state == drained.button_state
        }),
    decreases events.len(),
{
    if events.len() == 0 {
        assert(store.pending_button_events =~= store.pending_button_events + Seq::empty());
    } else {
        let prefix = events.drop_last();
        lemma_drain_loses_nothing(store, prefix);
        let undrained = store.after_all(prefix);
        let drained = store.drained().after_all(prefix);
        match events.last() {
            HostEvent::MouseButton { buttons } => {
                let fresh = MouseState::decode(buttons).transitions_from(undrained.button_state);
                assert(undrained.pending_button_events + fresh =~= store.pending_button_events
                    + (drained.pending_button_events + fresh));
            },
            _ => {},
        }
    }
}

/// Every event shows up in exactly one drain. When a drain falls between two
/// runs, the transitions it sends followed by those the next drain sends are
/// the transitions a single drain after both runs would have sent, in the
/// same order; the two drains' deltas add up, with wrap-around, to the
/// single drain's; and the store ends up the same either way.
pub proof fn lemma_two_drains_share_a_run(
    start: MouseModel,
    first: Seq<HostEvent>,
    second: Seq<HostEvent>,
)
    ensures
        ({
            let middle = start.after_all(first);
            let end = middle.drained().after_all(second);
            let whole = start.after_all(first + second);
            &&& whole.emitted().button_inputs == middle.emitted().button_inputs
                + end.emitted().button_inputs
            &&& whole.movement_delta.0 == wrapping_add(
                middle.movement_delta.0,
                end.movement_delta.0,
            )
            &&& whole.movement_delta.1 == wrapping_add(
                middle.movement_delta.1,
                end.movement_delta.1,
            )
            &&& whole.scroll_delta == wrapping_add(middle.scroll_delta, end.scroll_delta)
            &&& whole.drained() == end.drained()
        }),
{
    lemma_runs_join(start, first, second);
    lemma_drain_loses_nothing(start.after_all(first), second);
}

/// The queue holds transitions only, never a repeat of the state a button
/// is already in. A store whose queue and recorded buttons agree keeps them
/// in agreement through every event and every drain, and a new store starts
/// out that way.
pub proof fn lemma_queue_holds_only_flips(start: MouseModel, events: Seq<HostEvent>)
    requires
        start.consistent(),
    ensures
        start.after_all(events).consistent(),
        start.after_all(events).drained().consistent(),
        MouseModel::initial().consistent(),
    decreases events.len(),
{
    if events.len() > 0 {
        let prefix = events.drop_last();
        lemma_queue_holds_only_flips(start, prefix);
        let before = start.after_all(prefix);
        match events.last() {
            HostEvent::MouseButton { buttons } => {
                lemma_transitions_extend_chain(
                    before.pending_button_events,
                    before.button_state,
                    MouseState::decode(buttons),
                );
            },
            _ => {},
        }
    }
}

} // verus!
