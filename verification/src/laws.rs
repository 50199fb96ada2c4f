//! Properties of the collector, stated over whole raw-event sequences and
//! proved once for every starting state.

use vstd::prelude::*;

use crate::events::{RawEvent, PointerEvent, Button, ABS_X, ABS_Y, BTN_TOUCH};
use crate::collector::{Collector, ButtonChange, step, output, run, outputs, count_syncs};

verus! {

/// Whether a raw event is a primary touch key sample (press or release).
pub open spec fn is_touch_key(event: RawEvent) -> bool {
    event matches RawEvent::Key { code, .. } && code == BTN_TOUCH
}

/// Whether a raw event is a primary touch press.
pub open spec fn is_touch_down(event: RawEvent) -> bool {
    event matches RawEvent::Key { code, value } && code == BTN_TOUCH && value == 1
}

/// Whether a raw event overwrites the horizontal coordinate.
pub open spec fn updates_x(event: RawEvent) -> bool {
    event matches RawEvent::AbsoluteAxis { axis, .. } && axis == ABS_X
}

/// Whether a raw event overwrites the vertical coordinate.
pub open spec fn updates_y(event: RawEvent) -> bool {
    event matches RawEvent::AbsoluteAxis { axis, .. } && axis == ABS_Y
}

/// One event per synchronization marker: any raw-event sequence emits
/// exactly as many semantic pointer events as it holds synchronization
/// markers, from any starting state.
pub proof fn lemma_one_event_per_sync(s: Collector, events: Seq<RawEvent>)
    ensures
        outputs(s, events).len() == count_syncs(events),
    decreases events.len(),
{
    if events.len() > 0 {
        lemma_one_event_per_sync(step(s, events[0]), events.drop_first());
    }
}

/// Events that are neither primary touch key samples nor synchronization
/// markers leave the pending button transition unchanged.
proof fn lemma_button_untouched(s: Collector, events: Seq<RawEvent>)
    requires
        forall|j: int|
            0 <= j < events.len() ==> !is_touch_key(events[j]) && !(events[j]
                is Synchronization),
    ensures
        run(s, events).button_change == s.button_change,
    decreases events.len(),
{
    if events.len() > 0 {
        let rest = events.drop_first();
        assert forall|j: int|
            0 <= j < rest.len() implies !is_touch_key(rest[j]) && !(rest[j]
            is Synchronization) by {
            assert(rest[j] == events[j + 1]);
        }
        lemma_button_untouched(step(s, events[0]), rest);
    }
}

/// A collector with no pending button transition keeps none through any
/// events but primary touch key samples; synchronization markers only reset
/// what is already reset.
proof fn lemma_stays_idle(s: Collector, events: Seq<RawEvent>)
    requires
        s.button_change == ButtonChange::Idle,
        forall|j: int| 0 <= j < events.len() ==> !is_touch_key(events[j]),
    ensures
        run(s, events).button_change == ButtonChange::Idle,
    decreases events.len(),
{
    if events.len() > 0 {
        let rest = events.drop_first();
        assert forall|j: int| 0 <= j < rest.len() implies !is_touch_key(rest[j]) by {
            assert(rest[j] == events[j + 1]);
        }
        lemma_stays_idle(step(s, events[0]), rest);
    }
}

/// Resolution priority: if the last primary touch key sample of a
/// synchronization interval is a press, the marker that closes the interval
/// resolves to a pointer press — never a move or a release — whatever axis
/// samples intervene and whatever release was overwritten earlier in the
/// interval.
pub proof fn lemma_resolution_priority(s: Collector, events: Seq<RawEvent>, i: int)
    requires
        forall|j: int| 0 <= j < events.len() ==> !(events[j] is Synchronization),
        0 <= i < events.len(),
        is_touch_down(events[i]),
        forall|j: int| i < j < events.len() ==> !is_touch_key(events[j]),
    ensures
        output(run(s, events), RawEvent::Synchronization) == Some(
            PointerEvent::PointerPressed {
                position: run(s, events).last_position,
                button: Button::Left,
            },
        ),
    decreases events.len(),
{
    let rest = events.drop_first();
    if i == 0 {
        assert(step(s, events[0]).button_change == ButtonChange::Down);
        assert forall|j: int|
            0 <= j < rest.len() implies !is_touch_key(rest[j]) && !(rest[j]
            is Synchronization) by {
            assert(rest[j] == events[j + 1]);
        }
        lemma_button_untouched(step(s, events[0]), rest);
    } else {
        assert forall|j: int| 0 <= j < rest.len() implies !(rest[j] is Synchronization) by {
            assert(rest[j] == events[j + 1]);
        }
        assert forall|j: int| i - 1 < j < rest.len() implies !is_touch_key(rest[j]) by {
            assert(rest[j] == events[j + 1]);
        }
        assert(rest[i - 1] == events[i]);
        lemma_resolution_priority(step(s, events[0]), rest, i - 1);
    }
}

/// Transition reset: after any synchronization marker, a subsequent
/// synchronization marker with no intervening primary touch key sample
/// always resolves to a pointer move at the position reached.
pub proof fn lemma_transition_reset(s: Collector, events: Seq<RawEvent>)
    requires
        forall|j: int| 0 <= j < events.len() ==> !is_touch_key(events[j]),
    ensures
        output(run(step(s, RawEvent::Synchronization), events), RawEvent::Synchronization)
            == Some(
            PointerEvent::PointerMoved {
                position: run(step(s, RawEvent::Synchronization), events).last_position,
            },
        ),
{
    lemma_stays_idle(step(s, RawEvent::Synchronization), events);
}

/// Axis independence, horizontally: a sequence without horizontal axis
/// samples leaves the horizontal coordinate unchanged, across any number of
/// synchronization markers and key samples.
pub proof fn lemma_axis_independence_x(s: Collector, events: Seq<RawEvent>)
    requires
        forall|j: int| 0 <= j < events.len() ==> !updates_x(events[j]),
    ensures
        run(s, events).last_position.0 == s.last_position.0,
    decreases events.len(),
{
    if events.len() > 0 {
        let rest = events.drop_first();
        assert forall|j: int| 0 <= j < rest.len() implies !updates_x(rest[j]) by {
            assert(rest[j] == events[j + 1]);
        }
        lemma_axis_independence_x(step(s, events[0]), rest);
    }
}

/// Axis independence, vertically: a sequence without vertical axis samples
/// leaves the vertical coordinate unchanged, across any number of
/// synchronization markers and key samples.
pub proof fn lemma_axis_independence_y(s: Collector, events: Seq<RawEvent>)
    requires
        forall|j: int| 0 <= j < events.len() ==> !updates_y(events[j]),
    ensures
        run(s, events).last_position.1 == s.last_position.1,
    decreases events.len(),
{
    if events.len() > 0 {
        let rest = events.drop_first();
        assert forall|j: int| 0 <= j < rest.len() implies !updates_y(rest[j]) by {
            assert(rest[j] == events[j + 1]);
        }
        lemma_axis_independence_y(step(s, events[0]), rest);
    }
}

} // verus!
