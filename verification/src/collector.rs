//! The event-collection state machine: folds raw hardware events into
//! semantic pointer events, one per synchronization marker.

use vstd::prelude::*;

use crate::events::{RawEvent, PointerEvent, Button, ABS_X, ABS_Y, BTN_TOUCH};

verus! {

/// The button-state transition observed since the last synchronization
/// marker. At most one transition is recorded per synchronization interval:
/// a later key sample overwrites an earlier one.
#[derive(Clone, Copy, Debug, PartialEq, Eq)]
pub enum ButtonChange {
    /// No press or release observed in the current interval.
    Idle,
    /// A release was observed.
    Up,
    /// A press was observed.
    Down,
}

/// Collects raw hardware events and resolves them into semantic pointer
/// events at each synchronization marker.
pub struct Collector {
    /// The most recent value seen for each axis since device open; persists
    /// across synchronization boundaries.
    pub last_position: (i32, i32),
    /// The pending button transition of the current synchronization interval.
    pub button_change: ButtonChange,
}

/// The semantic event a synchronization marker resolves to in state `s`:
/// a recorded press wins over a recorded release, and an interval without
/// any button transition reports a move, whether or not the position changed.
pub open spec fn resolve(s: Collector) -> PointerEvent {
    if s.button_change == ButtonChange::Down {
        PointerEvent::PointerPressed { position: s.last_position, button: Button::Left }
    } else if s.button_change == ButtonChange::Up {
        PointerEvent::PointerReleased { position: s.last_position, button: Button::Left }
    } else {
        PointerEvent::PointerMoved { position: s.last_position }
    }
}

/// The collector state after one raw event: a synchronization marker resets
/// the button transition, an axis sample overwrites one coordinate, a primary
/// touch key sample records the transition, everything else changes nothing.
pub open spec fn step(s: Collector, event: RawEvent) -> Collector {
    match event {
        RawEvent::Synchronization => Collector { button_change: ButtonChange::Idle, ..s },
        RawEvent::AbsoluteAxis { axis, value } => {
            if axis == ABS_X {
                Collector { last_position: (value, s.last_position.1), ..s }
            } else if axis == ABS_Y {
                Collector { last_position: (s.last_position.0, value), ..s }
            } else {
                s
            }
        },
        RawEvent::Key { code, value } => {
            if code == BTN_TOUCH {
                if value == 1 {
                    Collector { button_change: ButtonChange::Down, ..s }
                } else {
                    Collector { button_change: ButtonChange::Up, ..s }
                }
            } else {
                s
            }
        },
        RawEvent::Other => s,
    }
}

/// What one raw event emits in state `s`: exactly one semantic event on a
/// synchronization marker, nothing on anything else.
pub open spec fn output(s: Collector, event: RawEvent) -> Option<PointerEvent> {
    if event == RawEvent::Synchronization {
        Some(resolve(s))
    } else {
        None
    }
}

/// The collector state after a whole sequence of raw events.
pub open spec fn run(s: Collector, events: Seq<RawEvent>) -> Collector
    decreases events.len(),
{
    if events.len() == 0 {
        s
    } else {
        run(step(s, events[0]), events.drop_first())
    }
}

/// The semantic events a whole sequence of raw events emits, in order,
/// starting from state `s`.
pub open spec fn outputs(s: Collector, events: Seq<RawEvent>) -> Seq<PointerEvent>
    decreases events.len(),
{
    if events.len() == 0 {
        Seq::empty()
    } else {
        let rest = outputs(step(s, events[0]), events.drop_first());
        match output(s, events[0]) {
            Some(p) => seq![p] + rest,
            None => rest,
        }
    }
}

/// How many synchronization markers a sequence of raw events holds.
pub open spec fn count_syncs(events: Seq<RawEvent>) -> nat
    decreases events.len(),
{
    if events.len() == 0 {
        0
    } else {
        (if events[0] is Synchronization { 1nat } else { 0nat }) + count_syncs(
            events.drop_first(),
        )
    }
}

/// Running one more event is one more step.
pub proof fn lemma_run_snoc(s: Collector, events: Seq<RawEvent>, event: RawEvent)
    ensures
        run(s, events.push(event)) == step(run(s, events), event),
    decreases events.len(),
{
    reveal_with_fuel(run, 2);
    if events.len() == 0 {
        assert(events.push(event).drop_first() =~= events);
    } else {
        assert(events.push(event).drop_first() =~= events.drop_first().push(event));
        lemma_run_snoc(step(s, events[0]), events.drop_first(), event);
    }
}

/// The emissions of one more event follow the emissions of the events
/// before it: a synchronization marker appends what the reached state
/// resolves to, any other event appends nothing.
pub proof fn lemma_outputs_snoc(s: Collector, events: Seq<RawEvent>, event: RawEvent)
    ensures
        event is Synchronization ==> outputs(s, events.push(event)) == outputs(s, events).push(
            resolve(run(s, events)),
        ),
        !(event is Synchronization) ==> outputs(s, events.push(event)) == outputs(s, events),
    decreases events.len(),
{
    reveal_with_fuel(outputs, 2);
    if events.len() == 0 {
        assert(events.push(event).drop_first() =~= events);
        if event is Synchronization {
            assert(outputs(s, events.push(event)) =~= outputs(s, events).push(resolve(s)));
        } else {
            assert(outputs(s, events.push(event)) =~= outputs(s, events));
        }
    } else {
        assert(events.push(event).drop_first() =~= events.drop_first().push(event));
        lemma_outputs_snoc(step(s, events[0]), events.drop_first(), event);
        if event is Synchronization {
            assert(outputs(s, events.push(event)) =~= outputs(s, events).push(
                resolve(run(s, events)),
            ));
        } else {
            assert(outputs(s, events.push(event)) =~= outputs(s, events));
        }
    }
}

impl Collector {
    /// Creates a collector with the given initial position and no pending
    /// button transition.
    pub fn new(last_position: (i32, i32)) -> (r: Self)
        ensures
            r == (Collector { last_position, button_change: ButtonChange::Idle }),
    {
        Self { last_position, button_change: ButtonChange::Idle }
    }

    /// Consumes one raw event. Emits exactly one semantic pointer event on a
    /// synchronization marker — resolved from the state accumulated since the
    /// previous marker — and nothing on any other event. Cannot fail;
    /// out-of-range raw values are accepted as-is.
    pub fn push(&mut self, event: RawEvent) -> (r: Option<PointerEvent>)
        ensures
            *final(self) == step(*old(self), event),
            r == output(*old(self), event),
    {
        match event {
            RawEvent::Synchronization => {
                let position = self.last_position;
                let emitted = match self.button_change {
                    ButtonChange::Down => PointerEvent::PointerPressed {
                        position,
                        button: Button::Left,
                    },
                    ButtonChange::Up => PointerEvent::PointerReleased {
                        position,
                        button: Button::Left,
                    },
                    ButtonChange::Idle => PointerEvent::PointerMoved { position },
                };
                self.button_change = ButtonChange::Idle;
                Some(emitted)
            },
            RawEvent::AbsoluteAxis { axis, value } => {
                if axis == ABS_X {
                    self.last_position.0 = value;
                } else if axis == ABS_Y {
                    self.last_position.1 = value;
                }
                None
            },
            RawEvent::Key { code, value } => {
                if code == BTN_TOUCH {
                    if value == 1 {
                        self.button_change = ButtonChange::Down;
                    } else {
                        self.button_change = ButtonChange::Up;
                    }
                }
                None
            },
            RawEvent::Other => None,
        }
    }

    /// Consumes a whole batch of raw events in order and returns the
    /// semantic pointer events they emit, one per synchronization marker in
    /// the batch.
    pub fn push_all(&mut self, events: &Vec<RawEvent>) -> (out: Vec<PointerEvent>)
        ensures
            *final(self) == run(*old(self), events@),
            out@ == outputs(*old(self), events@),
    {
        let ghost s0 = *self;
        let mut out: Vec<PointerEvent> = Vec::new();
        let mut i: usize = 0;
        while i < events.len()
            invariant
                i <= events.len(),
                *self == run(s0, events@.take(i as int)),
                out@ == outputs(s0, events@.take(i as int)),
            decreases events.len() - i,
        {
            proof {
                lemma_run_snoc(s0, events@.take(i as int), events@[i as int]);
                lemma_outputs_snoc(s0, events@.take(i as int), events@[i as int]);
                assert(events@.take(i as int).push(events@[i as int]) =~= events@.take(
                    i + 1,
                ));
            }
            match self.push(events[i]) {
                Some(p) => out.push(p),
                None => (),
            }
            i += 1;
        }
        proof {
            assert(events@.take(events@.len() as int) =~= events@);
        }
        out
    }
}

} // verus!
