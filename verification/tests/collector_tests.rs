use slint_evdev_input::collector::Collector;
use slint_evdev_input::events::{Button, PointerEvent, RawEvent, ABS_X, ABS_Y, BTN_TOUCH};

fn axis_x(value: i32) -> RawEvent {
    RawEvent::AbsoluteAxis { axis: ABS_X, value }
}

fn axis_y(value: i32) -> RawEvent {
    RawEvent::AbsoluteAxis { axis: ABS_Y, value }
}

fn touch(value: i32) -> RawEvent {
    RawEvent::Key { code: BTN_TOUCH, value }
}

/// The raw sequence of the original hardware test: press at (120, 12), move
/// to (122, 13), move vertically to (122, 14), release. At scale factor 1.0
/// the logical coordinates equal these physical ones.
#[test]
fn test_sync_events() {
    let mut collector = Collector::new((0, 0));
    let batch = vec![
        axis_x(120),
        axis_y(12),
        touch(1),
        RawEvent::Synchronization,
        axis_x(122),
        axis_y(13),
        RawEvent::Synchronization,
        axis_y(14),
        RawEvent::Synchronization,
        touch(0),
        RawEvent::Synchronization,
    ];
    let emitted = collector.push_all(&batch);
    assert_eq!(
        emitted,
        vec![
            PointerEvent::PointerPressed {
                position: (120, 12),
                button: Button::Left
            },
            PointerEvent::PointerMoved {
                position: (122, 13)
            },
            PointerEvent::PointerMoved {
                position: (122, 14)
            },
            PointerEvent::PointerReleased {
                position: (122, 14),
                button: Button::Left
            },
        ]
    );
}

#[test]
fn scenario_press() {
    let mut collector = Collector::new((0, 0));
    assert_eq!(collector.push(axis_x(120)), None);
    assert_eq!(collector.push(axis_y(12)), None);
    assert_eq!(collector.push(touch(1)), None);
    assert_eq!(
        collector.push(RawEvent::Synchronization),
        Some(PointerEvent::PointerPressed {
            position: (120, 12),
            button: Button::Left
        })
    );
}

#[test]
fn scenario_move_both_axes() {
    let mut collector = Collector::new((0, 0));
    collector.push(axis_x(120));
    collector.push(axis_y(12));
    collector.push(touch(1));
    collector.push(RawEvent::Synchronization);
    collector.push(axis_x(122));
    collector.push(axis_y(13));
    assert_eq!(
        collector.push(RawEvent::Synchronization),
        Some(PointerEvent::PointerMoved {
            position: (122, 13)
        })
    );
}

#[test]
fn scenario_move_one_axis_keeps_the_other() {
    let mut collector = Collector::new((122, 13));
    collector.push(axis_y(14));
    assert_eq!(
        collector.push(RawEvent::Synchronization),
        Some(PointerEvent::PointerMoved {
            position: (122, 14)
        })
    );
}

#[test]
fn scenario_release() {
    let mut collector = Collector::new((122, 14));
    collector.push(touch(0));
    assert_eq!(
        collector.push(RawEvent::Synchronization),
        Some(PointerEvent::PointerReleased {
            position: (122, 14),
            button: Button::Left
        })
    );
}

/// The physical half of the scaled scenario: raw X=100, Y=50, sync with no
/// key sample reports a move at physical (100, 50). The embedding
/// application divides by its scale factor (2.0 gives logical (50.0, 25.0)).
#[test]
fn scenario_sync_without_key_is_a_move() {
    let mut collector = Collector::new((0, 0));
    collector.push(axis_x(100));
    collector.push(axis_y(50));
    assert_eq!(
        collector.push(RawEvent::Synchronization),
        Some(PointerEvent::PointerMoved {
            position: (100, 50)
        })
    );
}

#[test]
fn one_event_per_sync_marker() {
    let mut collector = Collector::new((0, 0));
    let batch = vec![
        axis_x(5),
        RawEvent::Synchronization,
        touch(1),
        axis_y(7),
        RawEvent::Synchronization,
        RawEvent::Other,
        RawEvent::Synchronization,
        axis_x(9),
        touch(0),
    ];
    let syncs = batch
        .iter()
        .filter(|e| matches!(e, RawEvent::Synchronization))
        .count();
    let emitted = collector.push_all(&batch);
    assert_eq!(emitted.len(), syncs);
    assert_eq!(emitted.len(), 3);
}

#[test]
fn down_after_up_in_one_interval_wins() {
    let mut collector = Collector::new((3, 4));
    collector.push(touch(0));
    collector.push(axis_x(8));
    collector.push(touch(1));
    assert_eq!(
        collector.push(RawEvent::Synchronization),
        Some(PointerEvent::PointerPressed {
            position: (8, 4),
            button: Button::Left
        })
    );
}

/// The recorded transition is last-write-wins: a press followed by a release
/// in the same interval resolves to a release.
#[test]
fn up_after_down_in_one_interval_wins() {
    let mut collector = Collector::new((3, 4));
    collector.push(touch(1));
    collector.push(touch(0));
    assert_eq!(
        collector.push(RawEvent::Synchronization),
        Some(PointerEvent::PointerReleased {
            position: (3, 4),
            button: Button::Left
        })
    );
}

#[test]
fn transition_resets_after_every_sync() {
    let mut collector = Collector::new((1, 2));
    collector.push(touch(1));
    assert_eq!(
        collector.push(RawEvent::Synchronization),
        Some(PointerEvent::PointerPressed {
            position: (1, 2),
            button: Button::Left
        })
    );
    // No key sample in between: the next marker reports a move, even though
    // the position did not change.
    assert_eq!(
        collector.push(RawEvent::Synchronization),
        Some(PointerEvent::PointerMoved { position: (1, 2) })
    );
}

#[test]
fn axis_updates_are_independent_across_syncs() {
    let mut collector = Collector::new((40, 60));
    let batch = vec![
        axis_y(61),
        RawEvent::Synchronization,
        axis_y(62),
        RawEvent::Synchronization,
        axis_y(63),
        RawEvent::Synchronization,
    ];
    let emitted = collector.push_all(&batch);
    assert_eq!(
        emitted,
        vec![
            PointerEvent::PointerMoved { position: (40, 61) },
            PointerEvent::PointerMoved { position: (40, 62) },
            PointerEvent::PointerMoved { position: (40, 63) },
        ]
    );
}

#[test]
fn other_axes_keys_and_kinds_are_ignored() {
    let mut collector = Collector::new((10, 20));
    // An unrelated absolute axis (e.g. ABS_PRESSURE).
    collector.push(RawEvent::AbsoluteAxis {
        axis: 24,
        value: 999,
    });
    // An unrelated key (e.g. BTN_LEFT).
    collector.push(RawEvent::Key {
        code: 272,
        value: 1,
    });
    collector.push(RawEvent::Other);
    assert_eq!(
        collector.push(RawEvent::Synchronization),
        Some(PointerEvent::PointerMoved { position: (10, 20) })
    );
}

/// Any touch key value other than 1 records a release.
#[test]
fn touch_value_other_than_one_is_a_release() {
    let mut collector = Collector::new((0, 0));
    collector.push(touch(2));
    assert_eq!(
        collector.push(RawEvent::Synchronization),
        Some(PointerEvent::PointerReleased {
            position: (0, 0),
            button: Button::Left
        })
    );
}

/// Out-of-range raw values are accepted as-is, with no bounds validation.
#[test]
fn extreme_axis_values_are_stored_as_is() {
    let mut collector = Collector::new((0, 0));
    collector.push(axis_x(i32::MAX));
    collector.push(axis_y(i32::MIN));
    assert_eq!(
        collector.push(RawEvent::Synchronization),
        Some(PointerEvent::PointerMoved {
            position: (i32::MAX, i32::MIN)
        })
    );
}

#[test]
fn non_sync_events_emit_nothing() {
    let mut collector = Collector::new((0, 0));
    assert_eq!(collector.push(axis_x(1)), None);
    assert_eq!(collector.push(axis_y(2)), None);
    assert_eq!(collector.push(touch(1)), None);
    assert_eq!(collector.push(touch(0)), None);
    assert_eq!(collector.push(RawEvent::Other), None);
}

#[test]
fn empty_batch_emits_nothing() {
    let mut collector = Collector::new((7, 8));
    let emitted = collector.push_all(&vec![]);
    assert_eq!(emitted, vec![]);
}
