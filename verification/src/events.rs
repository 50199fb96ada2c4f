//! The raw events the device reports and the semantic pointer events the
//! collector emits.

use vstd::prelude::*;

verus! {

/// Axis code of the horizontal absolute position axis (Linux `ABS_X`).
pub const ABS_X: u16 = 0;

/// Axis code of the vertical absolute position axis (Linux `ABS_Y`).
pub const ABS_Y: u16 = 1;

/// Key code of the primary touch contact (Linux `BTN_TOUCH`).
pub const BTN_TOUCH: u16 = 330;

/// One decoded raw event from the input device driver.
#[derive(Clone, Copy, Debug, PartialEq, Eq)]
pub enum RawEvent {
    /// Marks the end of one batch of coalesced hardware updates.
    Synchronization,
    /// An absolute axis sample: the axis code and the reported value.
    AbsoluteAxis { axis: u16, value: i32 },
    /// A key or button sample: the key code and its state (1 means pressed,
    /// anything else released).
    Key { code: u16, value: i32 },
    /// Any other raw event kind; the collector ignores it.
    Other,
}

/// The pointer button; only the primary (left) button is ever reported.
#[derive(Clone, Copy, Debug, PartialEq, Eq)]
pub enum Button {
    /// The primary button.
    Left,
}

/// A semantic pointer event. Positions are physical device coordinates; the
/// embedding application divides them by its scale factor to obtain logical
/// coordinates.
#[derive(Clone, Copy, Debug, PartialEq, Eq)]
pub enum PointerEvent {
    /// The touch contact was pressed within the last hardware update batch.
    PointerPressed {
        /// Physical position at the synchronization marker.
        position: (i32, i32),
        /// The button that was pressed.
        button: Button,
    },
    /// No contact change within the batch; reports the current position.
    PointerMoved {
        /// Physical position at the synchronization marker.
        position: (i32, i32),
    },
    /// The touch contact was released within the last hardware update batch.
    PointerReleased {
        /// Physical position at the synchronization marker.
        position: (i32, i32),
        /// The button that was released.
        button: Button,
    },
}

} // verus!
