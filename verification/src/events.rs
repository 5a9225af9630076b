//! Canonical event model: the normalized shape every platform backend
//! produces, plus the error taxonomy of the capture layer.

use vstd::prelude::*;

verus! {

/// The down/up transition of a button or key.
#[derive(Clone, Copy, PartialEq, Eq, Structural, Debug)]
pub enum Phase {
    Down,
    Up,
}

/// A mouse button, canonically numbered 1 through 5.
#[derive(Clone, Copy, PartialEq, Eq, Structural, Debug)]
pub enum ButtonCode {
    Left,
    Right,
    Middle,
    Side1,
    Side2,
}

/// The canonical numbering of the buttons: Left is 1, Right 2, Middle 3,
/// Side1 4, Side2 5.
pub open spec fn spec_button_value(b: ButtonCode) -> u32 {
    match b {
        ButtonCode::Left => 1,
        ButtonCode::Right => 2,
        ButtonCode::Middle => 3,
        ButtonCode::Side1 => 4,
        ButtonCode::Side2 => 5,
    }
}

impl ButtonCode {
    /// The canonical numeric code of this button.
    pub fn value(&self) -> (v: u32)
        ensures
            v == spec_button_value(*self),
    {
        match self {
            ButtonCode::Left => 1,
            ButtonCode::Right => 2,
            ButtonCode::Middle => 3,
            ButtonCode::Side1 => 4,
            ButtonCode::Side2 => 5,
        }
    }
}

/// A normalized input event, the only payload ever handed to a sink.
/// Coordinates are screen-space where the platform supplies them and
/// `0,0` where it does not.
#[derive(Clone, Copy, PartialEq, Eq, Structural, Debug)]
pub enum CapturedEvent {
    MouseButton { x: i32, y: i32, button: ButtonCode, phase: Phase },
    Key { code: u32, phase: Phase },
}

/// The two event classes a hook can be installed for.
#[derive(Clone, Copy, PartialEq, Eq, Structural, Debug)]
pub enum EventClass {
    Mouse,
    Keyboard,
}

/// The capture layer's error taxonomy. None of these is fatal to the
/// host: every failure path degrades to fewer events delivered.
#[derive(Clone, Copy, PartialEq, Eq, Structural, Debug)]
pub enum HookError {
    /// A hook or grab could not be established.
    InstallFailed,
    /// A monitored device's read failed; only that device is dropped.
    DeviceIo,
    /// The sink was absent or refused an event; the event is dropped.
    SinkUnavailable,
}

} // verus!
