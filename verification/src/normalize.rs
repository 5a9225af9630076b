//! Event normalization: the pure mapping from each platform's raw event
//! encoding to the canonical [`CapturedEvent`] shape.
//!
//! Two encodings are handled. The first is the message-based encoding a
//! low-level hook procedure sees: a message code, the packed device data
//! word, cursor coordinates, and (for keys) a virtual-key code with an
//! auto-repeat marker. The second is the raw device encoding of the
//! device-scan backend: an event type, an event code, and a value where
//! 1 is press, 0 is release and 2 marks hardware auto-repeat.
//!
//! Events outside the supported set (wheel messages, unknown codes,
//! auto-repeats) normalize to `None` and must never reach a sink.

use vstd::prelude::*;
use crate::events::{ButtonCode, EventClass, CapturedEvent, Phase, spec_button_value};

verus! {

// Message codes of the low-level hook encoding.
pub const MSG_LEFT_DOWN: u32 = 0x0201;
pub const MSG_LEFT_UP: u32 = 0x0202;
pub const MSG_RIGHT_DOWN: u32 = 0x0204;
pub const MSG_RIGHT_UP: u32 = 0x0205;
pub const MSG_MIDDLE_DOWN: u32 = 0x0207;
pub const MSG_MIDDLE_UP: u32 = 0x0208;
pub const MSG_EXTENDED_DOWN: u32 = 0x020B;
pub const MSG_EXTENDED_UP: u32 = 0x020C;
pub const MSG_WHEEL: u32 = 0x020A;
pub const MSG_HWHEEL: u32 = 0x020E;
pub const MSG_KEY_DOWN: u32 = 0x0100;
pub const MSG_KEY_UP: u32 = 0x0101;
pub const MSG_SYSKEY_DOWN: u32 = 0x0104;
pub const MSG_SYSKEY_UP: u32 = 0x0105;

// Raw device encoding: the event type of key and button transitions,
// and the value that marks a hardware auto-repeat.
pub const DEV_TYPE_KEY: u16 = 0x01;
pub const DEV_TYPE_RELATIVE: u16 = 0x02;
pub const DEV_VALUE_UP: i32 = 0;
pub const DEV_VALUE_DOWN: i32 = 1;
pub const DEV_VALUE_REPEAT: i32 = 2;

// Raw device button codes of the conventional mouse-button range.
pub const DEV_BTN_LEFT: u16 = 0x110;
pub const DEV_BTN_RIGHT: u16 = 0x111;
pub const DEV_BTN_MIDDLE: u16 = 0x112;
pub const DEV_BTN_SIDE: u16 = 0x113;
pub const DEV_BTN_EXTRA: u16 = 0x114;
pub const DEV_BTN_RANGE_END: u16 = 0x117;

/// The extended-button index packed in the upper 16 bits of the hook's
/// device data word.
pub open spec fn spec_extended_index(mouse_data: u32) -> u32 {
    (mouse_data >> 16) & 0xffff
}

/// The side button an extended-button message denotes: index 1 is
/// Side1, every other index Side2.
pub open spec fn spec_extended_button(mouse_data: u32) -> ButtonCode {
    if spec_extended_index(mouse_data) == 1 {
        ButtonCode::Side1
    } else {
        ButtonCode::Side2
    }
}

/// What a raw mouse message normalizes to: the three plain buttons map
/// by message code, the extended-button messages pick a side button
/// from the device data word, and every other message (wheel included)
/// maps to `None`.
pub open spec fn spec_normalize_mouse_message(
    msg: u32,
    mouse_data: u32,
    x: i32,
    y: i32,
) -> Option<CapturedEvent> {
    if msg == MSG_LEFT_DOWN {
        Some(CapturedEvent::MouseButton { x, y, button: ButtonCode::Left, phase: Phase::Down })
    } else if msg == MSG_LEFT_UP {
        Some(CapturedEvent::MouseButton { x, y, button: ButtonCode::Left, phase: Phase::Up })
    } else if msg == MSG_RIGHT_DOWN {
        Some(CapturedEvent::MouseButton { x, y, button: ButtonCode::Right, phase: Phase::Down })
    } else if msg == MSG_RIGHT_UP {
        Some(CapturedEvent::MouseButton { x, y, button: ButtonCode::Right, phase: Phase::Up })
    } else if msg == MSG_MIDDLE_DOWN {
        Some(CapturedEvent::MouseButton { x, y, button: ButtonCode::Middle, phase: Phase::Down })
    } else if msg == MSG_MIDDLE_UP {
        Some(CapturedEvent::MouseButton { x, y, button: ButtonCode::Middle, phase: Phase::Up })
    } else if msg == MSG_EXTENDED_DOWN {
        Some(CapturedEvent::MouseButton {
            x,
            y,
            button: spec_extended_button(mouse_data),
            phase: Phase::Down,
        })
    } else if msg == MSG_EXTENDED_UP {
        Some(CapturedEvent::MouseButton {
            x,
            y,
            button: spec_extended_button(mouse_data),
            phase: Phase::Up,
        })
    } else {
        None
    }
}

/// Normalizes one raw mouse message of the hook encoding.
///
/// Coordinates are echoed unchanged into the event. Wheel and unknown
/// messages return `None`.
pub fn normalize_mouse_message(msg: u32, mouse_data: u32, x: i32, y: i32) -> (r: Option<
    CapturedEvent,
>)
    ensures
        r == spec_normalize_mouse_message(msg, mouse_data, x, y),
{
    let (button, phase): (ButtonCode, Phase) = if msg == MSG_LEFT_DOWN {
        (ButtonCode::Left, Phase::Down)
    } else if msg == MSG_LEFT_UP {
        (ButtonCode::Left, Phase::Up)
    } else if msg == MSG_RIGHT_DOWN {
        (ButtonCode::Right, Phase::Down)
    } else if msg == MSG_RIGHT_UP {
        (ButtonCode::Right, Phase::Up)
    } else if msg == MSG_MIDDLE_DOWN {
        (ButtonCode::Middle, Phase::Down)
    } else if msg == MSG_MIDDLE_UP {
        (ButtonCode::Middle, Phase::Up)
    } else if msg == MSG_EXTENDED_DOWN || msg == MSG_EXTENDED_UP {
        let index = (mouse_data >> 16) & 0xffff;
        let button = if index == 1 {
            ButtonCode::Side1
        } else {
            ButtonCode::Side2
        };
        let phase = if msg == MSG_EXTENDED_DOWN {
            Phase::Down
        } else {
            Phase::Up
        };
        (button, phase)
    } else {
        return None;
    };
    Some(CapturedEvent::MouseButton { x, y, button, phase })
}

/// One raw keyboard event of the hook encoding: the message code, the
/// virtual-key code, and the auto-repeat marker the decoder extracted
/// from the raw record.
#[derive(Clone, Copy, PartialEq, Eq, Structural, Debug)]
pub struct RawKeyMessage {
    pub msg: u32,
    pub vk_code: u32,
    pub repeat: bool,
}

/// Whether a message code is one of the two down-phase key messages.
pub open spec fn spec_is_key_down_msg(msg: u32) -> bool {
    msg == MSG_KEY_DOWN || msg == MSG_SYSKEY_DOWN
}

/// Whether a message code is one of the two up-phase key messages.
pub open spec fn spec_is_key_up_msg(msg: u32) -> bool {
    msg == MSG_KEY_UP || msg == MSG_SYSKEY_UP
}

/// What a raw key message normalizes to. A down message whose repeat
/// marker is set is dropped: only the first down of a held key is
/// surfaced. Messages outside the four key messages map to `None`.
pub open spec fn spec_normalize_key_message(raw: RawKeyMessage) -> Option<CapturedEvent> {
    if spec_is_key_down_msg(raw.msg) {
        if raw.repeat {
            None
        } else {
            Some(CapturedEvent::Key { code: raw.vk_code, phase: Phase::Down })
        }
    } else if spec_is_key_up_msg(raw.msg) {
        Some(CapturedEvent::Key { code: raw.vk_code, phase: Phase::Up })
    } else {
        None
    }
}

/// Normalizes one raw keyboard message of the hook encoding,
/// suppressing auto-repeats of a held key.
pub fn normalize_key_message(raw: RawKeyMessage) -> (r: Option<CapturedEvent>)
    ensures
        r == spec_normalize_key_message(raw),
{
    if raw.msg == MSG_KEY_DOWN || raw.msg == MSG_SYSKEY_DOWN {
        if raw.repeat {
            None
        } else {
            Some(CapturedEvent::Key { code: raw.vk_code, phase: Phase::Down })
        }
    } else if raw.msg == MSG_KEY_UP || raw.msg == MSG_SYSKEY_UP {
        Some(CapturedEvent::Key { code: raw.vk_code, phase: Phase::Up })
    } else {
        None
    }
}

/// The button a raw device key code denotes, if it denotes one: the
/// five conventional button codes map to the canonical values 1
/// through 5, every other code to `None`.
pub open spec fn spec_device_button(code: u16) -> Option<u32> {
    if code == DEV_BTN_LEFT {
        Some(1u32)
    } else if code == DEV_BTN_RIGHT {
        Some(2u32)
    } else if code == DEV_BTN_MIDDLE {
        Some(3u32)
    } else if code == DEV_BTN_SIDE {
        Some(4u32)
    } else if code == DEV_BTN_EXTRA {
        Some(5u32)
    } else {
        None
    }
}

/// Maps a raw device key code to its canonical mouse-button value.
pub fn evdev_key_to_mouse_button(code: u16) -> (r: Option<u32>)
    ensures
        r == spec_device_button(code),
{
    if code == DEV_BTN_LEFT {
        Some(1)
    } else if code == DEV_BTN_RIGHT {
        Some(2)
    } else if code == DEV_BTN_MIDDLE {
        Some(3)
    } else if code == DEV_BTN_SIDE {
        Some(4)
    } else if code == DEV_BTN_EXTRA {
        Some(5)
    } else {
        None
    }
}

/// The button enum behind a canonical button value 1 through 5.
pub open spec fn spec_button_of_value(v: u32) -> ButtonCode {
    if v == 1 {
        ButtonCode::Left
    } else if v == 2 {
        ButtonCode::Right
    } else if v == 3 {
        ButtonCode::Middle
    } else if v == 4 {
        ButtonCode::Side1
    } else {
        ButtonCode::Side2
    }
}

/// Law: the device button mapping is total on the supported range and
/// empty outside it. Every code from the left button through the extra
/// button maps to exactly one canonical value, the values lie in 1
/// through 5, distinct codes map to distinct values, and every code
/// outside the range maps to `None`.
pub proof fn lemma_device_button_mapping(code: u16, other: u16)
    ensures
        DEV_BTN_LEFT <= code && code <= DEV_BTN_EXTRA ==> (spec_device_button(code) matches Some(v)
            && 1 <= v <= 5),
        !(DEV_BTN_LEFT <= code && code <= DEV_BTN_EXTRA) ==> spec_device_button(code) is None,
        code != other && spec_device_button(code) is Some && spec_device_button(other) is Some
            ==> spec_device_button(code) != spec_device_button(other),
{
}

/// Law: every supported raw mouse message normalizes to a mouse-button
/// event whose canonical button value lies in 1 through 5, with the
/// coordinates echoed unchanged, and the wheel messages normalize to
/// `None`.
pub proof fn lemma_mouse_message_mapping(msg: u32, mouse_data: u32, x: i32, y: i32)
    ensures
        spec_normalize_mouse_message(msg, mouse_data, x, y) matches Some(ev) ==> (
        ev matches CapturedEvent::MouseButton { x: ex, y: ey, button, .. } && ex == x && ey == y && 1
            <= spec_button_value(button) <= 5),
        msg == MSG_WHEEL || msg == MSG_HWHEEL ==> spec_normalize_mouse_message(
            msg,
            mouse_data,
            x,
            y,
        ) is None,
{
}

/// One raw event of the device encoding.
#[derive(Clone, Copy, PartialEq, Eq, Structural, Debug)]
pub struct RawDeviceEvent {
    pub event_type: u16,
    pub code: u16,
    pub value: i32,
}

/// What a raw device event normalizes to on the mouse path: only key
/// events whose code is a conventional button code are surfaced, with
/// value 1 as a press, the repeat value dropped, and every other value
/// a release. No pointer position is available on this path, so the
/// coordinates are `0,0`.
pub open spec fn spec_normalize_device_mouse(raw: RawDeviceEvent) -> Option<CapturedEvent> {
    if raw.event_type != DEV_TYPE_KEY {
        None
    } else {
        match spec_device_button(raw.code) {
            Some(v) => {
                if raw.value == DEV_VALUE_REPEAT {
                    None
                } else {
                    Some(CapturedEvent::MouseButton {
                        x: 0,
                        y: 0,
                        button: spec_button_of_value(v),
                        phase: if raw.value == DEV_VALUE_DOWN {
                            Phase::Down
                        } else {
                            Phase::Up
                        },
                    })
                }
            },
            None => None,
        }
    }
}

/// Normalizes one raw device event on the mouse path.
pub fn normalize_device_mouse(raw: RawDeviceEvent) -> (r: Option<CapturedEvent>)
    ensures
        r == spec_normalize_device_mouse(raw),
{
    if raw.event_type != DEV_TYPE_KEY {
        return None;
    }
    match evdev_key_to_mouse_button(raw.code) {
        Some(v) => {
            if raw.value == DEV_VALUE_REPEAT {
                None
            } else {
                let button = if v == 1 {
                    ButtonCode::Left
                } else if v == 2 {
                    ButtonCode::Right
                } else if v == 3 {
                    ButtonCode::Middle
                } else if v == 4 {
                    ButtonCode::Side1
                } else {
                    ButtonCode::Side2
                };
                let phase = if raw.value == DEV_VALUE_DOWN {
                    Phase::Down
                } else {
                    Phase::Up
                };
                Some(CapturedEvent::MouseButton { x: 0, y: 0, button, phase })
            }
        },
        None => None,
    }
}

/// What a raw device event normalizes to on the keyboard path: only
/// key events whose code is not a mouse-button code are surfaced, the
/// hardware auto-repeat value is dropped, value 1 is a press and every
/// other value a release.
pub open spec fn spec_normalize_device_key(raw: RawDeviceEvent) -> Option<CapturedEvent> {
    if raw.event_type != DEV_TYPE_KEY {
        None
    } else if spec_device_button(raw.code) is Some {
        None
    } else if raw.value == DEV_VALUE_REPEAT {
        None
    } else {
        Some(CapturedEvent::Key {
            code: raw.code as u32,
            phase: if raw.value == DEV_VALUE_DOWN {
                Phase::Down
            } else {
                Phase::Up
            },
        })
    }
}

/// Normalizes one raw device event on the keyboard path, skipping
/// mouse buttons and hardware auto-repeats.
pub fn normalize_device_key(raw: RawDeviceEvent) -> (r: Option<CapturedEvent>)
    ensures
        r == spec_normalize_device_key(raw),
{
    if raw.event_type != DEV_TYPE_KEY {
        return None;
    }
    if evdev_key_to_mouse_button(raw.code).is_some() {
        return None;
    }
    if raw.value == DEV_VALUE_REPEAT {
        return None;
    }
    let phase = if raw.value == DEV_VALUE_DOWN {
        Phase::Down
    } else {
        Phase::Up
    };
    Some(CapturedEvent::Key { code: raw.code as u32, phase })
}

/// What a raw device event normalizes to for a given event class: the
/// mouse path for the mouse class, the keyboard path for the keyboard
/// class.
pub open spec fn spec_normalize_device_event(class: EventClass, raw: RawDeviceEvent) -> Option<
    CapturedEvent,
> {
    match class {
        EventClass::Mouse => spec_normalize_device_mouse(raw),
        EventClass::Keyboard => spec_normalize_device_key(raw),
    }
}

/// Normalizes one raw device event for an event class.
pub fn normalize_device_event(class: EventClass, raw: RawDeviceEvent) -> (r: Option<CapturedEvent>)
    ensures
        r == spec_normalize_device_event(class, raw),
{
    match class {
        EventClass::Mouse => normalize_device_mouse(raw),
        EventClass::Keyboard => normalize_device_key(raw),
    }
}

} // verus!
