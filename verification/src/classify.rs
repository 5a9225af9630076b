//! Device classifier of the device-scan backend: a best-effort
//! heuristic that labels an input device node as a mouse or a keyboard
//! from the capability set it advertises.

use vstd::prelude::*;
use crate::events::EventClass;
use crate::normalize::{DEV_BTN_LEFT, DEV_BTN_RANGE_END};

verus! {

/// How many ordinary key codes a device must advertise, beyond the
/// mouse-button range, before the heuristic calls it a keyboard.
pub const KEYBOARD_KEY_THRESHOLD: usize = 20;

/// What a device node advertises, reduced to the plain values the
/// heuristic reads: whether it reports relative motion, whether it
/// reports key events at all, and the set of key codes it claims.
#[derive(Clone, PartialEq, Eq, Debug)]
pub struct DeviceCaps {
    pub has_relative: bool,
    pub has_keys: bool,
    pub key_codes: Vec<u16>,
}

/// Whether a key code lies in the conventional mouse-button range.
pub open spec fn spec_is_mouse_button_code(code: u16) -> bool {
    DEV_BTN_LEFT <= code && code <= DEV_BTN_RANGE_END
}

/// Whether a key code counts as an ordinary keyboard key: a code in
/// the byte range that is not a mouse button.
pub open spec fn spec_is_keyboard_key_code(code: u16) -> bool {
    1 <= code && code <= 255 && !spec_is_mouse_button_code(code)
}

/// How many ordinary keyboard keys stand in an advertised code list.
pub open spec fn spec_keyboard_key_count(codes: Seq<u16>) -> nat {
    codes.filter(|c: u16| spec_is_keyboard_key_code(c)).len()
}

/// The mouse heuristic over the plain advertised values: relative
/// motion, or any button in the conventional mouse-button range.
pub open spec fn spec_is_mouse_of(has_relative: bool, codes: Seq<u16>) -> bool {
    has_relative || exists|i: int| 0 <= i < codes.len() && spec_is_mouse_button_code(codes[i])
}

/// The keyboard heuristic over the plain advertised values: key
/// capability and more than the threshold count of ordinary keys.
pub open spec fn spec_is_keyboard_of(has_keys: bool, codes: Seq<u16>) -> bool {
    has_keys && spec_keyboard_key_count(codes) > KEYBOARD_KEY_THRESHOLD
}

/// A device is a mouse if it advertises relative motion or any button
/// in the conventional mouse-button range.
pub open spec fn spec_is_mouse(caps: DeviceCaps) -> bool {
    spec_is_mouse_of(caps.has_relative, caps.key_codes@)
}

/// A device is a keyboard if it advertises key events and more than
/// the threshold count of ordinary keyboard keys.
pub open spec fn spec_is_keyboard(caps: DeviceCaps) -> bool {
    spec_is_keyboard_of(caps.has_keys, caps.key_codes@)
}

/// Whether this key code lies in the conventional mouse-button range.
pub fn is_mouse_button_code(code: u16) -> (r: bool)
    ensures
        r == spec_is_mouse_button_code(code),
{
    DEV_BTN_LEFT <= code && code <= DEV_BTN_RANGE_END
}

/// Whether this key code counts as an ordinary keyboard key.
pub fn is_keyboard_key_code(code: u16) -> (r: bool)
    ensures
        r == spec_is_keyboard_key_code(code),
{
    1 <= code && code <= 255 && !is_mouse_button_code(code)
}

/// Labels a capability set as a mouse: the device reports relative
/// motion, or it reports a button in the mouse-button range.
pub fn is_mouse_device(caps: &DeviceCaps) -> (r: bool)
    ensures
        r == spec_is_mouse(*caps),
{
    if caps.has_relative {
        return true;
    }
    let n = caps.key_codes.len();
    let mut i: usize = 0;
    while i < n
        invariant
            n == caps.key_codes@.len(),
            0 <= i <= n,
            forall|j: int| 0 <= j < i ==> !spec_is_mouse_button_code(caps.key_codes@[j]),
        decreases n - i,
    {
        if is_mouse_button_code(caps.key_codes[i]) {
            return true;
        }
        i = i + 1;
    }
    false
}

/// Labels a capability set as a keyboard: the device reports key
/// events and advertises more than [`KEYBOARD_KEY_THRESHOLD`] ordinary
/// keyboard keys outside the mouse-button range.
pub fn is_keyboard_device(caps: &DeviceCaps) -> (r: bool)
    ensures
        r == spec_is_keyboard(*caps),
{
    if !caps.has_keys {
        return false;
    }
    let n = caps.key_codes.len();
    let mut i: usize = 0;
    let mut count: usize = 0;
    proof {
        assert(caps.key_codes@.take(0int).filter(|c: u16| spec_is_keyboard_key_code(c))
            =~= Seq::<u16>::empty());
    }
    while i < n
        invariant
            n == caps.key_codes@.len(),
            0 <= i <= n,
            count == caps.key_codes@.take(i as int).filter(
                |c: u16| spec_is_keyboard_key_code(c),
            ).len(),
            count <= i,
        decreases n - i,
    {
        let ghost prefix = caps.key_codes@.take(i as int);
        let code = caps.key_codes[i];
        proof {
            assert(caps.key_codes@.take(i + 1int).drop_last() =~= prefix);
            assert(caps.key_codes@.take(i + 1int).last() == code);
            reveal_with_fuel(Seq::filter, 2);
        }
        if is_keyboard_key_code(code) {
            count = count + 1;
        }
        i = i + 1;
    }
    proof {
        assert(caps.key_codes@.take(n as int) =~= caps.key_codes@);
    }
    count > KEYBOARD_KEY_THRESHOLD
}

/// Whether the plain advertised values match an event class: the
/// mouse heuristic for the mouse class, the keyboard heuristic for the
/// keyboard class. A device matching neither class is not monitored.
pub open spec fn spec_matches_class_of(
    class: EventClass,
    has_relative: bool,
    has_keys: bool,
    codes: Seq<u16>,
) -> bool {
    match class {
        EventClass::Mouse => spec_is_mouse_of(has_relative, codes),
        EventClass::Keyboard => spec_is_keyboard_of(has_keys, codes),
    }
}

/// Whether a capability set matches an event class.
pub open spec fn spec_matches_class(class: EventClass, caps: DeviceCaps) -> bool {
    spec_matches_class_of(class, caps.has_relative, caps.has_keys, caps.key_codes@)
}

/// Decides whether a scanned device should be monitored for an event
/// class.
pub fn device_matches_class(class: EventClass, caps: &DeviceCaps) -> (r: bool)
    ensures
        r == spec_matches_class(class, *caps),
{
    match class {
        EventClass::Mouse => is_mouse_device(caps),
        EventClass::Keyboard => is_keyboard_device(caps),
    }
}

/// The marker every input event node's file name carries: the ASCII
/// bytes of the word `event`.
pub open spec fn spec_event_marker() -> Seq<u8> {
    seq![101u8, 118u8, 101u8, 110u8, 116u8]
}

/// Whether the marker stands in a name at position `i`.
pub open spec fn spec_marker_at(name: Seq<u8>, i: int) -> bool {
    0 <= i && i + 5 <= name.len() && name.subrange(i, i + 5) == spec_event_marker()
}

/// Whether a scanned file name denotes an input event node: the
/// device directory holds other nodes too, and only names carrying
/// the event marker are opened.
pub open spec fn spec_is_event_node(name: Seq<u8>) -> bool {
    exists|i: int| spec_marker_at(name, i)
}

/// Whether the event marker stands at position `i` of a name.
fn marker_at(name: &[u8], i: usize) -> (r: bool)
    requires
        i + 5 <= name@.len(),
    ensures
        r == spec_marker_at(name@, i as int),
{
    let r = name[i] == 101 && name[i + 1] == 118 && name[i + 2] == 101 && name[i + 3] == 110
        && name[i + 4] == 116;
    proof {
        let s = name@.subrange(i as int, i as int + 5);
        assert(s.len() == 5);
        assert(s[0] == name@[i as int]);
        assert(s[1] == name@[i as int + 1]);
        assert(s[2] == name@[i as int + 2]);
        assert(s[3] == name@[i as int + 3]);
        assert(s[4] == name@[i as int + 4]);
        if r {
            assert(s =~= spec_event_marker());
        } else {
            assert(s != spec_event_marker()) by {
                if s == spec_event_marker() {
                    assert(s[0] == 101 && s[1] == 118 && s[2] == 101 && s[3] == 110 && s[4]
                        == 116);
                }
            }
        }
    }
    r
}

/// Decides whether a scanned file name denotes an input event node,
/// by searching the name for the event marker.
pub fn is_event_node(name: &[u8]) -> (r: bool)
    ensures
        r == spec_is_event_node(name@),
{
    let n = name.len();
    if n < 5 {
        return false;
    }
    let mut i: usize = 0;
    while i <= n - 5
        invariant
            n == name@.len(),
            5 <= n,
            0 <= i <= n - 5 + 1,
            forall|j: int| 0 <= j < i ==> !spec_marker_at(name@, j),
        decreases n - i,
    {
        if marker_at(name, i) {
            return true;
        }
        i = i + 1;
    }
    false
}

} // verus!
