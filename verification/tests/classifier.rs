use global_mouse_hook::classify::{
    device_matches_class, is_event_node, is_keyboard_device, is_mouse_device, DeviceCaps,
};
use global_mouse_hook::events::EventClass;

fn caps(has_relative: bool, has_keys: bool, key_codes: Vec<u16>) -> DeviceCaps {
    DeviceCaps { has_relative, has_keys, key_codes }
}

#[test]
fn relative_motion_classifies_as_mouse() {
    let c = caps(true, false, vec![]);
    assert!(is_mouse_device(&c));
    assert!(device_matches_class(EventClass::Mouse, &c));
}

#[test]
fn mouse_button_code_classifies_as_mouse() {
    let c = caps(false, true, vec![0x110, 0x111]);
    assert!(is_mouse_device(&c));
    let edge = caps(false, true, vec![0x117]);
    assert!(is_mouse_device(&edge));
}

#[test]
fn thirty_ordinary_keys_classify_as_keyboard() {
    let codes: Vec<u16> = (1u16..=30).collect();
    let c = caps(false, true, codes);
    assert!(is_keyboard_device(&c));
    assert!(device_matches_class(EventClass::Keyboard, &c));
    assert!(!is_mouse_device(&c));
}

#[test]
fn twenty_keys_are_not_enough_for_a_keyboard() {
    let codes: Vec<u16> = (1u16..=20).collect();
    let c = caps(false, true, codes);
    assert!(!is_keyboard_device(&c));
    let codes21: Vec<u16> = (1u16..=21).collect();
    assert!(is_keyboard_device(&caps(false, true, codes21)));
}

#[test]
fn mouse_buttons_do_not_count_toward_the_keyboard_threshold() {
    // 15 ordinary keys plus the whole mouse-button range: still no keyboard.
    let mut codes: Vec<u16> = (1u16..=15).collect();
    codes.extend(0x110u16..=0x117);
    let c = caps(false, true, codes);
    assert!(!is_keyboard_device(&c));
    assert!(is_mouse_device(&c));
}

#[test]
fn key_capability_is_required_for_a_keyboard() {
    let codes: Vec<u16> = (1u16..=30).collect();
    let c = caps(false, false, codes);
    assert!(!is_keyboard_device(&c));
}

#[test]
fn device_with_neither_capability_matches_no_class() {
    let c = caps(false, false, vec![]);
    assert!(!is_mouse_device(&c));
    assert!(!is_keyboard_device(&c));
    assert!(!device_matches_class(EventClass::Mouse, &c));
    assert!(!device_matches_class(EventClass::Keyboard, &c));
}

#[test]
fn event_nodes_are_recognized_by_name() {
    assert!(is_event_node(b"/dev/input/event0"));
    assert!(is_event_node(b"/dev/input/event23"));
    assert!(is_event_node(b"event"));
}

#[test]
fn other_nodes_are_not_event_nodes() {
    assert!(!is_event_node(b"/dev/input/mouse0"));
    assert!(!is_event_node(b"/dev/input/mice"));
    assert!(!is_event_node(b"/dev/input/js0"));
    assert!(!is_event_node(b"even"));
    assert!(!is_event_node(b""));
    assert!(!is_event_node(b"evenevnt"));
}

#[test]
fn codes_outside_the_byte_range_do_not_count() {
    // Codes above 255 that are not mouse buttons count for neither class.
    let codes: Vec<u16> = (0x120u16..=0x140).collect();
    let c = caps(false, true, codes);
    assert!(!is_keyboard_device(&c));
    assert!(!is_mouse_device(&c));
}
