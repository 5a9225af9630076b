use global_mouse_hook::devio::handle_device_event;
use global_mouse_hook::events::{ButtonCode, CapturedEvent, EventClass, Phase};

#[test]
fn fetched_button_press_is_delivered() {
    // A real raw event as the device library represents it: type 1
    // (key), the left-button code, value 1 (press). If any trusted
    // accessor misread a field, the mapping below would change.
    let ev = evdev::InputEvent::new(1, 0x110, 1);
    let r = handle_device_event(&ev, EventClass::Mouse, Some(7));
    assert_eq!(
        r,
        Some((
            7,
            CapturedEvent::MouseButton { x: 0, y: 0, button: ButtonCode::Left, phase: Phase::Down }
        ))
    );
}

#[test]
fn fetched_button_release_is_delivered() {
    let ev = evdev::InputEvent::new(1, 0x112, 0);
    let r = handle_device_event(&ev, EventClass::Mouse, Some(3));
    assert_eq!(
        r,
        Some((
            3,
            CapturedEvent::MouseButton { x: 0, y: 0, button: ButtonCode::Middle, phase: Phase::Up }
        ))
    );
}

#[test]
fn fetched_key_press_is_delivered() {
    let ev = evdev::InputEvent::new(1, 30, 1);
    let r = handle_device_event(&ev, EventClass::Keyboard, Some(9));
    assert_eq!(r, Some((9, CapturedEvent::Key { code: 30, phase: Phase::Down })));
}

#[test]
fn fetched_repeat_is_suppressed() {
    let ev = evdev::InputEvent::new(1, 30, 2);
    let r = handle_device_event(&ev, EventClass::Keyboard, Some(9));
    assert_eq!(r, None);
}

#[test]
fn fetched_event_without_sink_is_dropped() {
    let ev = evdev::InputEvent::new(1, 0x110, 1);
    let r = handle_device_event(&ev, EventClass::Mouse, None);
    assert_eq!(r, None);
}

#[test]
fn fetched_motion_is_not_a_button() {
    // Type 2 is relative motion; neither path surfaces it.
    let ev = evdev::InputEvent::new(2, 0, 4);
    assert_eq!(handle_device_event(&ev, EventClass::Mouse, Some(1)), None);
    assert_eq!(handle_device_event(&ev, EventClass::Keyboard, Some(1)), None);
}

#[test]
fn fetched_key_is_not_a_mouse_event() {
    let ev = evdev::InputEvent::new(1, 30, 1);
    assert_eq!(handle_device_event(&ev, EventClass::Mouse, Some(1)), None);
    let btn = evdev::InputEvent::new(1, 0x110, 1);
    assert_eq!(handle_device_event(&btn, EventClass::Keyboard, Some(1)), None);
}
