use global_mouse_hook::events::{ButtonCode, CapturedEvent, Phase};
use global_mouse_hook::normalize::{
    RawDeviceEvent, RawKeyMessage, MSG_KEY_DOWN, MSG_KEY_UP, MSG_LEFT_DOWN, MSG_LEFT_UP,
    MSG_EXTENDED_DOWN,
};
use global_mouse_hook::pump::{
    device_key_pump_step, device_mouse_pump_step, key_pump_step, mouse_pump_step,
    normalize_device_key_stream, normalize_key_stream,
};

#[test]
fn left_click_reaches_the_sink_with_coordinates() {
    let down = mouse_pump_step(Some(42), MSG_LEFT_DOWN, 0, 100, 200);
    assert_eq!(
        down,
        Some((
            42,
            CapturedEvent::MouseButton { x: 100, y: 200, button: ButtonCode::Left, phase: Phase::Down }
        ))
    );
    let up = mouse_pump_step(Some(42), MSG_LEFT_UP, 0, 100, 200);
    assert_eq!(
        up,
        Some((
            42,
            CapturedEvent::MouseButton { x: 100, y: 200, button: ButtonCode::Left, phase: Phase::Up }
        ))
    );
}

#[test]
fn extended_button_reaches_the_sink_with_side_code() {
    let side1 = mouse_pump_step(Some(1), MSG_EXTENDED_DOWN, 1 << 16, 0, 0);
    match side1 {
        Some((sink, CapturedEvent::MouseButton { button, phase, .. })) => {
            assert_eq!(sink, 1);
            assert_eq!(button.value(), 4);
            assert_eq!(phase, Phase::Down);
        }
        other => panic!("unexpected delivery: {:?}", other),
    }
    let side2 = mouse_pump_step(Some(1), MSG_EXTENDED_DOWN, 3 << 16, 0, 0);
    match side2 {
        Some((_, CapturedEvent::MouseButton { button, .. })) => assert_eq!(button.value(), 5),
        other => panic!("unexpected delivery: {:?}", other),
    }
}

#[test]
fn empty_slot_drops_the_event() {
    assert_eq!(mouse_pump_step(None, MSG_LEFT_DOWN, 0, 1, 1), None);
    let raw = RawKeyMessage { msg: MSG_KEY_DOWN, vk_code: 65, repeat: false };
    assert_eq!(key_pump_step(None, raw), None);
    let dev = RawDeviceEvent { event_type: 1, code: 0x110, value: 1 };
    assert_eq!(device_mouse_pump_step(None, dev), None);
    assert_eq!(device_key_pump_step(None, RawDeviceEvent { event_type: 1, code: 30, value: 1 }), None);
}

#[test]
fn held_key_surfaces_one_down_and_one_up() {
    // Key down, three repeated downs, key up: exactly two events.
    let raws = vec![
        RawKeyMessage { msg: MSG_KEY_DOWN, vk_code: 65, repeat: false },
        RawKeyMessage { msg: MSG_KEY_DOWN, vk_code: 65, repeat: true },
        RawKeyMessage { msg: MSG_KEY_DOWN, vk_code: 65, repeat: true },
        RawKeyMessage { msg: MSG_KEY_DOWN, vk_code: 65, repeat: true },
        RawKeyMessage { msg: MSG_KEY_UP, vk_code: 65, repeat: false },
    ];
    let out = normalize_key_stream(&raws);
    assert_eq!(
        out,
        vec![
            CapturedEvent::Key { code: 65, phase: Phase::Down },
            CapturedEvent::Key { code: 65, phase: Phase::Up },
        ]
    );
}

#[test]
fn all_repeat_downs_surface_nothing() {
    let raws = vec![
        RawKeyMessage { msg: MSG_KEY_DOWN, vk_code: 65, repeat: true },
        RawKeyMessage { msg: MSG_KEY_DOWN, vk_code: 65, repeat: true },
    ];
    assert_eq!(normalize_key_stream(&raws), vec![]);
}

#[test]
fn stream_keeps_order_across_keys() {
    let raws = vec![
        RawKeyMessage { msg: MSG_KEY_DOWN, vk_code: 65, repeat: false },
        RawKeyMessage { msg: MSG_KEY_DOWN, vk_code: 66, repeat: false },
        RawKeyMessage { msg: MSG_KEY_UP, vk_code: 65, repeat: false },
        RawKeyMessage { msg: MSG_KEY_UP, vk_code: 66, repeat: false },
    ];
    let out = normalize_key_stream(&raws);
    assert_eq!(
        out,
        vec![
            CapturedEvent::Key { code: 65, phase: Phase::Down },
            CapturedEvent::Key { code: 66, phase: Phase::Down },
            CapturedEvent::Key { code: 65, phase: Phase::Up },
            CapturedEvent::Key { code: 66, phase: Phase::Up },
        ]
    );
}

#[test]
fn device_stream_drops_hardware_repeats() {
    let raws = vec![
        RawDeviceEvent { event_type: 1, code: 30, value: 1 },
        RawDeviceEvent { event_type: 1, code: 30, value: 2 },
        RawDeviceEvent { event_type: 1, code: 30, value: 2 },
        RawDeviceEvent { event_type: 1, code: 30, value: 0 },
    ];
    let out = normalize_device_key_stream(&raws);
    assert_eq!(
        out,
        vec![
            CapturedEvent::Key { code: 30, phase: Phase::Down },
            CapturedEvent::Key { code: 30, phase: Phase::Up },
        ]
    );
}

#[test]
fn device_stream_skips_buttons_and_motion() {
    let raws = vec![
        RawDeviceEvent { event_type: 2, code: 0, value: 3 },
        RawDeviceEvent { event_type: 1, code: 0x110, value: 1 },
        RawDeviceEvent { event_type: 1, code: 44, value: 1 },
    ];
    let out = normalize_device_key_stream(&raws);
    assert_eq!(out, vec![CapturedEvent::Key { code: 44, phase: Phase::Down }]);
}
