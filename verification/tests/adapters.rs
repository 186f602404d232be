use std::time::Duration;
use synapse::capture::{
    rdev_button_to_proto, rdev_event_to_message, rdev_key_to_proto, whole_to_fixed,
    CapturedButton, CapturedEvent, CapturedKey, InputCapturer,
};
use synapse::clipboard::{ClipboardContent, ClipboardWatcher, DEFAULT_POLL_MILLIS};
use synapse::input::{ButtonAction, KeyAction, KeyCode, MouseButton};
use synapse::message::{DeviceId, Message};
use synapse::screen::{from_pixels, to_pixels, Edge, ScreenId, ScreenPosition};
use synapse::simulate::{
    injection_for, scroll, to_enigo_button, to_enigo_key, InjectedButton, InjectedKey, Injection,
    ScrollAxis,
};

fn fixed(v: f64) -> i64 {
    (v * 65536.0).round() as i64
}

#[test]
fn pixels_to_fixed_and_back() {
    assert_eq!(from_pixels(0), 0);
    assert_eq!(from_pixels(3), 196608);
    assert_eq!(from_pixels(-3), -196608);
    assert_eq!(from_pixels(i32::MAX), i32::MAX as i64 * 65536);
    assert_eq!(from_pixels(i32::MIN), i32::MIN as i64 * 65536);
    for n in [0, 1, -1, 540, -540, i32::MAX, i32::MIN] {
        assert_eq!(to_pixels(from_pixels(n)), n);
    }
}

#[test]
fn to_pixels_truncates_towards_zero_and_saturates() {
    assert_eq!(to_pixels(fixed(2.75)), 2);
    assert_eq!(to_pixels(fixed(-2.75)), -2);
    assert_eq!(to_pixels(65535), 0);
    assert_eq!(to_pixels(-65535), 0);
    assert_eq!(to_pixels(-65536), -1);
    assert_eq!(to_pixels(i64::MAX), i32::MAX);
    assert_eq!(to_pixels(i64::MIN), i32::MIN);
    assert_eq!(to_pixels(i64::MIN + 1), i32::MIN);
    assert_eq!(to_pixels((i32::MAX as i64 + 1) * 65536), i32::MAX);
}

#[test]
fn whole_to_fixed_saturates() {
    assert_eq!(whole_to_fixed(0), 0);
    assert_eq!(whole_to_fixed(-3), -196608);
    assert_eq!(whole_to_fixed(i64::MAX / 65536), (i64::MAX / 65536) * 65536);
    assert_eq!(whole_to_fixed(i64::MAX / 65536 + 1), i64::MAX);
    assert_eq!(whole_to_fixed(i64::MIN / 65536), i64::MIN);
    assert_eq!(whole_to_fixed(i64::MIN / 65536 - 1), i64::MIN);
    assert_eq!(whole_to_fixed(i64::MAX), i64::MAX);
    assert_eq!(whole_to_fixed(i64::MIN), i64::MIN);
}

#[test]
fn capturer_can_be_made() {
    let _capturer = InputCapturer::new();
}

#[test]
fn captured_events_become_messages() {
    assert_eq!(
        rdev_event_to_message(&CapturedEvent::MouseMove { x: fixed(1.5), y: fixed(2.0) }),
        Some(Message::MouseMove { x: fixed(1.5), y: fixed(2.0) })
    );
    assert_eq!(
        rdev_event_to_message(&CapturedEvent::ButtonPress(CapturedButton::Right)),
        Some(Message::MouseButtonEvent { button: MouseButton::Right, action: ButtonAction::Press })
    );
    assert_eq!(
        rdev_event_to_message(&CapturedEvent::ButtonRelease(CapturedButton::Unknown(4))),
        Some(Message::MouseButtonEvent {
            button: MouseButton::Back,
            action: ButtonAction::Release
        })
    );
    assert_eq!(
        rdev_event_to_message(&CapturedEvent::KeyPress(CapturedKey::Return)),
        Some(Message::KeyEvent { key: KeyCode::Enter, action: KeyAction::Press })
    );
    assert_eq!(
        rdev_event_to_message(&CapturedEvent::KeyRelease(CapturedKey::KeyQ)),
        Some(Message::KeyEvent { key: KeyCode::KeyQ, action: KeyAction::Release })
    );
    assert_eq!(
        rdev_event_to_message(&CapturedEvent::Wheel { delta_x: 1, delta_y: -2 }),
        Some(Message::MouseScroll { dx: fixed(1.0), dy: fixed(-2.0) })
    );
}

#[test]
fn captured_buttons() {
    assert_eq!(rdev_button_to_proto(&CapturedButton::Left), MouseButton::Left);
    assert_eq!(rdev_button_to_proto(&CapturedButton::Right), MouseButton::Right);
    assert_eq!(rdev_button_to_proto(&CapturedButton::Middle), MouseButton::Middle);
    assert_eq!(rdev_button_to_proto(&CapturedButton::Unknown(4)), MouseButton::Back);
    assert_eq!(rdev_button_to_proto(&CapturedButton::Unknown(5)), MouseButton::Forward);
    assert_eq!(rdev_button_to_proto(&CapturedButton::Unknown(6)), MouseButton::Left);
    assert_eq!(rdev_button_to_proto(&CapturedButton::Unknown(0)), MouseButton::Left);
}

#[test]
fn captured_keys() {
    let pairs = vec![
        (CapturedKey::KeyA, KeyCode::KeyA),
        (CapturedKey::KeyZ, KeyCode::KeyZ),
        (CapturedKey::Num0, KeyCode::Num0),
        (CapturedKey::Num9, KeyCode::Num9),
        (CapturedKey::F1, KeyCode::F1),
        (CapturedKey::F12, KeyCode::F12),
        (CapturedKey::ShiftLeft, KeyCode::LeftShift),
        (CapturedKey::ShiftRight, KeyCode::RightShift),
        (CapturedKey::ControlLeft, KeyCode::LeftCtrl),
        (CapturedKey::ControlRight, KeyCode::RightCtrl),
        (CapturedKey::Alt, KeyCode::LeftAlt),
        (CapturedKey::AltGr, KeyCode::RightAlt),
        (CapturedKey::MetaLeft, KeyCode::LeftMeta),
        (CapturedKey::MetaRight, KeyCode::RightMeta),
        (CapturedKey::Escape, KeyCode::Escape),
        (CapturedKey::Tab, KeyCode::Tab),
        (CapturedKey::CapsLock, KeyCode::CapsLock),
        (CapturedKey::Space, KeyCode::Space),
        (CapturedKey::Return, KeyCode::Enter),
        (CapturedKey::Backspace, KeyCode::Backspace),
        (CapturedKey::Delete, KeyCode::Delete),
        (CapturedKey::Insert, KeyCode::Insert),
        (CapturedKey::Home, KeyCode::Home),
        (CapturedKey::End, KeyCode::End),
        (CapturedKey::PageUp, KeyCode::PageUp),
        (CapturedKey::PageDown, KeyCode::PageDown),
        (CapturedKey::UpArrow, KeyCode::ArrowUp),
        (CapturedKey::DownArrow, KeyCode::ArrowDown),
        (CapturedKey::LeftArrow, KeyCode::ArrowLeft),
        (CapturedKey::RightArrow, KeyCode::ArrowRight),
        (CapturedKey::PrintScreen, KeyCode::PrintScreen),
        (CapturedKey::ScrollLock, KeyCode::ScrollLock),
        (CapturedKey::Pause, KeyCode::Pause),
        (CapturedKey::Unknown(1234), KeyCode::Unknown(1234)),
        (CapturedKey::Unknown(0), KeyCode::Unknown(0)),
        (CapturedKey::NumLock, KeyCode::Unknown(0)),
        (CapturedKey::Kp5, KeyCode::Unknown(0)),
        (CapturedKey::Comma, KeyCode::Unknown(0)),
        (CapturedKey::Function, KeyCode::Unknown(0)),
    ];
    for (captured, code) in pairs {
        assert_eq!(rdev_key_to_proto(&captured), code);
    }
}

#[test]
fn injected_buttons_and_keys() {
    assert_eq!(to_enigo_button(MouseButton::Left), InjectedButton::Left);
    assert_eq!(to_enigo_button(MouseButton::Right), InjectedButton::Right);
    assert_eq!(to_enigo_button(MouseButton::Middle), InjectedButton::Middle);
    assert_eq!(to_enigo_button(MouseButton::Back), InjectedButton::Back);
    assert_eq!(to_enigo_button(MouseButton::Forward), InjectedButton::Forward);
    let pairs = vec![
        (KeyCode::KeyA, InjectedKey::Unicode('a')),
        (KeyCode::KeyZ, InjectedKey::Unicode('z')),
        (KeyCode::Num0, InjectedKey::Unicode('0')),
        (KeyCode::Num9, InjectedKey::Unicode('9')),
        (KeyCode::Enter, InjectedKey::Return),
        (KeyCode::Escape, InjectedKey::Escape),
        (KeyCode::ArrowUp, InjectedKey::UpArrow),
        (KeyCode::PageDown, InjectedKey::PageDown),
        (KeyCode::F7, InjectedKey::F7),
        (KeyCode::LeftShift, InjectedKey::Shift),
        (KeyCode::RightShift, InjectedKey::Shift),
        (KeyCode::LeftCtrl, InjectedKey::Control),
        (KeyCode::RightCtrl, InjectedKey::Control),
        (KeyCode::LeftAlt, InjectedKey::Alt),
        (KeyCode::RightAlt, InjectedKey::Alt),
        (KeyCode::LeftMeta, InjectedKey::Meta),
        (KeyCode::RightMeta, InjectedKey::Meta),
        (KeyCode::Insert, InjectedKey::Unicode('\0')),
        (KeyCode::PrintScreen, InjectedKey::Unicode('\0')),
        (KeyCode::ScrollLock, InjectedKey::Unicode('\0')),
        (KeyCode::Pause, InjectedKey::Unicode('\0')),
        (KeyCode::Unknown(65), InjectedKey::Unicode('\0')),
    ];
    for (code, key) in pairs {
        assert_eq!(to_enigo_key(code), key);
    }
}

#[test]
fn scroll_skips_still_axes_and_goes_vertical_first() {
    let v = |n| Injection::Scroll { length: n, axis: ScrollAxis::Vertical };
    let h = |n| Injection::Scroll { length: n, axis: ScrollAxis::Horizontal };
    assert_eq!(scroll(0, 0), vec![]);
    assert_eq!(scroll(0, 3), vec![v(3)]);
    assert_eq!(scroll(-2, 0), vec![h(-2)]);
    assert_eq!(scroll(5, -7), vec![v(-7), h(5)]);
}

#[test]
fn injection_for_each_message() {
    assert_eq!(
        injection_for(Message::MouseMove { x: fixed(10.9), y: fixed(-0.5) }),
        vec![Injection::MoveAbs { x: 10, y: 0 }]
    );
    assert_eq!(
        injection_for(Message::MouseDelta { dx: fixed(-20.25), dy: fixed(7.0) }),
        vec![Injection::MoveRel { dx: -20, dy: 7 }]
    );
    assert_eq!(
        injection_for(Message::MouseButtonEvent {
            button: MouseButton::Middle,
            action: ButtonAction::Release
        }),
        vec![Injection::Button { button: InjectedButton::Middle, action: ButtonAction::Release }]
    );
    assert_eq!(
        injection_for(Message::KeyEvent { key: KeyCode::KeyA, action: KeyAction::Press }),
        vec![Injection::Key { key: InjectedKey::Unicode('a'), action: KeyAction::Press }]
    );
    assert_eq!(
        injection_for(Message::MouseScroll { dx: fixed(1.0), dy: fixed(-2.0) }),
        vec![
            Injection::Scroll { length: -2, axis: ScrollAxis::Vertical },
            Injection::Scroll { length: 1, axis: ScrollAxis::Horizontal },
        ]
    );
    assert_eq!(injection_for(Message::MouseScroll { dx: fixed(0.5), dy: 0 }), vec![]);
    assert_eq!(
        injection_for(Message::ClipboardText { text: "hi".to_string() }),
        vec![Injection::SetClipboardText { text: "hi".to_string() }]
    );
}

#[test]
fn messages_that_inject_nothing() {
    let position = ScreenPosition { x: 0, y: 0 };
    let quiet = vec![
        Message::ClipboardImage { width: 1, height: 1, data: vec![0, 0, 0, 0] },
        Message::EnterScreen { screen_id: ScreenId(0), position },
        Message::LeaveScreen { screen_id: ScreenId(0), edge: Edge::Left, position },
        Message::Bye { device_id: DeviceId("x".to_string()) },
        Message::Ping(1),
        Message::Pong(1),
    ];
    for m in quiet {
        assert_eq!(injection_for(m), vec![]);
    }
}

#[test]
fn watcher_tells_each_change_once() {
    assert_eq!(DEFAULT_POLL_MILLIS, 500);
    let mut w = ClipboardWatcher::new(Duration::from_millis(DEFAULT_POLL_MILLIS));
    assert_eq!(w.poll_interval(), Duration::from_millis(500));
    assert_eq!(w.observe(Some(String::new())), None);
    assert_eq!(
        w.observe(Some("a".to_string())),
        Some(ClipboardContent::Text("a".to_string()))
    );
    assert_eq!(w.observe(Some("a".to_string())), None);
    assert_eq!(w.observe(None), None);
    assert_eq!(w.observe(Some(String::new())), None);
    // The empty read did not make the watcher forget.
    assert_eq!(w.observe(Some("a".to_string())), None);
    assert_eq!(
        w.observe(Some("b".to_string())),
        Some(ClipboardContent::Text("b".to_string()))
    );
    assert_eq!(
        w.observe(Some("a".to_string())),
        Some(ClipboardContent::Text("a".to_string()))
    );
}

#[test]
fn clipboard_content_becomes_a_message() {
    assert_eq!(
        ClipboardContent::Text("hi".to_string()).into_message(),
        Message::ClipboardText { text: "hi".to_string() }
    );
    assert_eq!(
        ClipboardContent::Image { width: 2, height: 3, data: vec![1, 2, 3] }.into_message(),
        Message::ClipboardImage { width: 2, height: 3, data: vec![1, 2, 3] }
    );
}
