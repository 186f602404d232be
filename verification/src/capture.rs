//! Input as the capture layer reports it, and the protocol events that
//! it becomes.

use vstd::prelude::*;
use crate::input::{ButtonAction, KeyAction, KeyCode, MouseButton};
use crate::message::{Message, MessageView};
use crate::screen::{clamp, px, SUBPIXELS};

verus! {

/// A key as the capture layer names it: by its place on a QWERTY keyboard.
#[derive(Debug, Clone, Copy, PartialEq, Eq, Hash, Structural)]
pub enum CapturedKey {
    KeyA, KeyB, KeyC, KeyD, KeyE, KeyF, KeyG, KeyH, KeyI, KeyJ, KeyK, KeyL, KeyM, KeyN,
    KeyO, KeyP, KeyQ, KeyR, KeyS, KeyT, KeyU, KeyV, KeyW, KeyX, KeyY, KeyZ, Num0, Num1,
    Num2, Num3, Num4, Num5, Num6, Num7, Num8, Num9, F1, F2, F3, F4, F5, F6, F7, F8, F9,
    F10, F11, F12, ShiftLeft, ShiftRight, ControlLeft, ControlRight, Alt, AltGr,
    MetaLeft, MetaRight, Escape, Tab, CapsLock, Space, Return, Backspace, Delete, Insert,
    Home, End, PageUp, PageDown, UpArrow, DownArrow, LeftArrow, RightArrow, PrintScreen,
    ScrollLock, Pause,
    // Keys that have no portable code.
    NumLock, BackQuote, Minus, Equal, LeftBracket, RightBracket, SemiColon, Quote,
    BackSlash, IntlBackslash, Comma, Dot, Slash, KpReturn, KpMinus, KpPlus, KpMultiply,
    KpDivide, Kp0, Kp1, Kp2, Kp3, Kp4, Kp5, Kp6, Kp7, Kp8, Kp9, KpDelete, Function,
    /// A key that the capture layer has no name for, with its raw code.
    Unknown(u32),
}

/// A mouse button as the capture layer names it.
#[derive(Debug, Clone, Copy, PartialEq, Eq, Hash, Structural)]
pub enum CapturedButton {
    Left,
    Right,
    Middle,
    /// A further button, with its number.
    Unknown(u8),
}

/// One event of the capture layer. Positions are in fixed-point pixels,
/// wheel deltas in whole steps.
#[derive(Debug, Clone, Copy, PartialEq, Eq, Structural)]
pub enum CapturedEvent {
    KeyPress(CapturedKey),
    KeyRelease(CapturedKey),
    ButtonPress(CapturedButton),
    ButtonRelease(CapturedButton),
    MouseMove { x: i64, y: i64 },
    Wheel { delta_x: i64, delta_y: i64 },
}

/// The protocol's code for a captured key. A key without a portable code
/// becomes `Unknown(0)`; a key without a name keeps its raw code.
pub open spec fn key_code_of(key: CapturedKey) -> KeyCode {
    match key {
        CapturedKey::KeyA => KeyCode::KeyA,
        CapturedKey::KeyB => KeyCode::KeyB,
        CapturedKey::KeyC => KeyCode::KeyC,
        CapturedKey::KeyD => KeyCode::KeyD,
        CapturedKey::KeyE => KeyCode::KeyE,
        CapturedKey::KeyF => KeyCode::KeyF,
        CapturedKey::KeyG => KeyCode::KeyG,
        CapturedKey::KeyH => KeyCode::KeyH,
        CapturedKey::KeyI => KeyCode::KeyI,
        CapturedKey::KeyJ => KeyCode::KeyJ,
        CapturedKey::KeyK => KeyCode::KeyK,
        CapturedKey::KeyL => KeyCode::KeyL,
        CapturedKey::KeyM => KeyCode::KeyM,
        CapturedKey::KeyN => KeyCode::KeyN,
        CapturedKey::KeyO => KeyCode::KeyO,
        CapturedKey::KeyP => KeyCode::KeyP,
        CapturedKey::KeyQ => KeyCode::KeyQ,
        CapturedKey::KeyR => KeyCode::KeyR,
        CapturedKey::KeyS => KeyCode::KeyS,
        CapturedKey::KeyT => KeyCode::KeyT,
        CapturedKey::KeyU => KeyCode::KeyU,
        CapturedKey::KeyV => KeyCode::KeyV,
        CapturedKey::KeyW => KeyCode::KeyW,
        CapturedKey::KeyX => KeyCode::KeyX,
        CapturedKey::KeyY => KeyCode::KeyY,
        CapturedKey::KeyZ => KeyCode::KeyZ,
        CapturedKey::Num0 => KeyCode::Num0,
        CapturedKey::Num1 => KeyCode::Num1,
        CapturedKey::Num2 => KeyCode::Num2,
        CapturedKey::Num3 => KeyCode::Num3,
        CapturedKey::Num4 => KeyCode::Num4,
        CapturedKey::Num5 => KeyCode::Num5,
        CapturedKey::Num6 => KeyCode::Num6,
        CapturedKey::Num7 => KeyCode::Num7,
        CapturedKey::Num8 => KeyCode::Num8,
        CapturedKey::Num9 => KeyCode::Num9,
        CapturedKey::F1 => KeyCode::F1,
        CapturedKey::F2 => KeyCode::F2,
        CapturedKey::F3 => KeyCode::F3,
        CapturedKey::F4 => KeyCode::F4,
        CapturedKey::F5 => KeyCode::F5,
        CapturedKey::F6 => KeyCode::F6,
        CapturedKey::F7 => KeyCode::F7,
        CapturedKey::F8 => KeyCode::F8,
        CapturedKey::F9 => KeyCode::F9,
        CapturedKey::F10 => KeyCode::F10,
        CapturedKey::F11 => KeyCode::F11,
        CapturedKey::F12 => KeyCode::F12,
        CapturedKey::ShiftLeft => KeyCode::LeftShift,
        CapturedKey::ShiftRight => KeyCode::RightShift,
        CapturedKey::ControlLeft => KeyCode::LeftCtrl,
        CapturedKey::ControlRight => KeyCode::RightCtrl,
        CapturedKey::Alt => KeyCode::LeftAlt,
        CapturedKey::AltGr => KeyCode::RightAlt,
        CapturedKey::MetaLeft => KeyCode::LeftMeta,
        CapturedKey::MetaRight => KeyCode::RightMeta,
        CapturedKey::Escape => KeyCode::Escape,
        CapturedKey::Tab => KeyCode::Tab,
        CapturedKey::CapsLock => KeyCode::CapsLock,
        CapturedKey::Space => KeyCode::Space,
        CapturedKey::Return => KeyCode::Enter,
        CapturedKey::Backspace => KeyCode::Backspace,
        CapturedKey::Delete => KeyCode::Delete,
        CapturedKey::Insert => KeyCode::Insert,
        CapturedKey::Home => KeyCode::Home,
        CapturedKey::End => KeyCode::End,
        CapturedKey::PageUp => KeyCode::PageUp,
        CapturedKey::PageDown => KeyCode::PageDown,
        CapturedKey::UpArrow => KeyCode::ArrowUp,
        CapturedKey::DownArrow => KeyCode::ArrowDown,
        CapturedKey::LeftArrow => KeyCode::ArrowLeft,
        CapturedKey::RightArrow => KeyCode::ArrowRight,
        CapturedKey::PrintScreen => KeyCode::PrintScreen,
        CapturedKey::ScrollLock => KeyCode::ScrollLock,
        CapturedKey::Pause => KeyCode::Pause,
        CapturedKey::Unknown(code) => KeyCode::Unknown(code),
        _ => KeyCode::Unknown(0),
    }
}

/// The protocol's name for a captured button. The fourth and fifth button
/// are back and forward; any other unnamed button counts as the left one.
pub open spec fn button_of(button: CapturedButton) -> MouseButton {
    match button {
        CapturedButton::Left => MouseButton::Left,
        CapturedButton::Right => MouseButton::Right,
        CapturedButton::Middle => MouseButton::Middle,
        CapturedButton::Unknown(n) => if n == 4 {
            MouseButton::Back
        } else if n == 5 {
            MouseButton::Forward
        } else {
            MouseButton::Left
        },
    }
}

/// A whole number of steps or pixels in fixed point, kept within what an
/// `i64` holds.
pub open spec fn fixed_of(whole: int) -> int {
    clamp(px(whole), i64::MIN as int, i64::MAX as int)
}

/// The protocol message for a captured event.
pub open spec fn event_message(event: CapturedEvent) -> MessageView {
    match event {
        CapturedEvent::MouseMove { x, y } => MessageView::MouseMove { x, y },
        CapturedEvent::ButtonPress(button) => MessageView::MouseButtonEvent {
            button: button_of(button),
            action: ButtonAction::Press,
        },
        CapturedEvent::ButtonRelease(button) => MessageView::MouseButtonEvent {
            button: button_of(button),
            action: ButtonAction::Release,
        },
        CapturedEvent::KeyPress(key) => MessageView::KeyEvent {
            key: key_code_of(key),
            action: KeyAction::Press,
        },
        CapturedEvent::KeyRelease(key) => MessageView::KeyEvent {
            key: key_code_of(key),
            action: KeyAction::Release,
        },
        CapturedEvent::Wheel { delta_x, delta_y } => MessageView::MouseScroll {
            dx: fixed_of(delta_x as int) as i64,
            dy: fixed_of(delta_y as int) as i64,
        },
    }
}

/// Listens to the input of the whole machine. The listening itself is the
/// platform's; this is the handle that starts it.
#[derive(Debug)]
pub struct InputCapturer {
    _private: (),
}

impl InputCapturer {
    pub fn new() -> Self {
        InputCapturer { _private: () }
    }
}

/// Turns a captured event into the protocol message that stands for it.
/// Every captured event has one.
pub fn rdev_event_to_message(event: &CapturedEvent) -> (message: Option<Message>)
    ensures
        message matches Some(m) && m@ == event_message(*event),
{
    match event {
        CapturedEvent::MouseMove { x, y } => Some(Message::MouseMove { x: *x, y: *y }),
        CapturedEvent::ButtonPress(btn) => Some(
            Message::MouseButtonEvent {
                button: rdev_button_to_proto(btn),
                action: ButtonAction::Press,
            },
        ),
        CapturedEvent::ButtonRelease(btn) => Some(
            Message::MouseButtonEvent {
                button: rdev_button_to_proto(btn),
                action: ButtonAction::Release,
            },
        ),
        CapturedEvent::KeyPress(key) => Some(
            Message::KeyEvent { key: rdev_key_to_proto(key), action: KeyAction::Press },
        ),
        CapturedEvent::KeyRelease(key) => Some(
            Message::KeyEvent { key: rdev_key_to_proto(key), action: KeyAction::Release },
        ),
        CapturedEvent::Wheel { delta_x, delta_y } => Some(
            Message::MouseScroll { dx: whole_to_fixed(*delta_x), dy: whole_to_fixed(*delta_y) },
        ),
    }
}

/// A whole number of steps or pixels in fixed point.
pub fn whole_to_fixed(whole: i64) -> (fixed: i64)
    ensures
        fixed == fixed_of(whole as int),
{
    if whole > i64::MAX / SUBPIXELS {
        i64::MAX
    } else if whole < i64::MIN / SUBPIXELS {
        i64::MIN
    } else {
        whole * SUBPIXELS
    }
}

/// The protocol's name for a captured button.
pub fn rdev_button_to_proto(btn: &CapturedButton) -> (button: MouseButton)
    ensures
        button == button_of(*btn),
{
    match btn {
        CapturedButton::Left => MouseButton::Left,
        CapturedButton::Right => MouseButton::Right,
        CapturedButton::Middle => MouseButton::Middle,
        CapturedButton::Unknown(4) => MouseButton::Back,
        CapturedButton::Unknown(5) => MouseButton::Forward,
        _ => MouseButton::Left,
    }
}

/// The protocol's code for a captured key.
pub fn rdev_key_to_proto(key: &CapturedKey) -> (code: KeyCode)
    ensures
        code == key_code_of(*key),
{
    match key {
        CapturedKey::KeyA => KeyCode::KeyA,
        CapturedKey::KeyB => KeyCode::KeyB,
        CapturedKey::KeyC => KeyCode::KeyC,
        CapturedKey::KeyD => KeyCode::KeyD,
        CapturedKey::KeyE => KeyCode::KeyE,
        CapturedKey::KeyF => KeyCode::KeyF,
        CapturedKey::KeyG => KeyCode::KeyG,
        CapturedKey::KeyH => KeyCode::KeyH,
        CapturedKey::KeyI => KeyCode::KeyI,
        CapturedKey::KeyJ => KeyCode::KeyJ,
        CapturedKey::KeyK => KeyCode::KeyK,
        CapturedKey::KeyL => KeyCode::KeyL,
        CapturedKey::KeyM => KeyCode::KeyM,
        CapturedKey::KeyN => KeyCode::KeyN,
        CapturedKey::KeyO => KeyCode::KeyO,
        CapturedKey::KeyP => KeyCode::KeyP,
        CapturedKey::KeyQ => KeyCode::KeyQ,
        CapturedKey::KeyR => KeyCode::KeyR,
        CapturedKey::KeyS => KeyCode::KeyS,
        CapturedKey::KeyT => KeyCode::KeyT,
        CapturedKey::KeyU => KeyCode::KeyU,
        CapturedKey::KeyV => KeyCode::KeyV,
        CapturedKey::KeyW => KeyCode::KeyW,
        CapturedKey::KeyX => KeyCode::KeyX,
        CapturedKey::KeyY => KeyCode::KeyY,
        CapturedKey::KeyZ => KeyCode::KeyZ,
        CapturedKey::Num0 => KeyCode::Num0,
        CapturedKey::Num1 => KeyCode::Num1,
        CapturedKey::Num2 => KeyCode::Num2,
        CapturedKey::Num3 => KeyCode::Num3,
        CapturedKey::Num4 => KeyCode::Num4,
        CapturedKey::Num5 => KeyCode::Num5,
        CapturedKey::Num6 => KeyCode::Num6,
        CapturedKey::Num7 => KeyCode::Num7,
        CapturedKey::Num8 => KeyCode::Num8,
        CapturedKey::Num9 => KeyCode::Num9,
        CapturedKey::F1 => KeyCode::F1,
        CapturedKey::F2 => KeyCode::F2,
        CapturedKey::F3 => KeyCode::F3,
        CapturedKey::F4 => KeyCode::F4,
        CapturedKey::F5 => KeyCode::F5,
        CapturedKey::F6 => KeyCode::F6,
        CapturedKey::F7 => KeyCode::F7,
        CapturedKey::F8 => KeyCode::F8,
        CapturedKey::F9 => KeyCode::F9,
        CapturedKey::F10 => KeyCode::F10,
        CapturedKey::F11 => KeyCode::F11,
        CapturedKey::F12 => KeyCode::F12,
        CapturedKey::ShiftLeft => KeyCode::LeftShift,
        CapturedKey::ShiftRight => KeyCode::RightShift,
        CapturedKey::ControlLeft => KeyCode::LeftCtrl,
        CapturedKey::ControlRight => KeyCode::RightCtrl,
        CapturedKey::Alt => KeyCode::LeftAlt,
        CapturedKey::AltGr => KeyCode::RightAlt,
        CapturedKey::MetaLeft => KeyCode::LeftMeta,
        CapturedKey::MetaRight => KeyCode::RightMeta,
        CapturedKey::Escape => KeyCode::Escape,
        CapturedKey::Tab => KeyCode::Tab,
        CapturedKey::CapsLock => KeyCode::CapsLock,
        CapturedKey::Space => KeyCode::Space,
        CapturedKey::Return => KeyCode::Enter,
        CapturedKey::Backspace => KeyCode::Backspace,
        CapturedKey::Delete => KeyCode::Delete,
        CapturedKey::Insert => KeyCode::Insert,
        CapturedKey::Home => KeyCode::Home,
        CapturedKey::End => KeyCode::End,
        CapturedKey::PageUp => KeyCode::PageUp,
        CapturedKey::PageDown => KeyCode::PageDown,
        CapturedKey::UpArrow => KeyCode::ArrowUp,
        CapturedKey::DownArrow => KeyCode::ArrowDown,
        CapturedKey::LeftArrow => KeyCode::ArrowLeft,
        CapturedKey::RightArrow => KeyCode::ArrowRight,
        CapturedKey::PrintScreen => KeyCode::PrintScreen,
        CapturedKey::ScrollLock => KeyCode::ScrollLock,
        CapturedKey::Pause => KeyCode::Pause,
        CapturedKey::Unknown(code) => KeyCode::Unknown(*code),
        _ => KeyCode::Unknown(0),
    }
}

/// No two captured keys share a portable code: where two keys get the
/// same code, they are the same key or the code is `Unknown(0)`, which
/// stands for every key that has none.
pub proof fn lemma_key_codes_distinct(a: CapturedKey, b: CapturedKey)
    requires
        key_code_of(a) == key_code_of(b),
        key_code_of(a) != KeyCode::Unknown(0),
    ensures
        a == b,
{
}

/// A key without a name keeps its raw code, and a named key never gets a
/// raw code other than 0.
pub proof fn lemma_raw_codes(key: CapturedKey)
    ensures
        key matches CapturedKey::Unknown(code) ==> key_code_of(key) == KeyCode::Unknown(code),
        (key_code_of(key) matches KeyCode::Unknown(code) && code != 0) ==> key
            == CapturedKey::Unknown(key_code_of(key)->0),
{
}

} // verus!
