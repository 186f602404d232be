//! Input as the injection layer takes it, and what a peer injects for
//! each message of the controller.

use vstd::prelude::*;
use crate::input::{ButtonAction, KeyAction, KeyCode, MouseButton};
use crate::message::{Message, MessageView};
use crate::screen::{clamp, to_pixels, whole_pixels};

verus! {

/// A key as the injection layer names it: a character to type, or a
/// named key. It does not tell a left modifier from a right one.
#[derive(Debug, Clone, Copy, PartialEq, Eq, Hash, Structural)]
pub enum InjectedKey {
    Unicode(char),
    Escape, Tab, CapsLock, Space, Return, Backspace, Delete,
    UpArrow, DownArrow, LeftArrow, RightArrow,
    Home, End, PageUp, PageDown,
    F1, F2, F3, F4, F5, F6, F7, F8, F9, F10, F11, F12,
    Shift, Control, Alt, Meta,
}

/// A mouse button as the injection layer names it.
#[derive(Debug, Clone, Copy, PartialEq, Eq, Hash, Structural)]
pub enum InjectedButton {
    Left,
    Right,
    Middle,
    Back,
    Forward,
}

/// The direction of a scroll.
#[derive(Debug, Clone, Copy, PartialEq, Eq, Hash, Structural)]
pub enum ScrollAxis {
    Vertical,
    Horizontal,
}

/// One call of the injection layer.
#[derive(Debug, Clone, PartialEq, Eq)]
#[allow(inconsistent_fields)]
pub enum Injection {
    /// Put the pointer at these absolute pixel coordinates.
    MoveAbs { x: i32, y: i32 },
    /// Move the pointer by this many pixels.
    MoveRel { dx: i32, dy: i32 },
    /// Press or release a mouse button.
    Button { button: InjectedButton, action: ButtonAction },
    /// Press or release a key.
    Key { key: InjectedKey, action: KeyAction },
    /// Scroll by this many steps along an axis.
    Scroll { length: i32, axis: ScrollAxis },
    /// Put this text into the clipboard.
    SetClipboardText { text: String },
}

/// An `Injection` as a mathematical value.
#[allow(inconsistent_fields)]
pub enum InjectionView {
    MoveAbs { x: i32, y: i32 },
    MoveRel { dx: i32, dy: i32 },
    Button { button: InjectedButton, action: ButtonAction },
    Key { key: InjectedKey, action: KeyAction },
    Scroll { length: i32, axis: ScrollAxis },
    SetClipboardText { text: Seq<char> },
}

impl View for Injection {
    type V = InjectionView;

    open spec fn view(&self) -> InjectionView {
        match *self {
            Injection::MoveAbs { x, y } => InjectionView::MoveAbs { x, y },
            Injection::MoveRel { dx, dy } => InjectionView::MoveRel { dx, dy },
            Injection::Button { button, action } => InjectionView::Button { button, action },
            Injection::Key { key, action } => InjectionView::Key { key, action },
            Injection::Scroll { length, axis } => InjectionView::Scroll { length, axis },
            Injection::SetClipboardText { text } => InjectionView::SetClipboardText {
                text: text@,
            },
        }
    }
}

/// A list of injections as mathematical values.
pub open spec fn injections_view(plan: Seq<Injection>) -> Seq<InjectionView> {
    plan.map_values(|i: Injection| i@)
}

/// The injection layer's name for a button of the protocol.
pub open spec fn injected_button(button: MouseButton) -> InjectedButton {
    match button {
        MouseButton::Left => InjectedButton::Left,
        MouseButton::Right => InjectedButton::Right,
        MouseButton::Middle => InjectedButton::Middle,
        MouseButton::Back => InjectedButton::Back,
        MouseButton::Forward => InjectedButton::Forward,
    }
}

/// The injection layer's name for a key code of the protocol. Letters
/// and digits are typed as their lower-case character, and a key that the
/// injection layer has no name for as the character with code 0.
pub open spec fn injected_key(key: KeyCode) -> InjectedKey {
    match key {
        KeyCode::KeyA => InjectedKey::Unicode('a'),
        KeyCode::KeyB => InjectedKey::Unicode('b'),
        KeyCode::KeyC => InjectedKey::Unicode('c'),
        KeyCode::KeyD => InjectedKey::Unicode('d'),
        KeyCode::KeyE => InjectedKey::Unicode('e'),
        KeyCode::KeyF => InjectedKey::Unicode('f'),
        KeyCode::KeyG => InjectedKey::Unicode('g'),
        KeyCode::KeyH => InjectedKey::Unicode('h'),
        KeyCode::KeyI => InjectedKey::Unicode('i'),
        KeyCode::KeyJ => InjectedKey::Unicode('j'),
        KeyCode::KeyK => InjectedKey::Unicode('k'),
        KeyCode::KeyL => InjectedKey::Unicode('l'),
        KeyCode::KeyM => InjectedKey::Unicode('m'),
        KeyCode::KeyN => InjectedKey::Unicode('n'),
        KeyCode::KeyO => InjectedKey::Unicode('o'),
        KeyCode::KeyP => InjectedKey::Unicode('p'),
        KeyCode::KeyQ => InjectedKey::Unicode('q'),
        KeyCode::KeyR => InjectedKey::Unicode('r'),
        KeyCode::KeyS => InjectedKey::Unicode('s'),
        KeyCode::KeyT => InjectedKey::Unicode('t'),
        KeyCode::KeyU => InjectedKey::Unicode('u'),
        KeyCode::KeyV => InjectedKey::Unicode('v'),
        KeyCode::KeyW => InjectedKey::Unicode('w'),
        KeyCode::KeyX => InjectedKey::Unicode('x'),
        KeyCode::KeyY => InjectedKey::Unicode('y'),
        KeyCode::KeyZ => InjectedKey::Unicode('z'),
        KeyCode::Num0 => InjectedKey::Unicode('0'),
        KeyCode::Num1 => InjectedKey::Unicode('1'),
        KeyCode::Num2 => InjectedKey::Unicode('2'),
        KeyCode::Num3 => InjectedKey::Unicode('3'),
        KeyCode::Num4 => InjectedKey::Unicode('4'),
        KeyCode::Num5 => InjectedKey::Unicode('5'),
        KeyCode::Num6 => InjectedKey::Unicode('6'),
        KeyCode::Num7 => InjectedKey::Unicode('7'),
        KeyCode::Num8 => InjectedKey::Unicode('8'),
        KeyCode::Num9 => InjectedKey::Unicode('9'),
        KeyCode::Escape => InjectedKey::Escape,
        KeyCode::Tab => InjectedKey::Tab,
        KeyCode::CapsLock => InjectedKey::CapsLock,
        KeyCode::Space => InjectedKey::Space,
        KeyCode::Enter => InjectedKey::Return,
        KeyCode::Backspace => InjectedKey::Backspace,
        KeyCode::Delete => InjectedKey::Delete,
        KeyCode::ArrowUp => InjectedKey::UpArrow,
        KeyCode::ArrowDown => InjectedKey::DownArrow,
        KeyCode::ArrowLeft => InjectedKey::LeftArrow,
        KeyCode::ArrowRight => InjectedKey::RightArrow,
        KeyCode::Home => InjectedKey::Home,
        KeyCode::End => InjectedKey::End,
        KeyCode::PageUp => InjectedKey::PageUp,
        KeyCode::PageDown => InjectedKey::PageDown,
        KeyCode::F1 => InjectedKey::F1,
        KeyCode::F2 => InjectedKey::F2,
        KeyCode::F3 => InjectedKey::F3,
        KeyCode::F4 => InjectedKey::F4,
        KeyCode::F5 => InjectedKey::F5,
        KeyCode::F6 => InjectedKey::F6,
        KeyCode::F7 => InjectedKey::F7,
        KeyCode::F8 => InjectedKey::F8,
        KeyCode::F9 => InjectedKey::F9,
        KeyCode::F10 => InjectedKey::F10,
        KeyCode::F11 => InjectedKey::F11,
        KeyCode::F12 => InjectedKey::F12,
        KeyCode::LeftShift | KeyCode::RightShift => InjectedKey::Shift,
        KeyCode::LeftCtrl | KeyCode::RightCtrl => InjectedKey::Control,
        KeyCode::LeftAlt | KeyCode::RightAlt => InjectedKey::Alt,
        KeyCode::LeftMeta | KeyCode::RightMeta => InjectedKey::Meta,
        _ => InjectedKey::Unicode('\0'),
    }
}

/// A fixed-point value as the whole pixels that the injection layer
/// takes: towards zero, and within what an `i32` holds.
pub open spec fn truncated(v: i64) -> i32 {
    clamp(whole_pixels(v as int), i32::MIN as int, i32::MAX as int) as i32
}

/// The calls for a scroll of `dx` steps across and `dy` steps down: the
/// vertical one first, and none for an axis without movement.
pub open spec fn scroll_plan(dx: i32, dy: i32) -> Seq<InjectionView> {
    let vertical = if dy != 0 {
        seq![InjectionView::Scroll { length: dy, axis: ScrollAxis::Vertical }]
    } else {
        Seq::empty()
    };
    let horizontal = if dx != 0 {
        seq![InjectionView::Scroll { length: dx, axis: ScrollAxis::Horizontal }]
    } else {
        Seq::empty()
    };
    vertical + horizontal
}

/// What a peer injects for a message of the controller. Messages about
/// the focus, image clipboards, and everything that belongs to the
/// connection itself inject nothing.
pub open spec fn injection_plan(message: MessageView) -> Seq<InjectionView> {
    match message {
        MessageView::MouseMove { x, y } => seq![
            InjectionView::MoveAbs { x: truncated(x), y: truncated(y) },
        ],
        MessageView::MouseDelta { dx, dy } => seq![
            InjectionView::MoveRel { dx: truncated(dx), dy: truncated(dy) },
        ],
        MessageView::MouseButtonEvent { button, action } => seq![
            InjectionView::Button { button: injected_button(button), action },
        ],
        MessageView::KeyEvent { key, action } => seq![
            InjectionView::Key { key: injected_key(key), action },
        ],
        MessageView::MouseScroll { dx, dy } => scroll_plan(truncated(dx), truncated(dy)),
        MessageView::ClipboardText { text } => seq![InjectionView::SetClipboardText { text }],
        _ => Seq::empty(),
    }
}

/// The injection layer's name for a button of the protocol.
pub fn to_enigo_button(button: MouseButton) -> (out: InjectedButton)
    ensures
        out == injected_button(button),
{
    match button {
        MouseButton::Left => InjectedButton::Left,
        MouseButton::Right => InjectedButton::Right,
        MouseButton::Middle => InjectedButton::Middle,
        MouseButton::Back => InjectedButton::Back,
        MouseButton::Forward => InjectedButton::Forward,
    }
}

/// The injection layer's name for a key code of the protocol.
pub fn to_enigo_key(key: KeyCode) -> (out: InjectedKey)
    ensures
        out == injected_key(key),
{
    match key {
        KeyCode::KeyA => InjectedKey::Unicode('a'),
        KeyCode::KeyB => InjectedKey::Unicode('b'),
        KeyCode::KeyC => InjectedKey::Unicode('c'),
        KeyCode::KeyD => InjectedKey::Unicode('d'),
        KeyCode::KeyE => InjectedKey::Unicode('e'),
        KeyCode::KeyF => InjectedKey::Unicode('f'),
        KeyCode::KeyG => InjectedKey::Unicode('g'),
        KeyCode::KeyH => InjectedKey::Unicode('h'),
        KeyCode::KeyI => InjectedKey::Unicode('i'),
        KeyCode::KeyJ => InjectedKey::Unicode('j'),
        KeyCode::KeyK => InjectedKey::Unicode('k'),
        KeyCode::KeyL => InjectedKey::Unicode('l'),
        KeyCode::KeyM => InjectedKey::Unicode('m'),
        KeyCode::KeyN => InjectedKey::Unicode('n'),
        KeyCode::KeyO => InjectedKey::Unicode('o'),
        KeyCode::KeyP => InjectedKey::Unicode('p'),
        KeyCode::KeyQ => InjectedKey::Unicode('q'),
        KeyCode::KeyR => InjectedKey::Unicode('r'),
        KeyCode::KeyS => InjectedKey::Unicode('s'),
        KeyCode::KeyT => InjectedKey::Unicode('t'),
        KeyCode::KeyU => InjectedKey::Unicode('u'),
        KeyCode::KeyV => InjectedKey::Unicode('v'),
        KeyCode::KeyW => InjectedKey::Unicode('w'),
        KeyCode::KeyX => InjectedKey::Unicode('x'),
        KeyCode::KeyY => InjectedKey::Unicode('y'),
        KeyCode::KeyZ => InjectedKey::Unicode('z'),
        KeyCode::Num0 => InjectedKey::Unicode('0'),
        KeyCode::Num1 => InjectedKey::Unicode('1'),
        KeyCode::Num2 => InjectedKey::Unicode('2'),
        KeyCode::Num3 => InjectedKey::Unicode('3'),
        KeyCode::Num4 => InjectedKey::Unicode('4'),
        KeyCode::Num5 => InjectedKey::Unicode('5'),
        KeyCode::Num6 => InjectedKey::Unicode('6'),
        KeyCode::Num7 => InjectedKey::Unicode('7'),
        KeyCode::Num8 => InjectedKey::Unicode('8'),
        KeyCode::Num9 => InjectedKey::Unicode('9'),
        KeyCode::Escape => InjectedKey::Escape,
        KeyCode::Tab => InjectedKey::Tab,
        KeyCode::CapsLock => InjectedKey::CapsLock,
        KeyCode::Space => InjectedKey::Space,
        KeyCode::Enter => InjectedKey::Return,
        KeyCode::Backspace => InjectedKey::Backspace,
        KeyCode::Delete => InjectedKey::Delete,
        KeyCode::ArrowUp => InjectedKey::UpArrow,
        KeyCode::ArrowDown => InjectedKey::DownArrow,
        KeyCode::ArrowLeft => InjectedKey::LeftArrow,
        KeyCode::ArrowRight => InjectedKey::RightArrow,
        KeyCode::Home => InjectedKey::Home,
        KeyCode::End => InjectedKey::End,
        KeyCode::PageUp => InjectedKey::PageUp,
        KeyCode::PageDown => InjectedKey::PageDown,
        KeyCode::F1 => InjectedKey::F1,
        KeyCode::F2 => InjectedKey::F2,
        KeyCode::F3 => InjectedKey::F3,
        KeyCode::F4 => InjectedKey::F4,
        KeyCode::F5 => InjectedKey::F5,
        KeyCode::F6 => InjectedKey::F6,
        KeyCode::F7 => InjectedKey::F7,
        KeyCode::F8 => InjectedKey::F8,
        KeyCode::F9 => InjectedKey::F9,
        KeyCode::F10 => InjectedKey::F10,
        KeyCode::F11 => InjectedKey::F11,
        KeyCode::F12 => InjectedKey::F12,
        KeyCode::LeftShift | KeyCode::RightShift => InjectedKey::Shift,
        KeyCode::LeftCtrl | KeyCode::RightCtrl => InjectedKey::Control,
        KeyCode::LeftAlt | KeyCode::RightAlt => InjectedKey::Alt,
        KeyCode::LeftMeta | KeyCode::RightMeta => InjectedKey::Meta,
        _ => InjectedKey::Unicode('\0'),
    }
}

/// The calls for a scroll of `dx` steps across and `dy` steps down.
pub fn scroll(dx: i32, dy: i32) -> (plan: Vec<Injection>)
    ensures
        injections_view(plan@) == scroll_plan(dx, dy),
{
    let mut plan: Vec<Injection> = Vec::new();
    if dy != 0 {
        plan.push(Injection::Scroll { length: dy, axis: ScrollAxis::Vertical });
    }
    if dx != 0 {
        plan.push(Injection::Scroll { length: dx, axis: ScrollAxis::Horizontal });
    }
    assert(injections_view(plan@) =~= scroll_plan(dx, dy));
    plan
}

/// What a peer injects for `message`, in the order in which it is due.
pub fn injection_for(message: Message) -> (plan: Vec<Injection>)
    ensures
        injections_view(plan@) == injection_plan(message@),
{
    let mut plan: Vec<Injection> = Vec::new();
    match message {
        Message::MouseMove { x, y } => {
            plan.push(Injection::MoveAbs { x: to_pixels(x), y: to_pixels(y) });
        },
        Message::MouseDelta { dx, dy } => {
            plan.push(Injection::MoveRel { dx: to_pixels(dx), dy: to_pixels(dy) });
        },
        Message::MouseButtonEvent { button, action } => {
            plan.push(Injection::Button { button: to_enigo_button(button), action });
        },
        Message::KeyEvent { key, action } => {
            plan.push(Injection::Key { key: to_enigo_key(key), action });
        },
        Message::MouseScroll { dx, dy } => {
            plan = scroll(to_pixels(dx), to_pixels(dy));
        },
        Message::ClipboardText { text } => {
            plan.push(Injection::SetClipboardText { text });
        },
        _ => {},
    }
    assert(injections_view(plan@) =~= injection_plan(message@));
    plan
}

} // verus!
