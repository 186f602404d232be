//! The messages that peers exchange.

use vstd::prelude::*;
use crate::input::{ButtonAction, KeyAction, KeyCode, MouseButton};
use crate::screen::{Edge, ScreenId, ScreenInfo, ScreenInfoView, ScreenPosition};

verus! {

/// Identifies a device: an opaque string chosen once per process.
#[derive(Debug, Clone, PartialEq, Eq, Hash)]
pub struct DeviceId(pub String);

impl View for DeviceId {
    type V = Seq<char>;

    open spec fn view(&self) -> Seq<char> {
        self.0@
    }
}

/// One protocol message. The order of the variants is part of the wire
/// format and must not change.
#[derive(Debug, Clone, PartialEq, Eq)]
#[allow(inconsistent_fields)]
pub enum Message {
    /// Opens the handshake: who the sender is and what screens it has.
    Hello { device_id: DeviceId, device_name: String, screens: Vec<ScreenInfo> },
    /// Answers a `Hello` with the controller's own identity and screens.
    Welcome { device_id: DeviceId, device_name: String, screens: Vec<ScreenInfo> },
    /// Announces a graceful shutdown.
    Bye { device_id: DeviceId },
    /// The pointer is at an absolute position.
    MouseMove { x: i64, y: i64 },
    /// The pointer moved by a relative amount.
    MouseDelta { dx: i64, dy: i64 },
    /// A mouse button was pressed or released.
    MouseButtonEvent { button: MouseButton, action: ButtonAction },
    /// The wheel turned.
    MouseScroll { dx: i64, dy: i64 },
    /// A key was pressed or released.
    KeyEvent { key: KeyCode, action: KeyAction },
    /// Focus enters the receiver's screen at a position.
    EnterScreen { screen_id: ScreenId, position: ScreenPosition },
    /// Focus leaves the receiver's screen across an edge.
    LeaveScreen { screen_id: ScreenId, edge: Edge, position: ScreenPosition },
    /// The clipboard holds this text.
    ClipboardText { text: String },
    /// The clipboard holds this image.
    ClipboardImage { width: u32, height: u32, data: Vec<u8> },
    /// Heartbeat request.
    Ping(u64),
    /// Heartbeat answer, with the sequence number of its request.
    Pong(u64),
}

/// A `Message` as a mathematical value.
#[allow(inconsistent_fields)]
pub enum MessageView {
    Hello { device_id: Seq<char>, device_name: Seq<char>, screens: Seq<ScreenInfoView> },
    Welcome { device_id: Seq<char>, device_name: Seq<char>, screens: Seq<ScreenInfoView> },
    Bye { device_id: Seq<char> },
    MouseMove { x: i64, y: i64 },
    MouseDelta { dx: i64, dy: i64 },
    MouseButtonEvent { button: MouseButton, action: ButtonAction },
    MouseScroll { dx: i64, dy: i64 },
    KeyEvent { key: KeyCode, action: KeyAction },
    EnterScreen { screen_id: ScreenId, position: ScreenPosition },
    LeaveScreen { screen_id: ScreenId, edge: Edge, position: ScreenPosition },
    ClipboardText { text: Seq<char> },
    ClipboardImage { width: u32, height: u32, data: Seq<u8> },
    Ping(u64),
    Pong(u64),
}

/// The screens of a handshake message as mathematical values.
pub open spec fn screens_view(screens: Seq<ScreenInfo>) -> Seq<ScreenInfoView> {
    screens.map_values(|s: ScreenInfo| s@)
}

impl View for Message {
    type V = MessageView;

    open spec fn view(&self) -> MessageView {
        match *self {
            Message::Hello { device_id, device_name, screens } => MessageView::Hello {
                device_id: device_id@,
                device_name: device_name@,
                screens: screens_view(screens@),
            },
            Message::Welcome { device_id, device_name, screens } => MessageView::Welcome {
                device_id: device_id@,
                device_name: device_name@,
                screens: screens_view(screens@),
            },
            Message::Bye { device_id } => MessageView::Bye { device_id: device_id@ },
            Message::MouseMove { x, y } => MessageView::MouseMove { x, y },
            Message::MouseDelta { dx, dy } => MessageView::MouseDelta { dx, dy },
            Message::MouseButtonEvent { button, action } => MessageView::MouseButtonEvent {
                button,
                action,
            },
            Message::MouseScroll { dx, dy } => MessageView::MouseScroll { dx, dy },
            Message::KeyEvent { key, action } => MessageView::KeyEvent { key, action },
            Message::EnterScreen { screen_id, position } => MessageView::EnterScreen {
                screen_id,
                position,
            },
            Message::LeaveScreen { screen_id, edge, position } => MessageView::LeaveScreen {
                screen_id,
                edge,
                position,
            },
            Message::ClipboardText { text } => MessageView::ClipboardText { text: text@ },
            Message::ClipboardImage { width, height, data } => MessageView::ClipboardImage {
                width,
                height,
                data: data@,
            },
            Message::Ping(seq) => MessageView::Ping(seq),
            Message::Pong(seq) => MessageView::Pong(seq),
        }
    }
}

} // verus!
