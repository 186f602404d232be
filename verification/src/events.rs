//! What the state machines ask their surroundings to do or to know.

use vstd::prelude::*;

verus! {

/// Something the controller has to do on its own machine.
#[derive(Debug, Clone, Copy, PartialEq, Eq, Structural)]
pub enum LocalAction {
    /// Put the pointer at these absolute pixel coordinates. It keeps the
    /// pointer in the middle of the screen while a peer has the focus.
    MoveMouse(i32, i32),
}

/// What the controller reports to whoever observes it.
#[derive(Debug, Clone, PartialEq, Eq)]
pub enum ServerEvent {
    /// A peer finished its handshake.
    DeviceConnected { device_id: String, device_name: String },
    /// A peer is gone.
    DeviceDisconnected { device_id: String },
    /// The focus moved to the named device, or to `local`.
    FocusChanged { target: String },
    /// A line for the log.
    Log(String),
}

/// A `ServerEvent` as a mathematical value.
pub enum ServerEventView {
    DeviceConnected { device_id: Seq<char>, device_name: Seq<char> },
    DeviceDisconnected { device_id: Seq<char> },
    FocusChanged { target: Seq<char> },
    Log(Seq<char>),
}

impl View for ServerEvent {
    type V = ServerEventView;

    open spec fn view(&self) -> ServerEventView {
        match *self {
            ServerEvent::DeviceConnected { device_id, device_name } => {
                ServerEventView::DeviceConnected {
                    device_id: device_id@,
                    device_name: device_name@,
                }
            },
            ServerEvent::DeviceDisconnected { device_id } => ServerEventView::DeviceDisconnected {
                device_id: device_id@,
            },
            ServerEvent::FocusChanged { target } => ServerEventView::FocusChanged {
                target: target@,
            },
            ServerEvent::Log(line) => ServerEventView::Log(line@),
        }
    }
}

/// What a peer reports to whoever observes it.
#[derive(Debug, Clone, PartialEq, Eq)]
pub enum ClientEvent {
    /// The handshake with the controller is done.
    Connected { server_device_id: String, server_device_name: String },
    /// The connection to the controller is over.
    Disconnected,
    /// A line for the log.
    Log(String),
}

/// A `ClientEvent` as a mathematical value.
pub enum ClientEventView {
    Connected { server_device_id: Seq<char>, server_device_name: Seq<char> },
    Disconnected,
    Log(Seq<char>),
}

impl View for ClientEvent {
    type V = ClientEventView;

    open spec fn view(&self) -> ClientEventView {
        match *self {
            ClientEvent::Connected { server_device_id, server_device_name } => {
                ClientEventView::Connected {
                    server_device_id: server_device_id@,
                    server_device_name: server_device_name@,
                }
            },
            ClientEvent::Disconnected => ClientEventView::Disconnected,
            ClientEvent::Log(line) => ClientEventView::Log(line@),
        }
    }
}

} // verus!
