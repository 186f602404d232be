//! Keyboard, mouse and clipboard sharing between networked machines: the
//! wire framing, the focus state machine that routes input across screen
//! edges, and the per-connection protocol state machines.
//!
//! The library decides and the program around it acts. Each state machine
//! takes one event and returns the actions that are due for it; sockets,
//! threads, the clipboard and the input devices are the program's.
//!
//! Positions and distances are fixed-point numbers, so that the arithmetic
//! of the focus manager is exact and what is proved of it holds to the last
//! unit. The wire and the operating system speak floating point; the
//! program converts at its edge.

pub mod capture;
pub mod client;
pub mod clipboard;
pub mod codec;
pub mod codec_laws;
pub mod config;
pub mod connection;
pub mod discovery;
pub mod edges;
pub mod events;
pub mod focus;
pub mod focus_laws;
pub mod input;
pub mod layout;
pub mod message;
pub mod registry;
pub mod screen;
pub mod server;
pub mod simulate;
pub mod status;
