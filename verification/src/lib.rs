//! Verified core of a laptop-peripheral control daemon: the fixed-layout
//! command-packet codec, the request/response retry state machine, the typed
//! device command set, and the keyboard lighting effect engine.
//!
//! Everything that touches the outside world (the HID handle, sockets, files,
//! session-bus events) lives in the unverified shell around this library; the
//! shell hands plain values in and carries packets and replies out.

pub mod cli;
pub mod comms;
pub mod config;
pub mod daemon;
pub mod device;
pub mod kbd;
pub mod packet;
pub mod transport;

