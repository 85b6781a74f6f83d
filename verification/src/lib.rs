//! Host-side orchestration for running a sandboxed desktop application inside
//! a virtual machine.
//!
//! The library is the decision core of the orchestrator: the event model, the
//! session state machine, the agent event listener's classification, the
//! clipboard bridge with its echo suppression, and the notification relay.
//! Everything here is pure logic from plain values to plain values; the
//! process, socket, clipboard and notification-bus transports live in the
//! surrounding binary, which feeds events in and carries actions out.

pub mod agent;
pub mod clipboard;
pub mod coordinator;
pub mod dbus_listener;
pub mod errors;
pub mod event;
pub mod laws;
pub mod notify;
pub mod session;
