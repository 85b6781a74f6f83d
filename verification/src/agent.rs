use vstd::prelude::*;

use crate::errors::SessionError;
use crate::event::Event;
use crate::event::Notification;

verus! {

/// An asynchronous event of the guest-agent protocol, as the transport hands
/// it over after decoding. The protocol's event set is closed; anything the
/// transport cannot recognize arrives as [`AgentEvent::Unrecognized`].
#[derive(Debug, PartialEq, Eq)]
pub enum AgentEvent {
    /// The sandboxed application exited with the given code.
    AppExitCode(i32),
    /// The guest clipboard changed; carries the new text.
    ClipboardUpdate(Vec<u8>),
    /// The guest asks for a desktop notification.
    Notification(Notification),
    /// The agent closed the connection; nothing further will arrive.
    Closed,
    /// An event kind this version of the protocol does not know.
    Unrecognized,
}

/// What one agent event amounts to: the host event to put on the channel, and
/// whether the listener should keep reading.
#[derive(Debug, PartialEq, Eq)]
pub struct ListenerStep {
    pub emit: Event,
    pub keep_listening: bool,
}

/// Classifies one guest-agent event: every recognized kind becomes exactly one
/// host event; only a closed connection stops the listener; an unrecognized
/// kind is a fatal protocol violation (a version mismatch).
pub open spec fn classify_agent_event(ev: AgentEvent) -> Result<ListenerStep, SessionError> {
    match ev {
        AgentEvent::AppExitCode(code) => Ok(
            ListenerStep { emit: Event::AppExited(code), keep_listening: true },
        ),
        AgentEvent::ClipboardUpdate(text) => Ok(
            ListenerStep { emit: Event::RemoteClipboardUpdate(text), keep_listening: true },
        ),
        AgentEvent::Notification(n) => Ok(
            ListenerStep { emit: Event::RemoteNotification(n), keep_listening: true },
        ),
        AgentEvent::Closed => Ok(
            ListenerStep { emit: Event::AgentDisconnected, keep_listening: false },
        ),
        AgentEvent::Unrecognized => Err(SessionError::RuntimeProtocolViolation),
    }
}

/// The dedicated listener translating guest protocol events into host events.
///
/// The blocking read of the next agent event belongs to the transport; the
/// listener is handed each event in arrival order and decides what the
/// coordinator sees. Once it has reported closure or a violation it is done
/// and must not be handed anything further.
pub struct AgentListener {
    pub done: bool,
}

impl AgentListener {
    pub fn new() -> (l: AgentListener)
        ensures
            !l.done,
    {
        AgentListener { done: false }
    }

    /// Processes the next guest event. Returns the host event to forward,
    /// with `keep_listening` false exactly when the connection closed, or the
    /// fatal [`SessionError::RuntimeProtocolViolation`] on an unrecognized
    /// kind. Either terminal outcome marks the listener done.
    pub fn get_and_process_event(&mut self, ev: AgentEvent) -> (r: Result<
        ListenerStep,
        SessionError,
    >)
        requires
            !old(self).done,
        ensures
            r == classify_agent_event(ev),
            final(self).done == !(r matches Ok(step) && step.keep_listening),
    {
        match ev {
            AgentEvent::AppExitCode(code) => Ok(
                ListenerStep { emit: Event::AppExited(code), keep_listening: true },
            ),
            AgentEvent::ClipboardUpdate(text) => Ok(
                ListenerStep { emit: Event::RemoteClipboardUpdate(text), keep_listening: true },
            ),
            AgentEvent::Notification(n) => Ok(
                ListenerStep { emit: Event::RemoteNotification(n), keep_listening: true },
            ),
            AgentEvent::Closed => {
                self.done = true;
                Ok(ListenerStep { emit: Event::AgentDisconnected, keep_listening: false })
            },
            AgentEvent::Unrecognized => {
                self.done = true;
                Err(SessionError::RuntimeProtocolViolation)
            },
        }
    }
}

} // verus!
