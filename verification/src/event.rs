use vstd::prelude::*;

verus! {

/// A desktop notification forwarded from the guest agent to the host.
#[derive(Debug, Clone, PartialEq, Eq)]
pub struct Notification {
    pub summary: Vec<u8>,
    pub body: Vec<u8>,
    /// Expiry in milliseconds, as the host notification service takes it.
    pub expire_ms: i32,
}

/// Mathematical model of a [`Notification`].
pub ghost struct NotificationModel {
    pub summary: Seq<u8>,
    pub body: Seq<u8>,
    pub expire_ms: int,
}

impl View for Notification {
    type V = NotificationModel;

    open spec fn view(&self) -> NotificationModel {
        NotificationModel {
            summary: self.summary@,
            body: self.body@,
            expire_ms: self.expire_ms as int,
        }
    }
}

impl DeepView for Notification {
    type V = NotificationModel;

    open spec fn deep_view(&self) -> NotificationModel {
        self.view()
    }
}

/// The closed union of events fanned into the coordinator's single ordered
/// control loop. Each instance is consumed exactly once; ownership transfers
/// fully to the channel on send.
#[derive(Debug, PartialEq, Eq)]
pub enum Event {
    /// The host clipboard store changed; carries the new text.
    LocalClipboardUpdate(Vec<u8>),
    /// The guest clipboard changed; carries the new text.
    RemoteClipboardUpdate(Vec<u8>),
    /// The guest asks the host to show a notification.
    RemoteNotification(Notification),
    /// The sandboxed application exited in the guest with the given code.
    AppExited(i32),
    /// The agent closed its connection; no further agent events will arrive.
    AgentDisconnected,
    /// The virtual machine process terminated; the session is over.
    VmProcessExited,
    /// The host notification bus reported a notification closed (id, reason).
    HostNotificationClosed(u32, u32),
}

/// Mathematical model of an [`Event`].
pub ghost enum EventModel {
    LocalClipboardUpdate(Seq<u8>),
    RemoteClipboardUpdate(Seq<u8>),
    RemoteNotification(NotificationModel),
    AppExited(int),
    AgentDisconnected,
    VmProcessExited,
    HostNotificationClosed(int, int),
}

impl View for Event {
    type V = EventModel;

    open spec fn view(&self) -> EventModel {
        match self {
            Event::LocalClipboardUpdate(t) => EventModel::LocalClipboardUpdate(t@),
            Event::RemoteClipboardUpdate(t) => EventModel::RemoteClipboardUpdate(t@),
            Event::RemoteNotification(n) => EventModel::RemoteNotification(n@),
            Event::AppExited(c) => EventModel::AppExited(*c as int),
            Event::AgentDisconnected => EventModel::AgentDisconnected,
            Event::VmProcessExited => EventModel::VmProcessExited,
            Event::HostNotificationClosed(id, reason) => EventModel::HostNotificationClosed(
                *id as int,
                *reason as int,
            ),
        }
    }
}

impl DeepView for Event {
    type V = EventModel;

    open spec fn deep_view(&self) -> EventModel {
        self.view()
    }
}

} // verus!
