use vstd::prelude::*;

use crate::event::Event;

verus! {

/// One item read from the host notification bus by the optional companion
/// listener. The transport decodes each bus item into this shape.
#[derive(Debug, PartialEq, Eq)]
pub enum BusItem {
    /// A notification-closed signal, carrying the notification id and the
    /// close reason.
    NotificationClosed(u32, u32),
    /// Any other signal or non-signal item.
    Other,
}

/// Decides what one bus item contributes to the event channel: only
/// notification-closed signals are forwarded, as
/// [`Event::HostNotificationClosed`]; everything else is dropped. This is a
/// dormant extension point: the coordinator consumes the forwarded event
/// without acting on it.
pub fn handle_dbus_notifications(item: BusItem) -> (r: Option<Event>)
    ensures
        match item {
            BusItem::NotificationClosed(id, reason) => r == Some(
                Event::HostNotificationClosed(id, reason),
            ),
            BusItem::Other => r is None,
        },
{
    match item {
        BusItem::NotificationClosed(id, reason) => Some(Event::HostNotificationClosed(id, reason)),
        BusItem::Other => None,
    }
}

} // verus!
