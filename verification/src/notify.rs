use vstd::prelude::*;

use crate::event::Notification;

verus! {

/// The exact argument list of one call to the host notification service.
pub struct HostNotifyRequest {
    /// The sender name handed to the service: the application id.
    pub sender: Vec<u8>,
    /// The id of a notification to replace; always zero here.
    pub replaces_id: u32,
    /// The icon name; always empty here.
    pub icon: Vec<u8>,
    pub summary: Vec<u8>,
    pub body: Vec<u8>,
    /// Action entries; always the empty sequence here.
    pub actions: Vec<Vec<u8>>,
    /// Hint entries; always the empty mapping here.
    pub hints: Vec<(Vec<u8>, Vec<u8>)>,
    /// Expiry in milliseconds, exactly as the guest gave it.
    pub expire_ms: i32,
}

/// Shapes the host notification call for a delivery action: the sender is the
/// application id, replaces-id is zero, the icon is empty, summary, body and
/// expiry are the guest's unchanged, and actions and hints are empty. The id
/// the service returns is discarded (fire and forget), and a delivery failure
/// is recoverable: it is logged and the session continues.
pub fn host_notify_request(sender: Vec<u8>, n: Notification) -> (r: HostNotifyRequest)
    ensures
        r.sender@ == sender@,
        r.replaces_id == 0,
        r.icon@ == Seq::<u8>::empty(),
        r.summary@ == n.summary@,
        r.body@ == n.body@,
        r.actions@ == Seq::<Vec<u8>>::empty(),
        r.hints@ == Seq::<(Vec<u8>, Vec<u8>)>::empty(),
        r.expire_ms == n.expire_ms,
{
    HostNotifyRequest {
        sender,
        replaces_id: 0,
        icon: Vec::new(),
        summary: n.summary,
        body: n.body,
        actions: Vec::new(),
        hints: Vec::new(),
        expire_ms: n.expire_ms,
    }
}

} // verus!
