use vstd::prelude::*;

use crate::event::Event;
use crate::event::EventModel;

verus! {

/// What the host clipboard watcher does on one change notification, given the
/// value it read (and atomically cleared) from the echo-suppression flag.
///
/// The flag means "the most recent host clipboard write originated from the
/// guest". When it was set, the change the watcher is looking at is the
/// coordinator's own write of guest text: the watcher clears the flag and
/// suppresses the event, breaking the echo cycle. When it was clear, the
/// change is a genuine host-side copy and is forwarded verbatim.
pub open spec fn watcher_step(flag_was_set: bool, text: Seq<u8>) -> (bool, Option<EventModel>) {
    if flag_was_set {
        (false, None)
    } else {
        (false, Some(EventModel::LocalClipboardUpdate(text)))
    }
}

/// The watcher's decision on one host clipboard change.
///
/// `flag_was_set` is the value the watcher read from the shared
/// echo-suppression flag at the moment of the change; the first component of
/// the result is the value to store back (always clear), the second the event
/// to put on the channel, if any.
pub fn watcher_on_change(flag_was_set: bool, text: Vec<u8>) -> (r: (bool, Option<Event>))
    ensures
        r.0 == watcher_step(flag_was_set, text@).0,
        r.1.deep_view() == watcher_step(flag_was_set, text@).1,
{
    if flag_was_set {
        (false, None)
    } else {
        (false, Some(Event::LocalClipboardUpdate(text)))
    }
}

} // verus!
