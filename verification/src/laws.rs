use vstd::prelude::*;

use crate::clipboard::watcher_step;
use crate::coordinator::ActionModel;
use crate::coordinator::CoordinatorModel;
use crate::coordinator::Phase;
use crate::event::EventModel;

verus! {

/// How many shutdown commands an action trace holds.
pub open spec fn shutdown_count(acts: Seq<ActionModel>) -> nat
    decreases acts.len(),
{
    if acts.len() == 0 {
        0
    } else {
        (if acts[0] is RequestShutdown {
            1nat
        } else {
            0nat
        }) + shutdown_count(acts.drop_first())
    }
}

proof fn lemma_shutdown_count_concat(a: Seq<ActionModel>, b: Seq<ActionModel>)
    ensures
        shutdown_count(a + b) == shutdown_count(a) + shutdown_count(b),
    decreases a.len(),
{
    if a.len() == 0 {
        assert(a + b =~= b);
    } else {
        assert((a + b).drop_first() =~= a.drop_first() + b);
        lemma_shutdown_count_concat(a.drop_first(), b);
    }
}

proof fn lemma_shutdown_count_single(a: ActionModel)
    ensures
        shutdown_count(seq![a]) == if a is RequestShutdown {
            1nat
        } else {
            0nat
        },
{
    assert(seq![a].drop_first() =~= Seq::<ActionModel>::empty());
    assert(shutdown_count(Seq::<ActionModel>::empty()) == 0);
}

proof fn lemma_shutdown_count_pair(a: ActionModel, b: ActionModel)
    requires
        !(a is RequestShutdown),
        !(b is RequestShutdown),
    ensures
        shutdown_count(seq![a, b]) == 0,
{
    assert(seq![a, b].drop_first() =~= seq![b]);
    lemma_shutdown_count_single(b);
}

/// One consumed event requests at most one shutdown, and it does so only on
/// the move from `Running` to `ShuttingDown`; from `ShuttingDown` or
/// `Terminated` the session never comes back and never requests another.
proof fn lemma_step_shutdown(pre: CoordinatorModel, ev: EventModel)
    ensures
        shutdown_count(pre.step(ev).1) <= 1,
        shutdown_count(pre.step(ev).1) == 1 ==> pre.phase is Running && pre.step(
            ev,
        ).0.phase is ShuttingDown,
        pre.phase is ShuttingDown || pre.phase is Terminated ==> shutdown_count(pre.step(ev).1)
            == 0 && (pre.step(ev).0.phase is ShuttingDown || pre.step(ev).0.phase is Terminated),
{
    assert(shutdown_count(Seq::<ActionModel>::empty()) == 0);
    match ev {
        EventModel::LocalClipboardUpdate(t) => {
            lemma_shutdown_count_single(ActionModel::SendClipboardToGuest(t));
        },
        EventModel::RemoteClipboardUpdate(t) => {
            lemma_shutdown_count_pair(
                ActionModel::SetEchoSuppression,
                ActionModel::StoreHostClipboard(t),
            );
        },
        EventModel::RemoteNotification(n) => {
            lemma_shutdown_count_single(
                ActionModel::DeliverNotification(pre.session.app, n),
            );
        },
        EventModel::AppExited(_code) => {
            lemma_shutdown_count_single(ActionModel::RequestShutdown);
        },
        _ => {},
    }
}

/// Law: the shutdown request is idempotent over the whole session. Whatever
/// events arrive, in whatever interleaving, the coordinator emits at most one
/// shutdown command; once it is shutting down or terminated, it emits none.
pub proof fn lemma_shutdown_at_most_once(pre: CoordinatorModel, evs: Seq<EventModel>)
    ensures
        shutdown_count(pre.run(evs).1) <= 1,
        pre.phase is ShuttingDown || pre.phase is Terminated ==> shutdown_count(pre.run(evs).1)
            == 0,
    decreases evs.len(),
{
    if evs.len() > 0 {
        let first = pre.step(evs[0]);
        lemma_step_shutdown(pre, evs[0]);
        lemma_shutdown_at_most_once(first.0, evs.drop_first());
        lemma_shutdown_count_concat(first.1, first.0.run(evs.drop_first()).1);
    }
}

/// Law: the fan-in loop is sequential. The trace of a concatenated stream is
/// the trace of the first part followed by the trace of the second, taken
/// from the state the first part left behind. Since the channel keeps each
/// producer's events in send order within the merged stream, each producer's
/// events are processed in its own FIFO order.
pub proof fn lemma_run_sequential(
    pre: CoordinatorModel,
    evs1: Seq<EventModel>,
    evs2: Seq<EventModel>,
)
    ensures
        pre.run(evs1 + evs2).0 == pre.run(evs1).0.run(evs2).0,
        pre.run(evs1 + evs2).1 == pre.run(evs1).1 + pre.run(evs1).0.run(evs2).1,
    decreases evs1.len(),
{
    if evs1.len() == 0 {
        assert(evs1 + evs2 =~= evs2);
        assert(pre.run(evs1).1 + pre.run(evs2).1 =~= pre.run(evs2).1);
    } else {
        let first = pre.step(evs1[0]);
        assert((evs1 + evs2)[0] == evs1[0]);
        assert((evs1 + evs2).drop_first() =~= evs1.drop_first() + evs2);
        lemma_run_sequential(first.0, evs1.drop_first(), evs2);
        assert(first.1 + (first.0.run(evs1.drop_first()).1 + pre.run(evs1).0.run(evs2).1) =~= (
        first.1 + first.0.run(evs1.drop_first()).1) + pre.run(evs1).0.run(evs2).1);
    }
}

/// Law: clipboard text crosses the bridge byte-identical, in both directions.
/// Host text is sent to the guest exactly as it arrived; guest text, with the
/// bridge enabled, is stored into the host clipboard exactly as it arrived.
pub proof fn lemma_clipboard_round_trip(pre: CoordinatorModel, text: Seq<u8>)
    requires
        pre.in_loop(),
    ensures
        pre.step(EventModel::LocalClipboardUpdate(text)).1 == seq![
            ActionModel::SendClipboardToGuest(text),
        ],
        pre.session.clipboard_enabled ==> pre.step(EventModel::RemoteClipboardUpdate(text)).1
            == seq![ActionModel::SetEchoSuppression, ActionModel::StoreHostClipboard(text)],
{
}

/// Law: a guest-originated clipboard write never echoes back to the guest.
/// The only host-store write a guest update causes is immediately preceded by
/// setting the echo-suppression flag, and a watcher that observes a change
/// with the flag set clears it and emits nothing — so no `LocalClipboardUpdate`
/// is regenerated and nothing is re-sent to the guest. With the bridge
/// disabled, a stray guest update causes no write at all.
pub proof fn lemma_no_clipboard_echo(pre: CoordinatorModel, text: Seq<u8>, observed: Seq<u8>)
    requires
        pre.in_loop(),
    ensures
        pre.session.clipboard_enabled ==> pre.step(EventModel::RemoteClipboardUpdate(text)).1
            == seq![ActionModel::SetEchoSuppression, ActionModel::StoreHostClipboard(text)],
        watcher_step(true, observed) == (false, Option::<EventModel>::None),
        !pre.session.clipboard_enabled ==> pre.step(EventModel::RemoteClipboardUpdate(text)).1
            == Seq::<ActionModel>::empty(),
{
}

} // verus!
