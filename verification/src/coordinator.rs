use vstd::prelude::*;

use crate::event::Event;
use crate::event::EventModel;
use crate::event::Notification;
use crate::event::NotificationModel;
use crate::session::Session;
use crate::session::SessionModel;
use crate::session::SharedDir;
use crate::session::copy_bytes;

verus! {

/// The linear phases of a session. There is no re-entry: a session moves
/// forward through these and ends in `Terminated`.
#[derive(Clone, Copy, Debug, PartialEq, Eq, Structural)]
pub enum Phase {
    /// Validating the application and provisioning directories and disk.
    Bootstrapping,
    /// Starting the virtual machine and performing the channel handshakes.
    Handshaking,
    /// Requesting the configured shared-directory mounts, in order.
    Mounting,
    /// The application was launched; the fan-in loop is consuming events.
    Running,
    /// The graceful power-down was requested; still consuming events.
    ShuttingDown,
    /// The virtual machine process exited; the loop is over.
    Terminated,
}

/// An effect the surrounding binary must carry out, in list order.
#[derive(Debug, PartialEq, Eq)]
pub enum Action {
    /// Forward host clipboard text to the guest over the agent channel.
    SendClipboardToGuest(Vec<u8>),
    /// Set the shared echo-suppression flag. It always stands immediately
    /// before the host-store write it covers, so the set is observed before
    /// the watcher sees the change.
    SetEchoSuppression,
    /// Write guest text into the host clipboard store.
    StoreHostClipboard(Vec<u8>),
    /// Call the host notification service as the given sender.
    DeliverNotification(Vec<u8>, Notification),
    /// Send the graceful power-down command over the control channel.
    RequestShutdown,
}

/// Mathematical model of an [`Action`].
pub ghost enum ActionModel {
    SendClipboardToGuest(Seq<u8>),
    SetEchoSuppression,
    StoreHostClipboard(Seq<u8>),
    DeliverNotification(Seq<u8>, NotificationModel),
    RequestShutdown,
}

impl View for Action {
    type V = ActionModel;

    open spec fn view(&self) -> ActionModel {
        match self {
            Action::SendClipboardToGuest(t) => ActionModel::SendClipboardToGuest(t@),
            Action::SetEchoSuppression => ActionModel::SetEchoSuppression,
            Action::StoreHostClipboard(t) => ActionModel::StoreHostClipboard(t@),
            Action::DeliverNotification(sender, n) => ActionModel::DeliverNotification(
                sender@,
                n@,
            ),
            Action::RequestShutdown => ActionModel::RequestShutdown,
        }
    }
}

impl DeepView for Action {
    type V = ActionModel;

    open spec fn deep_view(&self) -> ActionModel {
        self.view()
    }
}

/// Mathematical model of a [`Coordinator`].
pub ghost struct CoordinatorModel {
    pub session: SessionModel,
    pub phase: Phase,
    pub mounted: int,
}

impl CoordinatorModel {
    /// The coordinator consumes events only while the fan-in loop runs.
    pub open spec fn in_loop(self) -> bool {
        self.phase is Running || self.phase is ShuttingDown
    }

    /// The dispatch table of the fan-in loop: what one consumed event does to
    /// the session state, and which effects it demands, in order.
    ///
    /// - Host clipboard text is always forwarded to the guest verbatim.
    /// - Guest clipboard text is stored on the host only when the clipboard
    ///   bridge is enabled, and the echo-suppression flag is set first.
    /// - A guest notification is delivered only when notifications are
    ///   enabled, as the application id, with the text unchanged.
    /// - The first application exit requests the graceful power-down when
    ///   shutdown-on-exit is enabled; the session then keeps consuming.
    /// - Only the exit of the virtual machine process ends the session.
    pub open spec fn step(self, ev: EventModel) -> (CoordinatorModel, Seq<ActionModel>) {
        if !self.in_loop() {
            (self, Seq::empty())
        } else {
            match ev {
                EventModel::LocalClipboardUpdate(text) => (
                    self,
                    seq![ActionModel::SendClipboardToGuest(text)],
                ),
                EventModel::RemoteClipboardUpdate(text) => if self.session.clipboard_enabled {
                    (
                        self,
                        seq![
                            ActionModel::SetEchoSuppression,
                            ActionModel::StoreHostClipboard(text),
                        ],
                    )
                } else {
                    (self, Seq::empty())
                },
                EventModel::RemoteNotification(n) => if self.session.notifications_enabled {
                    (self, seq![ActionModel::DeliverNotification(self.session.app, n)])
                } else {
                    (self, Seq::empty())
                },
                EventModel::AppExited(_code) => if self.phase is Running
                    && self.session.shutdown_on_exit {
                    (
                        CoordinatorModel { phase: Phase::ShuttingDown, ..self },
                        seq![ActionModel::RequestShutdown],
                    )
                } else {
                    (self, Seq::empty())
                },
                EventModel::AgentDisconnected => (self, Seq::empty()),
                EventModel::VmProcessExited => (
                    CoordinatorModel { phase: Phase::Terminated, ..self },
                    Seq::empty(),
                ),
                EventModel::HostNotificationClosed(_id, _reason) => (self, Seq::empty()),
            }
        }
    }

    /// The fan-in loop over a whole event stream: each event is consumed
    /// exactly once, in arrival order, and its actions are appended to the
    /// trace; events arriving after termination are not processed.
    pub open spec fn run(self, evs: Seq<EventModel>) -> (CoordinatorModel, Seq<ActionModel>)
        decreases evs.len(),
    {
        if evs.len() == 0 {
            (self, Seq::empty())
        } else {
            let first = self.step(evs[0]);
            let rest = first.0.run(evs.drop_first());
            (rest.0, first.1 + rest.1)
        }
    }
}

/// The session state machine and single consumer of the event channel.
pub struct Coordinator {
    pub session: Session,
    pub phase: Phase,
    /// How many of the configured shared directories were mounted so far.
    pub mounted: usize,
}

impl View for Coordinator {
    type V = CoordinatorModel;

    open spec fn view(&self) -> CoordinatorModel {
        CoordinatorModel { session: self.session@, phase: self.phase, mounted: self.mounted as int }
    }
}

impl Coordinator {
    pub open spec fn in_loop(self) -> bool {
        self@.in_loop()
    }

    /// A fresh session begins in `Bootstrapping`.
    pub fn new(session: Session) -> (c: Coordinator)
        ensures
            c.session == session,
            c.phase is Bootstrapping,
            c.mounted == 0,
    {
        Coordinator { session, phase: Phase::Bootstrapping, mounted: 0 }
    }

    /// The application was validated and its data directories and disk image
    /// provisioned; move to the channel handshakes.
    pub fn begin_handshake(&mut self)
        requires
            old(self).phase is Bootstrapping,
        ensures
            final(self).phase is Handshaking,
            final(self).session == old(self).session,
            final(self).mounted == old(self).mounted,
    {
        self.phase = Phase::Handshaking;
    }

    /// Both channels are connected and their version exchanges done; move to
    /// the mount phase, with no directory mounted yet.
    pub fn begin_mounting(&mut self)
        requires
            old(self).phase is Handshaking,
        ensures
            final(self).phase is Mounting,
            final(self).session == old(self).session,
            final(self).mounted == 0,
    {
        self.phase = Phase::Mounting;
        self.mounted = 0;
    }

    /// Whether a shared directory still awaits its mount request.
    pub fn has_pending_mount(&self) -> (r: bool)
        requires
            self.phase is Mounting,
        ensures
            r == (self.mounted < self.session.shared_dirs@.len()),
    {
        self.mounted < self.session.shared_dirs.len()
    }

    /// The directory whose mount must be requested next: mounts are issued
    /// once per configured directory, in configuration order.
    pub fn next_mount(&self) -> (d: &SharedDir)
        requires
            self.phase is Mounting,
            self.mounted < self.session.shared_dirs@.len(),
        ensures
            d == self.session.shared_dirs[self.mounted as int],
    {
        &self.session.shared_dirs[self.mounted]
    }

    /// The guest acknowledged the pending mount. Any rejected mount instead
    /// aborts the session: partial mounting is not a supported state.
    pub fn mount_done(&mut self)
        requires
            old(self).phase is Mounting,
            old(self).mounted < old(self).session.shared_dirs@.len(),
        ensures
            final(self).phase is Mounting,
            final(self).session == old(self).session,
            final(self).mounted == old(self).mounted + 1,
    {
        let n = self.session.shared_dirs.len();
        assert(self.mounted < n);
        self.mounted = self.mounted + 1;
    }

    /// Every configured directory is mounted (zero directories is valid and
    /// makes the mount phase a no-op); the run request was issued and the
    /// fan-in loop begins.
    pub fn begin_running(&mut self)
        requires
            old(self).phase is Mounting,
            old(self).mounted == old(self).session.shared_dirs@.len(),
        ensures
            final(self).phase is Running,
            final(self).session == old(self).session,
            final(self).mounted == old(self).mounted,
    {
        self.phase = Phase::Running;
    }

    /// Whether the fan-in loop is still consuming events.
    pub fn is_active(&self) -> (r: bool)
        ensures
            r == self.in_loop(),
    {
        match self.phase {
            Phase::Running => true,
            Phase::ShuttingDown => true,
            _ => false,
        }
    }

    /// Whether the session is over and the workers must be joined.
    pub fn is_terminated(&self) -> (r: bool)
        ensures
            r == (self.phase is Terminated),
    {
        match self.phase {
            Phase::Terminated => true,
            _ => false,
        }
    }

    /// Consumes one event of the fan-in loop and returns the actions it
    /// demands, exactly as the model's dispatch table gives them.
    pub fn handle_event(&mut self, ev: Event) -> (acts: Vec<Action>)
        requires
            old(self).in_loop(),
        ensures
            final(self)@ == old(self)@.step(ev@).0,
            acts.deep_view() == old(self)@.step(ev@).1,
    {
        let mut acts: Vec<Action> = Vec::new();
        match ev {
            Event::LocalClipboardUpdate(text) => {
                acts.push(Action::SendClipboardToGuest(text));
                assert(acts.deep_view() =~= old(self)@.step(ev@).1);
            },
            Event::RemoteClipboardUpdate(text) => {
                if self.session.clipboard_enabled {
                    acts.push(Action::SetEchoSuppression);
                    acts.push(Action::StoreHostClipboard(text));
                    assert(acts.deep_view() =~= old(self)@.step(ev@).1);
                } else {
                    assert(acts.deep_view() =~= old(self)@.step(ev@).1);
                }
            },
            Event::RemoteNotification(n) => {
                if self.session.notifications_enabled {
                    let sender = copy_bytes(&self.session.app);
                    acts.push(Action::DeliverNotification(sender, n));
                    assert(acts.deep_view() =~= old(self)@.step(ev@).1);
                } else {
                    assert(acts.deep_view() =~= old(self)@.step(ev@).1);
                }
            },
            Event::AppExited(_code) => {
                let request = match self.phase {
                    Phase::Running => self.session.shutdown_on_exit,
                    _ => false,
                };
                if request {
                    self.phase = Phase::ShuttingDown;
                    acts.push(Action::RequestShutdown);
                    assert(acts.deep_view() =~= old(self)@.step(ev@).1);
                } else {
                    assert(acts.deep_view() =~= old(self)@.step(ev@).1);
                }
            },
            Event::AgentDisconnected => {
                assert(acts.deep_view() =~= old(self)@.step(ev@).1);
            },
            Event::VmProcessExited => {
                self.phase = Phase::Terminated;
                assert(acts.deep_view() =~= old(self)@.step(ev@).1);
            },
            Event::HostNotificationClosed(_id, _reason) => {
                assert(acts.deep_view() =~= old(self)@.step(ev@).1);
            },
        }
        acts
    }

    /// Consumes a whole event stream in arrival order, collecting the action
    /// trace; once the session terminates, remaining events are dropped
    /// unprocessed.
    pub fn process_events(&mut self, events: Vec<Event>) -> (acts: Vec<Action>)
        ensures
            final(self)@ == old(self)@.run(events.deep_view()).0,
            acts.deep_view() == old(self)@.run(events.deep_view()).1,
    {
        let ghost orig: CoordinatorModel = self@;
        let ghost all: Seq<EventModel> = events.deep_view();
        let mut acts: Vec<Action> = Vec::new();
        let mut pending = events;
        while pending.len() > 0
            invariant
                orig.run(all).0 == self@.run(pending.deep_view()).0,
                orig.run(all).1 == acts.deep_view() + self@.run(pending.deep_view()).1,
            decreases pending.len(),
        {
            let ghost pre: CoordinatorModel = self@;
            let ghost dv: Seq<EventModel> = pending.deep_view();
            let ev = pending.remove(0);
            proof {
                assert(ev.deep_view() == dv[0]);
                assert(pending.deep_view() =~= dv.drop_first());
            }
            if self.is_active() {
                let mut step_acts = self.handle_event(ev);
                proof {
                    assert(acts.deep_view() + step_acts.deep_view() + self@.run(
                        pending.deep_view(),
                    ).1 =~= acts.deep_view() + (step_acts.deep_view() + self@.run(
                        pending.deep_view(),
                    ).1));
                }
                acts.append(&mut step_acts);
            } else {
                proof {
                    assert(pre.step(dv[0]).1 + self@.run(pending.deep_view()).1 =~= self@.run(
                        pending.deep_view(),
                    ).1);
                }
            }
        }
        proof {
            assert(pending.deep_view() =~= Seq::<EventModel>::empty());
            assert(acts.deep_view() + self@.run(pending.deep_view()).1 =~= acts.deep_view());
        }
        acts
    }
}

} // verus!
