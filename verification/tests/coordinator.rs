use flatkvm::coordinator::Action;
use flatkvm::coordinator::Coordinator;
use flatkvm::coordinator::Phase;
use flatkvm::event::Event;
use flatkvm::event::Notification;
use flatkvm::session::RunFlags;
use flatkvm::session::Session;
use flatkvm::session::SharedDir;

fn flags() -> RunFlags {
    RunFlags {
        user_global: false,
        user_run: false,
        cpus: None,
        mem: None,
        no_shutdown: false,
        no_audio: false,
        no_network: false,
        virgl: false,
        no_clipboard: false,
        no_dbus_notifications: false,
        volatile: false,
    }
}

fn running_coordinator(fl: RunFlags, dirs: Vec<SharedDir>) -> Coordinator {
    let session = Session::from_flags(&b"org.example.app".to_vec(), &fl, dirs);
    let mut c = Coordinator::new(session);
    c.begin_handshake();
    c.begin_mounting();
    while c.has_pending_mount() {
        c.mount_done();
    }
    c.begin_running();
    c
}

#[test]
fn app_exit_with_default_flags_requests_shutdown_once_and_loop_ends_on_vm_exit() {
    let mut c = running_coordinator(flags(), vec![]);
    let acts = c.process_events(vec![Event::AppExited(0), Event::VmProcessExited]);
    assert_eq!(acts, vec![Action::RequestShutdown]);
    assert!(c.is_terminated());
    assert_eq!(c.phase, Phase::Terminated);
}

#[test]
fn repeated_app_exits_request_at_most_one_shutdown() {
    let mut c = running_coordinator(flags(), vec![]);
    let acts = c.process_events(vec![
        Event::AppExited(0),
        Event::AppExited(1),
        Event::AppExited(0),
        Event::VmProcessExited,
    ]);
    let shutdowns = acts.iter().filter(|a| matches!(a, Action::RequestShutdown)).count();
    assert_eq!(shutdowns, 1);
}

#[test]
fn no_shutdown_flag_suppresses_the_shutdown_request() {
    let mut fl = flags();
    fl.no_shutdown = true;
    let mut c = running_coordinator(fl, vec![]);
    let acts = c.process_events(vec![Event::AppExited(0), Event::VmProcessExited]);
    assert_eq!(acts, vec![]);
    assert!(c.is_terminated());
}

#[test]
fn local_clipboard_text_is_forwarded_to_the_guest_byte_identical() {
    let mut c = running_coordinator(flags(), vec![]);
    let text = b"copied on the host \xf0\x9f\x91\x8d".to_vec();
    let acts = c.handle_event(Event::LocalClipboardUpdate(text.clone()));
    assert_eq!(acts, vec![Action::SendClipboardToGuest(text)]);
}

#[test]
fn remote_clipboard_text_is_stored_byte_identical_with_the_flag_set_first() {
    let mut c = running_coordinator(flags(), vec![]);
    let text = b"copied in the guest".to_vec();
    let acts = c.handle_event(Event::RemoteClipboardUpdate(text.clone()));
    assert_eq!(
        acts,
        vec![Action::SetEchoSuppression, Action::StoreHostClipboard(text)]
    );
}

#[test]
fn with_no_clipboard_a_stray_remote_update_is_ignored() {
    let mut fl = flags();
    fl.no_clipboard = true;
    let mut c = running_coordinator(fl, vec![]);
    let acts = c.handle_event(Event::RemoteClipboardUpdate(b"stray".to_vec()));
    assert_eq!(acts, vec![]);
    assert!(c.is_active());
}

#[test]
fn guest_notification_is_delivered_with_matching_fields() {
    let mut c = running_coordinator(flags(), vec![]);
    let n = Notification {
        summary: b"Build done".to_vec(),
        body: b"ok".to_vec(),
        expire_ms: 5000,
    };
    let acts = c.handle_event(Event::RemoteNotification(n.clone()));
    assert_eq!(
        acts,
        vec![Action::DeliverNotification(b"org.example.app".to_vec(), n)]
    );
}

#[test]
fn with_no_dbus_notifications_a_guest_notification_is_dropped() {
    let mut fl = flags();
    fl.no_dbus_notifications = true;
    let mut c = running_coordinator(fl, vec![]);
    let n = Notification {
        summary: b"Build done".to_vec(),
        body: b"ok".to_vec(),
        expire_ms: 5000,
    };
    let acts = c.handle_event(Event::RemoteNotification(n));
    assert_eq!(acts, vec![]);
}

#[test]
fn agent_disconnect_keeps_the_loop_waiting_until_the_vm_process_exits() {
    let mut c = running_coordinator(flags(), vec![]);
    let acts = c.handle_event(Event::AgentDisconnected);
    assert_eq!(acts, vec![]);
    assert!(c.is_active());
    assert!(!c.is_terminated());
    let acts = c.handle_event(Event::VmProcessExited);
    assert_eq!(acts, vec![]);
    assert!(c.is_terminated());
}

#[test]
fn events_after_termination_are_not_processed() {
    let mut c = running_coordinator(flags(), vec![]);
    let acts = c.process_events(vec![
        Event::VmProcessExited,
        Event::RemoteClipboardUpdate(b"late".to_vec()),
        Event::AppExited(0),
    ]);
    assert_eq!(acts, vec![]);
    assert!(c.is_terminated());
}

#[test]
fn notification_closed_signal_is_consumed_without_effect() {
    let mut c = running_coordinator(flags(), vec![]);
    let acts = c.handle_event(Event::HostNotificationClosed(7, 2));
    assert_eq!(acts, vec![]);
    assert!(c.is_active());
}

#[test]
fn each_producers_events_are_processed_in_its_own_order_under_any_interleaving() {
    // Two producers: the agent listener (two guest clipboard updates) and the
    // host watcher (two host copies). Under either interleaving, each
    // producer's actions come out in that producer's send order.
    let interleavings: Vec<Vec<Event>> = vec![
        vec![
            Event::RemoteClipboardUpdate(b"g1".to_vec()),
            Event::LocalClipboardUpdate(b"h1".to_vec()),
            Event::RemoteClipboardUpdate(b"g2".to_vec()),
            Event::LocalClipboardUpdate(b"h2".to_vec()),
        ],
        vec![
            Event::LocalClipboardUpdate(b"h1".to_vec()),
            Event::LocalClipboardUpdate(b"h2".to_vec()),
            Event::RemoteClipboardUpdate(b"g1".to_vec()),
            Event::RemoteClipboardUpdate(b"g2".to_vec()),
        ],
    ];
    for events in interleavings {
        let mut c = running_coordinator(flags(), vec![]);
        let acts = c.process_events(events);
        let guest_stores: Vec<&Action> = acts
            .iter()
            .filter(|a| matches!(a, Action::StoreHostClipboard(_)))
            .collect();
        let host_sends: Vec<&Action> = acts
            .iter()
            .filter(|a| matches!(a, Action::SendClipboardToGuest(_)))
            .collect();
        assert_eq!(
            guest_stores,
            vec![
                &Action::StoreHostClipboard(b"g1".to_vec()),
                &Action::StoreHostClipboard(b"g2".to_vec()),
            ]
        );
        assert_eq!(
            host_sends,
            vec![
                &Action::SendClipboardToGuest(b"h1".to_vec()),
                &Action::SendClipboardToGuest(b"h2".to_vec()),
            ]
        );
    }
}

#[test]
fn events_are_processed_in_arrival_order() {
    let mut c = running_coordinator(flags(), vec![]);
    let acts = c.process_events(vec![
        Event::LocalClipboardUpdate(b"one".to_vec()),
        Event::RemoteClipboardUpdate(b"two".to_vec()),
        Event::LocalClipboardUpdate(b"three".to_vec()),
    ]);
    assert_eq!(
        acts,
        vec![
            Action::SendClipboardToGuest(b"one".to_vec()),
            Action::SetEchoSuppression,
            Action::StoreHostClipboard(b"two".to_vec()),
            Action::SendClipboardToGuest(b"three".to_vec()),
        ]
    );
}
