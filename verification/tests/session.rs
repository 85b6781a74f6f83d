use flatkvm::coordinator::Coordinator;
use flatkvm::errors::SessionError;
use flatkvm::session::RunFlags;
use flatkvm::session::Session;
use flatkvm::session::SharedDir;
use flatkvm::session::SharedDirKind;
use flatkvm::session::agent_socket_path;
use flatkvm::session::app_base_name;
use flatkvm::session::classify_app_lookup;
use flatkvm::session::data_disk_path;
use flatkvm::session::parse_u32;
use flatkvm::session::qmp_socket_path;

fn flags() -> RunFlags {
    RunFlags {
        user_global: false,
        user_run: false,
        cpus: None,
        mem: None,
        no_shutdown: false,
        no_audio: false,
        no_network: false,
        virgl: false,
        no_clipboard: false,
        no_dbus_notifications: false,
        volatile: false,
    }
}

#[test]
fn defaults_are_one_cpu_1024_mib_and_every_feature_on() {
    let s = Session::from_flags(&b"org.example.app".to_vec(), &flags(), vec![]);
    assert_eq!(s.app, b"org.example.app".to_vec());
    assert!(!s.usermode);
    assert_eq!(s.cpus, 1);
    assert_eq!(s.mem, 1024);
    assert!(s.audio);
    assert!(s.network);
    assert!(!s.virgl);
    assert!(!s.volatile);
    assert!(s.clipboard_enabled);
    assert!(s.notifications_enabled);
    assert!(s.shutdown_on_exit);
    assert!(s.shared_dirs.is_empty());
}

#[test]
fn user_flag_in_either_position_selects_usermode() {
    let mut fl = flags();
    fl.user_global = true;
    let s = Session::from_flags(&b"a".to_vec(), &fl, vec![]);
    assert!(s.usermode);
    let mut fl = flags();
    fl.user_run = true;
    let s = Session::from_flags(&b"a".to_vec(), &fl, vec![]);
    assert!(s.usermode);
}

#[test]
fn switches_turn_their_features_off() {
    let fl = RunFlags {
        user_global: false,
        user_run: false,
        cpus: Some(4),
        mem: Some(2048),
        no_shutdown: true,
        no_audio: true,
        no_network: true,
        virgl: true,
        no_clipboard: true,
        no_dbus_notifications: true,
        volatile: true,
    };
    let s = Session::from_flags(&b"a".to_vec(), &fl, vec![]);
    assert_eq!(s.cpus, 4);
    assert_eq!(s.mem, 2048);
    assert!(!s.shutdown_on_exit);
    assert!(!s.audio);
    assert!(!s.network);
    assert!(s.virgl);
    assert!(!s.clipboard_enabled);
    assert!(!s.notifications_enabled);
    assert!(s.volatile);
}

#[test]
fn app_name_keeps_only_what_precedes_the_first_slash() {
    assert_eq!(
        app_base_name(&b"org.gnome.gedit/x86_64/stable".to_vec()),
        b"org.gnome.gedit".to_vec()
    );
    assert_eq!(app_base_name(&b"org.gnome.gedit".to_vec()), b"org.gnome.gedit".to_vec());
    assert_eq!(app_base_name(&b"/branch".to_vec()), b"".to_vec());
    assert_eq!(app_base_name(&b"".to_vec()), b"".to_vec());
}

#[test]
fn parse_u32_reads_exact_decimal_values() {
    assert_eq!(parse_u32(&b"0".to_vec()), Some(0));
    assert_eq!(parse_u32(&b"1".to_vec()), Some(1));
    assert_eq!(parse_u32(&b"1024".to_vec()), Some(1024));
    assert_eq!(parse_u32(&b"4294967295".to_vec()), Some(u32::MAX));
}

#[test]
fn parse_u32_rejects_empty_non_digit_and_out_of_range_input() {
    assert_eq!(parse_u32(&b"".to_vec()), None);
    assert_eq!(parse_u32(&b"12a".to_vec()), None);
    assert_eq!(parse_u32(&b"-1".to_vec()), None);
    assert_eq!(parse_u32(&b"4294967296".to_vec()), None);
    assert_eq!(parse_u32(&b"99999999999999999999".to_vec()), None);
}

#[test]
fn socket_and_disk_paths_follow_the_documented_layout() {
    let run_dir = b"/home/u/.var/run/flatkvm".to_vec();
    let app = b"org.example.app".to_vec();
    assert_eq!(
        agent_socket_path(&run_dir, &app),
        b"/home/u/.var/run/flatkvm/org.example.app-agent.sock".to_vec()
    );
    assert_eq!(
        qmp_socket_path(&run_dir, &app),
        b"/home/u/.var/run/flatkvm/org.example.app-qmp.sock".to_vec()
    );
    let app_dir = b"/home/u/.var/flatkvm-app/org.example.app".to_vec();
    assert_eq!(
        data_disk_path(&app_dir, &app),
        b"/home/u/.var/flatkvm-app/org.example.app/org.example.app-disk.qcow2".to_vec()
    );
}

#[test]
fn unknown_application_id_is_a_startup_error() {
    assert_eq!(classify_app_lookup(Some(1)), Err(SessionError::StartupError));
    assert_eq!(classify_app_lookup(Some(-1)), Err(SessionError::StartupError));
    assert_eq!(classify_app_lookup(None), Err(SessionError::StartupError));
    assert_eq!(classify_app_lookup(Some(0)), Ok(()));
}

#[test]
fn zero_shared_directories_makes_the_mount_phase_a_no_op() {
    let s = Session::from_flags(&b"a".to_vec(), &flags(), vec![]);
    let mut c = Coordinator::new(s);
    c.begin_handshake();
    c.begin_mounting();
    assert!(!c.has_pending_mount());
    c.begin_running();
    assert!(c.is_active());
}

#[test]
fn mounts_are_requested_once_each_in_configuration_order() {
    let dirs = vec![
        SharedDir {
            kind: SharedDirKind::FlatpakSystemDir,
            path: b"/var/lib/flatpak".to_vec(),
            read_only: true,
        },
        SharedDir {
            kind: SharedDirKind::FlatpakUserDir,
            path: b"/home/u/.local/share/flatpak".to_vec(),
            read_only: true,
        },
    ];
    let s = Session::from_flags(&b"a".to_vec(), &flags(), dirs.clone());
    let mut c = Coordinator::new(s);
    c.begin_handshake();
    c.begin_mounting();
    let mut seen = Vec::new();
    while c.has_pending_mount() {
        seen.push(c.next_mount().clone());
        c.mount_done();
    }
    assert_eq!(seen, dirs);
    c.begin_running();
    assert!(c.is_active());
}
