use vstd::prelude::*;

use crate::errors::SessionError;

verus! {

/// The kinds of shared directory exposed to the guest.
#[derive(Clone, Copy, Debug, PartialEq, Eq, Structural)]
pub enum SharedDirKind {
    FlatpakSystemDir,
    FlatpakUserDir,
}

/// A host path exposed inside the guest via filesystem passthrough.
#[derive(Debug, Clone, PartialEq, Eq)]
pub struct SharedDir {
    pub kind: SharedDirKind,
    pub path: Vec<u8>,
    pub read_only: bool,
}

/// Mathematical model of a [`SharedDir`].
pub ghost struct SharedDirModel {
    pub kind: SharedDirKind,
    pub path: Seq<u8>,
    pub read_only: bool,
}

impl View for SharedDir {
    type V = SharedDirModel;

    open spec fn view(&self) -> SharedDirModel {
        SharedDirModel { kind: self.kind, path: self.path@, read_only: self.read_only }
    }
}

impl DeepView for SharedDir {
    type V = SharedDirModel;

    open spec fn deep_view(&self) -> SharedDirModel {
        self.view()
    }
}

/// The command-line switches of the `run` subcommand, as plain values.
#[derive(Debug, Clone, PartialEq, Eq)]
pub struct RunFlags {
    /// `--user` given before the subcommand.
    pub user_global: bool,
    /// `--user` given on the subcommand.
    pub user_run: bool,
    /// `--cpus <n>`, if given.
    pub cpus: Option<u32>,
    /// `--mem <n>` in MiB, if given.
    pub mem: Option<u32>,
    pub no_shutdown: bool,
    pub no_audio: bool,
    pub no_network: bool,
    pub virgl: bool,
    pub no_clipboard: bool,
    pub no_dbus_notifications: bool,
    pub volatile: bool,
}

/// One run of one application inside one virtual machine instance.
#[derive(Debug, Clone, PartialEq, Eq)]
pub struct Session {
    /// The application identifier, with any `/`-suffix already stripped.
    pub app: Vec<u8>,
    /// Work on per-user installations rather than system-wide ones.
    pub usermode: bool,
    /// Number of virtual cpus.
    pub cpus: u32,
    /// Guest memory in MiB.
    pub mem: u32,
    pub audio: bool,
    pub network: bool,
    pub virgl: bool,
    /// Use a temporary location for application data.
    pub volatile: bool,
    pub clipboard_enabled: bool,
    pub notifications_enabled: bool,
    /// Send a graceful power-down to the guest when the application exits.
    pub shutdown_on_exit: bool,
    /// Shared directories, in the order their mounts must be requested.
    pub shared_dirs: Vec<SharedDir>,
}

/// Mathematical model of a [`Session`].
pub ghost struct SessionModel {
    pub app: Seq<u8>,
    pub usermode: bool,
    pub cpus: int,
    pub mem: int,
    pub audio: bool,
    pub network: bool,
    pub virgl: bool,
    pub volatile: bool,
    pub clipboard_enabled: bool,
    pub notifications_enabled: bool,
    pub shutdown_on_exit: bool,
    pub shared_dirs: Seq<SharedDirModel>,
}

impl View for Session {
    type V = SessionModel;

    open spec fn view(&self) -> SessionModel {
        SessionModel {
            app: self.app@,
            usermode: self.usermode,
            cpus: self.cpus as int,
            mem: self.mem as int,
            audio: self.audio,
            network: self.network,
            virgl: self.virgl,
            volatile: self.volatile,
            clipboard_enabled: self.clipboard_enabled,
            notifications_enabled: self.notifications_enabled,
            shutdown_on_exit: self.shutdown_on_exit,
            shared_dirs: self.shared_dirs.deep_view(),
        }
    }
}

/// The default number of virtual cpus.
pub const DEFAULT_CPUS: u32 = 1;

/// The default guest memory in MiB.
pub const DEFAULT_MEM_MB: u32 = 1024;

/// The byte `/`, separating a raw application name from its suffix and path
/// components from one another.
pub const SLASH: u8 = 47;

/// The byte `0`, the least ASCII decimal digit.
pub const DIGIT_ZERO: u8 = 48;

/// The byte `9`, the greatest ASCII decimal digit.
pub const DIGIT_NINE: u8 = 57;

impl Session {
    /// Derives the session configuration from the command input, applying the
    /// documented defaults: one cpu, 1024 MiB of memory, every feature on
    /// unless its `--no-...` switch was given, and user mode when `--user`
    /// stood in either position. The application identifier keeps only what
    /// precedes the first `/` of the raw name.
    pub fn from_flags(app_name: &Vec<u8>, flags: &RunFlags, shared_dirs: Vec<SharedDir>) -> (s:
        Session)
        ensures
            is_base_name(app_name@, s.app@),
            s.usermode == (flags.user_global || flags.user_run),
            s.cpus == (if flags.cpus is Some {
                flags.cpus->0
            } else {
                DEFAULT_CPUS
            }),
            s.mem == (if flags.mem is Some {
                flags.mem->0
            } else {
                DEFAULT_MEM_MB
            }),
            s.audio == !flags.no_audio,
            s.network == !flags.no_network,
            s.virgl == flags.virgl,
            s.volatile == flags.volatile,
            s.clipboard_enabled == !flags.no_clipboard,
            s.notifications_enabled == !flags.no_dbus_notifications,
            s.shutdown_on_exit == !flags.no_shutdown,
            s.shared_dirs == shared_dirs,
    {
        let app = app_base_name(app_name);
        let cpus = match flags.cpus {
            Some(n) => n,
            None => DEFAULT_CPUS,
        };
        let mem = match flags.mem {
            Some(n) => n,
            None => DEFAULT_MEM_MB,
        };
        Session {
            app,
            usermode: flags.user_global || flags.user_run,
            cpus,
            mem,
            audio: !flags.no_audio,
            network: !flags.no_network,
            virgl: flags.virgl,
            volatile: flags.volatile,
            clipboard_enabled: !flags.no_clipboard,
            notifications_enabled: !flags.no_dbus_notifications,
            shutdown_on_exit: !flags.no_shutdown,
            shared_dirs,
        }
    }
}

/// `base` is exactly the prefix of `name` that precedes its first `/`, or all
/// of `name` when no `/` occurs.
pub open spec fn is_base_name(name: Seq<u8>, base: Seq<u8>) -> bool {
    &&& base.len() <= name.len()
    &&& base == name.subrange(0, base.len() as int)
    &&& forall|j: int| 0 <= j < base.len() ==> name[j] != SLASH
    &&& base.len() < name.len() ==> name[base.len() as int] == SLASH
}

/// Strips a `/`-separated suffix (such as a branch) from a raw application
/// name, keeping what precedes the first `/`.
pub fn app_base_name(name: &Vec<u8>) -> (base: Vec<u8>)
    ensures
        is_base_name(name@, base@),
{
    let n = name.len();
    let mut i: usize = 0;
    while i < n && name[i] != SLASH
        invariant
            n == name@.len(),
            i <= n,
            forall|j: int| 0 <= j < i ==> name@[j] != SLASH,
        decreases n - i,
    {
        i += 1;
    }
    let mut base: Vec<u8> = Vec::new();
    let mut j: usize = 0;
    while j < i
        invariant
            j <= i,
            i <= name@.len(),
            base@ == name@.subrange(0, j as int),
        decreases i - j,
    {
        base.push(name[j]);
        assert(base@ =~= name@.subrange(0, j + 1 as int));
        j += 1;
    }
    base
}

/// The decimal value of a digit sequence (most significant digit first).
pub open spec fn dec_value(s: Seq<u8>) -> nat
    decreases s.len(),
{
    if s.len() == 0 {
        0
    } else {
        10 * dec_value(s.drop_last()) + (s.last() - DIGIT_ZERO) as nat
    }
}

/// Every byte of `s` is an ASCII decimal digit.
pub open spec fn all_digits(s: Seq<u8>) -> bool {
    forall|i: int| 0 <= i < s.len() ==> DIGIT_ZERO <= #[trigger] s[i] <= DIGIT_NINE
}

/// Appending digits never shrinks the decimal value.
proof fn lemma_dec_value_prefix(s: Seq<u8>, i: int)
    requires
        all_digits(s),
        0 <= i <= s.len(),
    ensures
        dec_value(s.subrange(0, i)) <= dec_value(s),
    decreases s.len() - i,
{
    if i == s.len() {
        assert(s.subrange(0, i) =~= s);
    } else {
        lemma_dec_value_prefix(s, i + 1);
        let p = s.subrange(0, i + 1);
        assert(p.drop_last() =~= s.subrange(0, i));
        assert(dec_value(p) == 10 * dec_value(s.subrange(0, i)) + (p.last() - DIGIT_ZERO) as nat);
    }
}

/// Parses an ASCII decimal number, as the `--cpus` and `--mem` switches take
/// one. Returns `None` on an empty string, on any non-digit byte, and on a
/// value that does not fit in a `u32`.
pub fn parse_u32(s: &Vec<u8>) -> (r: Option<u32>)
    ensures
        match r {
            Some(v) => s@.len() > 0 && all_digits(s@) && dec_value(s@) <= u32::MAX && v
                == dec_value(s@),
            None => s@.len() == 0 || !all_digits(s@) || dec_value(s@) > u32::MAX,
        },
{
    if s.len() == 0 {
        return None;
    }
    let mut acc: u32 = 0;
    let mut i: usize = 0;
    while i < s.len()
        invariant
            i <= s@.len(),
            forall|j: int| 0 <= j < i ==> DIGIT_ZERO <= #[trigger] s@[j] <= DIGIT_NINE,
            acc == dec_value(s@.subrange(0, i as int)),
        decreases s@.len() - i,
    {
        let b = s[i];
        if b < DIGIT_ZERO || b > DIGIT_NINE {
            assert(!all_digits(s@));
            return None;
        }
        let d = (b - DIGIT_ZERO) as u32;
        let shifted = match acc.checked_mul(10) {
            Some(v) => v,
            None => {
                proof {
                    overflow_means_too_large(s@, i as int, acc as nat, d as nat);
                }
                return None;
            },
        };
        let next = match shifted.checked_add(d) {
            Some(v) => v,
            None => {
                proof {
                    overflow_means_too_large(s@, i as int, acc as nat, d as nat);
                }
                return None;
            },
        };
        proof {
            assert(s@.subrange(0, i + 1 as int).drop_last() =~= s@.subrange(0, i as int));
        }
        acc = next;
        i += 1;
    }
    assert(s@.subrange(0, i as int) =~= s@);
    Some(acc)
}

/// When one more digit overflows the accumulator, the whole string's value is
/// out of range (or a later byte is not a digit).
proof fn overflow_means_too_large(s: Seq<u8>, i: int, acc: nat, d: nat)
    requires
        0 <= i < s.len(),
        forall|j: int| 0 <= j < i ==> DIGIT_ZERO <= #[trigger] s[j] <= DIGIT_NINE,
        DIGIT_ZERO <= s[i] <= DIGIT_NINE,
        d == (s[i] - DIGIT_ZERO) as nat,
        acc == dec_value(s.subrange(0, i)),
        10 * acc + d > u32::MAX,
    ensures
        !all_digits(s) || dec_value(s) > u32::MAX,
{
    if all_digits(s) {
        let p = s.subrange(0, i + 1);
        assert(p.drop_last() =~= s.subrange(0, i));
        assert(dec_value(p) == 10 * acc + d);
        lemma_dec_value_prefix(s, i + 1);
    }
}

/// The byte suffix of the agent socket file name, `-agent.sock`.
pub open spec fn agent_sock_suffix() -> Seq<u8> {
    seq![45u8, 97u8, 103u8, 101u8, 110u8, 116u8, 46u8, 115u8, 111u8, 99u8, 107u8]
}

/// The byte suffix of the monitor socket file name, `-qmp.sock`.
pub open spec fn qmp_sock_suffix() -> Seq<u8> {
    seq![45u8, 113u8, 109u8, 112u8, 46u8, 115u8, 111u8, 99u8, 107u8]
}

/// The byte suffix of the data disk file name, `-disk.qcow2`.
pub open spec fn disk_suffix() -> Seq<u8> {
    seq![45u8, 100u8, 105u8, 115u8, 107u8, 46u8, 113u8, 99u8, 111u8, 119u8, 50u8]
}

/// The path of a transient file named `<app><suffix>` under `dir`.
pub open spec fn run_file_path(dir: Seq<u8>, app: Seq<u8>, suffix: Seq<u8>) -> Seq<u8> {
    dir + seq![SLASH] + app + suffix
}

/// Copies a byte vector.
pub fn copy_bytes(src: &Vec<u8>) -> (r: Vec<u8>)
    ensures
        r@ == src@,
{
    let mut r: Vec<u8> = Vec::new();
    let mut i: usize = 0;
    while i < src.len()
        invariant
            i <= src@.len(),
            r@ == src@.subrange(0, i as int),
        decreases src@.len() - i,
    {
        r.push(src[i]);
        assert(r@ =~= src@.subrange(0, i + 1 as int));
        i += 1;
    }
    assert(r@ =~= src@);
    r
}

/// Appends a copy of `src` to `dst`.
pub fn push_bytes(dst: &mut Vec<u8>, src: &Vec<u8>)
    ensures
        final(dst)@ == old(dst)@ + src@,
{
    let mut i: usize = 0;
    while i < src.len()
        invariant
            i <= src@.len(),
            dst@ == old(dst)@ + src@.subrange(0, i as int),
        decreases src@.len() - i,
    {
        dst.push(src[i]);
        assert(dst@ =~= old(dst)@ + src@.subrange(0, i + 1 as int));
        i += 1;
    }
    assert(dst@ =~= old(dst)@ + src@);
}

/// The path of the transient agent socket, `<dir>/<app>-agent.sock`.
pub fn agent_socket_path(run_dir: &Vec<u8>, app: &Vec<u8>) -> (p: Vec<u8>)
    ensures
        p@ == run_file_path(run_dir@, app@, agent_sock_suffix()),
{
    let mut p = copy_bytes(run_dir);
    p.push(SLASH);
    push_bytes(&mut p, app);
    p.push(45u8);
    p.push(97u8);
    p.push(103u8);
    p.push(101u8);
    p.push(110u8);
    p.push(116u8);
    p.push(46u8);
    p.push(115u8);
    p.push(111u8);
    p.push(99u8);
    p.push(107u8);
    assert(p@ =~= run_file_path(run_dir@, app@, agent_sock_suffix()));
    p
}

/// The path of the transient monitor socket, `<dir>/<app>-qmp.sock`.
pub fn qmp_socket_path(run_dir: &Vec<u8>, app: &Vec<u8>) -> (p: Vec<u8>)
    ensures
        p@ == run_file_path(run_dir@, app@, qmp_sock_suffix()),
{
    let mut p = copy_bytes(run_dir);
    p.push(SLASH);
    push_bytes(&mut p, app);
    p.push(45u8);
    p.push(113u8);
    p.push(109u8);
    p.push(112u8);
    p.push(46u8);
    p.push(115u8);
    p.push(111u8);
    p.push(99u8);
    p.push(107u8);
    assert(p@ =~= run_file_path(run_dir@, app@, qmp_sock_suffix()));
    p
}

/// The path of the application's data disk image, `<dir>/<app>-disk.qcow2`,
/// copied from the template image on first use.
pub fn data_disk_path(app_dir: &Vec<u8>, app: &Vec<u8>) -> (p: Vec<u8>)
    ensures
        p@ == run_file_path(app_dir@, app@, disk_suffix()),
{
    let mut p = copy_bytes(app_dir);
    p.push(SLASH);
    push_bytes(&mut p, app);
    p.push(45u8);
    p.push(100u8);
    p.push(105u8);
    p.push(115u8);
    p.push(107u8);
    p.push(46u8);
    p.push(113u8);
    p.push(99u8);
    p.push(111u8);
    p.push(119u8);
    p.push(50u8);
    assert(p@ =~= run_file_path(app_dir@, app@, disk_suffix()));
    p
}

/// Classifies the exit status of the install-scope lookup of the application
/// (the status of `flatpak info`): only a plain zero means the application
/// exists; a missing code (killed by a signal) counts as failure.
pub fn classify_app_lookup(status: Option<i32>) -> (r: Result<(), SessionError>)
    ensures
        r is Ok <==> status == Some(0i32),
        r is Err ==> r->Err_0 == SessionError::StartupError,
{
    match status {
        Some(0i32) => Ok(()),
        _ => Err(SessionError::StartupError),
    }
}

} // verus!
