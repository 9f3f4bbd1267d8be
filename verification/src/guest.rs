//! The guest lifecycle driver: configuration of one virtual machine, the
//! exact QEMU, SSH and SCP invocations built for it, and the state machine
//! that boots it, probes its liveness, runs commands inside it and
//! captures crash diagnostics.
//!
//! The operations that must wait on the outside world — spawning the VM
//! process, sleeping between liveness probes, the probe's own network
//! round trip, waiting for process exit — are performed by the binary
//! around the library, which feeds their plain outcomes back into the
//! driver's verified decision functions.

use vstd::prelude::*;

use crate::cli::{App, AppV, Arg, ArgV, OptVal, OptValV, args_tokens, views_of};
use crate::fatal::{fatal_with, Fatal, FatalClass};
use crate::pipe::{long_pipe, pipe_read_all, pipe_writer_clone, read_until_block};
use crate::proc::{child_start_kill, lease_free_port};
use crate::text::{dec_rep, dec_string, push_char, push_dec};

verus! {

/// Host name the forwarded SSH port is reached on.
pub const LINUX_QEMU_HOST_IP_ADDR: &'static str = "localhost";

/// Guest-visible address of the host on the user-mode NAT network.
pub const LINUX_QEMU_USER_NET_HOST_IP_ADDR: &'static str = "10.0.2.10";

/// User the probe and remote commands log in as.
pub const LINUX_QEMU_HOST_USER: &'static str = "root";

/// Seconds to wait between boot and the first liveness probe, and between
/// probes, when the configuration does not say otherwise.
pub const DEFAULT_WAIT_BOOT_TIME: u8 = 5;

/// Fixed budget of liveness probes for one boot.
pub const MAX_BOOT_RETRY: u8 = 5;

/// Seconds one liveness probe may take before it counts as "not alive".
pub const LIVENESS_TIMEOUT_SECS: u64 = 10;

/// Seconds to wait for the VM process to exit before reporting "no crash".
pub const CRASH_WAIT_SECS: u64 = 2;

/// Which kernel build is driven, and where.
pub struct GuestConf {
    /// Kernel under test.
    pub os: String,
    /// Architecture of the kernel build.
    pub arch: String,
    /// Platform the kernel runs on.
    pub platform: String,
}

/// Per-run QEMU parameters.
pub struct QemuConf {
    pub cpu_num: u32,
    pub mem_size: u32,
    pub image: String,
    pub kernel: String,
    pub wait_boot_time: Option<u8>,
}

/// SSH parameters for reaching the guest.
pub struct SSHConf {
    pub key_path: String,
}

/// The three configuration segments a driver is built from.
pub struct Config {
    pub guest: GuestConf,
    pub qemu: Option<QemuConf>,
    pub ssh: Option<SSHConf>,
}

/// The one supported target combination.
pub open spec fn target_supported(g: &GuestConf) -> bool {
    g.platform@ == "qemu"@ && g.os@ == "linux"@ && g.arch@ == "amd64"@
}

/// A configuration the driver can be constructed from: the supported
/// target, with both the QEMU and the SSH segment present.
pub open spec fn config_valid(c: &Config) -> bool {
    target_supported(&c.guest) && c.qemu is Some && c.ssh is Some
}

/// The diagnostic an invalid configuration is rejected with: the first
/// thing wrong with it, checked in the order platform, target, QEMU
/// segment, SSH segment.
pub open spec fn config_diag(c: &Config) -> Seq<char> {
    if c.guest.platform@ != "qemu"@ {
        "Unsupported platform"@
    } else if !(c.guest.os@ == "linux"@ && c.guest.arch@ == "amd64"@) {
        "Unsupported target"@
    } else if c.qemu is None {
        "Require qemu segment in config toml"@
    } else {
        "Require ssh segment in config toml"@
    }
}

/// The fixed SSH hardening: no host-key file or storage, batch mode,
/// identity-file-only auth, no host-key checking, short connect timeout.
pub open spec fn ssh_base_spec() -> AppV {
    AppV {
        bin: "ssh"@,
        args: seq![
            ArgV::Opt("-F"@, OptValV::Normal("/dev/null"@)),
            ArgV::Opt("-o"@, OptValV::Normal("UserKnownHostsFile=/dev/null"@)),
            ArgV::Opt("-o"@, OptValV::Normal("BatchMode=yes"@)),
            ArgV::Opt("-o"@, OptValV::Normal("IdentitiesOnly=yes"@)),
            ArgV::Opt("-o"@, OptValV::Normal("StrictHostKeyChecking=no"@)),
            ArgV::Opt("-o"@, OptValV::Normal("ConnectTimeout=3s"@)),
        ],
    }
}

/// The same hardening for remote copies (no connect timeout).
pub open spec fn scp_base_spec() -> AppV {
    AppV {
        bin: "scp"@,
        args: seq![
            ArgV::Opt("-F"@, OptValV::Normal("/dev/null"@)),
            ArgV::Opt("-o"@, OptValV::Normal("UserKnownHostsFile=/dev/null"@)),
            ArgV::Opt("-o"@, OptValV::Normal("BatchMode=yes"@)),
            ArgV::Opt("-o"@, OptValV::Normal("IdentitiesOnly=yes"@)),
            ArgV::Opt("-o"@, OptValV::Normal("StrictHostKeyChecking=no"@)),
        ],
    }
}

/// Kernel boot arguments forcing a crash to print to console and halt.
pub open spec fn linux_amd64_append_vals() -> Seq<Seq<char>> {
    seq![
        "earlyprintk=serial"@,
        "oops=panic"@,
        "nmi_watchdog=panic"@,
        "panic_on_warn=1"@,
        "panic=1"@,
        "ftrace_dump_on_oops=orig_cpu"@,
        "rodata=n"@,
        "vsyscall=native"@,
        "net.ifnames=0"@,
        "biosdevname=0"@,
        "root=/dev/sda"@,
        "console=ttyS0"@,
        "kvm-intel.nested=1"@,
        "kvm-intel.unrestricted_guest=1"@,
        "kvm-intel.vmm_exclusive=1"@,
        "kvm-intel.fasteoi=1"@,
        "kvm-intel.ept=1"@,
        "kvm-intel.flexpriority=1"@,
        "kvm-intel.vpid=1"@,
        "kvm-intel.emulate_invalid_guest_state=1"@,
        "kvm-intel.eptad=1"@,
        "kvm-intel.enable_shadow_vmcs=1"@,
        "kvm-intel.pml=1"@,
        "kvm-intel.enable_apicv=1"@,
    ]
}

/// The fixed portion of the linux/amd64 QEMU invocation: acceleration on,
/// no reboot, headless, console on the process's own stream, disk writes
/// not persisted, simplified CPU/NIC model, crash-surfacing kernel args.
pub open spec fn qemu_linux_amd64_spec() -> AppV {
    AppV {
        bin: "qemu-system-x86_64"@,
        args: seq![
            ArgV::Flag("-enable-kvm"@),
            ArgV::Flag("-no-reboot"@),
            ArgV::Opt("-display"@, OptValV::Normal("none"@)),
            ArgV::Opt("-serial"@, OptValV::Normal("stdio"@)),
            ArgV::Flag("-snapshot"@),
            ArgV::Opt("-cpu"@, OptValV::Multiple(seq!["host"@, "migratable=off"@], Some(','))),
            ArgV::Opt("-net"@, OptValV::Multiple(seq!["nic"@, "model=e1000"@], Some(','))),
            ArgV::Opt("-append"@, OptValV::Multiple(linux_amd64_append_vals(), Some(' '))),
        ],
    }
}

fn linux_amd64_append_list() -> (r: Vec<String>)
    ensures
        views_of(r@) == linux_amd64_append_vals(),
{
    let mut v: Vec<String> = Vec::new();
    v.push("earlyprintk=serial".to_owned());
    v.push("oops=panic".to_owned());
    v.push("nmi_watchdog=panic".to_owned());
    v.push("panic_on_warn=1".to_owned());
    v.push("panic=1".to_owned());
    v.push("ftrace_dump_on_oops=orig_cpu".to_owned());
    v.push("rodata=n".to_owned());
    v.push("vsyscall=native".to_owned());
    v.push("net.ifnames=0".to_owned());
    v.push("biosdevname=0".to_owned());
    v.push("root=/dev/sda".to_owned());
    v.push("console=ttyS0".to_owned());
    v.push("kvm-intel.nested=1".to_owned());
    v.push("kvm-intel.unrestricted_guest=1".to_owned());
    v.push("kvm-intel.vmm_exclusive=1".to_owned());
    v.push("kvm-intel.fasteoi=1".to_owned());
    v.push("kvm-intel.ept=1".to_owned());
    v.push("kvm-intel.flexpriority=1".to_owned());
    v.push("kvm-intel.vpid=1".to_owned());
    v.push("kvm-intel.emulate_invalid_guest_state=1".to_owned());
    v.push("kvm-intel.eptad=1".to_owned());
    v.push("kvm-intel.enable_shadow_vmcs=1".to_owned());
    v.push("kvm-intel.pml=1".to_owned());
    v.push("kvm-intel.enable_apicv=1".to_owned());
    proof {
        assert(views_of(v@) =~= linux_amd64_append_vals());
    }
    v
}

fn two_vals(a: &str, b: &str) -> (r: Vec<String>)
    ensures
        views_of(r@) == seq![a@, b@],
{
    let mut v: Vec<String> = Vec::new();
    v.push(a.to_owned());
    v.push(b.to_owned());
    proof {
        assert(views_of(v@) =~= seq![a@, b@]);
    }
    v
}

/// The fixed QEMU invocation for a supported target, or nothing when the
/// target combination is not supported.
pub fn qemu_template(os: &String, arch: &String) -> (r: Option<App>)
    ensures
        (os@ == "linux"@ && arch@ == "amd64"@) <==> r is Some,
        r matches Some(a) ==> a@ == qemu_linux_amd64_spec(),
{
    let linux: String = "linux".to_owned();
    let amd64: String = "amd64".to_owned();
    if *os == linux && *arch == amd64 {
        let a = App::new("qemu-system-x86_64")
            .arg(Arg::new_flag("-enable-kvm"))
            .arg(Arg::new_flag("-no-reboot"))
            .arg(Arg::new_opt("-display", OptVal::normal("none")))
            .arg(Arg::new_opt("-serial", OptVal::normal("stdio")))
            .arg(Arg::new_flag("-snapshot"))
            .arg(Arg::new_opt("-cpu", OptVal::multiple(two_vals("host", "migratable=off"), Some(','))))
            .arg(Arg::new_opt("-net", OptVal::multiple(two_vals("nic", "model=e1000"), Some(','))))
            .arg(Arg::new_opt("-append", OptVal::multiple(linux_amd64_append_list(), Some(' '))));
        proof {
            assert(a@.args =~= qemu_linux_amd64_spec().args);
            assert(a@ =~= qemu_linux_amd64_spec());
        }
        Some(a)
    } else {
        None
    }
}

/// The single TCP port-forward entry: host port `port` to the guest's SSH
/// port.
pub open spec fn host_fwd_spec(port: u16) -> Seq<char> {
    "hostfwd=tcp::"@ + dec_rep(port as nat) + "-:22"@
}

fn host_fwd(port: u16) -> (r: String)
    ensures
        r@ == host_fwd_spec(port),
{
    let mut s = "hostfwd=tcp::".to_owned();
    push_dec(&mut s, port as u64);
    s.append("-:22");
    proof {
        assert(s@ =~= host_fwd_spec(port));
    }
    s
}

/// The full per-run QEMU invocation: the fixed portion followed by memory
/// size, CPU count, the NAT network with its port-forward, the disk image
/// and the kernel.
pub open spec fn qemu_cli_spec(qc: &QemuConf, port: u16) -> AppV {
    AppV {
        bin: qemu_linux_amd64_spec().bin,
        args: qemu_linux_amd64_spec().args + seq![
            ArgV::Opt("-m"@, OptValV::Normal(dec_rep(qc.mem_size as nat))),
            ArgV::Opt("-smp"@, OptValV::Normal(dec_rep(qc.cpu_num as nat))),
            ArgV::Opt(
                "-net"@,
                OptValV::Multiple(seq!["user"@, "host=10.0.2.10"@, host_fwd_spec(port)], Some(',')),
            ),
            ArgV::Opt("-hda"@, OptValV::Normal(qc.image@)),
            ArgV::Opt("-kernel"@, OptValV::Normal(qc.kernel@)),
        ],
    }
}

/// Builds the QEMU invocation for the given target and the already leased
/// host port. Fails with a configuration error when the target is not the
/// supported combination or the QEMU segment is missing.
pub fn build_qemu_cli(cfg: &Config, port: u16) -> (r: Result<App, Fatal>)
    ensures
        (r is Ok) <==> (target_supported(&cfg.guest) && cfg.qemu is Some),
        r matches Ok(a) ==> a@ == qemu_cli_spec(&cfg.qemu->0, port),
        r matches Err(f) ==> f.class == FatalClass::Config && f.msg@ == config_diag(cfg),
{
    let qemu: String = "qemu".to_owned();
    if !(cfg.guest.platform == qemu) {
        return Err(Fatal::new(FatalClass::Config, "Unsupported platform".to_owned()));
    }
    let base = match qemu_template(&cfg.guest.os, &cfg.guest.arch) {
        Some(a) => a,
        None => {
            return Err(Fatal::new(FatalClass::Config, "Unsupported target".to_owned()));
        },
    };
    let qc = match &cfg.qemu {
        Some(qc) => qc,
        None => {
            return Err(Fatal::new(FatalClass::Config, "Require qemu segment in config toml".to_owned()));
        },
    };
    let mut vals: Vec<String> = Vec::new();
    vals.push("user".to_owned());
    vals.push("host=10.0.2.10".to_owned());
    vals.push(host_fwd(port));
    proof {
        assert(views_of(vals@) =~= seq!["user"@, "host=10.0.2.10"@, host_fwd_spec(port)]);
    }
    let a = base
        .arg(Arg::new_opt("-m", OptVal::Normal(dec_string(qc.mem_size as u64))))
        .arg(Arg::new_opt("-smp", OptVal::Normal(dec_string(qc.cpu_num as u64))))
        .arg(Arg::new_opt("-net", OptVal::multiple(vals, Some(','))))
        .arg(Arg::new_opt("-hda", OptVal::Normal(qc.image.clone())))
        .arg(Arg::new_opt("-kernel", OptVal::Normal(qc.kernel.clone())));
    proof {
        assert(a@.args =~= qemu_cli_spec(&cfg.qemu->0, port).args);
        assert(a@ =~= qemu_cli_spec(&cfg.qemu->0, port));
    }
    Ok(a)
}

fn ssh_base() -> (r: App)
    ensures
        r@ == ssh_base_spec(),
{
    let r = App::new("ssh")
        .arg(Arg::new_opt("-F", OptVal::normal("/dev/null")))
        .arg(Arg::new_opt("-o", OptVal::normal("UserKnownHostsFile=/dev/null")))
        .arg(Arg::new_opt("-o", OptVal::normal("BatchMode=yes")))
        .arg(Arg::new_opt("-o", OptVal::normal("IdentitiesOnly=yes")))
        .arg(Arg::new_opt("-o", OptVal::normal("StrictHostKeyChecking=no")))
        .arg(Arg::new_opt("-o", OptVal::normal("ConnectTimeout=3s")));
    proof {
        assert(r@.args =~= ssh_base_spec().args);
        assert(r@ =~= ssh_base_spec());
    }
    r
}

fn scp_base() -> (r: App)
    ensures
        r@ == scp_base_spec(),
{
    let r = App::new("scp")
        .arg(Arg::new_opt("-F", OptVal::normal("/dev/null")))
        .arg(Arg::new_opt("-o", OptVal::normal("UserKnownHostsFile=/dev/null")))
        .arg(Arg::new_opt("-o", OptVal::normal("BatchMode=yes")))
        .arg(Arg::new_opt("-o", OptVal::normal("IdentitiesOnly=yes")))
        .arg(Arg::new_opt("-o", OptVal::normal("StrictHostKeyChecking=no")));
    proof {
        assert(r@.args =~= scp_base_spec().args);
        assert(r@ =~= scp_base_spec());
    }
    r
}

/// `user@addr`.
pub open spec fn user_at_spec(user: Seq<char>, addr: Seq<char>) -> Seq<char> {
    user + seq!['@'] + addr
}

fn user_at(user: &str, addr: &str) -> (r: String)
    ensures
        r@ == user_at_spec(user@, addr@),
{
    let mut s = user.to_owned();
    push_char(&mut s, '@');
    s.append(addr);
    proof {
        assert(s@ =~= user_at_spec(user@, addr@));
    }
    s
}

/// Each token as a bare flag argument.
pub open spec fn flags_of(tokens: Seq<Seq<char>>) -> Seq<ArgV> {
    tokens.map_values(|t: Seq<char>| ArgV::Flag(t))
}

/// The hardened SSH invocation that runs `app` on the guest: the fixed
/// hardening, then the forwarded port, the identity file, `user@addr`,
/// and the target command with its tokens.
pub open spec fn ssh_app_spec(
    key: Seq<char>,
    user: Seq<char>,
    addr: Seq<char>,
    port: u16,
    app: AppV,
) -> AppV {
    AppV {
        bin: "ssh"@,
        args: ssh_base_spec().args + seq![
            ArgV::Opt("-p"@, OptValV::Normal(dec_rep(port as nat))),
            ArgV::Opt("-i"@, OptValV::Normal(key)),
            ArgV::Flag(user_at_spec(user, addr)),
            ArgV::Flag(app.bin),
        ] + flags_of(args_tokens(app.args)),
    }
}

/// Builds the hardened SSH invocation running `app` remotely.
pub fn ssh_app(key: &str, user: &str, addr: &str, port: u16, app: App) -> (r: App)
    ensures
        r@ == ssh_app_spec(key@, user@, addr@, port, app@),
{
    let mut ssh = ssh_base()
        .arg(Arg::new_opt("-p", OptVal::Normal(dec_string(port as u64))))
        .arg(Arg::new_opt("-i", OptVal::normal(key)))
        .arg(Arg::Flag(user_at(user, addr)))
        .arg(Arg::new_flag(app.bin.as_str()));
    let ghost head = ssh@.args;
    let toks = app.iter_arg();
    let mut i: usize = 0;
    while i < toks.len()
        invariant
            0 <= i <= toks@.len(),
            ssh@.bin == "ssh"@,
            ssh@.args == head + flags_of(views_of(toks@).take(i as int)),
            views_of(toks@) == args_tokens(app@.args),
        decreases toks.len() - i,
    {
        ssh = ssh.arg(Arg::Flag(toks[i].clone()));
        proof {
            assert(flags_of(views_of(toks@).take(i + 1 as int)) =~= flags_of(
                views_of(toks@).take(i as int),
            ).push(ArgV::Flag(views_of(toks@)[i as int])));
            assert(ssh@.args =~= head + flags_of(views_of(toks@).take(i + 1 as int)));
        }
        i += 1;
    }
    proof {
        assert(views_of(toks@).take(toks@.len() as int) =~= views_of(toks@));
        assert(ssh@.args =~= ssh_app_spec(key@, user@, addr@, port, app@).args);
        assert(ssh@ =~= ssh_app_spec(key@, user@, addr@, port, app@));
    }
    ssh
}

/// The hardened remote-copy invocation that ships `path` to the guest
/// user's home directory.
pub open spec fn scp_app_spec(
    key: Seq<char>,
    user: Seq<char>,
    addr: Seq<char>,
    port: u16,
    path: Seq<char>,
) -> AppV {
    AppV {
        bin: "scp"@,
        args: scp_base_spec().args + seq![
            ArgV::Opt("-P"@, OptValV::Normal(dec_rep(port as nat))),
            ArgV::Opt("-i"@, OptValV::Normal(key)),
            ArgV::Flag(path),
            ArgV::Flag(user_at_spec(user, addr) + ":~/"@),
        ],
    }
}

/// Builds the hardened remote-copy invocation for `path`.
pub fn scp_app(key: &str, user: &str, addr: &str, port: u16, path: &str) -> (r: App)
    ensures
        r@ == scp_app_spec(key@, user@, addr@, port, path@),
{
    let mut dest = user_at(user, addr);
    dest.append(":~/");
    let r = scp_base()
        .arg(Arg::new_opt("-P", OptVal::Normal(dec_string(port as u64))))
        .arg(Arg::new_opt("-i", OptVal::normal(key)))
        .arg(Arg::new_flag(path))
        .arg(Arg::Flag(dest));
    proof {
        assert(r@.args =~= scp_app_spec(key@, user@, addr@, port, path@).args);
        assert(r@ =~= scp_app_spec(key@, user@, addr@, port, path@));
    }
    r
}

/// The active session: the VM's process handle paired with the reader of
/// its combined log. Holding them in one value makes it impossible to
/// keep one without the other.
pub struct Session {
    pub handle: tokio::process::Child,
    pub rp: os_pipe::PipeReader,
}

/// The driver of one guest: its fixed VM invocation, its connection
/// parameters, and — while a guest process is running — the active
/// session.
pub struct LinuxQemu {
    pub vm: App,
    pub wait_boot_time: u8,
    pub session: Option<Session>,
    pub addr: String,
    pub port: u16,
    pub key: String,
    pub user: String,
}

/// The fresh pipe of one boot: the read end the driver will keep, and the
/// two write ends the new process's standard output and standard error
/// are attached to.
pub struct BootPipes {
    pub rp: os_pipe::PipeReader,
    pub wp: os_pipe::PipeWriter,
    pub wp2: os_pipe::PipeWriter,
}

/// What the boot retry loop decides after one liveness probe.
#[derive(PartialEq, Eq, Structural)]
pub enum BootAction {
    /// Probe again after the configured wait.
    Retry,
    /// The guest is reachable; finish the boot.
    Success,
    /// The probe budget is exhausted; give the boot up.
    GiveUp,
}

/// The boot retry state: how many probes were made, out of a fixed budget.
pub struct BootRetry {
    pub attempt: u8,
    pub max: u8,
}

/// The decision after one more probe with result `alive`.
pub open spec fn retry_decision(st: BootRetry, alive: bool) -> BootAction {
    if alive {
        BootAction::Success
    } else if st.attempt + 1 >= st.max {
        BootAction::GiveUp
    } else {
        BootAction::Retry
    }
}

/// The retry state after one more probe.
pub open spec fn retry_next(st: BootRetry) -> BootRetry {
    BootRetry { attempt: (st.attempt + 1) as u8, max: st.max }
}

/// The decision reached after `k` further probes that all fail.
pub open spec fn all_probes_failing(st: BootRetry, k: nat) -> BootAction
    decreases k,
{
    if k <= 1 {
        retry_decision(st, false)
    } else {
        all_probes_failing(retry_next(st), (k - 1) as nat)
    }
}

impl BootRetry {
    /// A fresh boot with a budget of `max` probes.
    pub fn new(max: u8) -> (r: BootRetry)
        requires
            max >= 1,
        ensures
            r.attempt == 0,
            r.max == max,
    {
        BootRetry { attempt: 0, max }
    }

    /// Records one probe and decides: a live guest is a success; a failed
    /// probe retries until the budget is exhausted, then gives up.
    pub fn step(&mut self, alive: bool) -> (a: BootAction)
        requires
            old(self).attempt < old(self).max,
        ensures
            a == retry_decision(*old(self), alive),
            *final(self) == retry_next(*old(self)),
    {
        self.attempt = self.attempt + 1;
        if alive {
            BootAction::Success
        } else if self.attempt >= self.max {
            BootAction::GiveUp
        } else {
            BootAction::Retry
        }
    }
}

/// A boot whose liveness probe fails on every one of the remaining `k`
/// probes of its budget ends by giving the boot up.
pub proof fn lemma_exhausted_probes_give_up(st: BootRetry, k: nat)
    requires
        1 <= k,
        st.attempt + k == st.max,
    ensures
        all_probes_failing(st, k) == BootAction::GiveUp,
    decreases k,
{
    if k > 1 {
        lemma_exhausted_probes_give_up(retry_next(st), (k - 1) as nat);
    }
}

/// A full fresh budget of failing probes gives the boot up; in
/// particular, a probe that never succeeds within the fixed budget of
/// [`MAX_BOOT_RETRY`] attempts does.
pub proof fn lemma_boot_never_alive_gives_up(max: u8)
    requires
        max >= 1,
    ensures
        all_probes_failing(BootRetry { attempt: 0, max }, max as nat) == BootAction::GiveUp,
{
    lemma_exhausted_probes_give_up(BootRetry { attempt: 0, max }, max as nat);
}

/// What one liveness probe run came back with.
pub enum ProbeOutcome {
    /// The probe did not finish within its timeout.
    TimedOut,
    /// The probe's remote command finished; the payload says whether it
    /// exited successfully.
    Exited(bool),
    /// The probe could not even be spawned.
    SpawnFailed(String),
}

/// Interprets a liveness probe: a timeout or a nonzero remote exit means
/// "not alive" (an ordinary outcome, not an error), a successful remote
/// exit means "alive", and a spawn-level failure is a broken host
/// environment, which is fatal.
pub fn interpret_probe(outcome: ProbeOutcome) -> (r: Result<bool, Fatal>)
    ensures
        outcome is TimedOut ==> r == Ok::<bool, Fatal>(false),
        forall|s: bool| outcome == ProbeOutcome::Exited(s) ==> r == Ok::<bool, Fatal>(s),
        outcome is SpawnFailed ==> r is Err && r->Err_0.class == FatalClass::Os,
{
    match outcome {
        ProbeOutcome::TimedOut => Ok(false),
        ProbeOutcome::Exited(success) => Ok(success),
        ProbeOutcome::SpawnFailed(e) => Err(fatal_with(FatalClass::Os, "Fail to spawn:", e)),
    }
}

/// What is wrong with `cfg`, when anything is: exactly the invalid
/// configurations have an error, always a configuration error carrying
/// the diagnostic [`config_diag`] owes for it.
fn config_error(cfg: &Config) -> (r: Option<Fatal>)
    ensures
        (r is None) <==> config_valid(cfg),
        r matches Some(f) ==> f.class == FatalClass::Config && f.msg@ == config_diag(cfg),
{
    let qemu: String = "qemu".to_owned();
    let linux: String = "linux".to_owned();
    let amd64: String = "amd64".to_owned();
    if !(cfg.guest.platform == qemu) {
        return Some(Fatal::new(FatalClass::Config, "Unsupported platform".to_owned()));
    }
    if !(cfg.guest.os == linux) || !(cfg.guest.arch == amd64) {
        return Some(Fatal::new(FatalClass::Config, "Unsupported target".to_owned()));
    }
    if cfg.qemu.is_none() {
        return Some(Fatal::new(FatalClass::Config, "Require qemu segment in config toml".to_owned()));
    }
    if cfg.ssh.is_none() {
        return Some(Fatal::new(FatalClass::Config, "Require ssh segment in config toml".to_owned()));
    }
    None
}

/// The failed-boot diagnostic: the whole pre-failure log first, then a
/// separator and the binary that was booted.
pub open spec fn boot_failure_msg(log: Seq<char>, bin: Seq<char>) -> Seq<char> {
    log + "\n===============================================\nFail to boot:"@ + bin
}

/// Everything but the session, unchanged between `a` and `b`.
pub open spec fn same_config(a: LinuxQemu, b: LinuxQemu) -> bool {
    a.vm@ == b.vm@ && a.wait_boot_time == b.wait_boot_time && a.addr@ == b.addr@ && a.port == b.port
        && a.key@ == b.key@ && a.user@ == b.user@
}

impl LinuxQemu {
    /// A guest process is running: the driver holds the active session.
    pub open spec fn active(&self) -> bool {
        self.session is Some
    }

    /// The driver holds a process handle.
    pub open spec fn has_handle(&self) -> bool {
        self.session is Some
    }

    /// The driver holds a log reader.
    pub open spec fn has_reader(&self) -> bool {
        self.session is Some
    }

    /// The driver built from a validated configuration and an already
    /// leased host port.
    pub open spec fn built_from(&self, cfg: &Config, port: u16) -> bool {
        &&& self.vm@ == qemu_cli_spec(&cfg.qemu->0, port)
        &&& self.wait_boot_time == (if cfg.qemu->0.wait_boot_time is Some {
            cfg.qemu->0.wait_boot_time->0
        } else {
            DEFAULT_WAIT_BOOT_TIME
        })
        &&& !self.active()
        &&& self.addr@ == "localhost"@
        &&& self.port == port
        &&& self.key@ == cfg.ssh->0.key_path@
        &&& self.user@ == "root"@
    }

    /// Builds the driver for `cfg` around the given leased host port.
    /// Exactly the valid configurations construct a driver; an invalid one
    /// is a fatal configuration error.
    pub fn with_port(cfg: &Config, port: u16) -> (r: Result<LinuxQemu, Fatal>)
        ensures
            (r is Ok) <==> config_valid(cfg),
            r matches Ok(g) ==> g.built_from(cfg, port),
            r matches Err(f) ==> f.class == FatalClass::Config && f.msg@ == config_diag(cfg),
    {
        let vm = match build_qemu_cli(cfg, port) {
            Ok(a) => a,
            Err(f) => {
                return Err(f);
            },
        };
        let ssh_conf = match &cfg.ssh {
            Some(s) => s,
            None => {
                return Err(
                    Fatal::new(FatalClass::Config, "Require ssh segment in config toml".to_owned()),
                );
            },
        };
        let wait_boot_time = match &cfg.qemu {
            Some(qc) => match qc.wait_boot_time {
                Some(w) => w,
                None => DEFAULT_WAIT_BOOT_TIME,
            },
            None => DEFAULT_WAIT_BOOT_TIME,
        };
        Ok(
            LinuxQemu {
                vm,
                wait_boot_time,
                session: None,
                addr: LINUX_QEMU_HOST_IP_ADDR.to_owned(),
                port,
                key: ssh_conf.key_path.clone(),
                user: LINUX_QEMU_HOST_USER.to_owned(),
            },
        )
    }

    /// Builds the driver for `cfg`, leasing a fresh host port for the
    /// instance's lifetime. An invalid configuration is a fatal
    /// configuration error; failing to find a free port for a valid one
    /// is a fatal temporarily-unavailable-resource error.
    pub fn new(cfg: &Config) -> (r: Result<LinuxQemu, Fatal>)
        ensures
            r matches Ok(g) ==> config_valid(cfg) && g.built_from(cfg, g.port),
            !config_valid(cfg) ==> (r matches Err(f) && f.class == FatalClass::Config
                && f.msg@ == config_diag(cfg)),
            config_valid(cfg) && r is Err ==> r->Err_0.class == FatalClass::TempFail,
    {
        match config_error(cfg) {
            Some(f) => {
                return Err(f);
            },
            None => {},
        }
        let port = match lease_free_port() {
            Some(p) => p,
            None => {
                return Err(Fatal::new(FatalClass::TempFail, "No Free port to forword".to_owned()));
            },
        };
        LinuxQemu::with_port(cfg, port)
    }

    /// First phase of a boot: force-kills any previous guest process (its
    /// buffered log is discarded unread) and creates the fresh enlarged
    /// non-blocking log channel for the next one. The caller attaches the
    /// two write ends to the new process's standard output and standard
    /// error and hands the spawned handle to [`LinuxQemu::boot_success`]
    /// or [`LinuxQemu::boot_give_up`].
    pub fn boot_prepare(&mut self) -> (r: Result<BootPipes, Fatal>)
        ensures
            !final(self).active(),
            same_config(*old(self), *final(self)),
            r is Err ==> r->Err_0.class == FatalClass::Os,
    {
        let prev = self.session.take();
        match prev {
            Some(mut s) => {
                match child_start_kill(&mut s.handle) {
                    Ok(_) => {},
                    Err(e) => {
                        return Err(fatal_with(FatalClass::Os, "Fail to kill:", e));
                    },
                }
            },
            None => {},
        }
        let (rp, wp) = match long_pipe() {
            Ok(p) => p,
            Err(f) => {
                return Err(f);
            },
        };
        let wp2 = match pipe_writer_clone(&wp) {
            Ok(w) => w,
            Err(e) => {
                return Err(fatal_with(FatalClass::Os, "LinuxQemu: Fail to clone pipe:", e));
            },
        };
        Ok(BootPipes { rp, wp, wp2 })
    }

    /// Final phase of a successful boot: non-blockingly drains and
    /// discards whatever boot noise accumulated in the log channel, then
    /// stores the process handle and the reader together as the active
    /// session.
    pub fn boot_success(&mut self, handle: tokio::process::Child, rp: os_pipe::PipeReader) -> (r:
        Result<(), Fatal>)
        requires
            !old(self).active(),
        ensures
            same_config(*old(self), *final(self)),
            r is Ok ==> final(self).active() && final(self).session->0.handle == handle
                && final(self).session->0.rp == rp,
            r is Err ==> r->Err_0.class == FatalClass::Os && !final(self).active(),
    {
        match read_until_block(&rp) {
            Ok(_) => {},
            Err(f) => {
                return Err(f);
            },
        }
        self.session = Some(Session { handle, rp });
        Ok(())
    }

    /// The diagnostic of a failed boot: the complete pre-failure log,
    /// followed by a separator and the invocation that was booted, as a
    /// fatal data error.
    pub fn boot_failure_report(&self, log: String) -> (r: Fatal)
        ensures
            r.class == FatalClass::Data,
            r.msg@ == boot_failure_msg(log@, self.vm@.bin),
    {
        let mut msg = log;
        msg.append("\n===============================================\nFail to boot:");
        msg.append(self.vm.bin.as_str());
        Fatal::new(FatalClass::Data, msg)
    }

    /// Gives a boot up after the probe budget is exhausted: kills the
    /// process, block-reads the log channel to completion, and reports the
    /// whole pre-failure log as a fatal data error (or the OS-level
    /// failure that prevented even that). A data-error report is always
    /// the log the channel yielded, shaped by
    /// [`LinuxQemu::boot_failure_report`].
    pub fn boot_give_up(&self, handle: tokio::process::Child, rp: os_pipe::PipeReader) -> (r:
        Fatal)
        ensures
            r.class == FatalClass::Data || r.class == FatalClass::Os,
            r.class == FatalClass::Data ==> exists|log: Seq<char>|
                r.msg@ == boot_failure_msg(log, self.vm@.bin),
    {
        let mut handle = handle;
        match child_start_kill(&mut handle) {
            Ok(_) => {},
            Err(e) => {
                return fatal_with(FatalClass::Os, "Fail to kill:", e);
            },
        }
        let log = match pipe_read_all(&rp) {
            Ok(s) => s,
            Err(e) => {
                return fatal_with(FatalClass::Os, "Fail to read to end of pipe:", e);
            },
        };
        let f = self.boot_failure_report(log);
        proof {
            assert(f.msg@ == boot_failure_msg(log@, self.vm@.bin));
        }
        f
    }

    /// The liveness probe invocation: the trivial remote command `pwd`
    /// over the hardened SSH channel to this guest.
    pub fn liveness_app(&self) -> (r: App)
        ensures
            r@ == ssh_app_spec(
                self.key@,
                self.user@,
                self.addr@,
                self.port,
                AppV { bin: "pwd"@, args: Seq::empty() },
            ),
    {
        let pwd = App::new("pwd");
        proof {
            assert(pwd@ =~= (AppV { bin: "pwd"@, args: Seq::empty() }));
        }
        ssh_app(self.key.as_str(), self.user.as_str(), self.addr.as_str(), self.port, pwd)
    }

    /// The two invocations of one remote command run: the remote copy that
    /// ships the binary to the guest's home directory, and the SSH
    /// invocation that runs it there under its rewritten path. Requires an
    /// active session; a binary path that names no file (empty, a root,
    /// or ending in `..`) is a fatal data error.
    pub fn run_cmd(&self, app: &App) -> (r: Result<RemoteRun, Fatal>)
        requires
            self.active(),
        ensures
            (r is Ok) <==> file_name_of(app@.bin) is Some,
            r matches Ok(p) ==> p.copy@ == scp_app_spec(
                self.key@,
                self.user@,
                self.addr@,
                self.port,
                app@.bin,
            ) && p.run@ == ssh_app_spec(
                self.key@,
                self.user@,
                self.addr@,
                self.port,
                AppV { bin: "~/"@ + file_name_of(app@.bin)->0, args: app@.args },
            ),
            r is Err ==> r->Err_0.class == FatalClass::Data,
    {
        let base = match file_name_exec(&app.bin) {
            Some(b) => b,
            None => {
                return Err(fatal_with(FatalClass::Data, "Bad app:", app.bin.clone()));
            },
        };
        let copy = scp_app(
            self.key.as_str(),
            self.user.as_str(),
            self.addr.as_str(),
            self.port,
            app.bin.as_str(),
        );
        let mut rbin = "~/".to_owned();
        rbin.append(base.as_str());
        let mut rapp = app.clone();
        rapp.bin = rbin;
        proof {
            assert(rapp@ =~= (AppV { bin: "~/"@ + file_name_of(app@.bin)->0, args: app@.args }));
        }
        let run = ssh_app(
            self.key.as_str(),
            self.user.as_str(),
            self.addr.as_str(),
            self.port,
            rapp,
        );
        Ok(RemoteRun { copy, run })
    }

    /// One crash-capture attempt, after the caller waited up to
    /// [`CRASH_WAIT_SECS`] for the guest process to exit. While the
    /// process has not exited there is no crash: nothing is returned and
    /// the session stays exactly as it was. Once it has exited, the log
    /// channel is block-read to completion as the crash report and the
    /// session is cleared — the report is produced exactly once, and the
    /// driver must be rebooted before further use.
    pub fn try_collect_crash(&mut self, exited: bool) -> (r: Result<Option<String>, Fatal>)
        requires
            old(self).active(),
        ensures
            same_config(*old(self), *final(self)),
            !exited ==> r == Ok::<Option<String>, Fatal>(None) && *final(self) == *old(self),
            exited ==> !final(self).active(),
            exited && r is Ok ==> r->Ok_0 is Some,
            r is Err ==> r->Err_0.class == FatalClass::Os,
    {
        if !exited {
            return Ok(None);
        }
        let s = self.session.take();
        match s {
            Some(sess) => {
                match pipe_read_all(&sess.rp) {
                    Ok(crash_info) => Ok(Some(crash_info)),
                    Err(e) => Err(fatal_with(FatalClass::Os, "Fail to read pipe of qemu:", e)),
                }
            },
            None => {
                proof {
                    assert(false);
                }
                Ok(None)
            },
        }
    }
}

/// The two invocations one remote command run needs.
pub struct RemoteRun {
    /// Ships the binary into the guest.
    pub copy: App,
    /// Runs the shipped binary remotely.
    pub run: App,
}

/// Remote-copy failure is fatal and carries the remote error text
/// verbatim.
pub fn check_remote_copy(success: bool, stderr: String) -> (r: Result<(), Fatal>)
    ensures
        success <==> r is Ok,
        !success ==> r->Err_0.class == FatalClass::Os && r->Err_0.msg@ == stderr@,
{
    if success {
        Ok(())
    } else {
        Err(Fatal::new(FatalClass::Os, stderr))
    }
}

/// At all times the driver holds its process handle exactly when it holds
/// its log reader: both live in the one active session.
pub proof fn lemma_session_pairing(g: &LinuxQemu)
    ensures
        g.has_handle() <==> g.has_reader(),
{
}

/// The closed set of guest backends behind the one capability interface:
/// boot, liveness, remote command execution and crash capture. Only one
/// backend exists today; new target combinations are added as further
/// variants without changing call sites.
pub enum Guest {
    LinuxQemu(LinuxQemu),
}

impl Guest {
    /// The concrete backend driver.
    pub open spec fn qemu(&self) -> LinuxQemu {
        match self {
            Guest::LinuxQemu(g) => *g,
        }
    }

    /// A guest process is running on the backend.
    pub open spec fn active(&self) -> bool {
        self.qemu().active()
    }

    /// Builds the driver for `cfg`; see [`LinuxQemu::new`].
    pub fn new(cfg: &Config) -> (r: Result<Guest, Fatal>)
        ensures
            r matches Ok(g) ==> config_valid(cfg) && g.qemu().built_from(cfg, g.qemu().port),
            !config_valid(cfg) ==> (r matches Err(f) && f.class == FatalClass::Config
                && f.msg@ == config_diag(cfg)),
            config_valid(cfg) && r is Err ==> r->Err_0.class == FatalClass::TempFail,
    {
        match LinuxQemu::new(cfg) {
            Ok(g) => Ok(Guest::LinuxQemu(g)),
            Err(f) => Err(f),
        }
    }

    /// See [`LinuxQemu::boot_prepare`].
    pub fn boot_prepare(&mut self) -> (r: Result<BootPipes, Fatal>)
        ensures
            !final(self).active(),
            same_config(old(self).qemu(), final(self).qemu()),
            r is Err ==> r->Err_0.class == FatalClass::Os,
    {
        match self {
            Guest::LinuxQemu(g) => g.boot_prepare(),
        }
    }

    /// See [`LinuxQemu::boot_success`].
    pub fn boot_success(&mut self, handle: tokio::process::Child, rp: os_pipe::PipeReader) -> (r:
        Result<(), Fatal>)
        requires
            !old(self).active(),
        ensures
            same_config(old(self).qemu(), final(self).qemu()),
            r is Ok ==> final(self).active() && final(self).qemu().session->0.handle == handle
                && final(self).qemu().session->0.rp == rp,
            r is Err ==> r->Err_0.class == FatalClass::Os && !final(self).active(),
    {
        match self {
            Guest::LinuxQemu(g) => g.boot_success(handle, rp),
        }
    }

    /// See [`LinuxQemu::boot_give_up`].
    pub fn boot_give_up(&self, handle: tokio::process::Child, rp: os_pipe::PipeReader) -> (r:
        Fatal)
        ensures
            r.class == FatalClass::Data || r.class == FatalClass::Os,
            r.class == FatalClass::Data ==> exists|log: Seq<char>|
                r.msg@ == boot_failure_msg(log, self.qemu().vm@.bin),
    {
        match self {
            Guest::LinuxQemu(g) => g.boot_give_up(handle, rp),
        }
    }

    /// See [`LinuxQemu::liveness_app`].
    pub fn liveness_app(&self) -> (r: App)
        ensures
            r@ == ssh_app_spec(
                self.qemu().key@,
                self.qemu().user@,
                self.qemu().addr@,
                self.qemu().port,
                AppV { bin: "pwd"@, args: Seq::empty() },
            ),
    {
        match self {
            Guest::LinuxQemu(g) => g.liveness_app(),
        }
    }

    /// See [`LinuxQemu::run_cmd`].
    pub fn run_cmd(&self, app: &App) -> (r: Result<RemoteRun, Fatal>)
        requires
            self.active(),
        ensures
            (r is Ok) <==> file_name_of(app@.bin) is Some,
            r matches Ok(p) ==> p.copy@ == scp_app_spec(
                self.qemu().key@,
                self.qemu().user@,
                self.qemu().addr@,
                self.qemu().port,
                app@.bin,
            ) && p.run@ == ssh_app_spec(
                self.qemu().key@,
                self.qemu().user@,
                self.qemu().addr@,
                self.qemu().port,
                AppV { bin: "~/"@ + file_name_of(app@.bin)->0, args: app@.args },
            ),
            r is Err ==> r->Err_0.class == FatalClass::Data,
    {
        match self {
            Guest::LinuxQemu(g) => g.run_cmd(app),
        }
    }

    /// See [`LinuxQemu::try_collect_crash`].
    pub fn try_collect_crash(&mut self, exited: bool) -> (r: Result<Option<String>, Fatal>)
        requires
            old(self).active(),
        ensures
            same_config(old(self).qemu(), final(self).qemu()),
            !exited ==> r == Ok::<Option<String>, Fatal>(None) && *final(self) == *old(self),
            exited ==> !final(self).active(),
            exited && r is Ok ==> r->Ok_0 is Some,
            r is Err ==> r->Err_0.class == FatalClass::Os,
    {
        match self {
            Guest::LinuxQemu(g) => g.try_collect_crash(exited),
        }
    }
}

/// Index just past the last path separator in `s`.
pub open spec fn base_start(s: Seq<char>) -> nat
    decreases s.len(),
{
    if s.len() == 0 {
        0
    } else if s.last() == '/' {
        s.len()
    } else {
        base_start(s.drop_last())
    }
}

/// The file name a binary path names, as the platform's path rules see
/// it: trailing separators and bare `.` components at the end are
/// ignored; an empty path, a root path, or one whose final component is
/// `..` names no file.
pub open spec fn file_name_of(s: Seq<char>) -> Option<Seq<char>>
    decreases s.len(),
{
    if s.len() == 0 {
        None
    } else if s.last() == '/' {
        file_name_of(s.drop_last())
    } else if s == seq!['.'] || (s.len() >= 2 && s[s.len() - 2] == '/' && s.last() == '.') {
        file_name_of(s.drop_last())
    } else if s == seq!['.', '.'] || (s.len() >= 3 && s[s.len() - 3] == '/'
        && s[s.len() - 2] == '.' && s.last() == '.') {
        None
    } else {
        Some(s.subrange(base_start(s) as int, s.len() as int))
    }
}

fn file_name_exec(s: &String) -> (r: Option<String>)
    ensures
        (r is Some) <==> file_name_of(s@) is Some,
        r matches Some(f) ==> f@ == file_name_of(s@)->0,
{
    let n = s.as_str().unicode_len();
    let mut end: usize = n;
    proof {
        assert(s@.take(n as int) =~= s@);
    }
    while end > 0 && (s.as_str().get_char(end - 1) == '/' || (s.as_str().get_char(end - 1) == '.'
        && (end == 1 || s.as_str().get_char(end - 2) == '/')))
        invariant
            end <= n == s@.len(),
            file_name_of(s@) == file_name_of(s@.take(end as int)),
        decreases end,
    {
        proof {
            let t = s@.take(end as int);
            assert(t.last() == s@[end - 1]);
            assert(t.drop_last() =~= s@.take(end - 1));
            if s@[end - 1] == '.' && end == 1 {
                assert(t =~= seq!['.']);
            }
            if s@[end - 1] == '.' && end >= 2 {
                assert(t[end - 2] == s@[end - 2]);
            }
        }
        end = end - 1;
    }
    if end == 0 {
        return None;
    }
    let last_dot = s.as_str().get_char(end - 1) == '.';
    if last_dot && end >= 2 && s.as_str().get_char(end - 2) == '.' && (end == 2 || s.as_str()
        .get_char(end - 3) == '/') {
        proof {
            let t = s@.take(end as int);
            assert(t.last() == s@[end - 1]);
            assert(t[end - 2] == s@[end - 2]);
            if end == 2 {
                assert(t =~= seq!['.', '.']);
            } else {
                assert(t[end - 3] == s@[end - 3]);
            }
        }
        return None;
    }
    proof {
        let t = s@.take(end as int);
        assert(t.last() == s@[end - 1]);
        if t == seq!['.', '.'] {
            assert(t[0] == s@[0] && t[1] == s@[1]);
        }
        if end >= 2 {
            assert(t[end - 2] == s@[end - 2]);
        }
        if end >= 3 {
            assert(t[end - 3] == s@[end - 3]);
        }
    }
    let mut start: usize = end;
    while start > 0 && s.as_str().get_char(start - 1) != '/'
        invariant
            start <= end <= n == s@.len(),
            base_start(s@.take(end as int)) == base_start(s@.take(start as int)),
        decreases start,
    {
        proof {
            let u = s@.take(start as int);
            assert(u.last() == s@[start - 1]);
            assert(u.drop_last() =~= s@.take(start - 1));
        }
        start = start - 1;
    }
    proof {
        let t = s@.take(end as int);
        if start == 0 {
            assert(s@.take(0int) =~= Seq::<char>::empty());
            assert(base_start(t) == 0);
        } else {
            let u = s@.take(start as int);
            assert(u.last() == s@[start - 1]);
            assert(base_start(u) == start);
        }
        assert(t.subrange(start as int, end as int) =~= s@.subrange(start as int, end as int));
    }
    Some(s.as_str().substring_char(start, end).to_owned())
}

} // verus!
