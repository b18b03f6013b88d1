//! Guest virtual-machine lifecycle: validated configuration, the session
//! state machine with its bounded-retry boot discipline, crash evidence
//! collection, and the hypervisor/remote-shell command descriptors. The
//! actual processes, pipes and sleeps are driven outside the library; every
//! decision they follow is taken and proved here.
use crate::cli::{spec_join, spec_scp_tokens, spec_ssh_tokens, ssh_app, scp_app, App, Arg, OptVal};
use crate::text::{file_name, lossy_of, spec_dec_digits, spec_file_name, u64_to_dec, utf8_lossy};
use vstd::prelude::*;
use vstd::string::StringExecFns;

verus! {

/// Why a configuration section was rejected.
#[derive(Debug, Clone, Copy, PartialEq, Eq, Structural)]
pub enum ConfigError {
    /// The os/arch/platform triple is not in the allow-list.
    UnsupportedGuest,
    /// The CPU count is zero or above the host's capacity.
    BadCpuCount,
    /// The memory size is under the floor.
    BadMemSize,
}

/// Which kernel is tested, and where it runs.
#[derive(Debug, Clone)]
pub struct GuestConf {
    /// Kernel to be tested.
    pub os: String,
    /// Architecture of the built kernel.
    pub arch: String,
    /// Platform to run the kernel on.
    pub platform: String,
}

impl GuestConf {
    /// The one guest kind supported today: linux/amd64 under qemu.
    pub open spec fn spec_supported(&self) -> bool {
        &&& self.os@ == "linux"@
        &&& self.arch@ == "amd64"@
        &&& self.platform@ == "qemu"@
    }

    /// Reject a guest target outside the allow-list.
    pub fn check(&self) -> (r: Result<(), ConfigError>)
        ensures
            r is Ok <==> self.spec_supported(),
            r is Err ==> r == Result::<(), ConfigError>::Err(ConfigError::UnsupportedGuest),
    {
        let os_ok = self.os == String::from_str("linux");
        let arch_ok = self.arch == String::from_str("amd64");
        let platform_ok = self.platform == String::from_str("qemu");
        if os_ok && arch_ok && platform_ok {
            Result::Ok(())
        } else {
            Result::Err(ConfigError::UnsupportedGuest)
        }
    }
}

/// Memory floor of a guest, in MiB.
pub const MIN_MEM_SIZE: u32 = 512;

/// How the hypervisor is to be invoked.
#[derive(Debug, Clone)]
pub struct QemuConf {
    pub cpu_num: u32,
    pub mem_size: u32,
    pub image: String,
    pub kernel: String,
    pub wait_boot_time: Option<u8>,
}

impl QemuConf {
    /// Validity against a given host CPU capacity. The existence of the
    /// image and kernel files is an I/O question answered outside the
    /// library.
    pub open spec fn spec_validate(&self, host_cpus: usize) -> Result<(), ConfigError> {
        if self.cpu_num == 0 || self.cpu_num > host_cpus {
            Result::Err(ConfigError::BadCpuCount)
        } else if self.mem_size < MIN_MEM_SIZE {
            Result::Err(ConfigError::BadMemSize)
        } else {
            Result::Ok(())
        }
    }

    /// Check the section against an explicit host CPU capacity.
    pub fn validate(&self, host_cpus: usize) -> (r: Result<(), ConfigError>)
        ensures
            r == self.spec_validate(host_cpus),
    {
        if self.cpu_num == 0 || self.cpu_num as usize > host_cpus {
            Result::Err(ConfigError::BadCpuCount)
        } else if self.mem_size < MIN_MEM_SIZE {
            Result::Err(ConfigError::BadMemSize)
        } else {
            Result::Ok(())
        }
    }

    /// Check the section against this host's own CPU capacity.
    pub fn check(&self) -> (r: Result<(), ConfigError>)
        ensures
            r is Ok ==> 1 <= self.cpu_num && self.mem_size >= MIN_MEM_SIZE,
            exists|h: usize| h >= 1 && r == self.spec_validate(h),
    {
        let cpus = host_cpu_count();
        let r = self.validate(cpus);
        proof {
            assert(r == self.spec_validate(cpus));
        }
        r
    }
}

/// Relies on `num_cpus::get`: the number of logical CPUs available to this
/// process, documented to be at least 1.
#[verifier::external_body]
fn host_cpu_count() -> (n: usize)
    ensures
        n >= 1,
{
    num_cpus::get()
}

/// Where the remote-shell identity file lives. Whether the file exists is
/// an I/O question answered outside the library.
#[derive(Debug, Clone)]
pub struct SSHConf {
    pub key_path: String,
}

/// Captured VM console text at the time of death; the sentinel `$$` means
/// no information was captured.
#[derive(Debug, Clone)]
pub struct Crash {
    pub inner: String,
}

impl Default for Crash {
    /// The sentinel report: nothing captured.
    fn default() -> (c: Crash)
        ensures
            c.inner@ == "$$"@,
    {
        Crash { inner: String::from_str("$$") }
    }
}

/// Where a guest session stands.
#[derive(Debug, Clone, Copy, PartialEq, Eq, Structural)]
pub enum SessionState {
    /// No hypervisor process exists.
    Unbooted,
    /// The hypervisor was spawned; liveness is still being probed.
    Booting,
    /// The guest answers liveness probes; commands may be dispatched.
    Alive,
    /// Crash evidence was collected; no dispatch until the next boot.
    Crashed,
}

/// What the boot loop does after one liveness probe.
#[derive(Debug, Clone, Copy, PartialEq, Eq, Structural)]
pub enum BootStep {
    /// Not alive yet: sleep the configured wait time and probe again.
    Continue,
    /// Alive: drain the buffered console noise and keep the session.
    Booted,
    /// The retry bound is exhausted: kill the hypervisor, surface the
    /// captured console output, and terminate fatally.
    Fatal,
}

/// Bound on liveness probes during one boot sequence.
pub const BOOT_MAX_PROBES: u8 = 5;

/// The session state machine of one guest. It owns no OS handle itself; it
/// decides, for the layer that does, what must happen to the hypervisor
/// process and its console pipe.
#[derive(Debug, Clone, Copy)]
pub struct Lifecycle {
    pub state: SessionState,
    /// Liveness probes made in the current boot sequence.
    pub probes: u8,
    /// Whether the session's console pipe may hold bytes that were neither
    /// drained nor surfaced yet.
    pub residue: bool,
}

/// A fresh manager: nothing booted, nothing buffered.
pub open spec fn spec_lifecycle_init() -> Lifecycle {
    Lifecycle { state: SessionState::Unbooted, probes: 0, residue: false }
}

/// Begin a boot: any prior session is to be killed first (the returned
/// flag), and the new hypervisor's console starts accumulating boot
/// chatter.
pub open spec fn spec_begin_boot(lc: Lifecycle) -> (Lifecycle, bool) {
    (
        Lifecycle { state: SessionState::Booting, probes: 0, residue: true },
        lc.state is Alive || lc.state is Booting,
    )
}

/// One liveness probe answered: keep the session on success (draining the
/// boot chatter), retry while probes remain, and give up fatally on the
/// last one (killing the process and surfacing the console output).
pub open spec fn spec_probe(lc: Lifecycle, alive: bool) -> (Lifecycle, BootStep)
    recommends
        lc.state is Booting,
        lc.probes < BOOT_MAX_PROBES,
{
    if alive {
        (
            Lifecycle { state: SessionState::Alive, probes: (lc.probes + 1) as u8, residue: false },
            BootStep::Booted,
        )
    } else if lc.probes + 1 == BOOT_MAX_PROBES {
        (
            Lifecycle {
                state: SessionState::Unbooted,
                probes: (lc.probes + 1) as u8,
                residue: false,
            },
            BootStep::Fatal,
        )
    } else {
        (
            Lifecycle {
                state: SessionState::Booting,
                probes: (lc.probes + 1) as u8,
                residue: true,
            },
            BootStep::Continue,
        )
    }
}

/// A command dispatch may write console output.
pub open spec fn spec_dispatch(lc: Lifecycle) -> Lifecycle {
    Lifecycle { residue: true, ..lc }
}

/// Drain and discard the buffered console output, without terminating.
pub open spec fn spec_clear(lc: Lifecycle) -> Lifecycle {
    Lifecycle { residue: false, ..lc }
}

/// Kill the session and consume its buffered console output as evidence.
pub open spec fn spec_collect_crash(lc: Lifecycle) -> Lifecycle {
    Lifecycle { state: SessionState::Crashed, residue: false, ..lc }
}

impl Lifecycle {
    pub fn new() -> (lc: Lifecycle)
        ensures
            lc == spec_lifecycle_init(),
    {
        Lifecycle { state: SessionState::Unbooted, probes: 0, residue: false }
    }

    /// Start a boot sequence; the caller must kill the prior session's
    /// process first exactly when the result says so.
    pub fn begin_boot(&mut self) -> (kill_prior: bool)
        ensures
            *final(self) == spec_begin_boot(*old(self)).0,
            kill_prior == spec_begin_boot(*old(self)).1,
    {
        let kill_prior = match self.state {
            SessionState::Alive => true,
            SessionState::Booting => true,
            _ => false,
        };
        self.state = SessionState::Booting;
        self.probes = 0;
        self.residue = true;
        kill_prior
    }

    /// Record the answer of one liveness probe.
    pub fn probe(&mut self, alive: bool) -> (step: BootStep)
        requires
            old(self).state is Booting,
            old(self).probes < BOOT_MAX_PROBES,
        ensures
            *final(self) == spec_probe(*old(self), alive).0,
            step == spec_probe(*old(self), alive).1,
    {
        self.probes = self.probes + 1;
        if alive {
            self.state = SessionState::Alive;
            self.residue = false;
            BootStep::Booted
        } else if self.probes == BOOT_MAX_PROBES {
            self.state = SessionState::Unbooted;
            self.residue = false;
            BootStep::Fatal
        } else {
            self.residue = true;
            BootStep::Continue
        }
    }

    /// A command was dispatched into the guest; its output may now sit in
    /// the console pipe.
    pub fn dispatched(&mut self)
        requires
            old(self).state is Alive,
        ensures
            *final(self) == spec_dispatch(*old(self)),
    {
        self.residue = true;
    }

    /// The console pipe was drained and the bytes discarded.
    pub fn clear(&mut self)
        ensures
            *final(self) == spec_clear(*old(self)),
    {
        self.residue = false;
    }

    /// The session was killed and its console drained into a crash report.
    pub fn collect_crash(&mut self)
        requires
            old(self).state is Alive,
        ensures
            *final(self) == spec_collect_crash(*old(self)),
    {
        self.state = SessionState::Crashed;
        self.residue = false;
    }
}

/// The lifecycle after `k` probes of a guest that never becomes alive.
pub open spec fn spec_probe_dead_n(lc: Lifecycle, k: nat) -> Lifecycle
    decreases k,
{
    if k == 0 {
        lc
    } else {
        spec_probe(spec_probe_dead_n(lc, (k - 1) as nat), false).0
    }
}

/// Boot retry bound: starting a boot sequence against a guest that never
/// becomes alive, each of the first four probes asks for another try and
/// the fifth gives up fatally — exactly `BOOT_MAX_PROBES` probes in all.
pub proof fn lemma_boot_retry_bound(lc: Lifecycle)
    requires
        lc.state is Booting,
        lc.probes == 0,
    ensures
        forall|k: nat|
            k < BOOT_MAX_PROBES - 1 ==> (#[trigger] spec_probe_dead_n(lc, k)).state is Booting
                && spec_probe_dead_n(lc, k).probes == k && spec_probe(
                spec_probe_dead_n(lc, k),
                false,
            ).1 is Continue,
        spec_probe(spec_probe_dead_n(lc, (BOOT_MAX_PROBES - 1) as nat), false).1 is Fatal,
{
    assert(spec_probe_dead_n(lc, 0) == lc);
    assert(spec_probe_dead_n(lc, 1) == spec_probe(spec_probe_dead_n(lc, 0), false).0);
    assert(spec_probe_dead_n(lc, 2) == spec_probe(spec_probe_dead_n(lc, 1), false).0);
    assert(spec_probe_dead_n(lc, 3) == spec_probe(spec_probe_dead_n(lc, 2), false).0);
    assert(spec_probe_dead_n(lc, 4) == spec_probe(spec_probe_dead_n(lc, 3), false).0);
    assert forall|k: nat| k < BOOT_MAX_PROBES - 1 implies (#[trigger] spec_probe_dead_n(
        lc,
        k,
    )).state is Booting && spec_probe_dead_n(lc, k).probes == k && spec_probe(
        spec_probe_dead_n(lc, k),
        false,
    ).1 is Continue by {
        if k == 0 {
        } else if k == 1 {
        } else if k == 2 {
        } else {
            assert(k == 3);
        }
    }
}

/// Idempotent reboot: beginning a boot while a session is alive orders the
/// prior session killed first, and the manager starts a fresh sequence
/// with nothing kept from the prior session.
pub proof fn lemma_reboot_idempotent(lc: Lifecycle)
    requires
        lc.state is Alive,
    ensures
        spec_begin_boot(lc).1 == true,
        spec_begin_boot(lc).0.state is Booting,
        spec_begin_boot(lc).0.probes == 0,
{
}

/// A session becomes Crashed only through explicit crash collection: no
/// boot step, liveness probe, drain or dispatch ever yields a crashed
/// session.
pub proof fn lemma_crashed_only_by_collection(lc: Lifecycle, alive: bool)
    ensures
        !(spec_begin_boot(lc).0.state is Crashed),
        !(spec_probe(lc, alive).0.state is Crashed),
        spec_clear(lc).state == lc.state,
        spec_dispatch(lc).state == lc.state,
        spec_collect_crash(lc).state is Crashed,
{
}

/// Crash collection followed by a boot that succeeds after any number of
/// retries yields a clean alive session: no residual buffered console
/// bytes from the crashed session or from the boot chatter.
pub proof fn lemma_crash_then_boot_clean(lc: Lifecycle, dead_probes: nat)
    requires
        lc.state is Alive,
        dead_probes < BOOT_MAX_PROBES - 1,
    ensures
        ({
            let crashed = spec_collect_crash(lc);
            let booting = spec_begin_boot(crashed).0;
            let settled = spec_probe(spec_probe_dead_n(booting, dead_probes), true).0;
            &&& crashed.residue == false
            &&& settled.state is Alive
            &&& settled.residue == false
        }),
{
}

/// Size the guest's console pipe is grown to.
pub const LINUX_QEMU_PIPE_LEN: i32 = 0x10_0000;

/// The kernel command line handed to the guest.
pub open spec fn spec_qemu_append_vals() -> Seq<Seq<char>> {
    seq![
        "earlyprintk=serial"@,
        "oops=panic"@,
        "nmi_watchdog=panic"@,
        "panic_on_warn=1"@,
        "panic=1"@,
        "ftrace_dump_on_oops=orig_cpu"@,
        "rodata=n"@,
        "vsyscall=native"@,
        "net.ifnames=0"@,
        "biosdevname=0"@,
        "root=/dev/sda"@,
        "console=ttyS0"@,
        "kvm-intel.nested=1"@,
        "kvm-intel.unrestricted_guest=1"@,
        "kvm-intel.vmm_exclusive=1"@,
        "kvm-intel.fasteoi=1"@,
        "kvm-intel.ept=1"@,
        "kvm-intel.flexpriority=1"@,
        "kvm-intel.vpid=1"@,
        "kvm-intel.emulate_invalid_guest_state=1"@,
        "kvm-intel.eptad=1"@,
        "kvm-intel.enable_shadow_vmcs=1"@,
        "kvm-intel.pml=1"@,
        "kvm-intel.enable_apicv=1"@,
    ]
}

/// The argv of the hypervisor invocation: snapshot mode (no writes back to
/// the backing image), serial console on standard I/O, CPU passthrough,
/// user-mode networking with a host port forwarded to the guest's
/// remote-shell port, and the configured image, kernel, memory and CPUs.
pub open spec fn spec_qemu_tokens(
    cpu_num: u32,
    mem_size: u32,
    image: Seq<char>,
    kernel: Seq<char>,
    port: u16,
) -> Seq<Seq<char>> {
    seq![
        "-enable-kvm"@,
        "-no-reboot"@,
        "-display"@,
        "none"@,
        "-serial"@,
        "stdio"@,
        "-snapshot"@,
        "-cpu"@,
        spec_join(seq!["host"@, "migratable=off"@], ','),
        "-net"@,
        spec_join(seq!["nic"@, "model=e1000"@], ','),
        "-append"@,
        spec_join(spec_qemu_append_vals(), ' '),
        "-m"@,
        spec_dec_digits(mem_size as nat),
        "-smp"@,
        spec_dec_digits(cpu_num as nat),
        "-net"@,
        spec_join(
            seq![
                "user"@,
                "host=10.0.2.10"@,
                "hostfwd=tcp::"@ + spec_dec_digits(port as nat) + "-:22"@,
            ],
            ',',
        ),
        "-hda"@,
        image,
        "-kernel"@,
        kernel,
    ]
}

/// Build the hypervisor invocation for the given section and forwarded
/// port.
pub fn build_qemu_app(qemu: &QemuConf, port: u16) -> (r: App)
    ensures
        r.bin@ == "qemu-system-x86_64"@,
        r.spec_tokens() == spec_qemu_tokens(
            qemu.cpu_num,
            qemu.mem_size,
            qemu.image@,
            qemu.kernel@,
            port,
        ),
{
    let mut cpu_vals: Vec<String> = Vec::new();
    cpu_vals.push(String::from_str("host"));
    cpu_vals.push(String::from_str("migratable=off"));
    proof {
        assert(cpu_vals.deep_view() =~~= seq!["host"@, "migratable=off"@]);
    }
    let mut nic_vals: Vec<String> = Vec::new();
    nic_vals.push(String::from_str("nic"));
    nic_vals.push(String::from_str("model=e1000"));
    proof {
        assert(nic_vals.deep_view() =~~= seq!["nic"@, "model=e1000"@]);
    }
    let mut append_vals: Vec<String> = Vec::new();
    append_vals.push(String::from_str("earlyprintk=serial"));
    append_vals.push(String::from_str("oops=panic"));
    append_vals.push(String::from_str("nmi_watchdog=panic"));
    append_vals.push(String::from_str("panic_on_warn=1"));
    append_vals.push(String::from_str("panic=1"));
    append_vals.push(String::from_str("ftrace_dump_on_oops=orig_cpu"));
    append_vals.push(String::from_str("rodata=n"));
    append_vals.push(String::from_str("vsyscall=native"));
    append_vals.push(String::from_str("net.ifnames=0"));
    append_vals.push(String::from_str("biosdevname=0"));
    append_vals.push(String::from_str("root=/dev/sda"));
    append_vals.push(String::from_str("console=ttyS0"));
    append_vals.push(String::from_str("kvm-intel.nested=1"));
    append_vals.push(String::from_str("kvm-intel.unrestricted_guest=1"));
    append_vals.push(String::from_str("kvm-intel.vmm_exclusive=1"));
    append_vals.push(String::from_str("kvm-intel.fasteoi=1"));
    append_vals.push(String::from_str("kvm-intel.ept=1"));
    append_vals.push(String::from_str("kvm-intel.flexpriority=1"));
    append_vals.push(String::from_str("kvm-intel.vpid=1"));
    append_vals.push(String::from_str("kvm-intel.emulate_invalid_guest_state=1"));
    append_vals.push(String::from_str("kvm-intel.eptad=1"));
    append_vals.push(String::from_str("kvm-intel.enable_shadow_vmcs=1"));
    append_vals.push(String::from_str("kvm-intel.pml=1"));
    append_vals.push(String::from_str("kvm-intel.enable_apicv=1"));
    proof {
        assert(append_vals.deep_view() =~~= spec_qemu_append_vals());
    }
    let fwd = String::from_str("hostfwd=tcp::").concat(u64_to_dec(port as u64).as_str()).concat(
        "-:22",
    );
    let mut usernet_vals: Vec<String> = Vec::new();
    usernet_vals.push(String::from_str("user"));
    usernet_vals.push(String::from_str("host=10.0.2.10"));
    usernet_vals.push(fwd);
    proof {
        assert(usernet_vals.deep_view() =~~= seq![
            "user"@,
            "host=10.0.2.10"@,
            "hostfwd=tcp::"@ + spec_dec_digits(port as nat) + "-:22"@,
        ]);
    }
    let app = App::new("qemu-system-x86_64").arg(Arg::new_flag("-enable-kvm")).arg(
        Arg::new_flag("-no-reboot"),
    ).arg(Arg::new_opt("-display", OptVal::normal("none"))).arg(
        Arg::new_opt("-serial", OptVal::normal("stdio")),
    ).arg(Arg::new_flag("-snapshot")).arg(
        Arg::new_opt("-cpu", OptVal::multiple(cpu_vals, Option::Some(','))),
    ).arg(Arg::new_opt("-net", OptVal::multiple(nic_vals, Option::Some(',')))).arg(
        Arg::new_opt("-append", OptVal::multiple(append_vals, Option::Some(' '))),
    ).arg(Arg::new_opt("-m", OptVal::Normal(u64_to_dec(qemu.mem_size as u64)))).arg(
        Arg::new_opt("-smp", OptVal::Normal(u64_to_dec(qemu.cpu_num as u64))),
    ).arg(Arg::new_opt("-net", OptVal::multiple(usernet_vals, Option::Some(',')))).arg(
        Arg::new_opt("-hda", OptVal::Normal(qemu.image.clone())),
    ).arg(Arg::new_opt("-kernel", OptVal::Normal(qemu.kernel.clone())));
    proof {
        assert(app.spec_tokens() =~= spec_qemu_tokens(
            qemu.cpu_num,
            qemu.mem_size,
            qemu.image@,
            qemu.kernel@,
            port,
        ));
    }
    app
}

/// Relies on `port_check::free_local_port`: a localhost TCP port that was
/// free when probed, or nothing. Which port comes back (if any) depends on
/// the machine's momentary state, so nothing more can be promised of it.
#[verifier::external_body]
fn free_local_port() -> (p: Option<u16>)
{
    port_check::free_local_port()
}

/// Build the hypervisor invocation for a supported guest, forwarding a
/// free local port to the guest's remote-shell port. `None` when the host
/// offered no free port — a temporary failure, fatal to the caller.
pub fn build_qemu_cli(guest: &GuestConf, qemu: &QemuConf) -> (r: Option<(App, u16)>)
    requires
        guest.spec_supported(),
    ensures
        r matches Some(pair) ==> pair.0.bin@ == "qemu-system-x86_64"@ && pair.0.spec_tokens()
            == spec_qemu_tokens(qemu.cpu_num, qemu.mem_size, qemu.image@, qemu.kernel@, pair.1),
{
    match free_local_port() {
        Option::Some(port) => Option::Some((build_qemu_app(qemu, port), port)),
        Option::None => Option::None,
    }
}

/// Default number of seconds to wait between liveness probes during boot.
pub const DEFAULT_WAIT_BOOT_TIME: u8 = 5;

/// One linux/amd64 guest driven through a hypervisor command and a
/// remote-shell transport. The OS process handle and console pipe of the
/// running session are owned by the process layer; this value holds the
/// validated invocation, the transport parameters, and the session state
/// machine.
#[derive(Debug, Clone)]
pub struct LinuxQemu {
    /// The hypervisor invocation this guest boots with.
    pub vm: App,
    /// Seconds to sleep before each liveness probe during boot.
    pub wait_boot_time: u8,
    /// The session state machine.
    pub lifecycle: Lifecycle,
    /// Host address the forwarded port listens on.
    pub addr: String,
    /// The forwarded port.
    pub port: u16,
    /// Identity file for the remote shell.
    pub key: String,
    /// Account inside the guest.
    pub user: String,
}

impl LinuxQemu {
    /// Construct the manager from validated configuration. `None` when the
    /// host offered no free port to forward.
    pub fn new(guest: &GuestConf, qemu: &QemuConf, ssh: &SSHConf) -> (r: Option<LinuxQemu>)
        requires
            guest.spec_supported(),
        ensures
            r matches Some(g) ==> {
                &&& g.vm.bin@ == "qemu-system-x86_64"@
                &&& g.vm.spec_tokens() == spec_qemu_tokens(
                    qemu.cpu_num,
                    qemu.mem_size,
                    qemu.image@,
                    qemu.kernel@,
                    g.port,
                )
                &&& g.wait_boot_time as int == (match qemu.wait_boot_time {
                    Option::Some(t) => t as int,
                    Option::None => DEFAULT_WAIT_BOOT_TIME as int,
                })
                &&& g.addr@ == "localhost"@
                &&& g.user@ == "root"@
                &&& g.key@ == ssh.key_path@
                &&& g.lifecycle == spec_lifecycle_init()
            },
    {
        match build_qemu_cli(guest, qemu) {
            Option::Some((vm, port)) => {
                let wait_boot_time = match qemu.wait_boot_time {
                    Option::Some(t) => t,
                    Option::None => DEFAULT_WAIT_BOOT_TIME,
                };
                Option::Some(
                    LinuxQemu {
                        vm,
                        wait_boot_time,
                        lifecycle: Lifecycle::new(),
                        addr: String::from_str("localhost"),
                        port,
                        key: ssh.key_path.clone(),
                        user: String::from_str("root"),
                    },
                )
            },
            Option::None => Option::None,
        }
    }

    /// Start a boot sequence. The caller must kill the prior session's
    /// hypervisor process first exactly when the result says so, then
    /// spawn `self.vm` with its console captured, and probe liveness with
    /// `boot_probe` after each configured wait.
    pub fn boot(&mut self) -> (kill_prior: bool)
        ensures
            *final(self) == (LinuxQemu {
                lifecycle: spec_begin_boot(old(self).lifecycle).0,
                ..*old(self)
            }),
            kill_prior == spec_begin_boot(old(self).lifecycle).1,
    {
        self.lifecycle.begin_boot()
    }

    /// Record one liveness probe's answer during boot.
    pub fn boot_probe(&mut self, alive: bool) -> (step: BootStep)
        requires
            old(self).lifecycle.state is Booting,
            old(self).lifecycle.probes < BOOT_MAX_PROBES,
        ensures
            *final(self) == (LinuxQemu {
                lifecycle: spec_probe(old(self).lifecycle, alive).0,
                ..*old(self)
            }),
            step == spec_probe(old(self).lifecycle, alive).1,
    {
        self.lifecycle.probe(alive)
    }

    /// The health probe: a trivial remote command whose exit status tells
    /// whether the guest answers its remote shell.
    pub fn is_alive_cmd(&self) -> (r: App)
        ensures
            r.bin@ == "ssh"@,
            r.spec_tokens() == spec_ssh_tokens(
                self.key@,
                self.user@,
                self.addr@,
                self.port,
                "pwd"@,
                Seq::<Seq<char>>::empty(),
            ),
    {
        ssh_app(
            self.key.as_str(),
            self.user.as_str(),
            self.addr.as_str(),
            self.port,
            App::new("pwd"),
        )
    }

    /// The transfer that copies a local file into the guest's home
    /// directory, and the guest-side path it lands on.
    pub fn copy(&self, path: &str) -> (r: (App, String))
        ensures
            r.1@ == "~/"@ + spec_file_name(path@),
            r.0.bin@ == "scp"@,
            r.0.spec_tokens() == spec_scp_tokens(
                self.key@,
                self.user@,
                self.addr@,
                self.port,
                path@,
                r.1@,
            ),
    {
        let guest_path = String::from_str("~/").concat(file_name(path).as_str());
        let scp = scp_app(
            self.key.as_str(),
            self.user.as_str(),
            self.addr.as_str(),
            self.port,
            path,
            guest_path.as_str(),
        );
        (scp, guest_path)
    }

    /// Dispatch a command into the guest: first the transfer that copies
    /// its binary in, then the remote execution of the copied binary with
    /// the original arguments. Requires an alive session — dispatching
    /// into anything else is a programming error, not a recoverable
    /// condition.
    pub fn run_cmd(&mut self, app: App) -> (r: (App, App))
        requires
            old(self).lifecycle.state is Alive,
        ensures
            *final(self) == (LinuxQemu {
                lifecycle: spec_dispatch(old(self).lifecycle),
                ..*old(self)
            }),
            r.0.bin@ == "scp"@,
            r.0.spec_tokens() == spec_scp_tokens(
                old(self).key@,
                old(self).user@,
                old(self).addr@,
                old(self).port,
                app.bin@,
                "~/"@ + spec_file_name(app.bin@),
            ),
            r.1.bin@ == "ssh"@,
            r.1.spec_tokens() == spec_ssh_tokens(
                old(self).key@,
                old(self).user@,
                old(self).addr@,
                old(self).port,
                "~/"@ + spec_file_name(app.bin@),
                app.spec_tokens(),
            ),
    {
        let (scp, guest_path) = self.copy(app.bin.as_str());
        let App { bin: _, args } = app;
        let wrapped = App { bin: guest_path, args };
        let ssh = ssh_app(
            self.key.as_str(),
            self.user.as_str(),
            self.addr.as_str(),
            self.port,
            wrapped,
        );
        self.lifecycle.dispatched();
        (scp, ssh)
    }

    /// Drain and discard the buffered console output, without terminating
    /// the session — used between dispatches to keep the pipe from
    /// filling.
    pub fn clear(&mut self)
        ensures
            *final(self) == (LinuxQemu { lifecycle: spec_clear(old(self).lifecycle), ..*old(self) }),
    {
        self.lifecycle.clear();
    }

    /// The session was force-killed and its console drained; wrap the
    /// drained bytes as the crash report, or the sentinel when nothing was
    /// captured. The caller must boot again before further dispatch.
    pub fn collect_crash(&mut self, console: Vec<u8>) -> (c: Crash)
        requires
            old(self).lifecycle.state is Alive,
        ensures
            *final(self) == (LinuxQemu {
                lifecycle: spec_collect_crash(old(self).lifecycle),
                ..*old(self)
            }),
            console@.len() == 0 ==> c.inner@ == "$$"@,
            console@.len() > 0 ==> c.inner@ == lossy_of(console@),
    {
        self.lifecycle.collect_crash();
        if console.len() == 0 {
            Crash::default()
        } else {
            Crash { inner: utf8_lossy(&console) }
        }
    }
}

/// The capability set every guest kind supports, dispatched over the kinds
/// known at construction time — today exactly one.
pub enum Guest {
    LinuxQemu(LinuxQemu),
}

impl Guest {
    /// The underlying guest kind's manager.
    pub open spec fn spec_inner(&self) -> LinuxQemu {
        match self {
            Guest::LinuxQemu(g) => *g,
        }
    }

    /// The lifecycle state machine of the underlying guest.
    pub open spec fn spec_lifecycle(&self) -> Lifecycle {
        self.spec_inner().lifecycle
    }

    /// Select and construct the guest kind from validated configuration.
    pub fn new(guest: &GuestConf, qemu: &QemuConf, ssh: &SSHConf) -> (r: Option<Guest>)
        requires
            guest.spec_supported(),
        ensures
            r matches Some(g) ==> {
                &&& g.spec_lifecycle() == spec_lifecycle_init()
                &&& g.spec_inner().vm.bin@ == "qemu-system-x86_64"@
                &&& g.spec_inner().vm.spec_tokens() == spec_qemu_tokens(
                    qemu.cpu_num,
                    qemu.mem_size,
                    qemu.image@,
                    qemu.kernel@,
                    g.spec_inner().port,
                )
                &&& g.spec_inner().addr@ == "localhost"@
                &&& g.spec_inner().user@ == "root"@
                &&& g.spec_inner().key@ == ssh.key_path@
            },
    {
        match LinuxQemu::new(guest, qemu, ssh) {
            Option::Some(g) => Option::Some(Guest::LinuxQemu(g)),
            Option::None => Option::None,
        }
    }

    /// Start a boot sequence; kill the prior session first exactly when
    /// the result says so.
    pub fn boot(&mut self) -> (kill_prior: bool)
        ensures
            final(self).spec_inner() == (LinuxQemu {
                lifecycle: spec_begin_boot(old(self).spec_lifecycle()).0,
                ..old(self).spec_inner()
            }),
            kill_prior == spec_begin_boot(old(self).spec_lifecycle()).1,
    {
        match self {
            Guest::LinuxQemu(g) => g.boot(),
        }
    }

    /// Record one liveness probe's answer during boot.
    pub fn boot_probe(&mut self, alive: bool) -> (step: BootStep)
        requires
            old(self).spec_lifecycle().state is Booting,
            old(self).spec_lifecycle().probes < BOOT_MAX_PROBES,
        ensures
            final(self).spec_inner() == (LinuxQemu {
                lifecycle: spec_probe(old(self).spec_lifecycle(), alive).0,
                ..old(self).spec_inner()
            }),
            step == spec_probe(old(self).spec_lifecycle(), alive).1,
    {
        match self {
            Guest::LinuxQemu(g) => g.boot_probe(alive),
        }
    }

    /// The health-probe invocation.
    pub fn is_alive_cmd(&self) -> (r: App)
        ensures
            r.bin@ == "ssh"@,
            r.spec_tokens() == spec_ssh_tokens(
                self.spec_inner().key@,
                self.spec_inner().user@,
                self.spec_inner().addr@,
                self.spec_inner().port,
                "pwd"@,
                Seq::<Seq<char>>::empty(),
            ),
    {
        match self {
            Guest::LinuxQemu(g) => g.is_alive_cmd(),
        }
    }

    /// The transfer of a local file into the guest, and the guest-side
    /// path it lands on.
    pub fn copy(&self, path: &str) -> (r: (App, String))
        ensures
            r.1@ == "~/"@ + spec_file_name(path@),
            r.0.bin@ == "scp"@,
            r.0.spec_tokens() == spec_scp_tokens(
                self.spec_inner().key@,
                self.spec_inner().user@,
                self.spec_inner().addr@,
                self.spec_inner().port,
                path@,
                r.1@,
            ),
    {
        match self {
            Guest::LinuxQemu(g) => g.copy(path),
        }
    }

    /// The two invocations that dispatch a command into the guest: copy
    /// its binary in, then run the copy remotely.
    pub fn run_cmd(&mut self, app: App) -> (r: (App, App))
        requires
            old(self).spec_lifecycle().state is Alive,
        ensures
            final(self).spec_inner() == (LinuxQemu {
                lifecycle: spec_dispatch(old(self).spec_lifecycle()),
                ..old(self).spec_inner()
            }),
            r.0.bin@ == "scp"@,
            r.0.spec_tokens() == spec_scp_tokens(
                old(self).spec_inner().key@,
                old(self).spec_inner().user@,
                old(self).spec_inner().addr@,
                old(self).spec_inner().port,
                app.bin@,
                "~/"@ + spec_file_name(app.bin@),
            ),
            r.1.bin@ == "ssh"@,
            r.1.spec_tokens() == spec_ssh_tokens(
                old(self).spec_inner().key@,
                old(self).spec_inner().user@,
                old(self).spec_inner().addr@,
                old(self).spec_inner().port,
                "~/"@ + spec_file_name(app.bin@),
                app.spec_tokens(),
            ),
    {
        match self {
            Guest::LinuxQemu(g) => g.run_cmd(app),
        }
    }

    /// Drain and discard buffered console output.
    pub fn clear(&mut self)
        ensures
            final(self).spec_inner() == (LinuxQemu {
                lifecycle: spec_clear(old(self).spec_lifecycle()),
                ..old(self).spec_inner()
            }),
    {
        match self {
            Guest::LinuxQemu(g) => g.clear(),
        }
    }

    /// Collect crash evidence from the killed session.
    pub fn collect_crash(&mut self, console: Vec<u8>) -> (c: Crash)
        requires
            old(self).spec_lifecycle().state is Alive,
        ensures
            final(self).spec_inner() == (LinuxQemu {
                lifecycle: spec_collect_crash(old(self).spec_lifecycle()),
                ..old(self).spec_inner()
            }),
            console@.len() == 0 ==> c.inner@ == "$$"@,
            console@.len() > 0 ==> c.inner@ == lossy_of(console@),
    {
        match self {
            Guest::LinuxQemu(g) => g.collect_crash(console),
        }
    }
}

} // verus!
