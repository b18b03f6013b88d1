use healer::cli::App;
use healer::guest::{
    BootStep, ConfigError, Crash, Guest, GuestConf, Lifecycle, LinuxQemu, QemuConf, SSHConf,
    SessionState, BOOT_MAX_PROBES,
};

fn linux_amd64() -> GuestConf {
    GuestConf {
        os: "linux".to_string(),
        arch: "amd64".to_string(),
        platform: "qemu".to_string(),
    }
}

fn alive_guest() -> LinuxQemu {
    LinuxQemu {
        vm: App::new("qemu-system-x86_64"),
        wait_boot_time: 5,
        lifecycle: Lifecycle { state: SessionState::Alive, probes: 1, residue: true },
        addr: "localhost".to_string(),
        port: 2222,
        key: "/root/.ssh/id".to_string(),
        user: "root".to_string(),
    }
}

#[test]
fn boot_retries_exactly_five_probes_then_fatal() {
    let mut lc = Lifecycle::new();
    assert_eq!(lc.state, SessionState::Unbooted);
    let kill_prior = lc.begin_boot();
    assert!(!kill_prior);
    let mut probes = 0;
    loop {
        let step = lc.probe(false);
        probes += 1;
        match step {
            BootStep::Continue => {
                assert!(probes < BOOT_MAX_PROBES);
                assert_eq!(lc.state, SessionState::Booting);
            }
            BootStep::Fatal => {
                assert_eq!(probes, BOOT_MAX_PROBES);
                break;
            }
            BootStep::Booted => panic!("this guest never becomes alive"),
        }
    }
    assert_eq!(lc.probes, BOOT_MAX_PROBES);
}

#[test]
fn reboot_while_alive_kills_the_prior_session() {
    let mut lc = Lifecycle { state: SessionState::Alive, probes: 2, residue: true };
    let kill_prior = lc.begin_boot();
    assert!(kill_prior);
    assert_eq!(lc.state, SessionState::Booting);
    assert_eq!(lc.probes, 0);
    let step = lc.probe(true);
    assert_eq!(step, BootStep::Booted);
    assert_eq!(lc.state, SessionState::Alive);
    assert!(!lc.residue);
}

#[test]
fn crash_collection_then_boot_yields_a_clean_session() {
    let mut lc = Lifecycle { state: SessionState::Alive, probes: 1, residue: true };
    lc.collect_crash();
    assert_eq!(lc.state, SessionState::Crashed);
    assert!(!lc.residue);
    let kill_prior = lc.begin_boot();
    // the crashed session's process was already killed during collection
    assert!(!kill_prior);
    assert_eq!(lc.probe(false), BootStep::Continue);
    assert_eq!(lc.probe(true), BootStep::Booted);
    assert_eq!(lc.state, SessionState::Alive);
    assert!(!lc.residue, "no residual console bytes may survive into the new session");
}

#[test]
fn collected_crash_carries_the_console_text() {
    let mut g = alive_guest();
    let report = g.collect_crash(b"BUG: kernel NULL pointer dereference".to_vec());
    assert_eq!(report.inner, "BUG: kernel NULL pointer dereference");
    assert_eq!(g.lifecycle.state, SessionState::Crashed);
}

#[test]
fn empty_console_yields_the_sentinel_report() {
    let mut g = alive_guest();
    let report = g.collect_crash(Vec::new());
    assert_eq!(report.inner, "$$");
    assert_eq!(report.inner, Crash::default().inner);
}

#[test]
fn invalid_console_bytes_are_replaced_not_dropped() {
    let mut g = alive_guest();
    let report = g.collect_crash(vec![0x70, 0x61, 0x6e, 0x69, 0x63, 0xff, 0x21]);
    assert_eq!(report.inner, "panic\u{fffd}!");
}

#[test]
fn guest_boots_to_a_clean_alive_session() {
    let guest_conf = linux_amd64();
    let qemu_conf = QemuConf {
        cpu_num: 1,
        mem_size: 1024,
        image: "/img".to_string(),
        kernel: "/bzImage".to_string(),
        wait_boot_time: Some(1),
    };
    let ssh_conf = SSHConf { key_path: "/key".to_string() };
    let mut guest = Guest::new(&guest_conf, &qemu_conf, &ssh_conf)
        .expect("a free local port should exist");
    let kill_prior = guest.boot();
    assert!(!kill_prior, "nothing was booted before");
    assert_eq!(guest.boot_probe(false), BootStep::Continue);
    assert_eq!(guest.boot_probe(true), BootStep::Booted);
    // rebooting an alive guest kills the prior session first
    assert!(guest.boot());
}

#[test]
fn guest_config_allow_list() {
    assert!(linux_amd64().check().is_ok());
    let mut c = linux_amd64();
    c.os = "windows".to_string();
    assert!(c.check().is_err());
    let mut c = linux_amd64();
    c.arch = "riscv64".to_string();
    assert!(c.check().is_err());
    let mut c = linux_amd64();
    c.platform = "bare-metal".to_string();
    assert!(c.check().is_err());
}

#[test]
fn qemu_config_bounds() {
    let conf = QemuConf {
        cpu_num: 2,
        mem_size: 1024,
        image: "/img".to_string(),
        kernel: "/bzImage".to_string(),
        wait_boot_time: None,
    };
    assert_eq!(conf.validate(4), Ok(()));
    let mut zero_cpu = conf.clone();
    zero_cpu.cpu_num = 0;
    assert_eq!(zero_cpu.validate(4), Err(ConfigError::BadCpuCount));
    let mut too_many = conf.clone();
    too_many.cpu_num = 8;
    assert_eq!(too_many.validate(4), Err(ConfigError::BadCpuCount));
    let mut small_mem = conf.clone();
    small_mem.mem_size = 511;
    assert_eq!(small_mem.validate(4), Err(ConfigError::BadMemSize));
    // against the real host: one CPU is always within capacity
    let mut one_cpu = conf;
    one_cpu.cpu_num = 1;
    assert!(one_cpu.check().is_ok());
}
