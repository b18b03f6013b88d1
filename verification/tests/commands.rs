use healer::cli::{scp_app, ssh_app, App, Arg, OptVal};
use healer::guest::{build_qemu_app, Lifecycle, LinuxQemu, QemuConf, SessionState};
use healer::text::{file_name, u64_to_dec};

fn tokens_of(app: &App) -> Vec<String> {
    app.tokens()
}

#[test]
fn decimal_rendering_is_exact() {
    assert_eq!(u64_to_dec(0), "0");
    assert_eq!(u64_to_dec(7), "7");
    assert_eq!(u64_to_dec(42), "42");
    assert_eq!(u64_to_dec(1024), "1024");
    assert_eq!(u64_to_dec(u64::MAX), "18446744073709551615");
}

#[test]
fn file_name_takes_the_last_component() {
    assert_eq!(file_name("/tmp/dir/agent_bin"), "agent_bin");
    assert_eq!(file_name("agent_bin"), "agent_bin");
    assert_eq!(file_name("/agent_bin"), "agent_bin");
    assert_eq!(file_name(""), "");
}

#[test]
fn option_values_render_as_documented() {
    let app = App::new("x")
        .arg(Arg::new_flag("-v"))
        .arg(Arg::new_opt("-display", OptVal::normal("none")))
        .arg(Arg::new_opt(
            "-cpu",
            OptVal::multiple(vec!["host".to_string(), "migratable=off".to_string()], Some(',')),
        ))
        .arg(Arg::new_opt(
            "-set",
            OptVal::multiple(vec!["a".to_string(), "b".to_string()], None),
        ));
    assert_eq!(
        tokens_of(&app),
        vec!["-v", "-display", "none", "-cpu", "host,migratable=off", "-set", "a", "b"]
    );
}

#[test]
fn ssh_wrapping_is_exact() {
    let inner = App::new("pwd");
    let ssh = ssh_app("/root/.ssh/id", "root", "localhost", 2222, inner);
    assert_eq!(ssh.bin, "ssh");
    assert_eq!(
        tokens_of(&ssh),
        vec![
            "-F",
            "/dev/null",
            "-o",
            "UserKnownHostsFile=/dev/null",
            "-o",
            "BatchMode=yes",
            "-o",
            "IdentitiesOnly=yes",
            "-o",
            "StrictHostKeyChecking=no",
            "-o",
            "ConnectTimeout=3s",
            "-p",
            "2222",
            "-i",
            "/root/.ssh/id",
            "root@localhost",
            "pwd",
        ]
    );
}

#[test]
fn ssh_wrapping_keeps_the_inner_arguments() {
    let inner = App::new("/bin/prog").arg(Arg::new_flag("-x")).arg(Arg::new_opt(
        "-n",
        OptVal::normal("3"),
    ));
    let ssh = ssh_app("key", "root", "localhost", 22, inner);
    let toks = tokens_of(&ssh);
    assert_eq!(&toks[toks.len() - 4..], &["/bin/prog", "-x", "-n", "3"]);
}

#[test]
fn scp_invocation_is_exact() {
    let scp = scp_app("/root/.ssh/id", "root", "localhost", 2222, "/tmp/agent", "~/agent");
    assert_eq!(scp.bin, "scp");
    assert_eq!(
        tokens_of(&scp),
        vec![
            "-F",
            "/dev/null",
            "-o",
            "UserKnownHostsFile=/dev/null",
            "-o",
            "BatchMode=yes",
            "-o",
            "IdentitiesOnly=yes",
            "-o",
            "StrictHostKeyChecking=no",
            "-P",
            "2222",
            "-i",
            "/root/.ssh/id",
            "/tmp/agent",
            "root@localhost:~/agent",
        ]
    );
}

#[test]
fn qemu_invocation_is_exact() {
    let conf = QemuConf {
        cpu_num: 2,
        mem_size: 1024,
        image: "/images/stretch.img".to_string(),
        kernel: "/kernels/bzImage".to_string(),
        wait_boot_time: None,
    };
    let app = build_qemu_app(&conf, 7777);
    assert_eq!(app.bin, "qemu-system-x86_64");
    let append = "earlyprintk=serial oops=panic nmi_watchdog=panic panic_on_warn=1 panic=1 \
                  ftrace_dump_on_oops=orig_cpu rodata=n vsyscall=native net.ifnames=0 \
                  biosdevname=0 root=/dev/sda console=ttyS0 kvm-intel.nested=1 \
                  kvm-intel.unrestricted_guest=1 kvm-intel.vmm_exclusive=1 kvm-intel.fasteoi=1 \
                  kvm-intel.ept=1 kvm-intel.flexpriority=1 kvm-intel.vpid=1 \
                  kvm-intel.emulate_invalid_guest_state=1 kvm-intel.eptad=1 \
                  kvm-intel.enable_shadow_vmcs=1 kvm-intel.pml=1 kvm-intel.enable_apicv=1";
    assert_eq!(
        tokens_of(&app),
        vec![
            "-enable-kvm",
            "-no-reboot",
            "-display",
            "none",
            "-serial",
            "stdio",
            "-snapshot",
            "-cpu",
            "host,migratable=off",
            "-net",
            "nic,model=e1000",
            "-append",
            append,
            "-m",
            "1024",
            "-smp",
            "2",
            "-net",
            "user,host=10.0.2.10,hostfwd=tcp::7777-:22",
            "-hda",
            "/images/stretch.img",
            "-kernel",
            "/kernels/bzImage",
        ]
    );
}

#[test]
fn dispatch_copies_the_binary_then_runs_the_copy() {
    let mut g = LinuxQemu {
        vm: App::new("qemu-system-x86_64"),
        wait_boot_time: 5,
        lifecycle: Lifecycle { state: SessionState::Alive, probes: 1, residue: false },
        addr: "localhost".to_string(),
        port: 2222,
        key: "key".to_string(),
        user: "root".to_string(),
    };
    let prog = App::new("/tmp/build/prog").arg(Arg::new_flag("-run"));
    let (scp, ssh) = g.run_cmd(prog);
    let scp_toks = tokens_of(&scp);
    assert_eq!(&scp_toks[scp_toks.len() - 2..], &["/tmp/build/prog", "root@localhost:~/prog"]);
    let ssh_toks = tokens_of(&ssh);
    assert_eq!(&ssh_toks[ssh_toks.len() - 2..], &["~/prog", "-run"]);
    assert!(g.lifecycle.residue, "a dispatch may leave console output behind");
    g.clear();
    assert!(!g.lifecycle.residue);
}

#[test]
fn liveness_probe_is_a_remote_noop() {
    let g = LinuxQemu {
        vm: App::new("qemu-system-x86_64"),
        wait_boot_time: 5,
        lifecycle: Lifecycle { state: SessionState::Alive, probes: 1, residue: false },
        addr: "localhost".to_string(),
        port: 2222,
        key: "key".to_string(),
        user: "root".to_string(),
    };
    let probe = g.is_alive_cmd();
    assert_eq!(probe.bin, "ssh");
    let toks = tokens_of(&probe);
    assert_eq!(toks[toks.len() - 1], "pwd");
    assert_eq!(toks[toks.len() - 2], "root@localhost");
}
