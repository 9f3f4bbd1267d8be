use guest_driver::cli::App;
use guest_driver::fatal::FatalClass;
use guest_driver::guest::{
    build_qemu_cli, check_remote_copy, interpret_probe, qemu_template, scp_app, ssh_app,
    BootAction, BootRetry, Config, GuestConf, LinuxQemu, ProbeOutcome, QemuConf, SSHConf,
    CRASH_WAIT_SECS, DEFAULT_WAIT_BOOT_TIME, LIVENESS_TIMEOUT_SECS, MAX_BOOT_RETRY,
};

fn fatal_of<T>(r: Result<T, guest_driver::fatal::Fatal>) -> guest_driver::fatal::Fatal {
    match r {
        Ok(_) => panic!("expected a fatal failure"),
        Err(f) => f,
    }
}

fn sample_config() -> Config {
    Config {
        guest: GuestConf {
            os: "linux".to_string(),
            arch: "amd64".to_string(),
            platform: "qemu".to_string(),
        },
        qemu: Some(QemuConf {
            cpu_num: 2,
            mem_size: 1024,
            image: "disk.img".to_string(),
            kernel: "bzImage".to_string(),
            wait_boot_time: None,
        }),
        ssh: Some(SSHConf { key_path: "/id_rsa".to_string() }),
    }
}

fn has_pair(tokens: &[String], a: &str, b: &str) -> bool {
    tokens.windows(2).any(|w| w[0] == a && w[1] == b)
}

#[test]
fn qemu_invocation_for_sample_config() {
    let app = build_qemu_cli(&sample_config(), 7777).unwrap();
    assert_eq!(app.bin, "qemu-system-x86_64");
    let toks = app.iter_arg();
    assert!(has_pair(&toks, "-smp", "2"));
    assert!(has_pair(&toks, "-m", "1024"));
    assert!(has_pair(&toks, "-hda", "disk.img"));
    assert!(has_pair(&toks, "-kernel", "bzImage"));
    assert!(has_pair(&toks, "-net", "user,host=10.0.2.10,hostfwd=tcp::7777-:22"));
    assert!(toks.contains(&"-enable-kvm".to_string()));
    assert!(toks.contains(&"-no-reboot".to_string()));
    assert!(toks.contains(&"-snapshot".to_string()));
    assert!(has_pair(&toks, "-display", "none"));
    assert!(has_pair(&toks, "-serial", "stdio"));
    assert!(has_pair(&toks, "-cpu", "host,migratable=off"));
    let append = toks.iter().position(|t| t == "-append").expect("-append");
    let vals = &toks[append + 1];
    assert!(vals.contains("panic_on_warn=1"));
    assert!(vals.contains("console=ttyS0"));
    assert!(vals.starts_with("earlyprintk=serial "));
}

#[test]
fn liveness_probe_invocation_for_sample_config() {
    let g = LinuxQemu::with_port(&sample_config(), 7777).unwrap();
    let probe = g.liveness_app();
    assert_eq!(probe.bin, "ssh");
    let toks = probe.iter_arg();
    assert!(has_pair(&toks, "-p", "7777"));
    assert!(has_pair(&toks, "-i", "/id_rsa"));
    assert!(has_pair(&toks, "root@localhost", "pwd"));
    assert!(has_pair(&toks, "-o", "BatchMode=yes"));
    assert!(has_pair(&toks, "-o", "StrictHostKeyChecking=no"));
    assert!(has_pair(&toks, "-o", "UserKnownHostsFile=/dev/null"));
    assert!(has_pair(&toks, "-o", "IdentitiesOnly=yes"));
    assert!(has_pair(&toks, "-o", "ConnectTimeout=3s"));
    assert!(has_pair(&toks, "-F", "/dev/null"));
    assert_eq!(LIVENESS_TIMEOUT_SECS, 10);
    assert_eq!(CRASH_WAIT_SECS, 2);
    assert_eq!(MAX_BOOT_RETRY, 5);
    assert_eq!(DEFAULT_WAIT_BOOT_TIME, 5);
    assert_eq!(g.wait_boot_time, 5);
}

#[test]
fn ssh_app_appends_remote_command_tokens() {
    let remote = App::new("/bin/tester").arg(guest_driver::cli::Arg::new_flag("-v"));
    let inv = ssh_app("/key", "root", "localhost", 2222, remote);
    let toks = inv.iter_arg();
    assert!(has_pair(&toks, "root@localhost", "/bin/tester"));
    assert_eq!(toks.last().unwrap(), "-v");
}

#[test]
fn scp_invocation_targets_guest_home() {
    let inv = scp_app("/key", "root", "localhost", 2222, "/bin/tester");
    assert_eq!(inv.bin, "scp");
    let toks = inv.iter_arg();
    assert!(has_pair(&toks, "-P", "2222"));
    assert!(has_pair(&toks, "-i", "/key"));
    assert!(has_pair(&toks, "/bin/tester", "root@localhost:~/"));
}

#[test]
fn unsupported_targets_are_config_errors() {
    let mut c = sample_config();
    c.guest.os = "windows".to_string();
    assert!(qemu_template(&c.guest.os, &c.guest.arch).is_none());
    let e = fatal_of(LinuxQemu::with_port(&c, 7777));
    assert_eq!(e.class, FatalClass::Config);
    assert_eq!(e.msg, "Unsupported target");

    let mut c = sample_config();
    c.guest.platform = "real".to_string();
    let e = fatal_of(LinuxQemu::with_port(&c, 7777));
    assert_eq!(e.class, FatalClass::Config);
    assert_eq!(e.msg, "Unsupported platform");

    let mut c = sample_config();
    c.guest.arch = "arm64".to_string();
    let e = fatal_of(LinuxQemu::with_port(&c, 7777));
    assert_eq!(e.class, FatalClass::Config);
}

#[test]
fn missing_segments_are_config_errors() {
    let mut c = sample_config();
    c.qemu = None;
    let e = fatal_of(LinuxQemu::with_port(&c, 7777));
    assert_eq!(e.class, FatalClass::Config);
    assert_eq!(e.msg, "Require qemu segment in config toml");

    let mut c = sample_config();
    c.ssh = None;
    let e = fatal_of(LinuxQemu::with_port(&c, 7777));
    assert_eq!(e.class, FatalClass::Config);
    assert_eq!(e.msg, "Require ssh segment in config toml");
}

#[test]
fn configured_wait_boot_time_is_kept() {
    let mut c = sample_config();
    c.qemu.as_mut().unwrap().wait_boot_time = Some(9);
    let g = LinuxQemu::with_port(&c, 7777).unwrap();
    assert_eq!(g.wait_boot_time, 9);
}

#[test]
fn boot_retry_exhausts_its_budget() {
    let mut st = BootRetry::new(MAX_BOOT_RETRY);
    for _ in 0..(MAX_BOOT_RETRY - 1) {
        assert!(matches!(st.step(false), BootAction::Retry));
    }
    assert!(matches!(st.step(false), BootAction::GiveUp));
}

#[test]
fn boot_retry_stops_on_first_live_probe() {
    let mut st = BootRetry::new(MAX_BOOT_RETRY);
    assert!(matches!(st.step(false), BootAction::Retry));
    assert!(matches!(st.step(true), BootAction::Success));
}

#[test]
fn probe_outcomes_are_interpreted_exactly() {
    assert_eq!(interpret_probe(ProbeOutcome::TimedOut).unwrap(), false);
    assert_eq!(interpret_probe(ProbeOutcome::Exited(true)).unwrap(), true);
    assert_eq!(interpret_probe(ProbeOutcome::Exited(false)).unwrap(), false);
    let e = interpret_probe(ProbeOutcome::SpawnFailed("no ssh".to_string())).unwrap_err();
    assert_eq!(e.class, FatalClass::Os);
}

#[test]
fn remote_copy_failure_carries_stderr_verbatim() {
    assert!(check_remote_copy(true, String::new()).is_ok());
    let e = check_remote_copy(false, "scp: permission denied".to_string()).unwrap_err();
    assert_eq!(e.class, FatalClass::Os);
    assert_eq!(e.msg, "scp: permission denied");
}
