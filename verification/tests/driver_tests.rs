use std::io::Write;
use std::time::Duration;

use guest_driver::cli::App;
use guest_driver::fatal::FatalClass;
use guest_driver::guest::{Config, Guest, GuestConf, LinuxQemu, QemuConf, SSHConf, CRASH_WAIT_SECS};
use guest_driver::pipe::long_pipe;

fn fatal_of<T>(r: Result<T, guest_driver::fatal::Fatal>) -> guest_driver::fatal::Fatal {
    match r {
        Ok(_) => panic!("expected a fatal failure"),
        Err(f) => f,
    }
}

fn sample_config() -> Config {
    Config {
        guest: GuestConf {
            os: "linux".to_string(),
            arch: "amd64".to_string(),
            platform: "qemu".to_string(),
        },
        qemu: Some(QemuConf {
            cpu_num: 2,
            mem_size: 1024,
            image: "disk.img".to_string(),
            kernel: "bzImage".to_string(),
            wait_boot_time: None,
        }),
        ssh: Some(SSHConf { key_path: "/id_rsa".to_string() }),
    }
}

fn driver() -> LinuxQemu {
    LinuxQemu::with_port(&sample_config(), 7777).unwrap()
}

fn runtime() -> tokio::runtime::Runtime {
    tokio::runtime::Builder::new_current_thread().enable_all().build().unwrap()
}

/// Spawns a stand-in guest process whose combined output feeds the log
/// channel, exactly as a booted VM would.
fn spawn_guest(script: &str, rp_and_child: &mut Option<(os_pipe::PipeReader, tokio::process::Child)>) {
    let (rp, wp) = long_pipe().unwrap();
    let wp2 = wp.try_clone().unwrap();
    let mut cmd = tokio::process::Command::new("sh");
    cmd.arg("-c").arg(script);
    cmd.stdout(wp);
    cmd.stderr(wp2);
    cmd.kill_on_drop(true);
    let child = cmd.spawn().unwrap();
    drop(cmd);
    *rp_and_child = Some((rp, child));
}

#[test]
fn crash_capture_after_out_of_band_exit() {
    let rt = runtime();
    rt.block_on(async {
        let mut g = driver();
        let mut spawned = None;
        spawn_guest("sleep 0.3; echo kernel BUG: panic-banner", &mut spawned);
        let (rp, child) = spawned.unwrap();
        g.boot_success(child, rp).unwrap();
        assert!(g.session.is_some());

        let exited = tokio::time::timeout(
            Duration::from_secs(CRASH_WAIT_SECS),
            g.session.as_mut().unwrap().handle.wait(),
        )
        .await
        .is_ok();
        assert!(exited);

        let report = g.try_collect_crash(exited).unwrap().expect("crash report");
        assert!(report.contains("kernel BUG: panic-banner"));
        assert!(g.session.is_none());
    });
}

#[test]
fn no_crash_while_the_guest_is_still_running() {
    let rt = runtime();
    rt.block_on(async {
        let mut g = driver();
        let mut spawned = None;
        spawn_guest("sleep 5", &mut spawned);
        let (rp, child) = spawned.unwrap();
        g.boot_success(child, rp).unwrap();

        let exited = tokio::time::timeout(
            Duration::from_secs(CRASH_WAIT_SECS),
            g.session.as_mut().unwrap().handle.wait(),
        )
        .await
        .is_ok();
        assert!(!exited);

        let none = g.try_collect_crash(exited).unwrap();
        assert!(none.is_none());
        assert!(g.session.is_some());
        g.session.as_mut().unwrap().handle.start_kill().unwrap();
    });
}

#[test]
fn crash_report_contains_only_bytes_since_last_drain() {
    let rt = runtime();
    rt.block_on(async {
        let mut g = driver();
        // boot noise is already buffered when the boot finishes; it is
        // drained and discarded, so the crash report must not contain it
        let (rp, mut wp) = long_pipe().unwrap();
        wp.write_all(b"boot noise to discard\n").unwrap();
        let wp2 = wp.try_clone().unwrap();
        let mut cmd = tokio::process::Command::new("sh");
        cmd.arg("-c").arg("sleep 0.3; echo panic after boot");
        cmd.stdout(wp);
        cmd.stderr(wp2);
        cmd.kill_on_drop(true);
        let child = cmd.spawn().unwrap();
        drop(cmd);
        g.boot_success(child, rp).unwrap();

        let exited = tokio::time::timeout(
            Duration::from_secs(CRASH_WAIT_SECS),
            g.session.as_mut().unwrap().handle.wait(),
        )
        .await
        .is_ok();
        assert!(exited);
        let report = g.try_collect_crash(true).unwrap().expect("crash report");
        assert!(report.contains("panic after boot"));
        assert!(!report.contains("boot noise to discard"));
    });
}

#[test]
fn giving_a_boot_up_reports_the_whole_log_as_a_data_error() {
    let rt = runtime();
    rt.block_on(async {
        let g = driver();
        let mut spawned = None;
        spawn_guest("echo oops: guest never came up", &mut spawned);
        let (rp, child) = spawned.unwrap();
        // let the stand-in guest write and exit on its own
        tokio::time::sleep(Duration::from_millis(400)).await;
        let fatal = g.boot_give_up(child, rp);
        assert_eq!(fatal.class, FatalClass::Data);
        assert!(fatal.msg.contains("oops: guest never came up"));
        assert!(fatal.msg.contains("Fail to boot:"));
        assert!(fatal.msg.contains("qemu-system-x86_64"));
    });
}

#[test]
fn run_cmd_builds_copy_and_remote_run_for_the_session() {
    let rt = runtime();
    rt.block_on(async {
        let mut g = driver();
        let mut spawned = None;
        spawn_guest("sleep 5", &mut spawned);
        let (rp, child) = spawned.unwrap();
        g.boot_success(child, rp).unwrap();

        let plan = g.run_cmd(&App::new("/bins/fuzz_case")).unwrap();
        assert_eq!(plan.copy.bin, "scp");
        let copy_toks = plan.copy.iter_arg();
        assert!(copy_toks.contains(&"/bins/fuzz_case".to_string()));
        assert!(copy_toks.contains(&"root@localhost:~/".to_string()));
        assert_eq!(plan.run.bin, "ssh");
        let run_toks = plan.run.iter_arg();
        assert!(run_toks.contains(&"~/fuzz_case".to_string()));

        // trailing separators and `.` components still name the file
        let trailing = g.run_cmd(&App::new("/bins/deep/")).unwrap();
        assert!(trailing.run.iter_arg().contains(&"~/deep".to_string()));
        let dotted = g.run_cmd(&App::new("/bins/fuzz_case/.")).unwrap();
        assert!(dotted.run.iter_arg().contains(&"~/fuzz_case".to_string()));

        // a path with no file name is a data error
        let parent = fatal_of(g.run_cmd(&App::new("/bins/..")));
        assert_eq!(parent.class, FatalClass::Data);
        let root = fatal_of(g.run_cmd(&App::new("/")));
        assert_eq!(root.class, FatalClass::Data);
        let empty = fatal_of(g.run_cmd(&App::new("")));
        assert_eq!(empty.class, FatalClass::Data);

        g.session.as_mut().unwrap().handle.start_kill().unwrap();
    });
}

#[test]
fn dispatch_layer_forwards_to_the_backend() {
    let c = sample_config();
    match Guest::new(&c) {
        Ok(g) => {
            let probe = g.liveness_app();
            assert_eq!(probe.bin, "ssh");
            let toks = probe.iter_arg();
            assert!(toks.windows(2).any(|w| w[0] == "root@localhost" && w[1] == "pwd"));
        },
        // leasing a fresh port can legitimately be impossible in a
        // constrained environment; that is the one other allowed outcome
        Err(f) => assert_eq!(f.class, FatalClass::TempFail),
    }
}

#[test]
fn invalid_configuration_never_constructs_a_guest() {
    let mut c = sample_config();
    c.guest.platform = "metal".to_string();
    let f = fatal_of(Guest::new(&c));
    assert_eq!(f.class, FatalClass::Config);
    assert_eq!(f.msg, "Unsupported platform");
}
