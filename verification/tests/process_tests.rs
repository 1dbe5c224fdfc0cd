use rattler_pty::{
    allocate, CommandSpec, PtyProcess, PtyProcessOptions, WaitOutcome, WindowSize, EINVAL,
    SIGKILL, SIGTERM,
};

fn sh(script: &str) -> CommandSpec {
    CommandSpec {
        program: b"/bin/sh".to_vec(),
        args: vec![b"-c".to_vec(), script.as_bytes().to_vec()],
        env: Vec::new(),
    }
}

fn nap_ms(ms: i64) {
    let _ = nix::time::clock_nanosleep(
        nix::time::ClockId::CLOCK_MONOTONIC,
        nix::time::ClockNanosleepFlags::empty(),
        &nix::sys::time::TimeSpec::new(ms / 1000, (ms % 1000) * 1_000_000),
    );
}

fn wait_for_terminal(handle: &PtyProcess) -> WaitOutcome {
    for _ in 0..100 {
        match handle.status() {
            Some(WaitOutcome::StillAlive) | None => nap_ms(50),
            Some(outcome) => return outcome,
        }
    }
    panic!("child never reached a terminal state");
}

#[test]
fn allocated_companion_device_opens_read_write() {
    let allocation = allocate(None).expect("pty allocation failed");
    assert!(!allocation.companion_path.is_empty());
    let path = String::from_utf8(allocation.companion_path.clone()).expect("path is not text");
    assert!(path.starts_with("/dev/"));
    let fd = nix::fcntl::open(
        &allocation.companion_path[..],
        nix::fcntl::OFlag::O_RDWR,
        nix::sys::stat::Mode::empty(),
    )
    .expect("companion device did not open read-write");
    drop(fd);
}

#[test]
fn child_output_is_readable_from_the_control_side() {
    let handle = PtyProcess::new(sh("printf 'hello pty\\n'"), PtyProcessOptions::default())
        .expect("launch failed");
    let mut collected: Vec<u8> = Vec::new();
    for _ in 0..100 {
        let mut buf = vec![0u8; 256];
        match handle.read_output(&mut buf) {
            Ok(n) => {
                collected.extend_from_slice(&buf[..n]);
                if collected.windows(2).any(|w| w == b"\r\n") {
                    break;
                }
            }
            Err(_) => break,
        }
    }
    assert_eq!(&collected[..], b"hello pty\r\n");
    let _ = wait_for_terminal(&handle);
}

#[test]
fn written_input_reaches_the_child_as_terminal_input() {
    let mut handle =
        PtyProcess::new(sh("cat"), PtyProcessOptions::default()).expect("launch failed");
    let n = handle
        .write_input(&b"hi\n".to_vec())
        .expect("writing to the terminal failed");
    assert_eq!(n, 3);
    let mut collected: Vec<u8> = Vec::new();
    for _ in 0..100 {
        let mut buf = vec![0u8; 64];
        match handle.read_output(&mut buf) {
            Ok(read) => {
                collected.extend_from_slice(&buf[..read]);
                if collected.windows(2).any(|w| w == b"\r\n") {
                    break;
                }
            }
            Err(_) => break,
        }
    }
    assert_eq!(&collected[..], b"hi\r\n");
    let _ = handle.kill(SIGKILL);
}

#[test]
fn status_reports_running_then_the_exit_code() {
    let mut long = PtyProcess::new(sh("sleep 30"), PtyProcessOptions::default())
        .expect("launch failed");
    assert!(long.child_pid > 0);
    assert!(matches!(long.status(), Some(WaitOutcome::StillAlive)));
    let ended = long.kill(SIGKILL).expect("kill failed");
    assert!(!matches!(ended, WaitOutcome::StillAlive));

    let short = PtyProcess::new(sh("exit 42"), PtyProcessOptions::default())
        .expect("launch failed");
    match wait_for_terminal(&short) {
        WaitOutcome::Exited { pid, code } => {
            assert_eq!(code, 42);
            assert_eq!(pid, short.child_pid);
        }
        other => panic!("expected an exit code, got {other:?}"),
    }
}

#[test]
fn graceful_termination_wins_quickly_for_a_cooperative_child() {
    let mut handle = PtyProcess::new(sh("sleep 30"), PtyProcessOptions::default())
        .expect("launch failed");
    handle.set_kill_timeout(Some(5000));
    let started = std::time::Instant::now();
    let outcome = handle.exit().expect("terminate failed");
    let elapsed = started.elapsed();
    match outcome {
        WaitOutcome::Signaled { signal, .. } => assert_eq!(signal, SIGTERM),
        other => panic!("expected a signal report, got {other:?}"),
    }
    assert!(elapsed < std::time::Duration::from_secs(3));
}

#[test]
fn forced_termination_bounds_a_child_that_ignores_the_signal() {
    let mut handle = PtyProcess::new(
        sh("trap '' TERM; while true; do sleep 1; done"),
        PtyProcessOptions::default(),
    )
    .expect("launch failed");
    handle.set_kill_timeout(Some(200));
    let started = std::time::Instant::now();
    let outcome = handle.exit().expect("terminate failed");
    let elapsed = started.elapsed();
    assert!(!matches!(outcome, WaitOutcome::StillAlive));
    assert!(elapsed < std::time::Duration::from_secs(3));
}

#[test]
fn terminating_twice_never_errors() {
    let mut handle = PtyProcess::new(sh("sleep 30"), PtyProcessOptions::default())
        .expect("launch failed");
    let first = handle.exit().expect("first terminate failed");
    assert!(!matches!(first, WaitOutcome::StillAlive));
    let second = handle.exit().expect("second terminate failed");
    assert!(!matches!(second, WaitOutcome::StillAlive));
}

#[test]
fn terminating_after_natural_exit_never_errors() {
    let mut handle = PtyProcess::new(sh("exit 0"), PtyProcessOptions::default())
        .expect("launch failed");
    let natural = wait_for_terminal(&handle);
    assert!(matches!(natural, WaitOutcome::Exited { code: 0, .. }));
    let after = handle.exit().expect("terminate after exit failed");
    assert!(matches!(after, WaitOutcome::AssumedExited));
}

#[test]
fn dropping_a_handle_leaves_no_live_child() {
    let handle = PtyProcess::new(sh("sleep 30"), PtyProcessOptions::default())
        .expect("launch failed");
    let pid = handle.child_pid;
    drop(handle);
    let gone = matches!(
        nix::sys::signal::kill(nix::unistd::Pid::from_raw(pid), None),
        Err(nix::errno::Errno::ESRCH)
    );
    assert!(gone, "child survived the handle");
}

#[test]
fn a_zero_byte_in_the_command_is_refused() {
    let command = CommandSpec {
        program: b"/bin/e\0cho".to_vec(),
        args: Vec::new(),
        env: Vec::new(),
    };
    assert_eq!(
        PtyProcess::new(command, PtyProcessOptions::default()).err(),
        Some(EINVAL)
    );
    let command = CommandSpec {
        program: b"/bin/echo".to_vec(),
        args: vec![b"a\0b".to_vec()],
        env: Vec::new(),
    };
    assert_eq!(
        PtyProcess::new(command, PtyProcessOptions::default()).err(),
        Some(EINVAL)
    );
}

#[test]
fn window_size_reaches_the_device() {
    let mut options = PtyProcessOptions::default();
    options.window_size = Some(WindowSize {
        rows: 24,
        cols: 80,
        xpixel: 0,
        ypixel: 0,
    });
    let mut handle = PtyProcess::new(sh("sleep 5"), options).expect("launch failed");
    let size = handle.get_window_size().expect("size query failed");
    assert_eq!(size.rows, 24);
    assert_eq!(size.cols, 80);
    handle
        .set_window_size(WindowSize { rows: 11, cols: 22, xpixel: 0, ypixel: 0 })
        .expect("resize failed");
    let resized = handle.get_window_size().expect("size query failed");
    assert_eq!(resized.rows, 11);
    assert_eq!(resized.cols, 22);
    let _ = handle.kill(SIGKILL);
}
