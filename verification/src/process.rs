use vstd::prelude::*;
use nix::pty::PtyMaster;
use nix::sys::wait::{waitpid, WaitPidFlag, WaitStatus};
use crate::cbytes::{has_nul, c_str_ok, contains_nul, terminated};
use crate::pty::{WindowSize, PtyAllocation, allocate, set_window_size_of, get_window_size_of};
use crate::term::{set_echo, set_raw_stdin, restore_stdin, TermAttrs};

verus! {

/// Error code for a request whose arguments the system refuses.
pub const EINVAL: i32 = 22;
/// Error code for a signal aimed at a process that no longer exists.
pub const ESRCH: i32 = 3;
/// The standard graceful-termination signal.
pub const SIGTERM: i32 = 15;
/// The unconditional forced-kill signal.
pub const SIGKILL: i32 = 9;
/// Error code for an operation that ran out of time.
pub const ETIMEDOUT: i32 = 110;

/// How long the termination loop sleeps between rounds, in milliseconds.
pub const POLL_INTERVAL_MS: u64 = 100;

/// What a non-blocking status poll can report about a child process.
#[derive(Clone, Copy, PartialEq, Eq, Structural, Debug)]
pub enum WaitOutcome {
    /// The process has not reached a terminal state yet.
    StillAlive,
    /// The process exited on its own with the given code.
    Exited {
        /// Identifier of the process that exited.
        pid: i32,
        /// Its exit code.
        code: i32,
    },
    /// The process was ended by the given signal.
    Signaled {
        /// Identifier of the process that was ended.
        pid: i32,
        /// The signal that ended it.
        signal: i32,
        /// Whether a core image was written.
        core_dumped: bool,
    },
    /// The process was stopped by the given signal.
    Stopped {
        /// Identifier of the stopped process.
        pid: i32,
        /// The signal that stopped it.
        signal: i32,
    },
    /// The process was resumed.
    Continued {
        /// Identifier of the resumed process.
        pid: i32,
    },
    /// The process is known to be gone, but its real exit outcome was lost
    /// to the race between signalling it and its death.
    AssumedExited,
    /// A report this supervisor does not interpret further.
    Other,
}

impl WaitOutcome {
    /// Whether the report is one of the terminal states: a real exit, a
    /// signal-driven end, or the assumed exit of a child that was already
    /// gone when it was signalled.
    pub open spec fn is_terminal(self) -> bool {
        self is Exited || self is Signaled || self is AssumedExited
    }

    /// The process identifier a report carries, where it carries one.
    pub open spec fn reported_pid(self) -> Option<i32> {
        match self {
            WaitOutcome::Exited { pid, .. } => Some(pid),
            WaitOutcome::Signaled { pid, .. } => Some(pid),
            WaitOutcome::Stopped { pid, .. } => Some(pid),
            WaitOutcome::Continued { pid } => Some(pid),
            WaitOutcome::StillAlive => None,
            WaitOutcome::AssumedExited => None,
            WaitOutcome::Other => None,
        }
    }
}

/// What to run on the companion side of the pseudo-terminal: the program's
/// path, its argument vector and its environment, each entry a byte string.
/// An entry holding a zero byte cannot cross the C boundary and is refused
/// at launch.
#[derive(Clone, Debug)]
pub struct CommandSpec {
    /// Path of the program image.
    pub program: Vec<u8>,
    /// Arguments handed to the program, not counting the program itself.
    pub args: Vec<Vec<u8>>,
    /// Environment entries, each of the form `NAME=value`.
    pub env: Vec<Vec<u8>>,
}

impl CommandSpec {
    /// Whether every byte string of the command can cross the C boundary.
    pub open spec fn wf(self) -> bool {
        &&& !has_nul(self.program@)
        &&& forall|i: int| 0 <= i < self.args@.len() ==> !has_nul(#[trigger] self.args@[i]@)
        &&& forall|i: int| 0 <= i < self.env@.len() ==> !has_nul(#[trigger] self.env@[i]@)
    }
}

/// Options recognized when launching a process on a fresh pseudo-terminal.
pub struct PtyProcessOptions {
    /// Whether the new controlling terminal echoes its input.
    pub echo: bool,
    /// An explicit window size; without one the calling process's own
    /// terminal size is taken, and an all-zero size if there is none.
    pub window_size: Option<WindowSize>,
}

impl Default for PtyProcessOptions {
    /// No echo and no explicit window size.
    fn default() -> (r: Self)
        ensures
            r.echo == false,
            r.window_size is None,
    {
        PtyProcessOptions { echo: false, window_size: None }
    }
}

/// A file-action list for process creation, opaque to the proofs.
#[verifier::external_type_specification]
#[verifier::external_body]
pub struct ExPosixSpawnFileActions(nix::spawn::PosixSpawnFileActions);

/// A spawn attribute record for process creation, opaque to the proofs.
#[verifier::external_type_specification]
#[verifier::external_body]
pub struct ExPosixSpawnAttr(nix::spawn::PosixSpawnAttr);

/// Relies on nix's `PosixSpawnFileActions::init`.
#[verifier::external_body]
fn file_actions_new() -> (r: Result<nix::spawn::PosixSpawnFileActions, i32>)
{
    nix::spawn::PosixSpawnFileActions::init().map_err(|e| e as i32)
}

/// Relies on nix's `PosixSpawnFileActions::add_open`: records that the child
/// is to open the given path read-write on the given descriptor number.
#[verifier::external_body]
fn file_actions_open(
    actions: &mut nix::spawn::PosixSpawnFileActions,
    fd: i32,
    path: &Vec<u8>,
) -> (r: Result<(), i32>)
    requires
        !has_nul(path@),
{
    actions
        .add_open(fd, &path[..], nix::fcntl::OFlag::O_RDWR, nix::sys::stat::Mode::empty())
        .map_err(|e| e as i32)
}

/// Relies on nix's `PosixSpawnFileActions::add_dup2`: records that the child
/// is to duplicate one descriptor number onto another.
#[verifier::external_body]
fn file_actions_dup2(
    actions: &mut nix::spawn::PosixSpawnFileActions,
    fd: i32,
    newfd: i32,
) -> (r: Result<(), i32>)
{
    actions.add_dup2(fd, newfd).map_err(|e| e as i32)
}

/// Relies on nix's `PosixSpawnAttr::init`.
#[verifier::external_body]
fn spawn_attr_new() -> (r: Result<nix::spawn::PosixSpawnAttr, i32>)
{
    nix::spawn::PosixSpawnAttr::init().map_err(|e| e as i32)
}

/// Relies on nix's `posix_spawnp`: creates a new process from the given
/// program image, with the recorded file actions applied in the child, and
/// returns the child's identifier, which for a created process is positive.
/// Every byte string must already carry its C terminator.
#[verifier::external_body]
fn spawn_process(
    program: &Vec<u8>,
    actions: &nix::spawn::PosixSpawnFileActions,
    attr: &nix::spawn::PosixSpawnAttr,
    argv: &Vec<Vec<u8>>,
    envp: &Vec<Vec<u8>>,
) -> (r: Result<i32, i32>)
    requires
        c_str_ok(program@),
        forall|i: int| 0 <= i < argv@.len() ==> c_str_ok(#[trigger] argv@[i]@),
        forall|i: int| 0 <= i < envp@.len() ==> c_str_ok(#[trigger] envp@[i]@),
    ensures
        r matches Ok(pid) ==> pid > 0,
{
    let p = core::ffi::CStr::from_bytes_with_nul(program).unwrap();
    let a: Vec<&core::ffi::CStr> =
        argv.iter().map(|b| core::ffi::CStr::from_bytes_with_nul(b).unwrap()).collect();
    let e: Vec<&core::ffi::CStr> =
        envp.iter().map(|b| core::ffi::CStr::from_bytes_with_nul(b).unwrap()).collect();
    nix::spawn::posix_spawnp(p, actions, attr, &a, &e)
        .map(|pid| pid.as_raw())
        .map_err(|er| er as i32)
}

/// Relies on nix's `waitpid` with the do-not-block flag: reports the state
/// of the given child, or nothing when the identifier cannot be waited on,
/// which is how an already-reaped child answers. For a positive identifier
/// the wait addresses exactly that process, so any report carrying an
/// identifier carries that one; an assumed exit is never a wait report.
#[verifier::external_body]
fn wait_child(pid: i32) -> (r: Option<WaitOutcome>)
    ensures
        pid > 0 ==> (r matches Some(o)
            ==> (o.reported_pid() matches Some(p) ==> p == pid)),
        r matches Some(o) ==> !(o is AssumedExited),
    opens_invariants none
    no_unwind
{
    match waitpid(nix::unistd::Pid::from_raw(pid), Some(WaitPidFlag::WNOHANG)) {
        Ok(WaitStatus::StillAlive) => Some(WaitOutcome::StillAlive),
        Ok(WaitStatus::Exited(p, code)) => Some(WaitOutcome::Exited { pid: p.as_raw(), code }),
        Ok(WaitStatus::Signaled(p, sig, core_dumped)) => {
            Some(WaitOutcome::Signaled { pid: p.as_raw(), signal: sig as i32, core_dumped })
        }
        Ok(WaitStatus::Stopped(p, sig)) => {
            Some(WaitOutcome::Stopped { pid: p.as_raw(), signal: sig as i32 })
        }
        Ok(WaitStatus::Continued(p)) => Some(WaitOutcome::Continued { pid: p.as_raw() }),
        Ok(_) => Some(WaitOutcome::Other),
        Err(_) => None,
    }
}

/// Relies on nix's `kill`: sends the given signal to the given process and
/// returns the raw error code when the system refuses.
#[verifier::external_body]
fn send_signal(pid: i32, sig: i32) -> (r: Result<(), i32>)
    opens_invariants none
    no_unwind
{
    let signal = match nix::sys::signal::Signal::try_from(sig) {
        Ok(s) => s,
        Err(e) => { return Err(e as i32); }
    };
    nix::sys::signal::kill(nix::unistd::Pid::from_raw(pid), signal).map_err(|e| e as i32)
}

/// Relies on nix's `clock_nanosleep` on the monotonic clock: suspends the
/// calling thread for the given interval.
#[verifier::external_body]
fn sleep_interval(sec: i64, nsec: i64)
    requires
        0 <= sec,
        0 <= nsec < 1_000_000_000,
    opens_invariants none
    no_unwind
{
    let _ = nix::time::clock_nanosleep(
        nix::time::ClockId::CLOCK_MONOTONIC,
        nix::time::ClockNanosleepFlags::empty(),
        &nix::sys::time::TimeSpec::new(sec, nsec),
    );
}

/// Relies on nix's `clock_gettime` on the monotonic clock, which cannot
/// fail for that clock; the nanosecond part is below one second by the
/// call's own contract.
#[verifier::external_body]
fn monotonic_now() -> (r: (i64, i64))
    ensures
        0 <= r.0,
        0 <= r.1 < 1_000_000_000,
    opens_invariants none
    no_unwind
{
    match nix::time::clock_gettime(nix::time::ClockId::CLOCK_MONOTONIC) {
        Ok(ts) => (ts.tv_sec(), ts.tv_nsec()),
        Err(_) => (0, 0),
    }
}

/// Relies on nix's `read` on the control descriptor: fills a prefix of the
/// buffer with bytes the child wrote to the terminal and returns how many.
#[verifier::external_body]
fn read_master(master: &PtyMaster, buf: &mut Vec<u8>) -> (r: Result<usize, i32>)
    ensures
        final(buf)@.len() == old(buf)@.len(),
        r matches Ok(n) ==> n <= old(buf)@.len(),
{
    nix::unistd::read(master, buf.as_mut_slice()).map_err(|e| e as i32)
}

/// Relies on nix's `write` on the control descriptor: hands the child the
/// given bytes as terminal input and returns how many were taken.
#[verifier::external_body]
fn write_master(master: &PtyMaster, data: &Vec<u8>) -> (r: Result<usize, i32>)
    ensures
        r matches Ok(n) ==> n <= data@.len(),
{
    nix::unistd::write(master, data.as_slice()).map_err(|e| e as i32)
}

/// The elapsed-time reading the termination loop steers by: whole
/// milliseconds between two clock readings, never negative.
pub open spec fn millis_between(start: (i64, i64), now: (i64, i64)) -> int {
    let d = (now.0 - start.0) * 1000 + now.1 / 1_000_000 - start.1 / 1_000_000;
    if d < 0 { 0 } else { d }
}

/// Computes the whole milliseconds between two monotonic clock readings,
/// never negative and saturating once the distance leaves any realistic
/// range.
fn elapsed_millis(start: (i64, i64), now: (i64, i64)) -> (r: u64)
    requires
        0 <= start.0,
        0 <= start.1 < 1_000_000_000,
        0 <= now.0,
        0 <= now.1 < 1_000_000_000,
    ensures
        now.0 - start.0 <= 9_000_000_000_000_000 ==> r == millis_between(start, now),
    opens_invariants none
    no_unwind
{
    if now.0 < start.0 {
        return 0;
    }
    let dsec: u64 = (now.0 as u64) - (start.0 as u64);
    if dsec > 9_000_000_000_000_000 {
        return u64::MAX;
    }
    let base: u64 = dsec * 1000;
    let now_ms: u64 = (now.1 as u64) / 1_000_000;
    let start_ms: u64 = (start.1 as u64) / 1_000_000;
    if base + now_ms >= start_ms {
        base + now_ms - start_ms
    } else {
        0
    }
}

/// A process started on a freshly allocated pseudo-terminal, observed and
/// terminated through this handle. Releasing the handle while the process
/// still runs first drives the graceful-then-forced termination protocol,
/// so a dropped handle never silently orphans a live child.
pub struct PtyProcess {
    /// The control side of the pseudo-terminal, owned by this handle.
    pub pty: PtyMaster,
    /// Identifier of the child process.
    pub child_pid: i32,
    /// How long `kill` keeps trying the graceful signal alone before it
    /// starts sending the forced-kill signal as well, in milliseconds.
    kill_timeout: Option<u64>,
}

impl PtyProcess {
    /// The configured kill timeout, in milliseconds.
    pub closed spec fn kill_timeout_ms(self) -> Option<u64> {
        self.kill_timeout
    }

    /// The child's process identifier.
    pub closed spec fn pid(self) -> i32 {
        self.child_pid
    }

    /// The control descriptor this handle owns.
    pub closed spec fn pty_handle(self) -> PtyMaster {
        self.pty
    }

    /// Launches `command` on a fresh pseudo-terminal. The terminal's echo
    /// and window size are settled on the control side before the child
    /// exists; the child then opens the companion device on its standard
    /// input and duplicates it onto standard output and error. A failure to
    /// reach the child's program image surfaces either as an error here,
    /// where the spawn interface reports it synchronously, or asynchronously
    /// as an abnormal exit observed through `status`; the parent learns the
    /// reason only through the exit status either way.
    ///
    /// The spawn interface has no way to open a new session: the child of
    /// this launcher is not a session leader and the terminal is not its
    /// controlling terminal, so signal-generating control characters typed
    /// into the terminal do not reach it. A launcher that detaches a session
    /// by forking cannot stand in verified code and lives outside the
    /// library.
    pub fn new(command: CommandSpec, opts: PtyProcessOptions) -> (r: Result<PtyProcess, i32>)
        ensures
            !command.wf() ==> r == Err::<PtyProcess, i32>(EINVAL),
            r matches Ok(p) ==> p.kill_timeout_ms() is None,
            r matches Ok(p) ==> p.pid() > 0,
    {
        if contains_nul(&command.program) {
            return Err(EINVAL);
        }
        let mut argv: Vec<Vec<u8>> = Vec::new();
        argv.push(terminated(&command.program));
        let mut i: usize = 0;
        while i < command.args.len()
            invariant
                0 <= i <= command.args@.len(),
                argv@.len() == i + 1,
                argv@[0]@ == command.program@.push(0u8),
                forall|j: int| 1 <= j <= i
                    ==> #[trigger] argv@[j]@ == command.args@[j - 1]@.push(0u8),
                forall|j: int| 0 <= j < i ==> !has_nul(#[trigger] command.args@[j]@),
                forall|j: int| 0 <= j < argv@.len() ==> c_str_ok(#[trigger] argv@[j]@),
            decreases command.args@.len() - i,
        {
            if contains_nul(&command.args[i]) {
                return Err(EINVAL);
            }
            argv.push(terminated(&command.args[i]));
            i = i + 1;
        }
        let mut envp: Vec<Vec<u8>> = Vec::new();
        let mut i: usize = 0;
        while i < command.env.len()
            invariant
                0 <= i <= command.env@.len(),
                envp@.len() == i,
                forall|j: int| 0 <= j < i
                    ==> #[trigger] envp@[j]@ == command.env@[j]@.push(0u8),
                forall|j: int| 0 <= j < i ==> !has_nul(#[trigger] command.env@[j]@),
                forall|j: int| 0 <= j < envp@.len() ==> c_str_ok(#[trigger] envp@[j]@),
            decreases command.env@.len() - i,
        {
            if contains_nul(&command.env[i]) {
                return Err(EINVAL);
            }
            envp.push(terminated(&command.env[i]));
            i = i + 1;
        }
        let program_c = terminated(&command.program);

        let allocation = match allocate(opts.window_size) {
            Ok(a) => a,
            Err(e) => { return Err(e); }
        };
        match set_echo(&allocation.master, opts.echo) {
            Ok(()) => (),
            Err(e) => { return Err(e); }
        }
        match set_window_size_of(&allocation.master, allocation.window_size) {
            Ok(()) => (),
            Err(e) => { return Err(e); }
        }

        let mut actions = match file_actions_new() {
            Ok(a) => a,
            Err(e) => { return Err(e); }
        };
        match file_actions_open(&mut actions, 0, &allocation.companion_path) {
            Ok(()) => (),
            Err(e) => { return Err(e); }
        }
        match file_actions_dup2(&mut actions, 0, 1) {
            Ok(()) => (),
            Err(e) => { return Err(e); }
        }
        match file_actions_dup2(&mut actions, 0, 2) {
            Ok(()) => (),
            Err(e) => { return Err(e); }
        }
        let attr = match spawn_attr_new() {
            Ok(a) => a,
            Err(e) => { return Err(e); }
        };
        let child_pid = match spawn_process(&program_c, &actions, &attr, &argv, &envp) {
            Ok(p) => p,
            Err(e) => { return Err(e); }
        };
        Ok(PtyProcess { pty: allocation.master, child_pid, kill_timeout: None })
    }

    /// Builds a handle around an already-launched child and the control side
    /// of the terminal it is attached to.
    pub fn from_parts(pty: PtyMaster, child_pid: i32, kill_timeout_ms: Option<u64>) -> (r: PtyProcess)
        ensures
            r.pid() == child_pid,
            r.kill_timeout_ms() == kill_timeout_ms,
    {
        PtyProcess { pty, child_pid, kill_timeout: kill_timeout_ms }
    }

    /// Configures how long `kill` keeps trying the graceful signal alone
    /// before it starts sending the forced-kill signal as well.
    pub fn set_kill_timeout(&mut self, timeout_ms: Option<u64>)
        ensures
            final(self).kill_timeout_ms() == timeout_ms,
            final(self).pid() == old(self).pid(),
            final(self).pty_handle() == old(self).pty_handle(),
    {
        self.kill_timeout = timeout_ms;
    }

    /// One-shot, non-blocking status poll of the child: no report while no
    /// terminal state has been observed, else the state the wait reported,
    /// carrying this child's own identifier. Reports nothing once a
    /// terminal state has already been consumed by an earlier poll, which
    /// is how repeated polling after natural exit stays free of invalid
    /// re-waits.
    pub fn status(&self) -> (r: Option<WaitOutcome>)
        ensures
            self.pid() > 0 ==> (r matches Some(o)
                ==> (o.reported_pid() matches Some(p) ==> p == self.pid())),
            r matches Some(o) ==> !(o is AssumedExited),
        opens_invariants none
        no_unwind
    {
        wait_child(self.child_pid)
    }

    /// Drives the child to a terminal state — a real exit, a signal-driven
    /// end, or an assumed exit: sends `sig`, polls, sleeps a short
    /// interval, and repeats; once the configured timeout has elapsed it
    /// also sends the forced-kill signal on every further round. A child
    /// that is already gone when a signal is sent counts as success and is
    /// reported as an assumed exit, never as an error. The loop's round
    /// count is bounded only so that its termination is provable; the bound
    /// is astronomically large, and the timeout error a run-out would
    /// produce cannot occur in practice.
    pub fn kill(&mut self, sig: i32) -> (r: Result<WaitOutcome, i32>)
        ensures
            r matches Ok(st) ==> st.is_terminal(),
            old(self).pid() > 0 ==> (r matches Ok(st)
                ==> (st.reported_pid() matches Some(p) ==> p == old(self).pid())),
            r matches Err(e) ==> e != ESRCH,
            final(self).pid() == old(self).pid(),
            final(self).kill_timeout_ms() == old(self).kill_timeout_ms(),
            final(self).pty_handle() == old(self).pty_handle(),
        opens_invariants none
        no_unwind
    {
        let start = monotonic_now();
        let mut rounds_left: u64 = u64::MAX;
        while rounds_left > 0
            invariant
                0 <= start.0,
                0 <= start.1 < 1_000_000_000,
                self.child_pid == old(self).child_pid,
                self.kill_timeout == old(self).kill_timeout,
                self.pty == old(self).pty,
            decreases rounds_left,
        {
            rounds_left = rounds_left - 1;
            match send_signal(self.child_pid, sig) {
                Ok(()) => (),
                Err(e) => {
                    if e == ESRCH {
                        return Ok(WaitOutcome::AssumedExited);
                    } else {
                        return Err(e);
                    }
                }
            }
            match self.status() {
                Some(st) => {
                    match st {
                        WaitOutcome::Exited { .. } | WaitOutcome::Signaled { .. } => {
                            return Ok(st);
                        }
                        _ => (),
                    }
                }
                None => (),
            }
            sleep_interval(0, (POLL_INTERVAL_MS as i64) * 1_000_000);
            match self.kill_timeout {
                Some(timeout_ms) => {
                    let now = monotonic_now();
                    if elapsed_millis(start, now) > timeout_ms {
                        match send_signal(self.child_pid, SIGKILL) {
                            Ok(()) => (),
                            Err(e) => {
                                if e == ESRCH {
                                    return Ok(WaitOutcome::AssumedExited);
                                } else {
                                    return Err(e);
                                }
                            }
                        }
                    }
                }
                None => (),
            }
        }
        Err(ETIMEDOUT)
    }

    /// Terminates the child gracefully: the termination protocol driven by
    /// the standard terminate signal. Blocks until the child is gone.
    pub fn exit(&mut self) -> (r: Result<WaitOutcome, i32>)
        ensures
            r matches Ok(st) ==> st.is_terminal(),
            old(self).pid() > 0 ==> (r matches Ok(st)
                ==> (st.reported_pid() matches Some(p) ==> p == old(self).pid())),
            r matches Err(e) ==> e != ESRCH,
            final(self).pid() == old(self).pid(),
            final(self).kill_timeout_ms() == old(self).kill_timeout_ms(),
            final(self).pty_handle() == old(self).pty_handle(),
        opens_invariants none
        no_unwind
    {
        self.kill(SIGTERM)
    }

    /// Snapshots the calling process's standard-input attributes and puts
    /// that stream into raw mode, returning the snapshot as the restore
    /// point; `apply_raw_stdin`'s contract carries the read attributes
    /// through unchanged.
    pub fn set_raw(&self) -> (r: Result<TermAttrs, i32>)
        ensures
            r matches Ok(a) ==> a.wf(),
    {
        set_raw_stdin()
    }

    /// Reapplies a previously captured snapshot to the calling process's
    /// standard input, verbatim.
    pub fn set_mode(&self, original_mode: &TermAttrs) -> (r: Result<(), i32>)
        requires
            original_mode.wf(),
    {
        restore_stdin(original_mode)
    }

    /// Issues the set-size request on this handle's control descriptor.
    pub fn set_window_size(&self, size: WindowSize) -> (r: Result<(), i32>)
    {
        set_window_size_of(&self.pty, size)
    }

    /// Queries the window size of this handle's terminal.
    pub fn get_window_size(&self) -> (r: Result<WindowSize, i32>)
    {
        get_window_size_of(&self.pty)
    }

    /// Reads bytes the child wrote to the terminal into a prefix of `buf`.
    pub fn read_output(&self, buf: &mut Vec<u8>) -> (r: Result<usize, i32>)
        ensures
            final(buf)@.len() == old(buf)@.len(),
            r matches Ok(n) ==> n <= old(buf)@.len(),
    {
        read_master(&self.pty, buf)
    }

    /// Hands the child the given bytes as terminal input.
    pub fn write_input(&self, data: &Vec<u8>) -> (r: Result<usize, i32>)
        ensures
            r matches Ok(n) ==> n <= data@.len(),
    {
        write_master(&self.pty, data)
    }
}

impl Drop for PtyProcess {
    /// A handle released while its child still runs first drives the
    /// termination protocol, best effort, before the control descriptor is
    /// closed.
    fn drop(&mut self)
        opens_invariants none
        no_unwind
    {
        match self.status() {
            Some(st) => {
                match st {
                    WaitOutcome::StillAlive => {
                        let _ = self.exit();
                    }
                    _ => (),
                }
            }
            None => (),
        }
    }
}

} // verus!
