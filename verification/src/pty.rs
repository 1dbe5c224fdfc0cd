use vstd::prelude::*;
use nix::pty::PtyMaster;
use crate::cbytes::has_nul;

verus! {

/// The control side of a pseudo-terminal device pair, owned by whoever
/// allocated it. The kernel object behind it is opaque to the proofs; it is
/// carried through and handed to the system calls that act on it.
#[verifier::external_type_specification]
#[verifier::external_body]
pub struct ExPtyMaster(PtyMaster);

/// The dimensions of a terminal: character cells and, where the device
/// reports them, pixels.
#[derive(Clone, Copy, PartialEq, Eq, Structural, Debug)]
pub struct WindowSize {
    /// Number of character rows.
    pub rows: u16,
    /// Number of character columns.
    pub cols: u16,
    /// Width in pixels, zero when unknown.
    pub xpixel: u16,
    /// Height in pixels, zero when unknown.
    pub ypixel: u16,
}

impl WindowSize {
    /// The size used when nothing was requested and the calling process has
    /// no terminal to take a size from.
    pub fn zero() -> (r: WindowSize)
        ensures
            r == (WindowSize { rows: 0, cols: 0, xpixel: 0, ypixel: 0 }),
    {
        WindowSize { rows: 0, cols: 0, xpixel: 0, ypixel: 0 }
    }
}

/// A freshly allocated pseudo-terminal: the control descriptor, the pathname
/// under which the companion device can be opened, and the window size that
/// the new terminal starts out with.
pub struct PtyAllocation {
    /// Control-side descriptor.
    pub master: PtyMaster,
    /// Pathname of the companion device, as bytes without a terminator.
    pub companion_path: Vec<u8>,
    /// Initial window size of the new terminal.
    pub window_size: WindowSize,
}

/// Relies on nix's `posix_openpt`: opens the pseudo-terminal control device
/// read-write and returns its descriptor, or the failing call's error code.
#[verifier::external_body]
fn open_control_device() -> (r: Result<PtyMaster, i32>)
{
    nix::pty::posix_openpt(nix::fcntl::OFlag::O_RDWR).map_err(|e| e as i32)
}

/// Relies on nix's `grantpt`: asks the kernel to grant access to the
/// companion device of the given control descriptor.
#[verifier::external_body]
fn grant_companion(master: &PtyMaster) -> (r: Result<(), i32>)
{
    nix::pty::grantpt(master).map_err(|e| e as i32)
}

/// Relies on nix's `unlockpt`: unlocks the companion device of the given
/// control descriptor so that it can be opened.
#[verifier::external_body]
fn unlock_companion(master: &PtyMaster) -> (r: Result<(), i32>)
{
    nix::pty::unlockpt(master).map_err(|e| e as i32)
}

/// Relies on nix's `ptsname_r`, the reentrant companion-name query: returns
/// the pathname of the companion device belonging to the control descriptor.
/// The pathname comes out of a C string, so it holds no zero byte.
#[verifier::external_body]
fn resolve_companion_path(master: &PtyMaster) -> (r: Result<Vec<u8>, i32>)
    ensures
        r matches Ok(p) ==> !has_nul(p@),
{
    nix::pty::ptsname_r(master)
        .map(|s| s.into_bytes())
        .map_err(|e| e as i32)
}

/// Relies on rustix's `tcgetwinsize`: queries the window size of the calling
/// process's standard output.
#[verifier::external_body]
fn query_stdout_window_size() -> (r: Result<WindowSize, i32>)
{
    match rustix::termios::tcgetwinsize(std::io::stdout()) {
        Ok(ws) => Ok(WindowSize {
            rows: ws.ws_row,
            cols: ws.ws_col,
            xpixel: ws.ws_xpixel,
            ypixel: ws.ws_ypixel,
        }),
        Err(e) => Err(e.raw_os_error()),
    }
}

/// Relies on rustix's `tcsetwinsize`: issues the set-size device request on
/// the given control descriptor.
#[verifier::external_body]
pub(crate) fn set_window_size_of(master: &PtyMaster, size: WindowSize) -> (r: Result<(), i32>)
{
    let ws = rustix::termios::Winsize {
        ws_row: size.rows,
        ws_col: size.cols,
        ws_xpixel: size.xpixel,
        ws_ypixel: size.ypixel,
    };
    rustix::termios::tcsetwinsize(master, ws).map_err(|e| e.raw_os_error())
}

/// Relies on rustix's `tcgetwinsize`: queries the window size of the given
/// control descriptor.
#[verifier::external_body]
pub(crate) fn get_window_size_of(master: &PtyMaster) -> (r: Result<WindowSize, i32>)
{
    match rustix::termios::tcgetwinsize(master) {
        Ok(ws) => Ok(WindowSize {
            rows: ws.ws_row,
            cols: ws.ws_col,
            xpixel: ws.ws_xpixel,
            ypixel: ws.ws_ypixel,
        }),
        Err(e) => Err(e.raw_os_error()),
    }
}

/// Allocates a pseudo-terminal pair: opens the control device, grants and
/// unlocks its companion, resolves the companion's pathname, and settles the
/// initial window size. A requested size is taken as it is; without one the
/// calling process's own standard-output terminal is measured, and a process
/// with no terminal falls back to an all-zero size.
pub fn allocate(requested_window_size: Option<WindowSize>) -> (r: Result<PtyAllocation, i32>)
    ensures
        r matches Ok(a) ==> (requested_window_size matches Some(ws) ==> a.window_size == ws),
        r matches Ok(a) ==> !has_nul(a.companion_path@),
{
    let master = match open_control_device() {
        Ok(m) => m,
        Err(e) => { return Err(e); }
    };
    match grant_companion(&master) {
        Ok(()) => (),
        Err(e) => { return Err(e); }
    }
    match unlock_companion(&master) {
        Ok(()) => (),
        Err(e) => { return Err(e); }
    }
    let companion_path = match resolve_companion_path(&master) {
        Ok(p) => p,
        Err(e) => { return Err(e); }
    };
    let window_size = match requested_window_size {
        Some(ws) => ws,
        None => match query_stdout_window_size() {
            Ok(ws) => ws,
            Err(_) => WindowSize::zero(),
        },
    };
    Ok(PtyAllocation { master, companion_path, window_size })
}

} // verus!
