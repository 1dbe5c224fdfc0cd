use vstd::prelude::*;
use nix::pty::PtyMaster;

verus! {

// Flag values of the terminal driver, as the C library defines them for
// this platform family. The attribute record's layout and these values
// follow Linux's C library: the terminal layer is specific to that
// platform family.

/// Input flag: signal an interrupt on a break condition.
pub const BRKINT: u32 = 0x2;
/// Input flag: translate carriage return to newline.
pub const ICRNL: u32 = 0x100;
/// Input flag: enable input parity checking.
pub const INPCK: u32 = 0x10;
/// Input flag: strip the eighth bit off input characters.
pub const ISTRIP: u32 = 0x20;
/// Input flag: enable software flow control on output.
pub const IXON: u32 = 0x400;
/// Output flag: enable output post-processing.
pub const OPOST: u32 = 0x1;
/// Control flag: mask of the character-size bits.
pub const CSIZE: u32 = 0x30;
/// Control flag: eight-bit characters.
pub const CS8: u32 = 0x30;
/// Control flag: enable parity generation and checking.
pub const PARENB: u32 = 0x100;
/// Local flag: echo input characters.
pub const ECHO: u32 = 0x8;
/// Local flag: canonical, line-buffered input.
pub const ICANON: u32 = 0x2;
/// Local flag: extended input processing.
pub const IEXTEN: u32 = 0x8000;
/// Local flag: generate signals for the interrupt control characters.
pub const ISIG: u32 = 0x1;
/// Index of the minimum-bytes-per-read control character.
pub const VMIN: usize = 6;
/// Index of the inter-byte-timeout control character.
pub const VTIME: usize = 5;
/// Number of special control character slots.
pub const NCCS: usize = 32;

/// A capture of every terminal attribute the kernel keeps for a device: the
/// four flag words, the line discipline, the special control characters and
/// the two line speeds. Restoring such a snapshot reapplies it verbatim.
#[derive(Clone, PartialEq, Eq, Debug)]
pub struct TermAttrs {
    /// Input mode flags.
    pub iflag: u32,
    /// Output mode flags.
    pub oflag: u32,
    /// Control mode flags.
    pub cflag: u32,
    /// Local mode flags.
    pub lflag: u32,
    /// Line discipline.
    pub line: u8,
    /// Special control characters, one byte per slot the kernel defines.
    pub cc: Vec<u8>,
    /// Input line speed.
    pub ispeed: u32,
    /// Output line speed.
    pub ospeed: u32,
}

impl TermAttrs {
    /// A snapshot is well formed when it carries exactly one byte per
    /// control character slot.
    pub open spec fn wf(self) -> bool {
        self.cc@.len() == NCCS
    }

    /// The raw-mode attribute set derived from a snapshot: every input
    /// translation, the output post-processing, parity, echo, canonical
    /// input, extended processing and signal generation switched off,
    /// character size forced to eight bits, and reads unblocking as soon as
    /// one byte is available.
    pub open spec fn raw_derivation(self) -> TermAttrs {
        TermAttrs {
            iflag: self.iflag & !(BRKINT | ICRNL | INPCK | ISTRIP | IXON),
            oflag: self.oflag & !OPOST,
            cflag: (self.cflag & !(CSIZE | PARENB)) | CS8,
            lflag: self.lflag & !(ECHO | ICANON | IEXTEN | ISIG),
            line: self.line,
            cc: self.cc,
            ispeed: self.ispeed,
            ospeed: self.ospeed,
        }
    }

    /// Derives the raw-mode attribute set from this snapshot. The snapshot
    /// itself is left to the caller as the restore point.
    pub fn make_raw(&self) -> (r: TermAttrs)
        requires
            self.wf(),
        ensures
            r.wf(),
            r.iflag == self.iflag & !(BRKINT | ICRNL | INPCK | ISTRIP | IXON),
            r.oflag == self.oflag & !OPOST,
            r.cflag == (self.cflag & !(CSIZE | PARENB)) | CS8,
            r.lflag == self.lflag & !(ECHO | ICANON | IEXTEN | ISIG),
            r.line == self.line,
            r.ispeed == self.ispeed,
            r.ospeed == self.ospeed,
            r.cc@ == self.raw_derivation().cc@.update(VMIN as int, 1u8).update(VTIME as int, 0u8),
            r.cc@ == self.cc@.update(VMIN as int, 1u8).update(VTIME as int, 0u8),
    {
        let mut cc = self.cc.clone();
        cc[VMIN] = 1u8;
        cc[VTIME] = 0u8;
        TermAttrs {
            iflag: self.iflag & !(BRKINT | ICRNL | INPCK | ISTRIP | IXON),
            oflag: self.oflag & !OPOST,
            cflag: (self.cflag & !(CSIZE | PARENB)) | CS8,
            lflag: self.lflag & !(ECHO | ICANON | IEXTEN | ISIG),
            line: self.line,
            cc,
            ispeed: self.ispeed,
            ospeed: self.ospeed,
        }
    }

    /// A copy of this snapshot with the echo bit switched on or off and
    /// every other attribute untouched.
    pub fn with_echo(&self, echo: bool) -> (r: TermAttrs)
        ensures
            r.lflag == if echo { self.lflag | ECHO } else { self.lflag & !ECHO },
            r.iflag == self.iflag,
            r.oflag == self.oflag,
            r.cflag == self.cflag,
            r.line == self.line,
            r.cc@ == self.cc@,
            r.ispeed == self.ispeed,
            r.ospeed == self.ospeed,
    {
        TermAttrs {
            iflag: self.iflag,
            oflag: self.oflag,
            cflag: self.cflag,
            lflag: if echo { self.lflag | ECHO } else { self.lflag & !ECHO },
            line: self.line,
            cc: self.cc.clone(),
            ispeed: self.ispeed,
            ospeed: self.ospeed,
        }
    }
}

/// Relies on nix's `tcgetattr` on the calling process's standard input,
/// read through the C library's attribute record.
#[verifier::external_body]
fn read_attrs_stdin() -> (r: Result<TermAttrs, i32>)
    ensures
        r matches Ok(a) ==> a.wf(),
{
    match nix::sys::termios::tcgetattr(std::io::stdin()) {
        Ok(t) => {
            let lt: libc::termios = t.into();
            Ok(TermAttrs {
                iflag: lt.c_iflag, oflag: lt.c_oflag, cflag: lt.c_cflag, lflag: lt.c_lflag,
                line: lt.c_line, cc: lt.c_cc.to_vec(), ispeed: lt.c_ispeed, ospeed: lt.c_ospeed,
            })
        }
        Err(e) => Err(e as i32),
    }
}

/// Relies on nix's `tcsetattr` on the calling process's standard input,
/// applied after pending output has been flushed; the given snapshot is
/// written, though flag bits outside the C library wrapper's own tables are
/// dropped by its conversion.
#[verifier::external_body]
fn write_attrs_stdin_flush(attrs: &TermAttrs) -> (r: Result<(), i32>)
    requires
        attrs.wf(),
{
    let mut cc = [0u8; 32];
    cc.copy_from_slice(&attrs.cc);
    let lt = libc::termios {
        c_iflag: attrs.iflag, c_oflag: attrs.oflag, c_cflag: attrs.cflag, c_lflag: attrs.lflag,
        c_line: attrs.line, c_cc: cc, c_ispeed: attrs.ispeed, c_ospeed: attrs.ospeed,
    };
    let t = nix::sys::termios::Termios::from(lt);
    nix::sys::termios::tcsetattr(std::io::stdin(), nix::sys::termios::SetArg::TCSAFLUSH, &t)
        .map_err(|e| e as i32)
}

/// Relies on nix's `tcgetattr` on a pseudo-terminal control descriptor,
/// read through the C library's attribute record.
#[verifier::external_body]
fn read_attrs_of(master: &PtyMaster) -> (r: Result<TermAttrs, i32>)
    ensures
        r matches Ok(a) ==> a.wf(),
{
    match nix::sys::termios::tcgetattr(master) {
        Ok(t) => {
            let lt: libc::termios = t.into();
            Ok(TermAttrs {
                iflag: lt.c_iflag, oflag: lt.c_oflag, cflag: lt.c_cflag, lflag: lt.c_lflag,
                line: lt.c_line, cc: lt.c_cc.to_vec(), ispeed: lt.c_ispeed, ospeed: lt.c_ospeed,
            })
        }
        Err(e) => Err(e as i32),
    }
}

/// Relies on nix's `tcsetattr` on a pseudo-terminal control descriptor,
/// applied after pending output has been flushed; the given snapshot is
/// written, though flag bits outside the C library wrapper's own tables are
/// dropped by its conversion.
#[verifier::external_body]
fn write_attrs_of_flush(master: &PtyMaster, attrs: &TermAttrs) -> (r: Result<(), i32>)
    requires
        attrs.wf(),
{
    let mut cc = [0u8; 32];
    cc.copy_from_slice(&attrs.cc);
    let lt = libc::termios {
        c_iflag: attrs.iflag, c_oflag: attrs.oflag, c_cflag: attrs.cflag, c_lflag: attrs.lflag,
        c_line: attrs.line, c_cc: cc, c_ispeed: attrs.ispeed, c_ospeed: attrs.ospeed,
    };
    let t = nix::sys::termios::Termios::from(lt);
    nix::sys::termios::tcsetattr(master, nix::sys::termios::SetArg::TCSAFLUSH, &t)
        .map_err(|e| e as i32)
}

/// Relies on nix's `tcsetattr` on a pseudo-terminal control descriptor,
/// applied at once; the given snapshot is written, though flag bits outside
/// the C library wrapper's own tables are dropped by its conversion.
#[verifier::external_body]
fn write_attrs_of_now(master: &PtyMaster, attrs: &TermAttrs) -> (r: Result<(), i32>)
    requires
        attrs.wf(),
{
    let mut cc = [0u8; 32];
    cc.copy_from_slice(&attrs.cc);
    let lt = libc::termios {
        c_iflag: attrs.iflag, c_oflag: attrs.oflag, c_cflag: attrs.cflag, c_lflag: attrs.lflag,
        c_line: attrs.line, c_cc: cc, c_ispeed: attrs.ispeed, c_ospeed: attrs.ospeed,
    };
    let t = nix::sys::termios::Termios::from(lt);
    nix::sys::termios::tcsetattr(master, nix::sys::termios::SetArg::TCSANOW, &t)
        .map_err(|e| e as i32)
}

/// Applies the raw-mode derivation of `original` to the given terminal and
/// hands `original` back unchanged as the restore point: whatever snapshot
/// goes in is exactly what comes out.
pub fn apply_raw(master: &PtyMaster, original: TermAttrs) -> (r: Result<TermAttrs, i32>)
    requires
        original.wf(),
    ensures
        r matches Ok(a) ==> a == original,
{
    let raw = original.make_raw();
    match write_attrs_of_flush(master, &raw) {
        Ok(()) => Ok(original),
        Err(e) => Err(e),
    }
}

/// Applies the raw-mode derivation of `original` to the calling process's
/// standard input and hands `original` back unchanged as the restore point.
pub fn apply_raw_stdin(original: TermAttrs) -> (r: Result<TermAttrs, i32>)
    requires
        original.wf(),
    ensures
        r matches Ok(a) ==> a == original,
{
    let raw = original.make_raw();
    match write_attrs_stdin_flush(&raw) {
        Ok(()) => Ok(original),
        Err(e) => Err(e),
    }
}

/// Snapshots the attributes of the given terminal and applies the raw-mode
/// derivation of that snapshot. The returned snapshot is the restore point;
/// `apply_raw`'s contract carries the read attributes through unchanged.
pub fn snapshot_and_set_raw(master: &PtyMaster) -> (r: Result<TermAttrs, i32>)
    ensures
        r matches Ok(a) ==> a.wf(),
{
    let original = match read_attrs_of(master) {
        Ok(a) => a,
        Err(e) => { return Err(e); }
    };
    apply_raw(master, original)
}

/// Reapplies a previously captured snapshot to the given terminal, verbatim
/// and after flushing pending output.
pub fn restore(master: &PtyMaster, snapshot: &TermAttrs) -> (r: Result<(), i32>)
    requires
        snapshot.wf(),
{
    write_attrs_of_flush(master, snapshot)
}

/// Reads the attributes of the given terminal.
pub fn snapshot_attrs(master: &PtyMaster) -> (r: Result<TermAttrs, i32>)
    ensures
        r matches Ok(a) ==> a.wf(),
{
    read_attrs_of(master)
}

/// Toggles only the echo bit of the given terminal, leaving every other
/// attribute as it was read.
pub fn set_echo(master: &PtyMaster, echo: bool) -> (r: Result<(), i32>)
{
    let current = match read_attrs_of(master) {
        Ok(a) => a,
        Err(e) => { return Err(e); }
    };
    let updated = current.with_echo(echo);
    write_attrs_of_now(master, &updated)
}

/// Snapshots the calling process's standard-input attributes and applies
/// the raw-mode derivation of that snapshot, returning the snapshot as the
/// restore point; `apply_raw_stdin`'s contract carries the read attributes
/// through unchanged.
pub fn set_raw_stdin() -> (r: Result<TermAttrs, i32>)
    ensures
        r matches Ok(a) ==> a.wf(),
{
    let original = match read_attrs_stdin() {
        Ok(a) => a,
        Err(e) => { return Err(e); }
    };
    apply_raw_stdin(original)
}

/// Reapplies a previously captured snapshot to the calling process's
/// standard input, verbatim and after flushing pending output.
pub fn restore_stdin(snapshot: &TermAttrs) -> (r: Result<(), i32>)
    requires
        snapshot.wf(),
{
    write_attrs_stdin_flush(snapshot)
}

} // verus!
