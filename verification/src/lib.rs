//! A pseudo-terminal-backed process supervisor together with a detector of
//! the virtual capabilities of the host system.
//!
//! The supervisor allocates a pseudo-terminal device pair, launches a child
//! process whose standard streams are attached to the companion side, and
//! hands the caller a handle through which the child can be observed,
//! signalled and terminated while the terminal's attributes (raw mode, echo,
//! window size) stay under the caller's control.

mod cbytes;
mod process;
mod pty;
mod term;
mod vpkg;

pub use pty::{PtyAllocation, WindowSize, allocate};
pub use term::{TermAttrs, set_echo, set_raw_stdin, restore_stdin, snapshot_and_set_raw, apply_raw, apply_raw_stdin, restore, snapshot_attrs};
pub use term::{BRKINT, ICRNL, INPCK, ISTRIP, IXON, OPOST, CSIZE, CS8, PARENB, ECHO, ICANON, IEXTEN, ISIG, VMIN, VTIME, NCCS};
pub use process::{PtyProcess, PtyProcessOptions, CommandSpec, WaitOutcome, EINVAL, ESRCH, ETIMEDOUT, SIGTERM, SIGKILL, POLL_INTERVAL_MS};
pub use cbytes::{has_nul, c_str_ok, contains_nul, terminated};
pub use vpkg::{Override, EnvVarValue, DetectVirtualPackageError, EnvOverride, clone_override, version_parse_ok, lower_of, known_arch};
pub use vpkg::{Linux, LibC, Cuda, Osx, Windows, Platform, Archspec, VirtualPackage, VirtualPackages, VirtualPackageOverrides, DetectInputs, generic_name_text, archspec_name_for_platform, archspec_name_spec, virtual_package_seq};

