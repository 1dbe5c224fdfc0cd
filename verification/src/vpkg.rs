use vstd::prelude::*;
use vstd::string::StringSliceAdditionalSpecFns;
use vstd::utf8::encode_utf8;
use vstd::string::StringExecFns;
use std::sync::Arc;
use rattler_conda_types::{Version, PackageName, GenericVirtualPackage, ParseVersionError};
use archspec::cpu::Microarchitecture;

verus! {

/// A version value of the package ecosystem, opaque to the proofs; it is
/// obtained by parsing and carried through.
#[verifier::external_type_specification]
#[verifier::external_body]
pub struct ExVersion(Version);

/// A normalized package name, opaque to the proofs.
#[verifier::external_type_specification]
#[verifier::external_body]
pub struct ExPackageName(PackageName);

/// A type-erased virtual package record, opaque to the proofs.
#[verifier::external_type_specification]
#[verifier::external_body]
pub struct ExGenericVirtualPackage(GenericVirtualPackage);

/// The reason a version text was refused, opaque to the proofs.
#[verifier::external_type_specification]
#[verifier::external_body]
pub struct ExParseVersionError(ParseVersionError);

/// A CPU microarchitecture description, opaque to the proofs.
#[verifier::external_type_specification]
#[verifier::external_body]
pub struct ExMicroarchitecture(Microarchitecture);

/// Relies on `Version`'s derived `Clone`: a field-for-field copy, equal to
/// the original.
pub assume_specification[ <Version as Clone>::clone ](v: &Version) -> (r: Version)
    ensures
        r == *v,
;

/// Whether the version parser of the package ecosystem accepts the given
/// text; the answer depends on the text alone.
pub uninterp spec fn version_parse_ok(s: Seq<u8>) -> bool;

/// What lowercasing leaves of a text; the result depends on the text alone.
pub uninterp spec fn lower_of(s: Seq<char>) -> Seq<char>;

/// Whether the given name denotes a known CPU microarchitecture in the
/// static table of targets; the answer depends on the name alone.
pub uninterp spec fn known_arch(s: Seq<u8>) -> bool;

/// Relies on `Version`'s string parser: accepts or refuses the text on its
/// own merits alone.
#[verifier::external_body]
fn parse_version_text(value: &str) -> (r: Result<Version, ParseVersionError>)
    ensures
        r is Ok <==> version_parse_ok(value.spec_bytes()),
{
    value.parse::<Version>()
}

/// Relies on `Version::major`: the version whose single segment is the
/// given number.
#[verifier::external_body]
fn version_major(n: u64) -> (r: Version)
{
    Version::major(n)
}

/// Relies on `PackageName::new_unchecked`: wraps an already-normalized name
/// without validating it.
#[verifier::external_body]
fn package_name_unchecked(name: String) -> (r: PackageName)
{
    PackageName::new_unchecked(name)
}

/// Relies on `str::to_lowercase`: the result depends on the characters
/// alone.
#[verifier::external_body]
fn lowercase(s: &str) -> (r: String)
    ensures
        r@ == lower_of(s@),
{
    s.to_lowercase()
}

/// Relies on `Microarchitecture::known_targets`: looks the name up in the
/// static table of known targets.
#[verifier::external_body]
fn known_target(name: &str) -> (r: Option<Arc<Microarchitecture>>)
    ensures
        r is Some <==> known_arch(name.spec_bytes()),
{
    Microarchitecture::known_targets().get(name).cloned()
}

/// Relies on `Microarchitecture::generic`: a generic architecture record
/// carrying the given name.
#[verifier::external_body]
fn generic_target(name: &str) -> (r: Arc<Microarchitecture>)
{
    Arc::new(Microarchitecture::generic(name))
}

/// Relies on `Microarchitecture::name`: the name the record carries.
#[verifier::external_body]
fn micro_name(arch: &Arc<Microarchitecture>) -> (r: String)
{
    arch.name().to_owned()
}

/// Builds the type-erased record out of its three parts.
#[verifier::external_body]
fn make_generic(name: PackageName, version: Version, build_string: String) -> (r: GenericVirtualPackage)
{
    GenericVirtualPackage { name, version, build_string }
}

/// How a virtual package's automatic detection may be overridden.
#[derive(Clone, Debug, PartialEq)]
pub enum Override {
    /// Read the override from the package's default environment variable.
    DefaultEnvVar,
    /// Read the override from the named environment variable.
    EnvVar(String),
    /// Use the given text directly.
    String(String),
}

impl Default for Override {
    /// The default override reads the package's default environment
    /// variable.
    fn default() -> (r: Self)
        ensures
            r is DefaultEnvVar,
    {
        Override::DefaultEnvVar
    }
}

/// A copy of an override, equal to the original.
pub fn clone_override(ov: &Override) -> (r: Override)
    ensures
        r == *ov,
{
    match ov {
        Override::DefaultEnvVar => Override::DefaultEnvVar,
        Override::EnvVar(s) => Override::EnvVar(s.clone()),
        Override::String(s) => Override::String(s.clone()),
    }
}

/// What looking an environment variable up can yield; the caller reads the
/// environment and hands the answer in as a plain value.
#[derive(Clone, Debug)]
pub enum EnvVarValue {
    /// The variable is set to the given text.
    Present(String),
    /// The variable is not present.
    Missing,
    /// The variable is present but its content is not valid text.
    NotUnicode,
}

/// Why detecting a virtual package failed.
#[derive(Clone, Copy, PartialEq, Eq, Structural, Debug)]
pub enum DetectVirtualPackageError {
    /// The host's Linux version could not be read.
    ParseLinuxVersion,
    /// The host's OSX version could not be read.
    ParseMacOsVersion,
    /// The host's libc family could not be read.
    DetectLibC,
    /// An override environment variable held content that is not text.
    VarError,
    /// An override text was not a well-formed version.
    VersionParseError,
}

/// The override text that decides a package's detection, where one does: a
/// direct text always decides; under an environment-variable override a
/// present value decides; a missing or unreadable variable leaves no text.
pub open spec fn override_text(ov: Override, env: EnvVarValue) -> Option<Seq<u8>> {
    match ov {
        Override::String(s) => Some(encode_utf8(s@)),
        _ => match env {
            EnvVarValue::Present(v) => Some(encode_utf8(v@)),
            _ => None,
        },
    }
}

/// Whether one package's detection succeeds, as a function of its override,
/// its environment variable's value, and whether the host's own answer
/// succeeded: a deciding text succeeds when it is empty or parses, a missing
/// variable falls back to the host, an unreadable one always fails.
pub open spec fn route_ok(
    ov: Override,
    env: EnvVarValue,
    host_ok: bool,
    parses: spec_fn(Seq<u8>) -> bool,
) -> bool {
    match ov {
        Override::String(s) => encode_utf8(s@).len() == 0 || parses(encode_utf8(s@)),
        _ => match env {
            EnvVarValue::Present(v) => encode_utf8(v@).len() == 0 || parses(encode_utf8(v@)),
            EnvVarValue::Missing => host_ok,
            EnvVarValue::NotUnicode => false,
        },
    }
}

/// The overridable virtual packages: how an override, the corresponding
/// environment variable's value, and the host's own answer combine.
pub trait EnvOverride: Sized {
    /// Which override texts parse into the package.
    spec fn parse_ok(s: Seq<u8>) -> bool;

    /// Parses the text of an override into the package.
    fn parse_version(value: &str) -> (r: Result<Self, DetectVirtualPackageError>)
        ensures
            r is Ok <==> Self::parse_ok(value.spec_bytes()),
            r matches Err(e) ==> e is VersionParseError,
    ;

    /// Parses the text of an override, treating empty text as "package
    /// disabled".
    fn parse_version_opt(value: &str) -> (r: Result<Option<Self>, DetectVirtualPackageError>)
        ensures
            value.spec_bytes().len() == 0 ==> (r matches Ok(o) && o is None),
            value.spec_bytes().len() > 0 ==> (r is Ok <==> Self::parse_ok(value.spec_bytes())),
            value.spec_bytes().len() > 0 ==> (r matches Ok(o) ==> o is Some),
            r matches Err(e) ==> e is VersionParseError,
    {
        if value.is_empty() {
            Ok(None)
        } else {
            match Self::parse_version(value) {
                Ok(pkg) => Ok(Some(pkg)),
                Err(e) => Err(e),
            }
        }
    }

    /// Applies an override, falling back to the host's own answer. A direct
    /// text is parsed; otherwise the handed-in value of the override's
    /// environment variable decides: set text is parsed, a missing variable
    /// yields the fallback, and unreadable content is an error.
    fn detect_with_fallback(
        ov: &Override,
        env: &EnvVarValue,
        fallback: Result<Option<Self>, DetectVirtualPackageError>,
    ) -> (r: Result<Option<Self>, DetectVirtualPackageError>)
        ensures
            ov matches Override::String(s) ==> ((encode_utf8(s@).len() == 0
                ==> (r matches Ok(o) && o is None))
                && (encode_utf8(s@).len() > 0
                    ==> (r is Ok <==> Self::parse_ok(encode_utf8(s@))))),
            !(ov is String) && env is Missing ==> r == fallback,
            !(ov is String) && env is NotUnicode
                ==> r == Err::<Option<Self>, DetectVirtualPackageError>(
                    DetectVirtualPackageError::VarError),
            env matches EnvVarValue::Present(v) ==> (!(ov is String)
                && encode_utf8(v@).len() == 0 ==> (r matches Ok(o) && o is None)),
            env matches EnvVarValue::Present(v) ==> (!(ov is String)
                && encode_utf8(v@).len() > 0
                ==> (r is Ok <==> Self::parse_ok(encode_utf8(v@)))),
            r is Ok <==> route_ok(*ov, *env, fallback is Ok, |t: Seq<u8>| Self::parse_ok(t)),
            override_text(*ov, *env) is Some ==> (r matches Err(e) ==> e is VersionParseError),
            override_text(*ov, *env) matches Some(t)
                ==> (r matches Ok(o) ==> (o is Some <==> t.len() > 0)),
    {
        match ov {
            Override::String(s) => Self::parse_version_opt(s.as_str()),
            _ => match env {
                EnvVarValue::Present(v) => Self::parse_version_opt(v.as_str()),
                EnvVarValue::Missing => fallback,
                EnvVarValue::NotUnicode => Err(DetectVirtualPackageError::VarError),
            },
        }
    }

    /// Detects the package: without an override the host's own answer
    /// stands; with one, `detect_with_fallback` decides.
    fn detect(
        ov: Option<&Override>,
        env: &EnvVarValue,
        host: Result<Option<Self>, DetectVirtualPackageError>,
    ) -> (r: Result<Option<Self>, DetectVirtualPackageError>)
        ensures
            ov is None ==> r == host,
            (ov matches Some(o) && !(*o is String) && env is Missing) ==> r == host,
            ov matches Some(o) ==> (*o matches Override::String(s)
                ==> (encode_utf8(s@).len() == 0 ==> (r matches Ok(x) && x is None))),
            ov matches Some(o) ==> (r is Ok <==> route_ok(*o, *env, host is Ok, |t: Seq<u8>| Self::parse_ok(t))),
            ov matches Some(o) ==> (override_text(*o, *env) matches Some(t)
                ==> (r matches Ok(x) ==> (x is Some <==> t.len() > 0))),
            ov matches Some(o) ==> (override_text(*o, *env) is Some
                ==> (r matches Err(e) ==> e is VersionParseError)),
            ov matches Some(o) ==> ((!(*o is String) && *env is NotUnicode)
                ==> r == Err::<Option<Self>, DetectVirtualPackageError>(
                    DetectVirtualPackageError::VarError)),
    {
        match ov {
            None => host,
            Some(o) => Self::detect_with_fallback(o, env, host),
        }
    }
}

/// Linux virtual package description.
#[derive(Clone, PartialEq, Eq, Hash, Debug)]
pub struct Linux {
    /// The version of the kernel.
    pub version: Version,
}

impl EnvOverride for Linux {
    open spec fn parse_ok(s: Seq<u8>) -> bool {
        version_parse_ok(s)
    }

    fn parse_version(value: &str) -> (r: Result<Self, DetectVirtualPackageError>) {
        match parse_version_text(value) {
            Ok(v) => Ok(Linux { version: v }),
            Err(_) => Err(DetectVirtualPackageError::VersionParseError),
        }
    }
}

impl Linux {
    /// Name of the environment variable that overrides this package by
    /// default.
    pub fn default_env_name() -> (r: &'static str)
        ensures
            r@ == "CONDA_OVERRIDE_LINUX"@,
    {
        "CONDA_OVERRIDE_LINUX"
    }
}

/// LibC virtual package description.
#[derive(Clone, PartialEq, Eq, Hash, Debug)]
pub struct LibC {
    /// The family of the C library, glibc for instance.
    pub family: String,
    /// The version of the C library.
    pub version: Version,
}

impl EnvOverride for LibC {
    open spec fn parse_ok(s: Seq<u8>) -> bool {
        version_parse_ok(s)
    }

    fn parse_version(value: &str) -> (r: Result<Self, DetectVirtualPackageError>) {
        Self::parse_override_text(value)
    }
}

impl LibC {
    /// Parses an override text into a C library description: the version is
    /// the parsed text, the family is always glibc, and refused text is a
    /// version-parse error.
    pub fn parse_override_text(value: &str) -> (r: Result<LibC, DetectVirtualPackageError>)
        ensures
            r is Ok <==> version_parse_ok(value.spec_bytes()),
            r matches Ok(l) ==> l.family@ == "glibc"@,
            r matches Err(e) ==> e is VersionParseError,
    {
        match parse_version_text(value) {
            Ok(v) => Ok(LibC { family: "glibc".to_owned(), version: v }),
            Err(_) => Err(DetectVirtualPackageError::VersionParseError),
        }
    }

    /// Name of the environment variable that overrides this package by
    /// default.
    pub fn default_env_name() -> (r: &'static str)
        ensures
            r@ == "CONDA_OVERRIDE_GLIBC"@,
    {
        "CONDA_OVERRIDE_GLIBC"
    }
}

/// Cuda virtual package description.
#[derive(Clone, PartialEq, Eq, Hash, Debug)]
pub struct Cuda {
    /// The maximum supported driver version.
    pub version: Version,
}

impl EnvOverride for Cuda {
    open spec fn parse_ok(s: Seq<u8>) -> bool {
        version_parse_ok(s)
    }

    fn parse_version(value: &str) -> (r: Result<Self, DetectVirtualPackageError>) {
        match parse_version_text(value) {
            Ok(v) => Ok(Cuda { version: v }),
            Err(_) => Err(DetectVirtualPackageError::VersionParseError),
        }
    }
}

impl Cuda {
    /// Name of the environment variable that overrides this package by
    /// default.
    pub fn default_env_name() -> (r: &'static str)
        ensures
            r@ == "CONDA_OVERRIDE_CUDA"@,
    {
        "CONDA_OVERRIDE_CUDA"
    }
}

/// OSX virtual package description.
#[derive(Clone, PartialEq, Eq, Hash, Debug)]
pub struct Osx {
    /// The version of the operating system.
    pub version: Version,
}

impl EnvOverride for Osx {
    open spec fn parse_ok(s: Seq<u8>) -> bool {
        version_parse_ok(s)
    }

    fn parse_version(value: &str) -> (r: Result<Self, DetectVirtualPackageError>) {
        match parse_version_text(value) {
            Ok(v) => Ok(Osx { version: v }),
            Err(_) => Err(DetectVirtualPackageError::VersionParseError),
        }
    }
}

impl Osx {
    /// Name of the environment variable that overrides this package by
    /// default.
    pub fn default_env_name() -> (r: &'static str)
        ensures
            r@ == "CONDA_OVERRIDE_OSX"@,
    {
        "CONDA_OVERRIDE_OSX"
    }
}

/// Windows virtual package description.
#[derive(Clone, PartialEq, Eq, Hash, Debug)]
pub struct Windows {
    /// The version of the operating system, where it is known.
    pub version: Option<Version>,
}

impl EnvOverride for Windows {
    open spec fn parse_ok(s: Seq<u8>) -> bool {
        version_parse_ok(s)
    }

    fn parse_version(value: &str) -> (r: Result<Self, DetectVirtualPackageError>) {
        match parse_version_text(value) {
            Ok(v) => Ok(Windows { version: Some(v) }),
            Err(_) => Err(DetectVirtualPackageError::VersionParseError),
        }
    }
}

impl Windows {
    /// Name of the environment variable that overrides this package by
    /// default.
    pub fn default_env_name() -> (r: &'static str)
        ensures
            r@ == "CONDA_OVERRIDE_WIN"@,
    {
        "CONDA_OVERRIDE_WIN"
    }
}

/// The platforms the package ecosystem distinguishes, as plain values.
#[derive(Clone, Copy, PartialEq, Eq, Structural, Debug)]
pub enum Platform {
    /// Packages without any platform.
    NoArch,
    /// A platform this library does not know.
    Unknown,
    /// WebAssembly under Emscripten.
    EmscriptenWasm32,
    /// WebAssembly under WASI.
    WasiWasm32,
    /// 32-bit Windows.
    Win32,
    /// 64-bit Windows.
    Win64,
    /// Windows on 64-bit Arm.
    WinArm64,
    /// 32-bit Linux.
    Linux32,
    /// 64-bit Linux.
    Linux64,
    /// Linux on 64-bit Arm.
    LinuxAarch64,
    /// Linux on Arm v6l.
    LinuxArmV6l,
    /// Linux on Arm v7l.
    LinuxArmV7l,
    /// Linux on 64-bit LoongArch.
    LinuxLoong64,
    /// Linux on little-endian 64-bit PowerPC.
    LinuxPpc64le,
    /// Linux on big-endian 64-bit PowerPC.
    LinuxPpc64,
    /// Linux on 32-bit PowerPC.
    LinuxPpc,
    /// Linux on s390x.
    LinuxS390X,
    /// Linux on 32-bit RISC-V.
    LinuxRiscv32,
    /// Linux on 64-bit RISC-V.
    LinuxRiscv64,
    /// 64-bit macOS on Intel.
    Osx64,
    /// macOS on Apple silicon.
    OsxArm64,
    /// IBM z/OS.
    ZosZ,
}

/// The minimal microarchitecture name the ecosystem assigns to a platform,
/// where it assigns one.
pub open spec fn archspec_name_spec(p: Platform) -> Option<Seq<char>> {
    match p {
        Platform::Win32 | Platform::Linux32 => Some("x86"@),
        Platform::Win64 | Platform::Osx64 | Platform::Linux64 => Some("x86_64"@),
        Platform::LinuxAarch64 | Platform::LinuxArmV6l | Platform::LinuxArmV7l => Some("aarch64"@),
        Platform::LinuxLoong64 => Some("loong64"@),
        Platform::LinuxPpc64le => Some("ppc64le"@),
        Platform::LinuxPpc64 => Some("ppc64"@),
        Platform::LinuxPpc => Some("ppc"@),
        Platform::LinuxS390X => Some("s390x"@),
        Platform::LinuxRiscv32 => Some("riscv32"@),
        Platform::LinuxRiscv64 => Some("riscv64"@),
        Platform::WinArm64 => Some("aarch64"@),
        Platform::OsxArm64 => Some("m1"@),
        _ => None,
    }
}

/// The minimal microarchitecture name the ecosystem assigns to a platform.
pub fn archspec_name_for_platform(platform: Platform) -> (r: Option<&'static str>)
    ensures
        r is Some <==> archspec_name_spec(platform) is Some,
        r matches Some(s) ==> (archspec_name_spec(platform) matches Some(v) && s@ == v),
{
    match platform {
        Platform::Win32 | Platform::Linux32 => Some("x86"),
        Platform::Win64 | Platform::Osx64 | Platform::Linux64 => Some("x86_64"),
        Platform::LinuxAarch64 | Platform::LinuxArmV6l | Platform::LinuxArmV7l => Some("aarch64"),
        Platform::LinuxLoong64 => Some("loong64"),
        Platform::LinuxPpc64le => Some("ppc64le"),
        Platform::LinuxPpc64 => Some("ppc64"),
        Platform::LinuxPpc => Some("ppc"),
        Platform::LinuxS390X => Some("s390x"),
        Platform::LinuxRiscv32 => Some("riscv32"),
        Platform::LinuxRiscv64 => Some("riscv64"),
        Platform::WinArm64 => Some("aarch64"),
        Platform::OsxArm64 => Some("m1"),
        _ => None,
    }
}

/// The CPU architecture of a system.
#[derive(Clone, Debug)]
pub enum Archspec {
    /// A microarchitecture from the static table, or a generic record made
    /// from a name.
    Microarchitecture(Arc<Microarchitecture>),
    /// The architecture could not be determined.
    Unknown,
}

impl EnvOverride for Archspec {
    open spec fn parse_ok(s: Seq<u8>) -> bool {
        true
    }

    fn parse_version(value: &str) -> (r: Result<Self, DetectVirtualPackageError>) {
        Self::parse_override_text(value)
    }
}

impl Archspec {
    /// Parses an override text into an architecture: a single zero digit
    /// disables it, any other text resolves through the target table, and no
    /// text is refused.
    pub fn parse_override_text(value: &str) -> (r: Result<Archspec, DetectVirtualPackageError>)
        ensures
            r is Ok,
            r matches Ok(a) ==> ((a is Unknown) <==> value.spec_bytes() == seq![48u8]),
    {
        let b = value.as_bytes();
        if b.len() == 1 && b[0] == 48 {
            proof {
                assert(value.spec_bytes() =~= seq![48u8]);
            }
            Ok(Archspec::Unknown)
        } else {
            proof {
                assert(value.spec_bytes() != seq![48u8]) by {
                    if value.spec_bytes() == seq![48u8] {
                        assert(value.spec_bytes().len() == 1);
                        assert(value.spec_bytes()[0] == 48);
                    }
                }
            }
            Ok(Self::from_name(value))
        }
    }

    /// Name of the environment variable that overrides this package by
    /// default.
    pub fn default_env_name() -> (r: &'static str)
        ensures
            r@ == "CONDA_OVERRIDE_ARCHSPEC"@,
    {
        "CONDA_OVERRIDE_ARCHSPEC"
    }

    /// The text this architecture is written as: the microarchitecture's
    /// own name, or a single zero digit when it is unknown.
    pub fn as_str(&self) -> (r: String)
        ensures
            *self is Unknown ==> r@ == "0"@,
    {
        match self {
            Archspec::Microarchitecture(arch) => micro_name(arch),
            Archspec::Unknown => "0".to_owned(),
        }
    }

    /// Wraps the given name: a known target from the static table where the
    /// name is known, and a generic record otherwise.
    pub fn from_name(archspec_name: &str) -> (r: Self)
        ensures
            r is Microarchitecture,
    {
        match known_target(archspec_name) {
            Some(arch) => Archspec::Microarchitecture(arch),
            None => Archspec::Microarchitecture(generic_target(archspec_name)),
        }
    }

    /// The minimal supported architecture for the given platform, where the
    /// ecosystem assigns one.
    pub fn from_platform(platform: Platform) -> (r: Option<Self>)
        ensures
            r is Some <==> archspec_name_spec(platform) is Some,
            r matches Some(a) ==> a is Microarchitecture,
    {
        match archspec_name_for_platform(platform) {
            Some(name) => Some(Self::from_name(name)),
            None => None,
        }
    }

    /// The architecture of the current system: what the hardware probe
    /// reported where it succeeded, else the platform's minimal
    /// architecture, else unknown.
    pub fn current(host: Option<Arc<Microarchitecture>>, platform: Platform) -> (r: Self)
        ensures
            host matches Some(a) ==> r == Archspec::Microarchitecture(a),
            host is None && archspec_name_spec(platform) is Some ==> r is Microarchitecture,
            host is None && archspec_name_spec(platform) is None ==> r is Unknown,
    {
        match host {
            Some(a) => Archspec::Microarchitecture(a),
            None => match Self::from_platform(platform) {
                Some(a) => a,
                None => Archspec::Unknown,
            },
        }
    }
}

/// An enum over every virtual package this library can report.
#[derive(Clone, Debug)]
pub enum VirtualPackage {
    /// Available on Windows.
    Win(Windows),
    /// Available on Unix-based platforms.
    Unix,
    /// Available when running on Linux.
    Linux(Linux),
    /// Available when running on OSX.
    Osx(Osx),
    /// Available C library family and version.
    LibC(LibC),
    /// Available Cuda version.
    Cuda(Cuda),
    /// The CPU architecture.
    Archspec(Archspec),
}

/// The name the type-erased record carries for each virtual package.
pub fn generic_name_text(pkg: &VirtualPackage) -> (r: String)
    ensures
        *pkg is Win ==> r@ == "__win"@,
        *pkg is Unix ==> r@ == "__unix"@,
        *pkg is Linux ==> r@ == "__linux"@,
        *pkg is Osx ==> r@ == "__osx"@,
        *pkg matches VirtualPackage::LibC(l) ==> r@ == "__"@ + lower_of(l.family@),
        *pkg is Cuda ==> r@ == "__cuda"@,
        *pkg is Archspec ==> r@ == "__archspec"@,
{
    match pkg {
        VirtualPackage::Win(_) => "__win".to_owned(),
        VirtualPackage::Unix => "__unix".to_owned(),
        VirtualPackage::Linux(_) => "__linux".to_owned(),
        VirtualPackage::Osx(_) => "__osx".to_owned(),
        VirtualPackage::LibC(l) => {
            let mut name = "__".to_owned();
            let lowered = lowercase(l.family.as_str());
            name.append(lowered.as_str());
            name
        }
        VirtualPackage::Cuda(_) => "__cuda".to_owned(),
        VirtualPackage::Archspec(_) => "__archspec".to_owned(),
    }
}

impl VirtualPackage {
    /// Erases the typing: the record's name is fixed per package as
    /// `generic_name_text` states, its version is the package's own version
    /// where it carries one, and its build string is a single zero digit
    /// for all but the architecture package, which carries its name there.
    pub fn into_generic(self) -> (r: GenericVirtualPackage)
    {
        let name_text = generic_name_text(&self);
        let name = package_name_unchecked(name_text);
        match self {
            VirtualPackage::Win(w) => match w.version {
                Some(v) => make_generic(name, v, "0".to_owned()),
                None => make_generic(name, version_major(0), "0".to_owned()),
            },
            VirtualPackage::Unix => make_generic(name, version_major(0), "0".to_owned()),
            VirtualPackage::Linux(l) => make_generic(name, l.version, "0".to_owned()),
            VirtualPackage::Osx(o) => make_generic(name, o.version, "0".to_owned()),
            VirtualPackage::LibC(l) => make_generic(name, l.version, "0".to_owned()),
            VirtualPackage::Cuda(c) => make_generic(name, c.version, "0".to_owned()),
            VirtualPackage::Archspec(a) => {
                let build = a.as_str();
                make_generic(name, version_major(1), build)
            }
        }
    }
}

/// A record of every virtual package detected on a system.
#[derive(Clone, Debug)]
pub struct VirtualPackages {
    /// Available on Windows.
    pub win: Option<Windows>,
    /// Available on Unix-based platforms.
    pub unix: bool,
    /// Available when running on Linux.
    pub linux: Option<Linux>,
    /// Available when running on OSX.
    pub osx: Option<Osx>,
    /// Available C library family and version.
    pub libc: Option<LibC>,
    /// Available Cuda version.
    pub cuda: Option<Cuda>,
    /// The CPU architecture.
    pub archspec: Option<Archspec>,
}

impl Default for VirtualPackages {
    /// An empty record: no package present and not a Unix platform.
    fn default() -> (r: Self)
        ensures
            r.win is None,
            r.unix == false,
            r.linux is None,
            r.osx is None,
            r.libc is None,
            r.cuda is None,
            r.archspec is None,
    {
        VirtualPackages {
            win: None,
            unix: false,
            linux: None,
            osx: None,
            libc: None,
            cuda: None,
            archspec: None,
        }
    }
}

/// The sequence of virtual packages a record unfolds into: each present
/// package in the fixed order of the record's fields.
pub open spec fn virtual_package_seq(vp: VirtualPackages) -> Seq<VirtualPackage> {
    (match vp.win { Some(w) => seq![VirtualPackage::Win(w)], None => Seq::empty() })
    + (if vp.unix { seq![VirtualPackage::Unix] } else { Seq::empty() })
    + (match vp.linux { Some(l) => seq![VirtualPackage::Linux(l)], None => Seq::empty() })
    + (match vp.osx { Some(o) => seq![VirtualPackage::Osx(o)], None => Seq::empty() })
    + (match vp.libc { Some(l) => seq![VirtualPackage::LibC(l)], None => Seq::empty() })
    + (match vp.cuda { Some(c) => seq![VirtualPackage::Cuda(c)], None => Seq::empty() })
    + (match vp.archspec { Some(a) => seq![VirtualPackage::Archspec(a)], None => Seq::empty() })
}

impl VirtualPackages {
    /// Unfolds the record into the packages it holds, in the fixed order of
    /// its fields.
    #[verifier::rlimit(100)]
    pub fn into_virtual_packages(self) -> (r: Vec<VirtualPackage>)
        ensures
            r@ == virtual_package_seq(self),
    {
        let ghost g = self;
        let mut out: Vec<VirtualPackage> = Vec::new();
        match self.win {
            Some(w) => out.push(VirtualPackage::Win(w)),
            None => (),
        }
        if self.unix {
            out.push(VirtualPackage::Unix);
        }
        match self.linux {
            Some(l) => out.push(VirtualPackage::Linux(l)),
            None => (),
        }
        match self.osx {
            Some(o) => out.push(VirtualPackage::Osx(o)),
            None => (),
        }
        match self.libc {
            Some(l) => out.push(VirtualPackage::LibC(l)),
            None => (),
        }
        match self.cuda {
            Some(c) => out.push(VirtualPackage::Cuda(c)),
            None => (),
        }
        match self.archspec {
            Some(a) => out.push(VirtualPackage::Archspec(a)),
            None => (),
        }
        proof {
            assert(out@ =~= virtual_package_seq(g));
        }
        out
    }

    /// Unfolds the record into type-erased packages, one per package it
    /// holds and in the same fixed order.
    pub fn into_generic_virtual_packages(self) -> (r: Vec<GenericVirtualPackage>)
        ensures
            r@.len() == virtual_package_seq(self).len(),
    {
        let packages = self.into_virtual_packages();
        let ghost n = packages@.len();
        let mut out: Vec<GenericVirtualPackage> = Vec::new();
        let mut i: usize = 0;
        let mut rest = packages;
        while rest.len() > 0
            invariant
                out@.len() + rest@.len() == n,
            decreases rest@.len(),
        {
            let pkg = rest.remove(0);
            out.push(pkg.into_generic());
        }
        out
    }
}

/// Which override applies to each virtual package.
#[derive(Clone, Debug)]
pub struct VirtualPackageOverrides {
    /// The override for the Windows package.
    pub win: Option<Override>,
    /// The override for the OSX package.
    pub osx: Option<Override>,
    /// The override for the Linux package.
    pub linux: Option<Override>,
    /// The override for the C library package.
    pub libc: Option<Override>,
    /// The override for the Cuda package.
    pub cuda: Option<Override>,
    /// The override for the architecture package.
    pub archspec: Option<Override>,
}

impl Default for VirtualPackageOverrides {
    /// By default nothing is overridden.
    fn default() -> (r: Self)
        ensures
            r.win is None,
            r.osx is None,
            r.linux is None,
            r.libc is None,
            r.cuda is None,
            r.archspec is None,
    {
        VirtualPackageOverrides {
            win: None,
            osx: None,
            linux: None,
            libc: None,
            cuda: None,
            archspec: None,
        }
    }
}

impl VirtualPackageOverrides {
    /// Overrides every virtual package with the one given value.
    pub fn all(ov: Override) -> (r: Self)
        ensures
            r.win == Some(ov),
            r.osx == Some(ov),
            r.linux == Some(ov),
            r.libc == Some(ov),
            r.cuda == Some(ov),
            r.archspec == Some(ov),
    {
        VirtualPackageOverrides {
            win: Some(clone_override(&ov)),
            osx: Some(clone_override(&ov)),
            linux: Some(clone_override(&ov)),
            libc: Some(clone_override(&ov)),
            cuda: Some(clone_override(&ov)),
            archspec: Some(ov),
        }
    }

    /// Overrides every virtual package from its default environment
    /// variable.
    pub fn from_env() -> (r: Self)
        ensures
            r.win == Some(Override::DefaultEnvVar),
            r.osx == Some(Override::DefaultEnvVar),
            r.linux == Some(Override::DefaultEnvVar),
            r.libc == Some(Override::DefaultEnvVar),
            r.cuda == Some(Override::DefaultEnvVar),
            r.archspec == Some(Override::DefaultEnvVar),
    {
        Self::all(Override::DefaultEnvVar)
    }
}

/// Everything the detection decision needs from the host, gathered by the
/// caller and handed in as plain values: the value of each override's
/// environment variable and each package's own host answer.
#[derive(Debug)]
pub struct DetectInputs {
    /// Whether the current platform is Unix-based.
    pub unix: bool,
    /// Value of the Windows package's override variable.
    pub win_env: EnvVarValue,
    /// Value of the OSX package's override variable.
    pub osx_env: EnvVarValue,
    /// Value of the Linux package's override variable.
    pub linux_env: EnvVarValue,
    /// Value of the C library package's override variable.
    pub libc_env: EnvVarValue,
    /// Value of the Cuda package's override variable.
    pub cuda_env: EnvVarValue,
    /// Value of the architecture package's override variable.
    pub archspec_env: EnvVarValue,
    /// The host's own answer for the Windows package.
    pub host_win: Result<Option<Windows>, DetectVirtualPackageError>,
    /// The host's own answer for the OSX package.
    pub host_osx: Result<Option<Osx>, DetectVirtualPackageError>,
    /// The host's own answer for the Linux package.
    pub host_linux: Result<Option<Linux>, DetectVirtualPackageError>,
    /// The host's own answer for the C library package.
    pub host_libc: Result<Option<LibC>, DetectVirtualPackageError>,
    /// The host's own answer for the Cuda package.
    pub host_cuda: Result<Option<Cuda>, DetectVirtualPackageError>,
    /// The host's own answer for the architecture package.
    pub host_archspec: Result<Option<Archspec>, DetectVirtualPackageError>,
}

/// Whether detecting every virtual package succeeds for the given
/// overrides and host inputs: each package follows its own route, and the
/// whole detection succeeds exactly when every route does.
pub open spec fn detect_inputs_ok(overrides: VirtualPackageOverrides, inputs: DetectInputs) -> bool {
    &&& (match overrides.win {
        Some(o) => route_ok(o, inputs.win_env, inputs.host_win is Ok, |t: Seq<u8>| Windows::parse_ok(t)),
        None => inputs.host_win is Ok,
    })
    &&& (match overrides.linux {
        Some(o) => route_ok(o, inputs.linux_env, inputs.host_linux is Ok, |t: Seq<u8>| Linux::parse_ok(t)),
        None => inputs.host_linux is Ok,
    })
    &&& (match overrides.osx {
        Some(o) => route_ok(o, inputs.osx_env, inputs.host_osx is Ok, |t: Seq<u8>| Osx::parse_ok(t)),
        None => inputs.host_osx is Ok,
    })
    &&& (match overrides.libc {
        Some(o) => route_ok(o, inputs.libc_env, inputs.host_libc is Ok, |t: Seq<u8>| LibC::parse_ok(t)),
        None => inputs.host_libc is Ok,
    })
    &&& (match overrides.cuda {
        Some(o) => route_ok(o, inputs.cuda_env, inputs.host_cuda is Ok, |t: Seq<u8>| Cuda::parse_ok(t)),
        None => inputs.host_cuda is Ok,
    })
    &&& (match overrides.archspec {
        Some(o) => route_ok(o, inputs.archspec_env, inputs.host_archspec is Ok, |t: Seq<u8>| Archspec::parse_ok(t)),
        None => inputs.host_archspec is Ok,
    })
}

impl VirtualPackages {
    /// Detects the virtual packages of a system: each package's override,
    /// the value of its environment variable and the host's own answer are
    /// combined as `EnvOverride::detect` states, and the first failure is
    /// reported. A package whose override is absent and whose variable the
    /// caller found missing keeps the host's answer.
    pub fn detect(overrides: &VirtualPackageOverrides, inputs: DetectInputs) -> (r: Result<VirtualPackages, DetectVirtualPackageError>)
        ensures
            r matches Ok(vp) ==> vp.unix == inputs.unix,
            r matches Ok(vp) ==> (overrides.win is None
                ==> (inputs.host_win matches Ok(w) ==> vp.win == w)),
            r matches Ok(vp) ==> (overrides.osx is None
                ==> (inputs.host_osx matches Ok(o) ==> vp.osx == o)),
            r matches Ok(vp) ==> (overrides.linux is None
                ==> (inputs.host_linux matches Ok(l) ==> vp.linux == l)),
            r matches Ok(vp) ==> (overrides.libc is None
                ==> (inputs.host_libc matches Ok(l) ==> vp.libc == l)),
            r matches Ok(vp) ==> (overrides.cuda is None
                ==> (inputs.host_cuda matches Ok(c) ==> vp.cuda == c)),
            r matches Ok(vp) ==> (overrides.archspec is None
                ==> (inputs.host_archspec matches Ok(a) ==> vp.archspec == a)),
            r is Ok <==> detect_inputs_ok(*overrides, inputs),
            r matches Ok(vp) ==> (overrides.win matches Some(o)
                ==> (override_text(o, inputs.win_env) matches Some(t)
                    ==> (vp.win is Some <==> t.len() > 0))),
            r matches Ok(vp) ==> (overrides.linux matches Some(o)
                ==> (override_text(o, inputs.linux_env) matches Some(t)
                    ==> (vp.linux is Some <==> t.len() > 0))),
            r matches Ok(vp) ==> (overrides.osx matches Some(o)
                ==> (override_text(o, inputs.osx_env) matches Some(t)
                    ==> (vp.osx is Some <==> t.len() > 0))),
            r matches Ok(vp) ==> (overrides.libc matches Some(o)
                ==> (override_text(o, inputs.libc_env) matches Some(t)
                    ==> (vp.libc is Some <==> t.len() > 0))),
            r matches Ok(vp) ==> (overrides.cuda matches Some(o)
                ==> (override_text(o, inputs.cuda_env) matches Some(t)
                    ==> (vp.cuda is Some <==> t.len() > 0))),
            r matches Ok(vp) ==> (overrides.archspec matches Some(o)
                ==> (override_text(o, inputs.archspec_env) matches Some(t)
                    ==> (vp.archspec is Some <==> t.len() > 0))),
            r matches Err(e) ==> (e is VarError || e is VersionParseError
                || (inputs.host_win matches Err(x) && x == e)
                || (inputs.host_linux matches Err(x) && x == e)
                || (inputs.host_osx matches Err(x) && x == e)
                || (inputs.host_libc matches Err(x) && x == e)
                || (inputs.host_cuda matches Err(x) && x == e)
                || (inputs.host_archspec matches Err(x) && x == e)),
    {
        let win = match Windows::detect(overrides.win.as_ref(), &inputs.win_env, inputs.host_win) {
            Ok(w) => w,
            Err(e) => { return Err(e); }
        };
        let linux = match Linux::detect(overrides.linux.as_ref(), &inputs.linux_env, inputs.host_linux) {
            Ok(l) => l,
            Err(e) => { return Err(e); }
        };
        let osx = match Osx::detect(overrides.osx.as_ref(), &inputs.osx_env, inputs.host_osx) {
            Ok(o) => o,
            Err(e) => { return Err(e); }
        };
        let libc = match LibC::detect(overrides.libc.as_ref(), &inputs.libc_env, inputs.host_libc) {
            Ok(l) => l,
            Err(e) => { return Err(e); }
        };
        let cuda = match Cuda::detect(overrides.cuda.as_ref(), &inputs.cuda_env, inputs.host_cuda) {
            Ok(c) => c,
            Err(e) => { return Err(e); }
        };
        let archspec = match Archspec::detect(overrides.archspec.as_ref(), &inputs.archspec_env, inputs.host_archspec) {
            Ok(a) => a,
            Err(e) => { return Err(e); }
        };
        Ok(VirtualPackages { win, unix: inputs.unix, linux, osx, libc, cuda, archspec })
    }
}

impl VirtualPackage {
    /// Detects the virtual packages of a system and unfolds the detected
    /// record into a vector, in the fixed field order; detection errors come
    /// through unchanged.
    pub fn detect(overrides: &VirtualPackageOverrides, inputs: DetectInputs) -> (r: Result<Vec<VirtualPackage>, DetectVirtualPackageError>)
        ensures
            r is Ok <==> detect_inputs_ok(*overrides, inputs),
            r matches Ok(packages) ==> packages@.len() <= 7,
            r matches Ok(packages) ==> (exists|vp: VirtualPackages|
                packages@ == virtual_package_seq(vp) && vp.unix == inputs.unix),
            r matches Err(e) ==> (e is VarError || e is VersionParseError
                || (inputs.host_win matches Err(x) && x == e)
                || (inputs.host_linux matches Err(x) && x == e)
                || (inputs.host_osx matches Err(x) && x == e)
                || (inputs.host_libc matches Err(x) && x == e)
                || (inputs.host_cuda matches Err(x) && x == e)
                || (inputs.host_archspec matches Err(x) && x == e)),
    {
        match VirtualPackages::detect(overrides, inputs) {
            Ok(vp) => {
                let ghost record = vp;
                let packages = vp.into_virtual_packages();
                proof {
                    assert(packages@ == virtual_package_seq(record) && record.unix == inputs.unix);
                }
                Ok(packages)
            }
            Err(e) => Err(e),
        }
    }

    /// Detects the virtual packages of a system with nothing overridden:
    /// every package keeps the host's answer, and detection succeeds exactly
    /// when every host answer does.
    pub fn current(inputs: DetectInputs) -> (r: Result<Vec<VirtualPackage>, DetectVirtualPackageError>)
        ensures
            r is Ok <==> (inputs.host_win is Ok && inputs.host_linux is Ok
                && inputs.host_osx is Ok && inputs.host_libc is Ok
                && inputs.host_cuda is Ok && inputs.host_archspec is Ok),
            r matches Ok(packages) ==> packages@.len() <= 7,
    {
        Self::detect(&VirtualPackageOverrides::default(), inputs)
    }
}

} // verus!
