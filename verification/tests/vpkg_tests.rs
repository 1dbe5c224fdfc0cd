use std::str::FromStr;

use rattler_conda_types::Version;
use rattler_pty::{
    archspec_name_for_platform, generic_name_text, Archspec, Cuda, DetectInputs,
    DetectVirtualPackageError, EnvOverride, EnvVarValue, LibC, Linux, Osx, Override, Platform,
    VirtualPackage, VirtualPackageOverrides, VirtualPackages, Windows,
};

fn empty_inputs() -> DetectInputs {
    DetectInputs {
        unix: true,
        win_env: EnvVarValue::Missing,
        osx_env: EnvVarValue::Missing,
        linux_env: EnvVarValue::Missing,
        libc_env: EnvVarValue::Missing,
        cuda_env: EnvVarValue::Missing,
        archspec_env: EnvVarValue::Missing,
        host_win: Ok(None),
        host_osx: Ok(None),
        host_linux: Ok(None),
        host_libc: Ok(None),
        host_cuda: Ok(None),
        host_archspec: Ok(None),
    }
}

#[test]
fn doesnt_crash() {
    let virtual_packages =
        VirtualPackages::detect(&VirtualPackageOverrides::default(), empty_inputs()).unwrap();
    println!("{virtual_packages:#?}");
}

#[test]
fn parse_libc() {
    let v = "1.23";
    let res = LibC {
        version: Version::from_str(v).unwrap(),
        family: "glibc".into(),
    };
    assert_eq!(
        LibC::detect(
            Some(&Override::EnvVar("GLIBC_VERSION_FOR_TEST".into())),
            &EnvVarValue::Present(v.into()),
            Ok(None),
        )
        .unwrap()
        .unwrap(),
        res
    );
    assert_eq!(
        LibC::detect(
            Some(&Override::EnvVar("GLIBC_VERSION_FOR_TEST".into())),
            &EnvVarValue::Present(String::new()),
            Ok(None),
        )
        .unwrap(),
        None
    );
    assert_eq!(
        LibC::detect_with_fallback(
            &Override::DefaultEnvVar,
            &EnvVarValue::Missing,
            Ok(Some(res.clone())),
        )
        .unwrap()
        .unwrap(),
        res
    );
    assert_eq!(
        LibC::detect_with_fallback(&Override::String(v.to_string()), &EnvVarValue::Missing, Ok(None))
            .unwrap()
            .unwrap(),
        res
    );
}

#[test]
fn parse_cuda() {
    let v = "1.234";
    let res = Cuda {
        version: Version::from_str(v).unwrap(),
    };
    assert_eq!(
        Cuda::detect(
            Some(&Override::EnvVar("CUDA_VERSION_FOR_TEST".into())),
            &EnvVarValue::Present(v.into()),
            Ok(None),
        )
        .unwrap()
        .unwrap(),
        res
    );
    assert_eq!(
        Cuda::detect(None, &EnvVarValue::Missing, Ok(None)).unwrap(),
        None
    );
    assert_eq!(
        Cuda::detect(
            Some(&Override::String(v.to_string())),
            &EnvVarValue::Missing,
            Ok(None),
        )
        .unwrap()
        .unwrap(),
        res
    );
}

#[test]
fn parse_osx() {
    let v = "2.345";
    let res = Osx {
        version: Version::from_str(v).unwrap(),
    };
    assert_eq!(
        Osx::detect(
            Some(&Override::EnvVar("OSX_VERSION_FOR_TEST".into())),
            &EnvVarValue::Present(v.into()),
            Ok(None),
        )
        .unwrap()
        .unwrap(),
        res
    );
}

#[test]
fn an_empty_override_text_parses_as_no_version() {
    assert_eq!(Linux::parse_version_opt("").unwrap(), None);
    assert!(matches!(
        Linux::parse_version(""),
        Err(DetectVirtualPackageError::VersionParseError)
    ));
}

#[test]
fn an_unreadable_override_variable_is_an_error() {
    assert_eq!(
        Windows::detect(
            Some(&Override::DefaultEnvVar),
            &EnvVarValue::NotUnicode,
            Ok(None),
        ),
        Err(DetectVirtualPackageError::VarError)
    );
}

#[test]
fn detection_keeps_the_host_answer_without_an_override() {
    let host = Linux {
        version: Version::from_str("6.1").unwrap(),
    };
    assert_eq!(
        Linux::detect(None, &EnvVarValue::Missing, Ok(Some(host.clone()))).unwrap(),
        Some(host)
    );
}

#[test]
fn unfolding_keeps_the_present_packages_in_field_order() {
    let vp = VirtualPackages {
        win: None,
        unix: true,
        linux: Some(Linux {
            version: Version::from_str("5.10").unwrap(),
        }),
        osx: None,
        libc: Some(LibC {
            family: "glibc".into(),
            version: Version::from_str("2.35").unwrap(),
        }),
        cuda: None,
        archspec: None,
    };
    let unfolded = vp.clone().into_virtual_packages();
    assert_eq!(unfolded.len(), 3);
    assert!(matches!(unfolded[0], VirtualPackage::Unix));
    assert!(matches!(unfolded[1], VirtualPackage::Linux(_)));
    assert!(matches!(unfolded[2], VirtualPackage::LibC(_)));
    let generics = vp.into_generic_virtual_packages();
    assert_eq!(generics.len(), 3);
    assert_eq!(generics[0].name.as_normalized(), "__unix");
    assert_eq!(generics[0].build_string, "0");
    assert_eq!(generics[1].name.as_normalized(), "__linux");
    assert_eq!(
        generics[1].version,
        Version::from_str("5.10").unwrap()
    );
    assert_eq!(generics[2].name.as_normalized(), "__glibc");
}

#[test]
fn generic_names_lowercase_the_libc_family() {
    let pkg = VirtualPackage::LibC(LibC {
        family: "GLIBC".into(),
        version: Version::from_str("2.35").unwrap(),
    });
    assert_eq!(generic_name_text(&pkg), "__glibc");
    assert_eq!(
        generic_name_text(&VirtualPackage::Cuda(Cuda {
            version: Version::from_str("12").unwrap(),
        })),
        "__cuda"
    );
}

#[test]
fn platform_architecture_names_match_the_table() {
    assert_eq!(archspec_name_for_platform(Platform::Linux64), Some("x86_64"));
    assert_eq!(archspec_name_for_platform(Platform::Win32), Some("x86"));
    assert_eq!(archspec_name_for_platform(Platform::OsxArm64), Some("m1"));
    assert_eq!(archspec_name_for_platform(Platform::WinArm64), Some("aarch64"));
    assert_eq!(archspec_name_for_platform(Platform::NoArch), None);
    assert_eq!(archspec_name_for_platform(Platform::ZosZ), None);
}

#[test]
fn known_architecture_names_resolve_to_the_table_entry() {
    let known = Archspec::from_name("x86_64");
    assert_eq!(known.as_str(), "x86_64");
    let generic = Archspec::from_name("made_up_arch");
    assert_eq!(generic.as_str(), "made_up_arch");
    assert_eq!(Archspec::Unknown.as_str(), "0");
}

#[test]
fn a_zero_digit_override_disables_the_architecture() {
    assert!(matches!(
        Archspec::parse_version("0"),
        Ok(Archspec::Unknown)
    ));
    assert!(matches!(
        Archspec::parse_version("m1"),
        Ok(Archspec::Microarchitecture(_))
    ));
}

#[test]
fn all_overrides_share_the_one_value() {
    let overrides = VirtualPackageOverrides::all(Override::String("9.9".into()));
    let expected = Some(Override::String("9.9".into()));
    assert_eq!(overrides.win, expected);
    assert_eq!(overrides.osx, expected);
    assert_eq!(overrides.linux, expected);
    assert_eq!(overrides.libc, expected);
    assert_eq!(overrides.cuda, expected);
    assert_eq!(overrides.archspec, expected);
    let from_env = VirtualPackageOverrides::from_env();
    assert_eq!(from_env.win, Some(Override::DefaultEnvVar));
    assert_eq!(from_env.archspec, Some(Override::DefaultEnvVar));
}

#[test]
fn default_env_names_follow_the_convention() {
    assert_eq!(Linux::default_env_name(), "CONDA_OVERRIDE_LINUX");
    assert_eq!(LibC::default_env_name(), "CONDA_OVERRIDE_GLIBC");
    assert_eq!(Cuda::default_env_name(), "CONDA_OVERRIDE_CUDA");
    assert_eq!(Osx::default_env_name(), "CONDA_OVERRIDE_OSX");
    assert_eq!(Windows::default_env_name(), "CONDA_OVERRIDE_WIN");
    assert_eq!(Archspec::default_env_name(), "CONDA_OVERRIDE_ARCHSPEC");
}

#[test]
fn overridden_detection_beats_the_host_answer() {
    let host = Cuda {
        version: Version::from_str("11.0").unwrap(),
    };
    let overridden = Cuda::detect(
        Some(&Override::String("12.5".into())),
        &EnvVarValue::Missing,
        Ok(Some(host)),
    )
    .unwrap()
    .unwrap();
    assert_eq!(overridden.version, Version::from_str("12.5").unwrap());
}

#[test]
fn an_unreadable_variable_fails_the_whole_detection() {
    let mut inputs = empty_inputs();
    inputs.libc_env = EnvVarValue::NotUnicode;
    let mut overrides = VirtualPackageOverrides::default();
    overrides.libc = Some(Override::DefaultEnvVar);
    assert!(matches!(
        VirtualPackages::detect(&overrides, inputs),
        Err(DetectVirtualPackageError::VarError)
    ));
}

#[test]
fn detect_unfolds_the_overridden_packages() {
    let mut overrides = VirtualPackageOverrides::default();
    overrides.cuda = Some(Override::String("12.5".into()));
    let packages = VirtualPackage::detect(&overrides, empty_inputs()).unwrap();
    assert_eq!(packages.len(), 2);
    assert!(matches!(packages[0], VirtualPackage::Unix));
    match &packages[1] {
        VirtualPackage::Cuda(c) => {
            assert_eq!(c.version, Version::from_str("12.5").unwrap());
        }
        other => panic!("expected the cuda package, got {other:?}"),
    }
    let mut bad = VirtualPackageOverrides::default();
    bad.linux = Some(Override::String("not a @version@!".into()));
    assert!(matches!(
        VirtualPackage::detect(&bad, empty_inputs()),
        Err(DetectVirtualPackageError::VersionParseError)
    ));
}

#[test]
fn parsed_libc_overrides_always_carry_the_glibc_family() {
    let parsed = LibC::parse_override_text("2.41").unwrap();
    assert_eq!(parsed.family, "glibc");
    assert_eq!(parsed.version, Version::from_str("2.41").unwrap());
    assert_eq!(
        LibC::parse_override_text(""),
        Err(DetectVirtualPackageError::VersionParseError)
    );
}

#[test]
fn the_default_record_holds_nothing() {
    let vp = VirtualPackages::default();
    assert!(vp.win.is_none());
    assert!(!vp.unix);
    assert!(vp.linux.is_none());
    assert!(vp.osx.is_none());
    assert!(vp.libc.is_none());
    assert!(vp.cuda.is_none());
    assert!(vp.archspec.is_none());
    assert_eq!(vp.into_virtual_packages().len(), 0);
}
