use aws_lc::builder::env::{BuildEnv, Line, Transcript};
use aws_lc::builder::libs::{prefix_string, OutputLib, OutputLibType};
use aws_lc::builder::settings::{
    initialize, prepare_cargo_cfg, supported_platform, Features, Settings, GO_FLAGS_NAME,
    GO_FLAGS_VALUE,
};

fn env(variables: &[(&str, &str)]) -> BuildEnv {
    let mut env = BuildEnv::new();
    for (name, value) in variables {
        env.set(name.to_string(), value.to_string());
    }
    env
}

fn stdout(log: &Transcript) -> Vec<String> {
    log.lines()
        .iter()
        .filter_map(|line| match line {
            Line::Stdout(text) => Some(text.clone()),
            _ => None,
        })
        .collect()
}

fn lib_type(variables: &[(&str, &str)]) -> Result<OutputLibType, String> {
    OutputLibType::default(&env(variables), &mut Transcript::new()).map_err(|missing| missing.name)
}

const PLAIN: Features = Features { bindgen: false, ssl: false };

fn settings(variables: &[(&str, &str)], features: Features) -> Settings {
    initialize(&env(variables), features, &mut Transcript::new()).unwrap()
}

#[test]
fn linkage_follows_the_switch() {
    assert_eq!(lib_type(&[("AWS_LC_FIPS_SYS_STATIC", "ON")]), Ok(OutputLibType::Static));
    assert_eq!(
        lib_type(&[
            ("AWS_LC_FIPS_SYS_STATIC", "0"),
            ("CARGO_CFG_TARGET_OS", "linux"),
            ("CARGO_CFG_TARGET_ARCH", "x86_64"),
        ]),
        Ok(OutputLibType::Dynamic)
    );
}

#[test]
fn linkage_follows_the_target() {
    for (os, arch, expected) in [
        ("linux", "x86_64", OutputLibType::Static),
        ("linux", "aarch64", OutputLibType::Static),
        ("freebsd", "aarch64", OutputLibType::Static),
        ("openbsd", "x86_64", OutputLibType::Static),
        ("linux", "x86", OutputLibType::Dynamic),
        ("Linux", "x86_64", OutputLibType::Dynamic),
        ("macos", "aarch64", OutputLibType::Dynamic),
        ("windows", "x86_64", OutputLibType::Dynamic),
    ] {
        let variables = [("CARGO_CFG_TARGET_OS", os), ("CARGO_CFG_TARGET_ARCH", arch)];
        assert_eq!(lib_type(&variables), Ok(expected), "{os} {arch}");
    }
}

#[test]
fn linkage_asks_for_what_it_needs() {
    assert_eq!(lib_type(&[]), Err("CARGO_CFG_TARGET_OS".to_owned()));
    assert_eq!(
        lib_type(&[("CARGO_CFG_TARGET_OS", "linux")]),
        Err("CARGO_CFG_TARGET_ARCH".to_owned())
    );
    assert_eq!(lib_type(&[("CARGO_CFG_TARGET_OS", "macos")]), Ok(OutputLibType::Dynamic));
    assert_eq!(
        lib_type(&[("AWS_LC_FIPS_SYS_STATIC", "?"), ("CARGO_CFG_TARGET_OS", "macos")]),
        Ok(OutputLibType::Dynamic)
    );
}

#[test]
fn names_of_linkages() {
    assert_eq!(OutputLibType::Static.rust_lib_type(), "static");
    assert_eq!(OutputLibType::Dynamic.rust_lib_type(), "dylib");
}

#[test]
fn names_of_libraries() {
    let prefix = Some("aws_lc_fips_0_13_0".to_owned());
    assert_eq!(OutputLib::Crypto.libname(&prefix), "aws_lc_fips_0_13_0_crypto");
    assert_eq!(OutputLib::Ssl.libname(&prefix), "aws_lc_fips_0_13_0_ssl");
    assert_eq!(OutputLib::RustWrapper.libname(&prefix), "aws_lc_fips_0_13_0_rust_wrapper");
    assert_eq!(OutputLib::Crypto.libname(&None), "crypto");
    assert_eq!(OutputLib::Ssl.libname(&None), "ssl");
    assert_eq!(OutputLib::RustWrapper.libname(&None), "rust_wrapper");
}

#[test]
fn symbol_prefix_of_a_version() {
    assert_eq!(prefix_string("0.13.4"), "aws_lc_fips_0_13_4");
    assert_eq!(prefix_string("1.0.0-rc.1"), "aws_lc_fips_1_0_0-rc_1");
}

#[test]
fn platforms_with_bindings_made_in_advance() {
    for triple in [
        "x86_64-unknown-linux-gnu",
        "aarch64-unknown-linux-gnu",
        "x86_64-unknown-linux-musl",
        "aarch64-unknown-linux-musl",
        "x86_64-apple-darwin",
        "aarch64-apple-darwin",
    ] {
        assert!(supported_platform(triple));
    }
    for triple in ["", "i686-unknown-linux-gnu", "x86_64-pc-windows-msvc", "x86_64_apple_darwin"] {
        assert!(!supported_platform(triple));
    }
}

#[test]
fn settings_without_switches() {
    let mut log = Transcript::new();
    let s = initialize(&env(&[("TARGET", "x86_64-alpine-linux-musl")]), PLAIN, &mut log).unwrap();
    assert_eq!(
        s,
        Settings {
            no_prefix: false,
            pregenerating_bindings: false,
            external_bindgen: false,
            no_asm: false,
            cpu_jitter_entropy: false,
            pregenerated: true,
        }
    );
    assert_eq!(
        stdout(&log),
        [
            "cargo:rerun-if-env-changed=AWS_LC_FIPS_SYS_NO_PREFIX",
            "cargo:rerun-if-env-changed=AWS_LC_FIPS_SYS_PREGENERATING_BINDINGS",
            "cargo:rerun-if-env-changed=AWS_LC_FIPS_SYS_EXTERNAL_BINDGEN",
            "cargo:rerun-if-env-changed=AWS_LC_FIPS_SYS_NO_ASM",
            "cargo:rerun-if-env-changed=AWS_LC_FIPS_SYS_CPU_JITTER_ENTROPY",
            "cargo:rustc-cfg=x86_64_unknown_linux_musl",
        ]
    );
    assert!(!s.is_bindgen_required(PLAIN));
}

#[test]
fn every_switch_reaches_its_setting() {
    let s = settings(
        &[
            ("AWS_LC_FIPS_SYS_NO_PREFIX", "1"),
            ("AWS_LC_FIPS_SYS_NO_ASM", "yes"),
            ("TARGET", "x86_64-apple-darwin"),
        ],
        PLAIN,
    );
    assert!(s.is_no_prefix() && s.is_no_asm());
    assert!(!s.is_external_bindgen() && !s.is_cpu_jitter_entropy());
    assert!(!s.has_pregenerated() && !s.is_pregenerating_bindings());
    let s = settings(
        &[
            ("AWS_LC_FIPS_SYS_EXTERNAL_BINDGEN", "on"),
            ("AWS_LC_FIPS_SYS_CPU_JITTER_ENTROPY", "TRUE"),
            ("AWS_LC_FIPS_SYS_PREGENERATING_BINDINGS", "yes"),
            ("TARGET", "x86_64-apple-darwin"),
        ],
        PLAIN,
    );
    assert!(!s.is_no_prefix() && !s.is_no_asm());
    assert!(s.is_external_bindgen() && s.is_cpu_jitter_entropy());
    assert!(s.has_pregenerated() && s.is_pregenerating_bindings());
}

#[test]
fn the_target_is_asked_for_only_where_it_matters() {
    let missing = initialize(&env(&[]), PLAIN, &mut Transcript::new()).unwrap_err();
    assert_eq!(missing.name, "TARGET");
    let s = settings(&[], Features { bindgen: true, ssl: false });
    assert!(!s.has_pregenerated());
    let s = settings(&[], Features { bindgen: false, ssl: true });
    assert!(!s.has_pregenerated());
}

#[test]
fn bindings_are_generated_wherever_something_asks_for_them() {
    let target = ("TARGET", "aarch64-unknown-linux-gnu");
    assert!(!settings(&[target], PLAIN).is_bindgen_required(PLAIN));
    for switch in [
        "AWS_LC_FIPS_SYS_NO_PREFIX",
        "AWS_LC_FIPS_SYS_EXTERNAL_BINDGEN",
        "AWS_LC_FIPS_SYS_PREGENERATING_BINDINGS",
    ] {
        assert!(settings(&[target, (switch, "1")], PLAIN).is_bindgen_required(PLAIN), "{switch}");
    }
    for features in [Features { bindgen: true, ssl: false }, Features { bindgen: false, ssl: true }]
    {
        assert!(settings(&[target], features).is_bindgen_required(features));
    }
    let elsewhere = [("TARGET", "i686-unknown-linux-gnu")];
    assert!(settings(&elsewhere, PLAIN).is_bindgen_required(PLAIN));
}

#[test]
fn features_are_told() {
    assert!(Features { bindgen: true, ssl: false }.has_bindgen_feature());
    assert!(!Features { bindgen: false, ssl: true }.has_bindgen_feature());
}

#[test]
fn cfg_flags_are_declared_under_clippy() {
    let mut log = Transcript::new();
    prepare_cargo_cfg(false, &mut log);
    assert!(log.lines().is_empty());
    prepare_cargo_cfg(true, &mut log);
    let lines = stdout(&log);
    assert_eq!(lines.len(), 9);
    assert_eq!(lines[0], "cargo:rustc-check-cfg=cfg(aarch64_apple_darwin)");
    assert_eq!(lines[5], "cargo:rustc-check-cfg=cfg(use_bindgen_generated)");
    assert_eq!(lines[8], "cargo:rustc-check-cfg=cfg(x86_64_unknown_linux_musl)");
}

#[test]
fn flags_for_go() {
    assert_eq!((GO_FLAGS_NAME, GO_FLAGS_VALUE), ("GOFLAGS", "-buildvcs=false"));
}
