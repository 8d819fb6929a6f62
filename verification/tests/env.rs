use aws_lc::builder::env::{
    cargo_env, effective_target, emit_rustc_cfg, emit_warning, env_var_to_bool, optional_env,
    parse_switch, target, target_arch, target_env, target_family, target_os,
    target_platform_prefix, target_underscored, target_vendor, BuildEnv, Line, Transcript,
};
use aws_lc::builder::paths::BuildPath;

fn env(variables: &[(&str, &str)]) -> BuildEnv {
    let mut env = BuildEnv::new();
    for (name, value) in variables {
        env.set(name.to_string(), value.to_string());
    }
    env
}

fn shown(log: &Transcript) -> Vec<String> {
    log.lines()
        .iter()
        .map(|line| match line {
            Line::Stdout(text) => format!("out {text}"),
            Line::StdoutPath(text, path) => {
                format!("out {text}{}|{}", path.base(), path.parts().join("|"))
            }
            Line::Stderr(text) => format!("err {text}"),
        })
        .collect()
}

fn switch(value: &str) -> Option<bool> {
    let mut log = Transcript::new();
    env_var_to_bool(&env(&[("SWITCH", value)]), "SWITCH", &mut log)
}

#[test]
fn later_assignments_win() {
    let mut e = BuildEnv::new();
    assert_eq!(e.get("A"), None);
    e.set("A".to_owned(), "1".to_owned());
    e.set("B".to_owned(), "2".to_owned());
    e.set("A".to_owned(), "3".to_owned());
    assert_eq!(e.get("A"), Some("3".to_owned()));
    assert_eq!(e.get("B"), Some("2".to_owned()));
    assert_eq!(e.get("a"), None);
}

#[test]
fn missing_variables_are_named() {
    let e = env(&[("OUT_DIR", "/out")]);
    assert_eq!(cargo_env(&e, "OUT_DIR").unwrap(), "/out");
    assert_eq!(cargo_env(&e, "TARGET").unwrap_err().name, "TARGET");
    assert_eq!(target(&e).unwrap_err().name, "TARGET");
    assert_eq!(target_family(&e).unwrap_err().name, "CARGO_CFG_TARGET_FAMILY");
    assert_eq!(target_os(&e).unwrap_err().name, "CARGO_CFG_TARGET_OS");
    assert_eq!(target_arch(&e).unwrap_err().name, "CARGO_CFG_TARGET_ARCH");
    assert_eq!(target_env(&e).unwrap_err().name, "CARGO_CFG_TARGET_ENV");
    assert_eq!(target_vendor(&e).unwrap_err().name, "CARGO_CFG_TARGET_VENDOR");
    assert_eq!(effective_target(&e).unwrap_err().name, "TARGET");
    assert_eq!(target_underscored(&e).unwrap_err().name, "TARGET");
    assert_eq!(target_platform_prefix(&e, "crypto").unwrap_err().name, "TARGET");
}

#[test]
fn target_variables_are_read() {
    let e = env(&[
        ("CARGO_CFG_TARGET_FAMILY", "unix"),
        ("CARGO_CFG_TARGET_OS", "linux"),
        ("CARGO_CFG_TARGET_ARCH", "x86_64"),
        ("CARGO_CFG_TARGET_ENV", "gnu"),
        ("CARGO_CFG_TARGET_VENDOR", "unknown"),
        ("TARGET", "x86_64-unknown-linux-gnu"),
    ]);
    assert_eq!(target_family(&e).unwrap(), "unix");
    assert_eq!(target_os(&e).unwrap(), "linux");
    assert_eq!(target_arch(&e).unwrap(), "x86_64");
    assert_eq!(target_env(&e).unwrap(), "gnu");
    assert_eq!(target_vendor(&e).unwrap(), "unknown");
    assert_eq!(target(&e).unwrap(), "x86_64-unknown-linux-gnu");
}

#[test]
fn optional_variables_ask_for_a_rerun() {
    let mut log = Transcript::new();
    let e = env(&[("A", "x")]);
    assert_eq!(optional_env(&e, "A", &mut log), Some("x".to_owned()));
    assert_eq!(optional_env(&e, "B", &mut log), None);
    assert_eq!(
        shown(&log),
        ["out cargo:rerun-if-env-changed=A", "out cargo:rerun-if-env-changed=B"]
    );
}

#[test]
fn switches_that_say_no() {
    for value in ["0", "01", "no", "N", "nope", "off", "OFF", "Official", "f", "FALSE"] {
        assert_eq!(switch(value), Some(false), "{value}");
    }
}

#[test]
fn switches_that_say_yes() {
    for value in ["1", "9lives", "yes", "Y", "on", "ON", "Online", "t", "TRUE"] {
        assert_eq!(switch(value), Some(true), "{value}");
    }
}

#[test]
fn case_does_not_matter_to_a_switch() {
    for spellings in [["OFF", "Off", "off"], ["ON", "oN", "on"], ["MAYBE", "Maybe", "maybe"]] {
        assert_eq!(switch(spellings[0]), switch(spellings[2]));
        assert_eq!(switch(spellings[1]), switch(spellings[2]));
    }
}

#[test]
fn switches_with_other_characters_are_lowered_as_unicode_says() {
    for value in [
        "OFFÉ", "offé", "ÖN", "Yé", "NÉ", "É", "\u{130}", "O\u{130}", "ΟΝ", "ON\u{212a}", "TΣ",
        "ΣT", "AΣ", "\u{212a}ON", "\u{ff2f}n", "1é", "OΣ", "fΣb",
    ] {
        let lowered = value.to_lowercase();
        assert_eq!(switch(value), parse_switch(&lowered), "{value}");
    }
}

#[test]
fn switches_that_say_nothing() {
    for value in ["", "o", "of", "-1", " yes", "maybe", "٣"] {
        assert_eq!(switch(value), None, "{value}");
    }
    assert_eq!(env_var_to_bool(&BuildEnv::new(), "SWITCH", &mut Transcript::new()), None);
}

#[test]
fn parsing_a_switch_does_not_change_its_case() {
    assert_eq!(parse_switch("off"), Some(false));
    assert_eq!(parse_switch("OFF"), None);
    assert_eq!(parse_switch("on"), Some(true));
}

#[test]
fn reading_a_switch_is_reported() {
    let mut log = Transcript::new();
    let e = env(&[("A", "YES"), ("B", "no"), ("C", "Perhaps")]);
    env_var_to_bool(&e, "A", &mut log);
    env_var_to_bool(&e, "B", &mut log);
    env_var_to_bool(&e, "C", &mut log);
    env_var_to_bool(&e, "D", &mut log);
    assert_eq!(
        shown(&log),
        [
            "out cargo:rerun-if-env-changed=A",
            "err Evaluating: A='YES'",
            "err Parsed: A=true",
            "out cargo:rerun-if-env-changed=B",
            "err Evaluating: B='no'",
            "err Parsed: B=false",
            "out cargo:rerun-if-env-changed=C",
            "err Evaluating: C='Perhaps'",
            "err Parsed: C=unknown",
            "out cargo:rerun-if-env-changed=D",
        ]
    );
}

#[test]
fn directives() {
    let mut log = Transcript::new();
    emit_rustc_cfg("x86_64-unknown-linux-gnu", &mut log);
    emit_warning("Building with: CMake", &mut log);
    log.stderr("oops".to_owned());
    log.stdout_path("cargo:include=".to_owned(), BuildPath::new("/out".to_owned()).join("include"));
    assert_eq!(
        shown(&log),
        [
            "out cargo:rustc-cfg=x86_64_unknown_linux_gnu",
            "out cargo:warning=Building with: CMake",
            "err oops",
            "out cargo:include=/out|include",
        ]
    );
}

#[test]
fn alpine_triples_are_generic_musl_triples() {
    let named = |triple: &str| effective_target(&env(&[("TARGET", triple)])).unwrap();
    assert_eq!(named("x86_64-alpine-linux-musl"), "x86_64-unknown-linux-musl");
    assert_eq!(named("aarch64-alpine-linux-musl"), "aarch64-unknown-linux-musl");
    assert_eq!(named("riscv64-alpine-linux-musl"), "riscv64-alpine-linux-musl");
    assert_eq!(named("x86_64-apple-darwin"), "x86_64-apple-darwin");
}

#[test]
fn effective_triples_are_stable() {
    for triple in ["x86_64-alpine-linux-musl", "aarch64-alpine-linux-musl", "x86_64-pc-windows-msvc"]
    {
        let once = effective_target(&env(&[("TARGET", triple)])).unwrap();
        let twice = effective_target(&env(&[("TARGET", &once)])).unwrap();
        assert_eq!(once, twice);
    }
}

#[test]
fn names_of_platforms() {
    let e = env(&[("TARGET", "aarch64-alpine-linux-musl")]);
    assert_eq!(target_underscored(&e).unwrap(), "aarch64_unknown_linux_musl");
    assert_eq!(
        target_platform_prefix(&e, "crypto").unwrap(),
        "aarch64_unknown_linux_musl_crypto"
    );
}
