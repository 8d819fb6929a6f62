use aws_lc::builder::bindings::{
    add_header_include_path, generate_bindings, generate_src_bindings, prepare_clang_args, Arg,
    BindingOptions,
};
use aws_lc::builder::command::{
    keep_output, CommandOutput, TestCommandResult, MAX_CMD_OUTPUT_SIZE,
};
use aws_lc::builder::env::{BuildEnv, Line, Transcript};
use aws_lc::builder::external::{
    detect_version, external_generate_src_bindings, invoke_external_bindgen, link_prefix_on,
    sym_prefix, verify_bindgen, version_args, ExternalBindgen, VersionVerdict, COPYRIGHT,
    INSTALL_HINT, PRELUDE,
};
use aws_lc::builder::paths::BuildPath;

fn env(variables: &[(&str, &str)]) -> BuildEnv {
    let mut env = BuildEnv::new();
    for (name, value) in variables {
        env.set(name.to_string(), value.to_string());
    }
    env
}

fn path(base: &str) -> BuildPath {
    BuildPath::new(base.to_owned())
}

fn shown_path(path: &BuildPath) -> String {
    let mut shown = path.base().clone();
    for part in path.parts() {
        shown.push('/');
        shown.push_str(part);
    }
    shown
}

fn shown_args(args: &[Arg]) -> Vec<String> {
    args.iter()
        .map(|arg| match arg {
            Arg::Text(text) => text.clone(),
            Arg::Path(path) | Arg::TextPath(path) => shown_path(path),
        })
        .collect()
}

fn shown(log: &Transcript) -> Vec<String> {
    log.lines()
        .iter()
        .map(|line| match line {
            Line::Stdout(text) => format!("out {text}"),
            Line::StdoutPath(text, path) => format!("out {text}{}", shown_path(path)),
            Line::Stderr(text) => format!("err {text}"),
        })
        .collect()
}

fn ran(stdout: &str, success: bool) -> TestCommandResult {
    TestCommandResult::from_output(Some(CommandOutput {
        stdout: stdout.as_bytes().to_vec(),
        stderr: b"trouble".to_vec(),
        success,
    }))
}

#[test]
fn output_of_a_command() {
    let result = ran("bindgen 0.72.1\n", true);
    assert_eq!(result.stdout, "bindgen 0.72.1\n");
    assert_eq!(result.stderr, "trouble");
    assert!(result.executed && result.status);
    let result = ran("", false);
    assert!(result.executed && !result.status);
}

#[test]
fn a_command_that_cannot_be_run_leaves_nothing() {
    let result = TestCommandResult::from_output(None);
    assert_eq!(result.stdout, "");
    assert_eq!(result.stderr, "");
    assert!(!result.executed && !result.status);
}

#[test]
fn output_is_cut_and_decoded() {
    assert_eq!(keep_output("grün".as_bytes().to_vec()), "grün");
    assert_eq!(keep_output(vec![b'a', 0xff]), "");
    assert_eq!(keep_output(vec![b'a'; MAX_CMD_OUTPUT_SIZE]).len(), 32768);
    assert_eq!(keep_output(vec![b'a'; MAX_CMD_OUTPUT_SIZE + 1]).len(), 32768);
    // A character that the limit cuts in two makes the rest no UTF-8.
    let mut cut = vec![b'a'; MAX_CMD_OUTPUT_SIZE - 1];
    cut.extend("é".as_bytes());
    assert_eq!(keep_output(cut), "");
    // Past the limit anything goes.
    let mut tail = vec![b'a'; MAX_CMD_OUTPUT_SIZE];
    tail.push(0xff);
    assert_eq!(keep_output(tail).len(), 32768);
}

#[test]
fn options_of_bindings() {
    let prefix = Some("p".to_owned());
    let o = generate_bindings(&prefix, true);
    assert_eq!((o.build_prefix.as_deref(), o.include_ssl, o.disable_prelude), (Some("p"), true, true));
    let o = generate_bindings(&None, false);
    assert_eq!((o.build_prefix.as_deref(), o.include_ssl, o.disable_prelude), (None, false, true));
    let o = generate_src_bindings(&prefix);
    assert_eq!((o.build_prefix.as_deref(), o.include_ssl, o.disable_prelude), (Some("p"), false, false));
    let o = o.clone();
    assert_eq!(
        format!("{o:?}"),
        "BindingOptions { build_prefix: Some(\"p\"), include_ssl: false, disable_prelude: false }"
    );
    let o = BindingOptions::default();
    assert_eq!((o.build_prefix, o.include_ssl, o.disable_prelude), (None, false, false));
}

#[test]
fn a_directory_of_headers_takes_two_arguments() {
    let mut args = vec![];
    add_header_include_path(&mut args, path("a"));
    add_header_include_path(&mut args, path("b").join("c"));
    assert_eq!(shown_args(&args), ["-I", "a", "-I", "b/c"]);
}

#[test]
fn clang_looks_for_prefixed_headers_where_there_is_a_prefix() {
    let mut log = Transcript::new();
    let options = generate_bindings(&Some("p".to_owned()), false);
    let args = prepare_clang_args(&path("/m"), &options, &env(&[]), &vec![], &mut log);
    assert_eq!(
        shown_args(&args),
        ["-I", "/m/include", "-I", "/m/generated-include", "-I", "/m/aws-lc/include"]
    );
    let options = generate_bindings(&None, false);
    let args = prepare_clang_args(&path("/m"), &options, &env(&[]), &vec![], &mut log);
    assert_eq!(shown_args(&args), ["-I", "/m/include", "-I", "/m/aws-lc/include"]);
    assert_eq!(shown(&log), ["out cargo:rerun-if-env-changed=AWS_LC_FIPS_SYS_INCLUDES"; 2]);
}

#[test]
fn clang_looks_in_the_listed_directories_last() {
    let listed = vec!["/x".to_owned(), "/y".to_owned()];
    let options = BindingOptions::default();
    let mut log = Transcript::new();
    let e = env(&[("AWS_LC_FIPS_SYS_INCLUDES", "/x:/y")]);
    let args = prepare_clang_args(&path("/m"), &options, &e, &listed, &mut log);
    assert_eq!(
        shown_args(&args),
        ["-I", "/m/include", "-I", "/m/aws-lc/include", "-I", "/x", "-I", "/y"]
    );
    let args = prepare_clang_args(&path("/m"), &options, &env(&[]), &listed, &mut log);
    assert_eq!(args.len(), 4);
}

#[test]
fn versions_are_detected() {
    assert_eq!(detect_version("bindgen 0.69.4\n"), (0, 69, 4));
    assert_eq!(detect_version("bindgen 1.2.3 (nightly)"), (1, 2, 3));
    assert_eq!(detect_version("bindgen 0.x.4"), (0, 0, 4));
    assert_eq!(detect_version("bindgen 0.69.4-rc1"), (0, 69, 0));
    assert_eq!(detect_version("bindgen 0.69"), (0, 0, 0));
    assert_eq!(detect_version("bindgen 0.69.4.1"), (0, 0, 0));
    assert_eq!(detect_version("bindgen  0.69.4"), (0, 0, 0));
    assert_eq!(detect_version("bindgen"), (0, 0, 0));
    assert_eq!(detect_version(""), (0, 0, 0));
    assert_eq!(detect_version("bindgen 0.4294967296.4"), (0, 0, 4));
}

#[test]
fn recent_versions_are_accepted_silently() {
    for stdout in ["bindgen 0.69.3", "bindgen 0.70.0", "bindgen 1.0.0\n"] {
        let mut log = Transcript::new();
        assert_eq!(verify_bindgen(&ran(stdout, true), &mut log), Ok(()));
        assert!(log.lines().is_empty(), "{stdout}");
    }
}

#[test]
fn old_versions_are_accepted_with_a_hint() {
    let mut log = Transcript::new();
    assert_eq!(verify_bindgen(&ran("bindgen 0.69.2\n", true), &mut log), Ok(()));
    assert_eq!(
        shown(&log),
        ["err bindgen-cli was used. Detected version was: 0.69.2 \n\
        If this is not the latest version, consider upgrading : \
        `cargo install --force --locked bindgen-cli`\
        \n\
        See our User Guide for more information about bindgen:\
        https://aws.github.io/aws-lc-rs/index.html"]
    );
    for stdout in ["bindgen 0.68.9", "nonsense", ""] {
        let mut log = Transcript::new();
        assert_eq!(verify_bindgen(&ran(stdout, true), &mut log), Ok(()));
        assert_eq!(log.lines().len(), 1, "{stdout}");
    }
}

#[test]
fn a_failed_bindgen_is_rejected() {
    let mut log = Transcript::new();
    let expected = Err("External bindgen command failed.".to_owned());
    assert_eq!(verify_bindgen(&ran("bindgen 0.72.1", false), &mut log), expected);
    assert!(log.lines().is_empty());
    assert_eq!(verify_bindgen(&TestCommandResult::from_output(None), &mut log), expected);
    assert_eq!(shown(&log), [format!("err {INSTALL_HINT}")]);
    assert_eq!(
        INSTALL_HINT,
        "Consider installing the bindgen-cli: \
            `cargo install --force --locked bindgen-cli`\
            \n\
            See our User Guide for more information about bindgen:\
            https://aws.github.io/aws-lc-rs/index.html"
    );
}

#[test]
fn symbols_get_an_underscore_where_the_platform_wants_it() {
    for (os, arch, expected) in [
        ("macos", "aarch64", "_p_"),
        ("macOS", "aarch64", "_p_"),
        ("IOS", "aarch64", "_p_"),
        ("windows", "x86", "_p_"),
        ("Windows", "x86_64", "p_"),
        ("linux", "x86", "p_"),
    ] {
        let e = env(&[("CARGO_CFG_TARGET_OS", os), ("CARGO_CFG_TARGET_ARCH", arch)]);
        assert_eq!(sym_prefix(&e, "p").unwrap(), expected, "{os} {arch}");
    }
}

#[test]
fn the_architecture_matters_on_windows_alone() {
    assert_eq!(sym_prefix(&env(&[]), "p").unwrap_err().name, "CARGO_CFG_TARGET_OS");
    let e = env(&[("CARGO_CFG_TARGET_OS", "windows")]);
    assert_eq!(sym_prefix(&e, "p").unwrap_err().name, "CARGO_CFG_TARGET_ARCH");
    let e = env(&[("CARGO_CFG_TARGET_OS", "linux")]);
    assert_eq!(sym_prefix(&e, "p").unwrap(), "p_");
    assert_eq!(link_prefix_on("ios", &env(&[]), "p").unwrap(), "_p_");
    assert_eq!(link_prefix_on("IOS", &env(&[]), "p").unwrap(), "p_");
}

#[test]
fn bindgen_is_asked_for_its_version() {
    assert_eq!(shown_args(&version_args()), ["--version"]);
}

#[test]
fn arguments_of_the_bindgen_command() {
    let options = generate_bindings(&Some("aws_lc_fips_0_13_4".to_owned()), true);
    let generation =
        invoke_external_bindgen(&path("/m"), &options, &path("/out").join("bindings.rs"));
    let e = env(&[
        ("TARGET", "aarch64-apple-darwin"),
        ("CARGO_CFG_TARGET_OS", "macos"),
        ("AWS_LC_FIPS_SYS_INCLUDES", "/x"),
    ]);
    let mut log = Transcript::new();
    let verdict =
        generation.after_version(&ran("bindgen 0.72.1", true), &e, &vec!["/x".to_owned()], &mut log);
    let args = match verdict {
        VersionVerdict::Run(args) => shown_args(&args),
        other => panic!("{other:?}"),
    };
    assert_eq!(
        args,
        [
            "--prefix-link-name",
            "_aws_lc_fips_0_13_4_",
            "--allowlist-file",
            r".*(/|\\)openssl((/|\\)[^/\\]+)+\.h",
            "--allowlist-file",
            r".*(/|\\)rust_wrapper\.h",
            "--rustified-enum",
            "point_conversion_form_t",
            "--default-macro-constant-type",
            "signed",
            "--with-derive-default",
            "--with-derive-partialeq",
            "--with-derive-eq",
            "--raw-line",
            COPYRIGHT,
            "--generate",
            "functions,types,vars,methods,constructors,destructors",
            "/m/include/rust_wrapper.h",
            "--rust-target",
            "1.59",
            "--output",
            "/out/bindings.rs",
            "--formatter",
            "rustfmt",
            "--",
            "-I",
            "/m/include",
            "-I",
            "/m/aws-lc/include",
            "-I",
            "/x",
            "-DAWS_LC_RUST_INCLUDE_SSL",
        ]
    );
    assert_eq!(
        shown(&log),
        [
            "out cargo:warning=Generating bindings - external bindgen. Platform: \
            'aarch64-apple-darwin' Prefix: 'Some(\"aws_lc_fips_0_13_4\")'",
            "out cargo:rerun-if-env-changed=AWS_LC_FIPS_SYS_INCLUDES",
        ]
    );
}

#[test]
fn the_output_has_to_be_text() {
    let generation =
        invoke_external_bindgen(&path("/m"), &BindingOptions::default(), &path("/out.rs"));
    let e = env(&[("TARGET", "t")]);
    let result = ran("bindgen 0.72.1", true);
    match generation.after_version(&result, &e, &vec![], &mut Transcript::new()) {
        VersionVerdict::Run(args) => {
            let exact: Vec<String> = args
                .iter()
                .filter_map(|arg| match arg {
                    Arg::TextPath(path) => Some(shown_path(path)),
                    _ => None,
                })
                .collect();
            assert_eq!(exact, ["/out.rs"]);
        }
        other => panic!("{other:?}"),
    }
}

#[test]
fn bindings_for_later_builds_have_a_prelude() {
    let generation = external_generate_src_bindings(&path("/m"), &None, &path("/m/src/x.rs"));
    let e = env(&[("TARGET", "x86_64-unknown-linux-gnu")]);
    let mut log = Transcript::new();
    let verdict = generation.after_version(&ran("bindgen 0.72.1", true), &e, &vec![], &mut log);
    let args = match verdict {
        VersionVerdict::Run(args) => shown_args(&args),
        other => panic!("{other:?}"),
    };
    assert_eq!(args[0], "--allowlist-file");
    assert_eq!(
        args[args.len() - 7..],
        ["--raw-line", PRELUDE, "--", "-I", "/m/include", "-I", "/m/aws-lc/include"]
    );
    assert!(PRELUDE.starts_with(&COPYRIGHT[..COPYRIGHT.len() - 1]));
    assert_eq!(
        shown(&log)[0],
        "out cargo:warning=Generating bindings - external bindgen. Platform: \
        'x86_64-unknown-linux-gnu' Prefix: 'None'"
    );
}

#[test]
fn a_version_that_cannot_be_used() {
    let options = generate_bindings(&Some("p".to_owned()), false);
    let generation = invoke_external_bindgen(&path("/m"), &options, &path("/out"));
    let mut log = Transcript::new();
    match generation.after_version(&ran("", false), &env(&[]), &vec![], &mut log) {
        VersionVerdict::Rejected(reason) => {
            assert_eq!(reason, "External bindgen command failed.");
        }
        other => panic!("{other:?}"),
    }
    match generation.after_version(&ran("bindgen 0.72.1", true), &env(&[]), &vec![], &mut log) {
        VersionVerdict::Missing(missing) => assert_eq!(missing.name, "TARGET"),
        other => panic!("{other:?}"),
    }
    assert!(log.lines().is_empty());
    let e = env(&[("TARGET", "t")]);
    match generation.after_version(&ran("bindgen 0.72.1", true), &e, &vec![], &mut log) {
        VersionVerdict::Missing(missing) => assert_eq!(missing.name, "CARGO_CFG_TARGET_OS"),
        other => panic!("{other:?}"),
    }
    assert_eq!(log.lines().len(), 2);
}

#[test]
fn outcome_of_the_bindgen_command() {
    let params = vec!["--output".to_owned(), "/out".to_owned()];
    assert_eq!(ExternalBindgen::after_run(&params, &ran("", true)), Ok(()));
    assert_eq!(
        ExternalBindgen::after_run(&params, &ran("text", false)),
        Err("\n\nbindgen-PARAMS: --output /out\nbindgen-STDOUT: text\nbindgen-STDERR: trouble"
            .to_owned())
    );
}
