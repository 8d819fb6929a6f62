use aws_lc::builder::bindings::Arg;
use aws_lc::builder::command::{CommandOutput, TestCommandResult};
use aws_lc::builder::env::{BuildEnv, Line, Transcript};
use aws_lc::builder::libs::{OutputLib, OutputLibType};
use aws_lc::builder::paths::{
    get_aws_lc_fips_sys_includes_path, get_aws_lc_include_path, get_generated_include_path,
    get_rust_include_path, header_copy, out_dir, setup_include_paths, BuildPath, HeaderCopy,
};
use aws_lc::builder::plan::{
    conf_defines, get_builder, Build, CmakeSettings, Event, Failure, Request, Stage,
};
use aws_lc::builder::settings::Features;

const PLAIN: Features = Features { bindgen: false, ssl: false };
const BINDGEN: Features = Features { bindgen: true, ssl: false };

fn env(variables: &[(&str, &str)]) -> BuildEnv {
    let mut env = BuildEnv::new();
    env.set("OUT_DIR".to_owned(), "/out".to_owned());
    env.set("TARGET".to_owned(), "x86_64-unknown-linux-gnu".to_owned());
    env.set("CARGO_CFG_TARGET_OS".to_owned(), "linux".to_owned());
    env.set("CARGO_CFG_TARGET_ARCH".to_owned(), "x86_64".to_owned());
    for (name, value) in variables {
        env.set(name.to_string(), value.to_string());
    }
    env
}

fn path(base: &str) -> BuildPath {
    BuildPath::new(base.to_owned())
}

fn shown_path(path: &BuildPath) -> String {
    let mut shown = path.base().clone();
    for part in path.parts() {
        shown.push('/');
        shown.push_str(part);
    }
    shown
}

fn shown(log: &Transcript) -> Vec<String> {
    log.lines()
        .iter()
        .map(|line| match line {
            Line::Stdout(text) => format!("out {text}"),
            Line::StdoutPath(text, path) => format!("out {text}{}", shown_path(path)),
            Line::Stderr(text) => format!("err {text}"),
        })
        .collect()
}

fn try_start(
    env: BuildEnv,
    features: Features,
    bindgen_library: bool,
    log: &mut Transcript,
) -> Result<(Build, CmakeSettings), String> {
    Build::start(
        env,
        features,
        false,
        bindgen_library,
        "0.13.4".to_owned(),
        path("/m"),
        vec!["/x".to_owned()],
        log,
    )
    .map_err(|missing| missing.name)
}

fn start(variables: &[(&str, &str)], features: Features, bindgen_library: bool) -> Build {
    try_start(env(variables), features, bindgen_library, &mut Transcript::new()).unwrap().0
}

fn step(build: &mut Build, event: Event, log: &mut Transcript) -> Request {
    assert!(build.is_awaited(&event), "{:?} {event:?}", build.stage());
    build.step(event, log)
}

fn next(build: &mut Build, event: Event) -> Request {
    step(build, event, &mut Transcript::new())
}

fn ran(stdout: &str, success: bool) -> Event {
    Event::Ran(
        vec!["a".to_owned(), "b".to_owned()],
        TestCommandResult::from_output(Some(CommandOutput {
            stdout: stdout.as_bytes().to_vec(),
            stderr: vec![],
            success,
        })),
    )
}

fn is_version_query(request: &Request) -> bool {
    match request {
        Request::RunBindgen(args) => {
            args.len() == 1 && matches!(&args[0], Arg::Text(text) if text == "--version")
        }
        _ => false,
    }
}

#[test]
fn directories_of_a_package() {
    let m = path("/m");
    assert_eq!(shown_path(&get_rust_include_path(&m)), "/m/include");
    assert_eq!(shown_path(&get_generated_include_path(&m)), "/m/generated-include");
    assert_eq!(shown_path(&get_aws_lc_include_path(&m)), "/m/aws-lc/include");
    assert_eq!(m.parts().len(), 0);
}

#[test]
fn output_directory() {
    assert_eq!(shown_path(&out_dir(&env(&[])).unwrap()), "/out");
    assert_eq!(out_dir(&BuildEnv::new()).unwrap_err().name, "OUT_DIR");
}

#[test]
fn listed_directories_count_where_the_variable_is_set() {
    let listed = vec!["/x".to_owned(), "/y".to_owned()];
    let mut log = Transcript::new();
    assert!(get_aws_lc_fips_sys_includes_path(&env(&[]), &listed, &mut log).is_none());
    let e = env(&[("AWS_LC_FIPS_SYS_INCLUDES", "")]);
    let paths = get_aws_lc_fips_sys_includes_path(&e, &listed, &mut log).unwrap();
    let paths: Vec<String> = paths.iter().map(shown_path).collect();
    assert_eq!(paths, ["/x", "/y"]);
    assert_eq!(shown(&log), ["out cargo:rerun-if-env-changed=AWS_LC_FIPS_SYS_INCLUDES"; 2]);
}

#[test]
fn headers_are_gathered_in_order() {
    let e = env(&[("AWS_LC_FIPS_SYS_INCLUDES", "/x")]);
    let mut log = Transcript::new();
    let setup =
        setup_include_paths(&path("/out"), &path("/m"), &e, &vec!["/x".to_owned()], &mut log);
    assert_eq!(shown_path(&setup.include_dir), "/out/include");
    let sources: Vec<String> = setup.sources.iter().map(shown_path).collect();
    assert_eq!(sources, ["/m/include", "/m/generated-include", "/m/aws-lc/include", "/x"]);
}

#[test]
fn only_plain_files_replace() {
    assert_eq!(header_copy(Some(true)), HeaderCopy::ReplaceFile);
    let directory = HeaderCopy::Directory { skip_exist: true, copy_inside: true };
    assert_eq!(header_copy(Some(false)), directory);
    assert_eq!(header_copy(None), directory);
}

#[test]
fn builder_settings() {
    let mut log = Transcript::new();
    let prefix = Some("p".to_owned());
    let cmake = get_builder(&prefix, &path("/m"), &path("/out"), &env(&[]), &mut log).unwrap();
    assert_eq!(shown_path(&cmake.manifest_dir), "/m");
    assert_eq!(shown_path(&cmake.out_dir), "/out");
    assert_eq!(cmake.build_prefix, prefix);
    assert_eq!(cmake.output_lib_type, OutputLibType::Static);
    assert_eq!(shown(&log), ["out cargo:rerun-if-env-changed=AWS_LC_FIPS_SYS_STATIC"]);
    let missing =
        get_builder(&prefix, &path("/m"), &path("/out"), &BuildEnv::new(), &mut log).unwrap_err();
    assert_eq!(missing.name, "CARGO_CFG_TARGET_OS");
}

#[test]
fn a_build_starts_with_its_settings() {
    let mut log = Transcript::new();
    let (build, cmake) = try_start(env(&[]), PLAIN, false, &mut log).unwrap();
    assert_eq!(build.stage(), Stage::CheckingDependencies);
    assert_eq!(cmake.build_prefix.as_deref(), Some("aws_lc_fips_0_13_4"));
    let lines = shown(&log);
    assert_eq!(
        lines[5..],
        [
            "out cargo:rustc-cfg=x86_64_unknown_linux_gnu",
            "out cargo:rerun-if-env-changed=AWS_LC_FIPS_SYS_STATIC",
            "out cargo:warning=Building with: CMake",
            "out cargo:warning=Symbol Prefix: Some(\"aws_lc_fips_0_13_4\")",
        ]
    );
}

#[test]
fn a_build_without_prefix() {
    let mut log = Transcript::new();
    let e = env(&[("AWS_LC_FIPS_SYS_NO_PREFIX", "1")]);
    let (_, cmake) = try_start(e, PLAIN, false, &mut log).unwrap();
    assert_eq!(cmake.build_prefix, None);
    assert_eq!(shown(&log).last().unwrap(), "out cargo:warning=Symbol Prefix: None");
}

#[test]
fn a_build_tells_its_settings() {
    let build = start(
        &[("AWS_LC_FIPS_SYS_NO_ASM", "ON"), ("AWS_LC_FIPS_SYS_CPU_JITTER_ENTROPY", "no")],
        PLAIN,
        false,
    );
    assert!(build.settings().is_no_asm());
    assert!(!build.settings().is_cpu_jitter_entropy());
    let build = start(&[("AWS_LC_FIPS_SYS_CPU_JITTER_ENTROPY", "1")], PLAIN, false);
    assert!(!build.settings().is_no_asm());
    assert!(build.settings().is_cpu_jitter_entropy());
}

#[test]
fn a_build_cannot_start_without_its_variables() {
    let mut log = Transcript::new();
    let failed = try_start(BuildEnv::new(), PLAIN, false, &mut log).unwrap_err();
    assert_eq!(failed, "TARGET");
    let failed = try_start(BuildEnv::new(), BINDGEN, false, &mut log).unwrap_err();
    assert_eq!(failed, "OUT_DIR");
    let mut e = BuildEnv::new();
    e.set("OUT_DIR".to_owned(), "/out".to_owned());
    let failed = try_start(e, BINDGEN, false, &mut log).unwrap_err();
    assert_eq!(failed, "CARGO_CFG_TARGET_OS");
}

#[test]
fn bindings_made_in_advance_go_straight_to_the_libraries() {
    let mut build = start(&[], PLAIN, true);
    let mut log = Transcript::new();
    assert!(matches!(step(&mut build, Event::Done, &mut log), Request::BuildLibraries));
    assert!(log.lines().is_empty());
    match step(&mut build, Event::Done, &mut log) {
        Request::GatherHeaders(setup) => {
            assert_eq!(shown_path(&setup.include_dir), "/out/include");
            assert_eq!(setup.sources.len(), 3);
        }
        other => panic!("{other:?}"),
    }
    assert!(matches!(step(&mut build, Event::Done, &mut log), Request::Finish));
    assert_eq!(build.stage(), Stage::Finished);
    let conf = format!("out cargo:conf={}", conf_defines().join(","));
    assert_eq!(
        shown(&log),
        [
            "out cargo:rerun-if-env-changed=AWS_LC_FIPS_SYS_INCLUDES",
            "out cargo:include=/out/include",
            "out cargo:libcrypto=aws_lc_fips_0_13_4_crypto",
            &conf,
            "out cargo:rerun-if-changed=builder/",
            "out cargo:rerun-if-changed=aws-lc/",
        ]
    );
}

#[test]
fn a_build_with_libssl_exports_it() {
    let mut build = start(&[], Features { bindgen: true, ssl: true }, true);
    let mut log = Transcript::new();
    assert!(matches!(step(&mut build, Event::Done, &mut log), Request::AskClang));
    match step(&mut build, Event::Clang("clang version 18".to_owned()), &mut log) {
        Request::GenerateBindings(generation) => {
            assert_eq!(shown_path(&generation.manifest_dir), "/m");
            assert_eq!(shown_path(&generation.output), "/out/bindings.rs");
            assert_eq!(
                generation.options.build_prefix.as_deref(),
                Some("aws_lc_fips_0_13_4")
            );
            assert!(generation.options.include_ssl && generation.options.disable_prelude);
        }
        other => panic!("{other:?}"),
    }
    assert!(matches!(step(&mut build, Event::Done, &mut log), Request::BuildLibraries));
    assert_eq!(
        shown(&log),
        [
            "out cargo:warning=Clang version: clang version 18",
            "out cargo:warning=Generating bindings - internal bindgen. Platform: \
            x86_64-unknown-linux-gnu",
            "out cargo:rustc-cfg=use_bindgen_generated",
        ]
    );
    assert!(matches!(step(&mut build, Event::Done, &mut log), Request::GatherHeaders(_)));
    let mut log = Transcript::new();
    assert!(matches!(step(&mut build, Event::Done, &mut log), Request::Finish));
    assert_eq!(shown(&log)[1], "out cargo:libcrypto=aws_lc_fips_0_13_4_crypto");
    assert_eq!(shown(&log)[2], "out cargo:libssl=aws_lc_fips_0_13_4_ssl");
}

#[test]
fn the_bindgen_command_is_used_where_the_library_is_absent() {
    let mut build = start(&[("AWS_LC_FIPS_SYS_NO_PREFIX", "1")], PLAIN, false);
    let mut log = Transcript::new();
    assert!(is_version_query(&step(&mut build, Event::Done, &mut log)));
    match step(&mut build, ran("bindgen 0.72.1", true), &mut log) {
        Request::RunBindgen(args) => {
            let paths: Vec<String> = args
                .iter()
                .filter_map(|arg| match arg {
                    Arg::Path(path) | Arg::TextPath(path) => Some(shown_path(path)),
                    Arg::Text(_) => None,
                })
                .collect();
            assert_eq!(
                paths,
                ["/m/include/rust_wrapper.h", "/out/bindings.rs", "/m/include", "/m/aws-lc/include"]
            );
        }
        other => panic!("{other:?}"),
    }
    assert_eq!(build.stage(), Stage::RunningBindgen);
    assert!(matches!(step(&mut build, ran("", true), &mut log), Request::BuildLibraries));
    assert_eq!(shown(&log).last().unwrap(), "out cargo:rustc-cfg=use_bindgen_generated");
}

#[test]
fn the_bindgen_command_is_used_where_it_is_asked_for() {
    let mut build = start(&[("AWS_LC_FIPS_SYS_EXTERNAL_BINDGEN", "1")], BINDGEN, true);
    assert!(matches!(next(&mut build, Event::Done), Request::AskClang));
    let mut log = Transcript::new();
    let request = step(&mut build, Event::Clang("18".to_owned()), &mut log);
    assert!(is_version_query(&request));
    assert_eq!(shown(&log), ["out cargo:warning=Clang version: 18"]);
}

#[test]
fn a_build_without_bindings_fails() {
    let mut build = start(&[("AWS_LC_FIPS_SYS_NO_PREFIX", "1")], PLAIN, false);
    next(&mut build, Event::Done);
    let mut log = Transcript::new();
    let request = step(&mut build, ran("", false), &mut log);
    assert!(matches!(request, Request::Stop(Failure::NoBindings)));
    assert_eq!(build.stage(), Stage::Stopped);
    assert_eq!(
        shown(&log),
        ["err Failure invoking external bindgen! External bindgen command failed."]
    );

    let mut build = start(&[("AWS_LC_FIPS_SYS_NO_PREFIX", "1")], PLAIN, false);
    next(&mut build, Event::Done);
    next(&mut build, ran("bindgen 0.72.1", true));
    let mut log = Transcript::new();
    let request = step(&mut build, ran("text", false), &mut log);
    assert!(matches!(request, Request::Stop(Failure::NoBindings)));
    assert_eq!(
        shown(&log),
        ["err Failure invoking external bindgen! \n\nbindgen-PARAMS: a b\n\
        bindgen-STDOUT: text\nbindgen-STDERR: "]
    );
}

#[test]
fn bindings_for_later_builds_come_from_the_library() {
    let mut build = start(&[("AWS_LC_FIPS_SYS_PREGENERATING_BINDINGS", "1")], BINDGEN, true);
    let mut log = Transcript::new();
    match step(&mut build, Event::Done, &mut log) {
        Request::WriteSrcBindings(generation) => {
            assert_eq!(
                shown_path(&generation.output),
                "/m/src/x86_64_unknown_linux_gnu_crypto.rs"
            );
            assert!(!generation.options.include_ssl && !generation.options.disable_prelude);
        }
        other => panic!("{other:?}"),
    }
    assert!(matches!(step(&mut build, Event::Done, &mut log), Request::BuildLibraries));
    assert_eq!(
        shown(&log),
        ["out cargo:warning=Generating src bindings: /m/src/x86_64_unknown_linux_gnu_crypto.rs"]
    );
}

#[test]
fn bindings_for_later_builds_come_from_the_command() {
    let switches = [
        ("AWS_LC_FIPS_SYS_PREGENERATING_BINDINGS", "1"),
        ("AWS_LC_FIPS_SYS_EXTERNAL_BINDGEN", "1"),
    ];
    let mut build = start(&switches, BINDGEN, true);
    assert!(is_version_query(&next(&mut build, Event::Done)));
    assert_eq!(build.stage(), Stage::CheckingSrcBindgen);
    assert!(matches!(next(&mut build, ran("bindgen 0.72.1", true)), Request::RunBindgen(_)));
    assert!(matches!(next(&mut build, ran("", true)), Request::BuildLibraries));

    let mut build = start(&switches, BINDGEN, true);
    next(&mut build, Event::Done);
    match next(&mut build, ran("", false)) {
        Request::Stop(Failure::WriteBindings(reason)) => {
            assert_eq!(reason, "External bindgen command failed.");
        }
        other => panic!("{other:?}"),
    }

    let mut build = start(&switches, BINDGEN, true);
    next(&mut build, Event::Done);
    next(&mut build, ran("bindgen 0.72.1", true));
    match next(&mut build, ran("text", false)) {
        Request::Stop(Failure::WriteBindings(reason)) => {
            assert!(reason.contains("bindgen-STDOUT: text"));
        }
        other => panic!("{other:?}"),
    }
}

#[test]
fn without_the_feature_no_bindings_are_written_for_later_builds() {
    let mut build = start(&[("AWS_LC_FIPS_SYS_PREGENERATING_BINDINGS", "1")], PLAIN, true);
    assert!(is_version_query(&next(&mut build, Event::Done)));
    assert_eq!(build.stage(), Stage::CheckingBindgen);
}

#[test]
fn a_missing_variable_stops_a_build() {
    let mut e = BuildEnv::new();
    e.set("OUT_DIR".to_owned(), "/out".to_owned());
    e.set("CARGO_CFG_TARGET_OS".to_owned(), "macos".to_owned());
    let (mut build, _) = try_start(e, BINDGEN, true, &mut Transcript::new()).unwrap();
    next(&mut build, Event::Done);
    match next(&mut build, Event::Clang("18".to_owned())) {
        Request::Stop(Failure::Missing(missing)) => assert_eq!(missing.name, "TARGET"),
        other => panic!("{other:?}"),
    }
    assert_eq!(build.stage(), Stage::Stopped);
    assert!(!build.is_awaited(&Event::Done));
}

#[test]
fn events_are_awaited_by_kind() {
    let mut build = start(&[], BINDGEN, true);
    assert!(build.is_awaited(&Event::Done));
    assert!(!build.is_awaited(&Event::Clang(String::new())));
    assert!(!build.is_awaited(&ran("", true)));
    next(&mut build, Event::Done);
    assert!(build.is_awaited(&Event::Clang(String::new())));
    assert!(!build.is_awaited(&Event::Done));
}

#[test]
fn exported_names_are_library_names() {
    let features = Features { bindgen: true, ssl: true };
    let (mut build, cmake) =
        try_start(env(&[]), features, true, &mut Transcript::new()).unwrap();
    next(&mut build, Event::Done);
    next(&mut build, Event::Clang("18".to_owned()));
    next(&mut build, Event::Done);
    next(&mut build, Event::Done);
    let mut log = Transcript::new();
    step(&mut build, Event::Done, &mut log);
    let crypto = OutputLib::Crypto.libname(&cmake.build_prefix);
    let ssl = OutputLib::Ssl.libname(&cmake.build_prefix);
    assert_eq!(shown(&log)[1], format!("out cargo:libcrypto={crypto}"));
    assert_eq!(shown(&log)[2], format!("out cargo:libssl={ssl}"));
}

#[test]
fn configuration_macros() {
    let defines = conf_defines();
    assert_eq!(defines.len(), 47);
    assert_eq!(defines[0], "OPENSSL_NO_ASYNC");
    assert_eq!(defines[46], "OPENSSL_NO_WHIRLPOOL");
    let mut sorted = defines.clone();
    sorted.sort();
    sorted.dedup();
    assert_eq!(sorted.len(), 47);
}
