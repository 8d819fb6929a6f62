//! What holds of the course of a build, told from outside: what it asks for after each event, and
//! what that is handed.

use vstd::prelude::*;

use crate::builder::bindings::{ArgText, OptionsText};
use crate::builder::env;
use crate::builder::env::{LineText, Variables};
use crate::builder::external;
use crate::builder::external::{ExternalText, VerdictText};
use crate::builder::libs;
use crate::builder::libs::OutputLibType;
use crate::builder::paths;
use crate::builder::paths::PathText;
use crate::builder::plan;
use crate::builder::plan::{BuildText, CommandText, EventText, RequestText, StepText};
use crate::builder::settings;
use crate::builder::settings::{Features, Settings};
use crate::text;

verus! {

// ---------------------------------------------------------------------------
// The start
// ---------------------------------------------------------------------------

/// A build starts with all that it is given, unchanged, with the settings that its environment and
/// its features give, and with the output directory and the linkage that its environment gives. Its
/// prefix is that of its version, unless the settings want none. The CMake build is told the same.
/// It cannot start exactly where one of these is missing, and then the first one is named.
pub proof fn a_build_starts_with_what_it_is_given(
    variables: Variables,
    features: Features,
    bindgen_library: bool,
    version: Seq<char>,
    dir: PathText,
    listed: Seq<Seq<char>>,
)
    ensures
        ({
            let found = settings::initial_settings(variables, features);
            let out = env::variable(variables, "OUT_DIR"@);
            let linkage = libs::default_lib_type(variables);
            match plan::started(variables, features, bindgen_library, version, dir, listed) {
                Ok((build, cmake)) => {
                    &&& build.stage is CheckingDependencies
                    &&& build.env == variables
                    &&& build.features == features
                    &&& build.bindgen_library == bindgen_library
                    &&& build.version == version
                    &&& build.manifest_dir == dir
                    &&& build.listed == listed
                    &&& found == Ok::<Settings, Seq<char>>(build.settings)
                    &&& out == Some(build.out_dir.base) && build.out_dir.parts.len() == 0
                    &&& build.settings.no_prefix ==> build.prefix is None
                    &&& !build.settings.no_prefix ==> build.prefix == Some(
                        libs::symbol_prefix(version),
                    )
                    &&& cmake.manifest_dir == dir
                    &&& cmake.out_dir == build.out_dir
                    &&& cmake.build_prefix == build.prefix
                    &&& linkage == Ok::<OutputLibType, Seq<char>>(cmake.output_lib_type)
                },
                Err(name) => if found is Err {
                    found == Err::<Settings, Seq<char>>(name)
                } else if out is None {
                    name == "OUT_DIR"@
                } else {
                    linkage == Err::<OutputLibType, Seq<char>>(name)
                },
            }
        }),
{
}

/// What is printed at the start: the settings are read aloud; then, as far as the build comes, flags
/// are declared under Clippy, the switch for the linkage is read aloud, and the builder and the
/// prefix of symbols are announced.
pub proof fn a_start_is_announced(
    variables: Variables,
    features: Features,
    clippy: bool,
    bindgen_library: bool,
    version: Seq<char>,
    dir: PathText,
    listed: Seq<Seq<char>>,
)
    ensures
        ({
            let lines = plan::start_lines(variables, features, clippy, version);
            let found = settings::initial_settings(variables, features);
            let read = settings::initialize_lines(variables, features);
            let declared = read + settings::cargo_cfg_lines(clippy);
            let linked = declared + env::env_switch_lines(variables, "AWS_LC_FIPS_SYS_STATIC"@);
            match plan::started(variables, features, bindgen_library, version, dir, listed) {
                Ok((build, _)) => lines == linked + seq![
                    LineText::Stdout("cargo:warning="@ + "Building with: CMake"@),
                    LineText::Stdout(
                        "cargo:warning="@ + ("Symbol Prefix: "@ + text::debug_of_optional_text(
                            build.prefix,
                        )),
                    ),
                ],
                Err(_) => if found is Err {
                    lines == read
                } else if env::variable(variables, "OUT_DIR"@) is None {
                    lines == declared
                } else {
                    lines == linked
                },
            }
        }),
{
    let lines = plan::start_lines(variables, features, clippy, version);
    let read = settings::initialize_lines(variables, features);
    let declared = read + settings::cargo_cfg_lines(clippy);
    let linked = declared + env::env_switch_lines(variables, "AWS_LC_FIPS_SYS_STATIC"@);
    assert(read + Seq::<LineText>::empty() =~= read);
    assert(read + (settings::cargo_cfg_lines(clippy) + Seq::<LineText>::empty()) =~= declared);
    assert(read + (settings::cargo_cfg_lines(clippy) + (env::env_switch_lines(
        variables,
        "AWS_LC_FIPS_SYS_STATIC"@,
    ) + Seq::<LineText>::empty())) =~= linked);
    match plan::started(variables, features, bindgen_library, version, dir, listed) {
        Ok((build, _)) => {
            assert(lines =~= linked + seq![
                LineText::Stdout("cargo:warning="@ + "Building with: CMake"@),
                LineText::Stdout(
                    "cargo:warning="@ + ("Symbol Prefix: "@ + text::debug_of_optional_text(
                        build.prefix,
                    )),
                ),
            ]);
        },
        Err(_) => {},
    }
}

// ---------------------------------------------------------------------------
// Where bindings come from
// ---------------------------------------------------------------------------

/// The bindgen command is asked for its version.
pub open spec fn asks_for_the_version(step: StepText) -> bool {
    step.request matches RequestText::RunBindgen(args) && args.len() == 1 && args[0]
        == ArgText::Text("--version"@)
}

/// A build that needs bindings of its own gets them from the bindgen library exactly where the build
/// program has it, whatever the features are, and from the bindgen command otherwise. It needs them
/// where symbols have no prefix, where the command is asked for, with the feature for bindgen, and
/// where none are at hand. A build that needs none builds the libraries.
pub proof fn the_bindgen_library_is_used_where_it_is(build: BuildText)
    requires
        build.stage is CheckingDependencies,
        !build.settings.pregenerating_bindings,
    ensures
        ({
            let step = build.step(EventText::Done);
            let needed = build.settings.no_prefix || build.settings.external_bindgen
                || build.features.bindgen || !build.settings.pregenerated;
            &&& step.request is AskClang <==> needed && build.bindgen_library
            &&& step.stage is AskingClang <==> needed && build.bindgen_library
            &&& asks_for_the_version(step) <==> needed && !build.bindgen_library
            &&& step.stage is CheckingBindgen <==> needed && !build.bindgen_library
            &&& step.request is BuildLibraries <==> !needed
            &&& step.stage is BuildingLibraries <==> !needed
            &&& step.lines.len() == 0
        }),
{
}

/// Bindings for later builds are written where the settings ask for them and the build has the
/// feature: with the bindgen command where that is asked for, and else with the bindgen library,
/// under the prefix of the build, with a prelude and without libssl, into a file of the package that
/// is named after the platform. Without the feature the bindings of this build are asked of the
/// bindgen command.
pub proof fn bindings_for_later_builds_are_named_after_the_platform(
    build: BuildText,
    triple: Seq<char>,
)
    requires
        build.stage is CheckingDependencies,
        build.settings.pregenerating_bindings,
    ensures
        ({
            let step = build.step(EventText::Done);
            let file = PathText {
                base: build.manifest_dir.base,
                parts: build.manifest_dir.parts + seq![
                    "src"@,
                    env::platform_name(triple, "crypto"@) + ".rs"@,
                ],
            };
            &&& !build.features.bindgen ==> asks_for_the_version(step) && step.stage is CheckingBindgen
                && step.lines.len() == 0
            &&& build.features.bindgen && env::variable(build.env, "TARGET"@) is None ==> step.request
                == RequestText::Missing("TARGET"@) && step.stage is Stopped && step.lines.len() == 0
            &&& build.features.bindgen && env::build_triple(build.env) == Ok::<Seq<char>, Seq<char>>(
                triple,
            ) ==> {
                &&& step.lines == seq![
                    LineText::StdoutPath("cargo:warning=Generating src bindings: "@, file),
                ]
                &&& build.settings.external_bindgen ==> asks_for_the_version(step)
                    && step.stage is CheckingSrcBindgen
                &&& !build.settings.external_bindgen ==> step.stage is WritingSrcBindings
                    && step.request == RequestText::WriteSrcBindings(
                    ExternalText {
                        manifest_dir: build.manifest_dir,
                        options: OptionsText {
                            build_prefix: build.prefix,
                            include_ssl: false,
                            disable_prelude: false,
                        },
                        output: file,
                    },
                )
            }
        }),
{
    let name = env::platform_name(triple, "crypto"@) + ".rs"@;
    assert(build.manifest_dir.parts.push("src"@).push(name) =~= build.manifest_dir.parts + seq![
        "src"@,
        name,
    ]);
}

/// The bindings of this build: under its prefix, with libssl where its feature is on, without a
/// prelude, into `bindings.rs` in the output directory.
pub open spec fn own_bindings(build: BuildText) -> ExternalText {
    ExternalText {
        manifest_dir: build.manifest_dir,
        options: OptionsText {
            build_prefix: build.prefix,
            include_ssl: build.features.ssl,
            disable_prelude: true,
        },
        output: PathText {
            base: build.out_dir.base,
            parts: build.out_dir.parts + seq!["bindings.rs"@],
        },
    }
}

/// Once libclang has said its version, which is shown, the bindings of this build are generated with
/// the bindgen library, unless the bindgen command is asked for or the target is not known.
pub proof fn the_bindgen_library_generates_unless_the_command_is_asked_for(
    build: BuildText,
    version: Seq<char>,
    triple: Seq<char>,
)
    requires
        build.stage is AskingClang,
    ensures
        ({
            let step = build.step(EventText::Clang(version));
            let shown = LineText::Stdout("cargo:warning="@ + ("Clang version: "@ + version));
            &&& step.request is GenerateBindings <==> !build.settings.external_bindgen
                && env::variable(build.env, "TARGET"@) is Some
            &&& build.settings.external_bindgen ==> asks_for_the_version(step)
                && step.stage is CheckingBindgen && step.lines == seq![shown]
            &&& !build.settings.external_bindgen && env::variable(build.env, "TARGET"@) is None
                ==> step.request == RequestText::Missing("TARGET"@) && step.stage is Stopped
                && step.lines == seq![shown]
            &&& !build.settings.external_bindgen && env::build_triple(build.env) == Ok::<
                Seq<char>,
                Seq<char>,
            >(triple) ==> {
                &&& step.stage is GeneratingBindings
                &&& step.request == RequestText::GenerateBindings(own_bindings(build))
                &&& step.lines == seq![
                    shown,
                    LineText::Stdout(
                        "cargo:warning="@ + ("Generating bindings - internal bindgen. Platform: "@
                            + triple),
                    ),
                ]
            }
        }),
{
    assert(build.out_dir.parts.push("bindings.rs"@) =~= build.out_dir.parts + seq!["bindings.rs"@]);
}

/// After the version of the bindgen command, the bindings of this build are generated as the verdict
/// on the version has it; a rejection is reported and leaves the build without bindings.
pub proof fn the_command_generates_the_bindings_of_this_build(
    build: BuildText,
    params: Seq<Seq<char>>,
    result: CommandText,
)
    requires
        build.stage is CheckingBindgen,
    ensures
        ({
            let step = build.step(EventText::Ran(params, result));
            let lines = external::version_verdict_lines(
                own_bindings(build),
                result.status,
                result.executed,
                result.stdout,
                build.env,
            );
            match external::version_verdict(
                own_bindings(build),
                result.status,
                build.env,
                build.listed,
            ) {
                VerdictText::Rejected(reason) => step.request is NoBindings && step.stage is Stopped
                    && step.lines == lines.push(
                    LineText::Stderr("Failure invoking external bindgen! "@ + reason),
                ),
                VerdictText::Missing(name) => step.request == RequestText::Missing(name)
                    && step.stage is Stopped && step.lines == lines,
                VerdictText::Run(args) => step.request == RequestText::RunBindgen(args)
                    && step.stage is RunningBindgen && step.lines == lines,
            }
        }),
{
    assert(build.out_dir.parts.push("bindings.rs"@) =~= build.out_dir.parts + seq!["bindings.rs"@]);
}

/// After the version of the bindgen command, the bindings for later builds are written as the verdict
/// on the version has it; here a rejection is the failure of the build.
pub proof fn the_command_writes_bindings_for_later_builds(
    build: BuildText,
    params: Seq<Seq<char>>,
    result: CommandText,
    triple: Seq<char>,
)
    requires
        build.stage is CheckingSrcBindgen,
    ensures
        ({
            let step = build.step(EventText::Ran(params, result));
            let bindings = ExternalText {
                manifest_dir: build.manifest_dir,
                options: OptionsText {
                    build_prefix: build.prefix,
                    include_ssl: false,
                    disable_prelude: false,
                },
                output: PathText {
                    base: build.manifest_dir.base,
                    parts: build.manifest_dir.parts + seq![
                        "src"@,
                        env::platform_name(triple, "crypto"@) + ".rs"@,
                    ],
                },
            };
            &&& env::variable(build.env, "TARGET"@) is None ==> step.request
                == RequestText::Missing("TARGET"@) && step.stage is Stopped && step.lines.len() == 0
            &&& env::build_triple(build.env) == Ok::<Seq<char>, Seq<char>>(triple) ==> {
                &&& step.lines == external::version_verdict_lines(
                    bindings,
                    result.status,
                    result.executed,
                    result.stdout,
                    build.env,
                )
                &&& match external::version_verdict(
                    bindings,
                    result.status,
                    build.env,
                    build.listed,
                ) {
                    VerdictText::Rejected(reason) => step.request == RequestText::WriteBindings(
                        reason,
                    ) && step.stage is Stopped,
                    VerdictText::Missing(name) => step.request == RequestText::Missing(name)
                        && step.stage is Stopped,
                    VerdictText::Run(args) => step.request == RequestText::RunBindgen(args)
                        && step.stage is RunningSrcBindgen,
                }
            }
        }),
{
    let name = env::platform_name(triple, "crypto"@) + ".rs"@;
    assert(build.manifest_dir.parts.push("src"@).push(name) =~= build.manifest_dir.parts + seq![
        "src"@,
        name,
    ]);
}

/// When the bindgen command has run, the libraries are built if it succeeded, and bindings of this
/// build are announced. If it failed, the build has no bindings and the failure is reported in full,
/// or, for bindings of later builds, is the failure of the build.
pub proof fn a_run_of_bindgen_leads_to_the_libraries_or_ends_the_build(
    build: BuildText,
    params: Seq<Seq<char>>,
    result: CommandText,
)
    requires
        build.stage is RunningBindgen || build.stage is RunningSrcBindgen,
    ensures
        ({
            let step = build.step(EventText::Ran(params, result));
            let own = build.stage is RunningBindgen;
            let reason = external::run_failure(params, result.stdout, result.stderr);
            &&& result.status ==> step.request is BuildLibraries && step.stage is BuildingLibraries
            &&& result.status && own ==> step.lines == seq![
                env::rustc_cfg_line("use_bindgen_generated"@),
            ]
            &&& result.status && !own ==> step.lines.len() == 0
            &&& !result.status ==> step.stage is Stopped
            &&& !result.status && own ==> step.request is NoBindings && step.lines == seq![
                LineText::Stderr("Failure invoking external bindgen! "@ + reason),
            ]
            &&& !result.status && !own ==> step.request == RequestText::WriteBindings(reason)
                && step.lines.len() == 0
        }),
{
}

/// When the bindgen library has done its work, the libraries are built; bindings of this build are
/// announced, and those for later builds are not.
pub proof fn written_bindings_lead_to_the_libraries(build: BuildText)
    requires
        build.stage is GeneratingBindings || build.stage is WritingSrcBindings,
    ensures
        ({
            let step = build.step(EventText::Done);
            &&& step.request is BuildLibraries
            &&& step.stage is BuildingLibraries
            &&& build.stage is GeneratingBindings ==> step.lines == seq![
                env::rustc_cfg_line("use_bindgen_generated"@),
            ]
            &&& build.stage is WritingSrcBindings ==> step.lines.len() == 0
        }),
{
}

/// A step that is taken asks for what the step has, prints its lines behind those that are there, and
/// changes nothing of the build but what it waits for.
pub proof fn steps_are_taken_as_they_are(
    before: BuildText,
    after: BuildText,
    step: StepText,
    request: RequestText,
    printed_before: Seq<LineText>,
    printed_after: Seq<LineText>,
)
    requires
        plan::takes_step(before, after, step, request, printed_before, printed_after),
    ensures
        request == step.request,
        after.stage == step.stage,
        printed_after == printed_before + step.lines,
        after.env == before.env,
        after.features == before.features,
        after.bindgen_library == before.bindgen_library,
        after.version == before.version,
        after.manifest_dir == before.manifest_dir,
        after.out_dir == before.out_dir,
        after.listed == before.listed,
        after.settings == before.settings,
        after.prefix == before.prefix,
{
}

// ---------------------------------------------------------------------------
// The end
// ---------------------------------------------------------------------------

/// When the libraries are built, headers are gathered in the output directory: from the bindings' own
/// directory, that of the generated headers and AWS-LC's, and then from the listed ones in order.
pub proof fn headers_are_gathered_from_all_directories(build: BuildText, i: int)
    requires
        build.stage is BuildingLibraries,
    ensures
        ({
            let step = build.step(EventText::Done);
            let extra = paths::extra_include_dirs(build.env, build.listed);
            &&& step.stage is GatheringHeaders
            &&& step.lines == seq![
                LineText::Stdout("cargo:rerun-if-env-changed="@ + "AWS_LC_FIPS_SYS_INCLUDES"@),
            ]
            &&& step.request matches RequestText::GatherHeaders(into, from) && {
                &&& into.base == build.out_dir.base
                &&& into.parts == build.out_dir.parts + seq!["include"@]
                &&& from.len() == 3 + extra.len()
                &&& from[0] == paths::rust_include_dir(build.manifest_dir)
                &&& from[1] == paths::generated_include_dir(build.manifest_dir)
                &&& from[2] == paths::aws_lc_include_dir(build.manifest_dir)
                &&& 0 <= i < extra.len() ==> from[3 + i] == extra[i]
            }
        }),
{
    assert(build.out_dir.parts.push("include"@) =~= build.out_dir.parts + seq!["include"@]);
}

/// At its end a build tells where the headers are, what the libraries are called after the prefix of
/// the version, libssl only with its feature, which macros AWS-LC defines, and what it is to be run
/// again for.
pub proof fn a_build_tells_what_was_built(build: BuildText)
    requires
        build.stage is GatheringHeaders,
    ensures
        ({
            let step = build.step(EventText::Done);
            let lines = step.lines;
            let prefix = libs::symbol_prefix(build.version);
            let ssl: int = if build.features.ssl {
                1
            } else {
                0
            };
            &&& step.request is Finish
            &&& step.stage is Finished
            &&& lines.len() == 5 + ssl
            &&& lines[0] matches LineText::StdoutPath(name, dir) && name == "cargo:include="@
                && dir.base == build.out_dir.base && dir.parts == build.out_dir.parts + seq![
                "include"@,
            ]
            &&& lines[1] == LineText::Stdout("cargo:libcrypto="@ + prefix + "_crypto"@)
            &&& build.features.ssl ==> lines[2] == LineText::Stdout(
                "cargo:libssl="@ + prefix + "_ssl"@,
            )
            &&& lines[2 + ssl] == LineText::Stdout(
                "cargo:conf="@ + text::joined(plan::ossl_conf_defines(), seq![',']),
            )
            &&& lines[3 + ssl] == LineText::Stdout("cargo:rerun-if-changed=builder/"@)
            &&& lines[4 + ssl] == LineText::Stdout("cargo:rerun-if-changed=aws-lc/"@)
        }),
{
    reveal_strlit(",");
    assert(","@ =~= seq![',']);
    assert(build.out_dir.parts.push("include"@) =~= build.out_dir.parts + seq!["include"@]);
}

/// What AWS-LC leaves out of OpenSSL.
pub open spec fn left_out() -> Seq<Seq<char>> {
    seq![
        "ASYNC"@,
        "BF"@,
        "BLAKE2"@,
        "BUF_FREELISTS"@,
        "CAMELLIA"@,
        "CAPIENG"@,
        "CAST"@,
        "CMS"@,
        "COMP"@,
        "CT"@,
        "DANE"@,
        "DEPRECATED"@,
        "DGRAM"@,
        "DYNAMIC_ENGINE"@,
        "EC_NISTP_64_GCC_128"@,
        "EC2M"@,
        "EGD"@,
        "ENGINE"@,
        "GMP"@,
        "GOST"@,
        "HEARTBEATS"@,
        "HW"@,
        "IDEA"@,
        "JPAKE"@,
        "KRB5"@,
        "MD2"@,
        "MDC2"@,
        "OCB"@,
        "OCSP"@,
        "RC2"@,
        "RC5"@,
        "RFC3779"@,
        "RIPEMD"@,
        "RMD160"@,
        "SCTP"@,
        "SEED"@,
        "SM2"@,
        "SM3"@,
        "SM4"@,
        "SRP"@,
        "SSL_TRACE"@,
        "SSL2"@,
        "SSL3"@,
        "SSL3_METHOD"@,
        "STATIC_ENGINE"@,
        "STORE"@,
        "WHIRLPOOL"@,
    ]
}

/// The macros that AWS-LC defines say, one by one and in order, what it leaves out.
pub proof fn macros_say_what_is_left_out(i: int)
    requires
        0 <= i < left_out().len(),
    ensures
        plan::ossl_conf_defines().len() == left_out().len(),
        plan::ossl_conf_defines()[i] == "OPENSSL_NO_"@ + left_out()[i],
{
    let f = "OPENSSL_NO_"@;
    reveal_strlit("OPENSSL_NO_");
    reveal_strlit("ASYNC");
    reveal_strlit("OPENSSL_NO_ASYNC");
    assert(f + "ASYNC"@ =~= "OPENSSL_NO_ASYNC"@);
    reveal_strlit("BF");
    reveal_strlit("OPENSSL_NO_BF");
    assert(f + "BF"@ =~= "OPENSSL_NO_BF"@);
    reveal_strlit("BLAKE2");
    reveal_strlit("OPENSSL_NO_BLAKE2");
    assert(f + "BLAKE2"@ =~= "OPENSSL_NO_BLAKE2"@);
    reveal_strlit("BUF_FREELISTS");
    reveal_strlit("OPENSSL_NO_BUF_FREELISTS");
    assert(f + "BUF_FREELISTS"@ =~= "OPENSSL_NO_BUF_FREELISTS"@);
    reveal_strlit("CAMELLIA");
    reveal_strlit("OPENSSL_NO_CAMELLIA");
    assert(f + "CAMELLIA"@ =~= "OPENSSL_NO_CAMELLIA"@);
    reveal_strlit("CAPIENG");
    reveal_strlit("OPENSSL_NO_CAPIENG");
    assert(f + "CAPIENG"@ =~= "OPENSSL_NO_CAPIENG"@);
    reveal_strlit("CAST");
    reveal_strlit("OPENSSL_NO_CAST");
    assert(f + "CAST"@ =~= "OPENSSL_NO_CAST"@);
    reveal_strlit("CMS");
    reveal_strlit("OPENSSL_NO_CMS");
    assert(f + "CMS"@ =~= "OPENSSL_NO_CMS"@);
    reveal_strlit("COMP");
    reveal_strlit("OPENSSL_NO_COMP");
    assert(f + "COMP"@ =~= "OPENSSL_NO_COMP"@);
    reveal_strlit("CT");
    reveal_strlit("OPENSSL_NO_CT");
    assert(f + "CT"@ =~= "OPENSSL_NO_CT"@);
    reveal_strlit("DANE");
    reveal_strlit("OPENSSL_NO_DANE");
    assert(f + "DANE"@ =~= "OPENSSL_NO_DANE"@);
    reveal_strlit("DEPRECATED");
    reveal_strlit("OPENSSL_NO_DEPRECATED");
    assert(f + "DEPRECATED"@ =~= "OPENSSL_NO_DEPRECATED"@);
    reveal_strlit("DGRAM");
    reveal_strlit("OPENSSL_NO_DGRAM");
    assert(f + "DGRAM"@ =~= "OPENSSL_NO_DGRAM"@);
    reveal_strlit("DYNAMIC_ENGINE");
    reveal_strlit("OPENSSL_NO_DYNAMIC_ENGINE");
    assert(f + "DYNAMIC_ENGINE"@ =~= "OPENSSL_NO_DYNAMIC_ENGINE"@);
    reveal_strlit("EC_NISTP_64_GCC_128");
    reveal_strlit("OPENSSL_NO_EC_NISTP_64_GCC_128");
    assert(f + "EC_NISTP_64_GCC_128"@ =~= "OPENSSL_NO_EC_NISTP_64_GCC_128"@);
    reveal_strlit("EC2M");
    reveal_strlit("OPENSSL_NO_EC2M");
    assert(f + "EC2M"@ =~= "OPENSSL_NO_EC2M"@);
    reveal_strlit("EGD");
    reveal_strlit("OPENSSL_NO_EGD");
    assert(f + "EGD"@ =~= "OPENSSL_NO_EGD"@);
    reveal_strlit("ENGINE");
    reveal_strlit("OPENSSL_NO_ENGINE");
    assert(f + "ENGINE"@ =~= "OPENSSL_NO_ENGINE"@);
    reveal_strlit("GMP");
    reveal_strlit("OPENSSL_NO_GMP");
    assert(f + "GMP"@ =~= "OPENSSL_NO_GMP"@);
    reveal_strlit("GOST");
    reveal_strlit("OPENSSL_NO_GOST");
    assert(f + "GOST"@ =~= "OPENSSL_NO_GOST"@);
    reveal_strlit("HEARTBEATS");
    reveal_strlit("OPENSSL_NO_HEARTBEATS");
    assert(f + "HEARTBEATS"@ =~= "OPENSSL_NO_HEARTBEATS"@);
    reveal_strlit("HW");
    reveal_strlit("OPENSSL_NO_HW");
    assert(f + "HW"@ =~= "OPENSSL_NO_HW"@);
    reveal_strlit("IDEA");
    reveal_strlit("OPENSSL_NO_IDEA");
    assert(f + "IDEA"@ =~= "OPENSSL_NO_IDEA"@);
    reveal_strlit("JPAKE");
    reveal_strlit("OPENSSL_NO_JPAKE");
    assert(f + "JPAKE"@ =~= "OPENSSL_NO_JPAKE"@);
    reveal_strlit("KRB5");
    reveal_strlit("OPENSSL_NO_KRB5");
    assert(f + "KRB5"@ =~= "OPENSSL_NO_KRB5"@);
    reveal_strlit("MD2");
    reveal_strlit("OPENSSL_NO_MD2");
    assert(f + "MD2"@ =~= "OPENSSL_NO_MD2"@);
    reveal_strlit("MDC2");
    reveal_strlit("OPENSSL_NO_MDC2");
    assert(f + "MDC2"@ =~= "OPENSSL_NO_MDC2"@);
    reveal_strlit("OCB");
    reveal_strlit("OPENSSL_NO_OCB");
    assert(f + "OCB"@ =~= "OPENSSL_NO_OCB"@);
    reveal_strlit("OCSP");
    reveal_strlit("OPENSSL_NO_OCSP");
    assert(f + "OCSP"@ =~= "OPENSSL_NO_OCSP"@);
    reveal_strlit("RC2");
    reveal_strlit("OPENSSL_NO_RC2");
    assert(f + "RC2"@ =~= "OPENSSL_NO_RC2"@);
    reveal_strlit("RC5");
    reveal_strlit("OPENSSL_NO_RC5");
    assert(f + "RC5"@ =~= "OPENSSL_NO_RC5"@);
    reveal_strlit("RFC3779");
    reveal_strlit("OPENSSL_NO_RFC3779");
    assert(f + "RFC3779"@ =~= "OPENSSL_NO_RFC3779"@);
    reveal_strlit("RIPEMD");
    reveal_strlit("OPENSSL_NO_RIPEMD");
    assert(f + "RIPEMD"@ =~= "OPENSSL_NO_RIPEMD"@);
    reveal_strlit("RMD160");
    reveal_strlit("OPENSSL_NO_RMD160");
    assert(f + "RMD160"@ =~= "OPENSSL_NO_RMD160"@);
    reveal_strlit("SCTP");
    reveal_strlit("OPENSSL_NO_SCTP");
    assert(f + "SCTP"@ =~= "OPENSSL_NO_SCTP"@);
    reveal_strlit("SEED");
    reveal_strlit("OPENSSL_NO_SEED");
    assert(f + "SEED"@ =~= "OPENSSL_NO_SEED"@);
    reveal_strlit("SM2");
    reveal_strlit("OPENSSL_NO_SM2");
    assert(f + "SM2"@ =~= "OPENSSL_NO_SM2"@);
    reveal_strlit("SM3");
    reveal_strlit("OPENSSL_NO_SM3");
    assert(f + "SM3"@ =~= "OPENSSL_NO_SM3"@);
    reveal_strlit("SM4");
    reveal_strlit("OPENSSL_NO_SM4");
    assert(f + "SM4"@ =~= "OPENSSL_NO_SM4"@);
    reveal_strlit("SRP");
    reveal_strlit("OPENSSL_NO_SRP");
    assert(f + "SRP"@ =~= "OPENSSL_NO_SRP"@);
    reveal_strlit("SSL_TRACE");
    reveal_strlit("OPENSSL_NO_SSL_TRACE");
    assert(f + "SSL_TRACE"@ =~= "OPENSSL_NO_SSL_TRACE"@);
    reveal_strlit("SSL2");
    reveal_strlit("OPENSSL_NO_SSL2");
    assert(f + "SSL2"@ =~= "OPENSSL_NO_SSL2"@);
    reveal_strlit("SSL3");
    reveal_strlit("OPENSSL_NO_SSL3");
    assert(f + "SSL3"@ =~= "OPENSSL_NO_SSL3"@);
    reveal_strlit("SSL3_METHOD");
    reveal_strlit("OPENSSL_NO_SSL3_METHOD");
    assert(f + "SSL3_METHOD"@ =~= "OPENSSL_NO_SSL3_METHOD"@);
    reveal_strlit("STATIC_ENGINE");
    reveal_strlit("OPENSSL_NO_STATIC_ENGINE");
    assert(f + "STATIC_ENGINE"@ =~= "OPENSSL_NO_STATIC_ENGINE"@);
    reveal_strlit("STORE");
    reveal_strlit("OPENSSL_NO_STORE");
    assert(f + "STORE"@ =~= "OPENSSL_NO_STORE"@);
    reveal_strlit("WHIRLPOOL");
    reveal_strlit("OPENSSL_NO_WHIRLPOOL");
    assert(f + "WHIRLPOOL"@ =~= "OPENSSL_NO_WHIRLPOOL"@);
}

} // verus!
