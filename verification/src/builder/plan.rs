//! The course of a build, from the settings to the finished libraries.

use vstd::prelude::*;

use crate::builder::bindings;
use crate::builder::bindings::{Arg, ArgText, BindingOptions, OptionsText};
use crate::builder::command::TestCommandResult;
use crate::builder::env;
use crate::builder::env::{
    effective_target, emit_rustc_cfg, emit_warning, target_platform_prefix, BuildEnv, LineText,
    MissingVariable, Transcript, Variables,
};
use crate::builder::external;
use crate::builder::external::{
    external_generate_src_bindings, invoke_external_bindgen, version_args, ExternalBindgen,
    ExternalText, VerdictText, VersionVerdict,
};
use crate::builder::libs;
use crate::builder::libs::{prefix_string, OutputLib, OutputLibType};
use crate::builder::paths;
use crate::builder::paths::{out_dir, setup_include_paths, BuildPath, IncludeSetup, PathText};
use crate::builder::settings;
use crate::builder::settings::{initialize, prepare_cargo_cfg, Features, Settings};
use crate::text;
use crate::text::{debug_optional_string, join};

verus! {

/// The macros that AWS-LC defines in place of OpenSSL's configuration header.
pub open spec fn ossl_conf_defines() -> Seq<Seq<char>> {
    seq![
        "OPENSSL_NO_ASYNC"@,
        "OPENSSL_NO_BF"@,
        "OPENSSL_NO_BLAKE2"@,
        "OPENSSL_NO_BUF_FREELISTS"@,
        "OPENSSL_NO_CAMELLIA"@,
        "OPENSSL_NO_CAPIENG"@,
        "OPENSSL_NO_CAST"@,
        "OPENSSL_NO_CMS"@,
        "OPENSSL_NO_COMP"@,
        "OPENSSL_NO_CT"@,
        "OPENSSL_NO_DANE"@,
        "OPENSSL_NO_DEPRECATED"@,
        "OPENSSL_NO_DGRAM"@,
        "OPENSSL_NO_DYNAMIC_ENGINE"@,
        "OPENSSL_NO_EC_NISTP_64_GCC_128"@,
        "OPENSSL_NO_EC2M"@,
        "OPENSSL_NO_EGD"@,
        "OPENSSL_NO_ENGINE"@,
        "OPENSSL_NO_GMP"@,
        "OPENSSL_NO_GOST"@,
        "OPENSSL_NO_HEARTBEATS"@,
        "OPENSSL_NO_HW"@,
        "OPENSSL_NO_IDEA"@,
        "OPENSSL_NO_JPAKE"@,
        "OPENSSL_NO_KRB5"@,
        "OPENSSL_NO_MD2"@,
        "OPENSSL_NO_MDC2"@,
        "OPENSSL_NO_OCB"@,
        "OPENSSL_NO_OCSP"@,
        "OPENSSL_NO_RC2"@,
        "OPENSSL_NO_RC5"@,
        "OPENSSL_NO_RFC3779"@,
        "OPENSSL_NO_RIPEMD"@,
        "OPENSSL_NO_RMD160"@,
        "OPENSSL_NO_SCTP"@,
        "OPENSSL_NO_SEED"@,
        "OPENSSL_NO_SM2"@,
        "OPENSSL_NO_SM3"@,
        "OPENSSL_NO_SM4"@,
        "OPENSSL_NO_SRP"@,
        "OPENSSL_NO_SSL_TRACE"@,
        "OPENSSL_NO_SSL2"@,
        "OPENSSL_NO_SSL3"@,
        "OPENSSL_NO_SSL3_METHOD"@,
        "OPENSSL_NO_STATIC_ENGINE"@,
        "OPENSSL_NO_STORE"@,
        "OPENSSL_NO_WHIRLPOOL"@,
    ]
}

/// The macros that AWS-LC defines in place of OpenSSL's configuration header.
pub fn conf_defines() -> (r: Vec<String>)
    ensures
        text::texts(r@) == ossl_conf_defines(),
{
    let mut defines: Vec<String> = Vec::new();
    defines.push("OPENSSL_NO_ASYNC".to_owned());
    defines.push("OPENSSL_NO_BF".to_owned());
    defines.push("OPENSSL_NO_BLAKE2".to_owned());
    defines.push("OPENSSL_NO_BUF_FREELISTS".to_owned());
    defines.push("OPENSSL_NO_CAMELLIA".to_owned());
    defines.push("OPENSSL_NO_CAPIENG".to_owned());
    defines.push("OPENSSL_NO_CAST".to_owned());
    defines.push("OPENSSL_NO_CMS".to_owned());
    defines.push("OPENSSL_NO_COMP".to_owned());
    defines.push("OPENSSL_NO_CT".to_owned());
    defines.push("OPENSSL_NO_DANE".to_owned());
    defines.push("OPENSSL_NO_DEPRECATED".to_owned());
    defines.push("OPENSSL_NO_DGRAM".to_owned());
    defines.push("OPENSSL_NO_DYNAMIC_ENGINE".to_owned());
    defines.push("OPENSSL_NO_EC_NISTP_64_GCC_128".to_owned());
    defines.push("OPENSSL_NO_EC2M".to_owned());
    defines.push("OPENSSL_NO_EGD".to_owned());
    defines.push("OPENSSL_NO_ENGINE".to_owned());
    defines.push("OPENSSL_NO_GMP".to_owned());
    defines.push("OPENSSL_NO_GOST".to_owned());
    defines.push("OPENSSL_NO_HEARTBEATS".to_owned());
    defines.push("OPENSSL_NO_HW".to_owned());
    defines.push("OPENSSL_NO_IDEA".to_owned());
    defines.push("OPENSSL_NO_JPAKE".to_owned());
    defines.push("OPENSSL_NO_KRB5".to_owned());
    defines.push("OPENSSL_NO_MD2".to_owned());
    defines.push("OPENSSL_NO_MDC2".to_owned());
    defines.push("OPENSSL_NO_OCB".to_owned());
    defines.push("OPENSSL_NO_OCSP".to_owned());
    defines.push("OPENSSL_NO_RC2".to_owned());
    defines.push("OPENSSL_NO_RC5".to_owned());
    defines.push("OPENSSL_NO_RFC3779".to_owned());
    defines.push("OPENSSL_NO_RIPEMD".to_owned());
    defines.push("OPENSSL_NO_RMD160".to_owned());
    defines.push("OPENSSL_NO_SCTP".to_owned());
    defines.push("OPENSSL_NO_SEED".to_owned());
    defines.push("OPENSSL_NO_SM2".to_owned());
    defines.push("OPENSSL_NO_SM3".to_owned());
    defines.push("OPENSSL_NO_SM4".to_owned());
    defines.push("OPENSSL_NO_SRP".to_owned());
    defines.push("OPENSSL_NO_SSL_TRACE".to_owned());
    defines.push("OPENSSL_NO_SSL2".to_owned());
    defines.push("OPENSSL_NO_SSL3".to_owned());
    defines.push("OPENSSL_NO_SSL3_METHOD".to_owned());
    defines.push("OPENSSL_NO_STATIC_ENGINE".to_owned());
    defines.push("OPENSSL_NO_STORE".to_owned());
    defines.push("OPENSSL_NO_WHIRLPOOL".to_owned());
    assert(text::texts(defines@) =~= ossl_conf_defines());
    defines
}

// ---------------------------------------------------------------------------
// The builder of the libraries
// ---------------------------------------------------------------------------

/// What the CMake build of the libraries is told.
#[derive(Debug)]
pub struct CmakeSettings {
    pub manifest_dir: BuildPath,
    pub out_dir: BuildPath,
    pub build_prefix: Option<String>,
    pub output_lib_type: OutputLibType,
}

/// The value of what the CMake build of the libraries is told.
pub struct CmakeText {
    pub manifest_dir: PathText,
    pub out_dir: PathText,
    pub build_prefix: Option<Seq<char>>,
    pub output_lib_type: OutputLibType,
}

impl View for CmakeSettings {
    type V = CmakeText;

    open spec fn view(&self) -> CmakeText {
        CmakeText {
            manifest_dir: self.manifest_dir@,
            out_dir: self.out_dir@,
            build_prefix: text::optional_text(self.build_prefix),
            output_lib_type: self.output_lib_type,
        }
    }
}

/// The settings of the CMake build of the libraries.
pub fn get_builder(
    prefix: &Option<String>,
    manifest_dir: &BuildPath,
    out_dir: &BuildPath,
    env: &BuildEnv,
    log: &mut Transcript,
) -> (r: Result<CmakeSettings, MissingVariable>)
    ensures
        match r {
            Ok(cmake) => {
                &&& cmake.manifest_dir@ == manifest_dir@
                &&& cmake.out_dir@ == out_dir@
                &&& text::optional_text(cmake.build_prefix) == text::optional_text(*prefix)
                &&& libs::default_lib_type(env@) == Ok::<OutputLibType, Seq<char>>(
                    cmake.output_lib_type,
                )
            },
            Err(missing) => libs::default_lib_type(env@) == Err::<OutputLibType, Seq<char>>(
                missing.name@,
            ),
        },
        final(log)@ == old(log)@ + env::env_switch_lines(env@, "AWS_LC_FIPS_SYS_STATIC"@),
{
    match OutputLibType::default(env, log) {
        Ok(output_lib_type) => Ok(
            CmakeSettings {
                manifest_dir: manifest_dir.clone(),
                out_dir: out_dir.clone(),
                build_prefix: prefix.clone(),
                output_lib_type,
            },
        ),
        Err(missing) => Err(missing),
    }
}

// ---------------------------------------------------------------------------
// The state of a build
// ---------------------------------------------------------------------------

/// What a build waits for.
#[derive(Clone, Copy, PartialEq, Eq, Structural, Debug)]
pub enum Stage {
    /// The check of the tools that the libraries are built with.
    CheckingDependencies,
    /// The version of libclang.
    AskingClang,
    /// The bindings for later builds, from the bindgen library.
    WritingSrcBindings,
    /// The version of the bindgen command that is to write bindings for later builds.
    CheckingSrcBindgen,
    /// The bindings for later builds, from the bindgen command.
    RunningSrcBindgen,
    /// The bindings of this build, from the bindgen library.
    GeneratingBindings,
    /// The version of the bindgen command that is to generate the bindings of this build.
    CheckingBindgen,
    /// The bindings of this build, from the bindgen command.
    RunningBindgen,
    /// The libraries.
    BuildingLibraries,
    /// The gathered headers.
    GatheringHeaders,
    /// Nothing: the build is done.
    Finished,
    /// Nothing: the build has failed.
    Stopped,
}

/// A build under way.
#[derive(Debug)]
pub struct Build {
    env: BuildEnv,
    features: Features,
    bindgen_library: bool,
    version: String,
    manifest_dir: BuildPath,
    out_dir: BuildPath,
    listed: Vec<String>,
    settings: Settings,
    prefix: Option<String>,
    stage: Stage,
}

/// The value of a build under way.
pub struct BuildText {
    /// The environment of the build.
    pub env: Variables,
    /// The features of the build.
    pub features: Features,
    /// The bindgen library is part of the build program.
    pub bindgen_library: bool,
    /// The version of the package.
    pub version: Seq<char>,
    /// The directory of the package.
    pub manifest_dir: PathText,
    /// The directory for the build's output.
    pub out_dir: PathText,
    /// The directories that the variable for additional headers lists.
    pub listed: Seq<Seq<char>>,
    /// The settings of the build.
    pub settings: Settings,
    /// The prefix of symbols.
    pub prefix: Option<Seq<char>>,
    /// What the build waits for.
    pub stage: Stage,
}

impl View for Build {
    type V = BuildText;

    closed spec fn view(&self) -> BuildText {
        BuildText {
            env: self.env@,
            features: self.features,
            bindgen_library: self.bindgen_library,
            version: self.version@,
            manifest_dir: self.manifest_dir@,
            out_dir: self.out_dir@,
            listed: text::texts(self.listed@),
            settings: self.settings,
            prefix: text::optional_text(self.prefix),
            stage: self.stage,
        }
    }
}

/// Bindings to be generated with the bindgen library.
#[derive(Debug)]
pub struct LibraryBindgen {
    pub manifest_dir: BuildPath,
    pub options: BindingOptions,
    pub output: BuildPath,
}

/// Why a build fails.
#[derive(Debug)]
pub enum Failure {
    /// A variable is missing.
    Missing(MissingVariable),
    /// The bindings for later builds could not be written, for the reason given.
    WriteBindings(String),
    /// There are no bindings.
    NoBindings,
}

/// What a build asks its caller to do.
#[derive(Debug)]
pub enum Request {
    /// Find out the version of libclang.
    AskClang,
    /// Write bindings for later builds with the bindgen library.
    WriteSrcBindings(LibraryBindgen),
    /// Generate the bindings of this build with the bindgen library.
    GenerateBindings(LibraryBindgen),
    /// Run the bindgen command.
    RunBindgen(Vec<Arg>),
    /// Build the libraries.
    BuildLibraries,
    /// Gather the headers.
    GatherHeaders(IncludeSetup),
    /// End: the build is done.
    Finish,
    /// End: the build has failed.
    Stop(Failure),
}

/// The value of a request.
pub enum RequestText {
    AskClang,
    WriteSrcBindings(ExternalText),
    GenerateBindings(ExternalText),
    RunBindgen(Seq<ArgText>),
    BuildLibraries,
    GatherHeaders(PathText, Seq<PathText>),
    Finish,
    Missing(Seq<char>),
    WriteBindings(Seq<char>),
    NoBindings,
}

impl View for LibraryBindgen {
    type V = ExternalText;

    open spec fn view(&self) -> ExternalText {
        ExternalText {
            manifest_dir: self.manifest_dir@,
            options: self.options@,
            output: self.output@,
        }
    }
}

impl View for Request {
    type V = RequestText;

    open spec fn view(&self) -> RequestText {
        match self {
            Request::AskClang => RequestText::AskClang,
            Request::WriteSrcBindings(generation) => RequestText::WriteSrcBindings(generation@),
            Request::GenerateBindings(generation) => RequestText::GenerateBindings(generation@),
            Request::RunBindgen(args) => RequestText::RunBindgen(bindings::arg_texts(args@)),
            Request::BuildLibraries => RequestText::BuildLibraries,
            Request::GatherHeaders(setup) => RequestText::GatherHeaders(
                setup.include_dir@,
                paths::path_texts(setup.sources@),
            ),
            Request::Finish => RequestText::Finish,
            Request::Stop(Failure::Missing(missing)) => RequestText::Missing(missing.name@),
            Request::Stop(Failure::WriteBindings(reason)) => RequestText::WriteBindings(reason@),
            Request::Stop(Failure::NoBindings) => RequestText::NoBindings,
        }
    }
}

/// What has happened since the last request.
#[derive(Debug)]
pub enum Event {
    /// What was asked for is done.
    Done,
    /// libclang has this version.
    Clang(String),
    /// The command has run: the arguments as they were written on its command line, and the
    /// outcome.
    Ran(Vec<String>, TestCommandResult),
}

/// The value of an event.
pub enum EventText {
    Done,
    Clang(Seq<char>),
    Ran(Seq<Seq<char>>, CommandText),
}

/// The value of the outcome of a command.
pub struct CommandText {
    pub stdout: Seq<char>,
    pub stderr: Seq<char>,
    pub executed: bool,
    pub status: bool,
}

/// The value of the outcome of a command.
pub open spec fn command_text(result: TestCommandResult) -> CommandText {
    CommandText {
        stdout: result.stdout@,
        stderr: result.stderr@,
        executed: result.executed,
        status: result.status,
    }
}

impl View for Event {
    type V = EventText;

    open spec fn view(&self) -> EventText {
        match self {
            Event::Done => EventText::Done,
            Event::Clang(version) => EventText::Clang(version@),
            Event::Ran(params, result) => EventText::Ran(
                text::texts(params@),
                command_text(*result),
            ),
        }
    }
}

/// The kind of event that a build waits for.
pub open spec fn awaits(stage: Stage, event: EventText) -> bool {
    match stage {
        Stage::CheckingDependencies | Stage::WritingSrcBindings | Stage::GeneratingBindings
        | Stage::BuildingLibraries | Stage::GatheringHeaders => event is Done,
        Stage::AskingClang => event is Clang,
        Stage::CheckingSrcBindgen | Stage::RunningSrcBindgen | Stage::CheckingBindgen
        | Stage::RunningBindgen => event is Ran,
        Stage::Finished | Stage::Stopped => false,
    }
}

// ---------------------------------------------------------------------------
// The steps of a build
// ---------------------------------------------------------------------------

/// What a step comes to: the stage after it, the request that it makes and what it prints.
pub struct StepText {
    pub stage: Stage,
    pub request: RequestText,
    pub lines: Seq<LineText>,
}

/// The step that fails for want of a variable.
pub open spec fn stop_missing(name: Seq<char>, lines: Seq<LineText>) -> StepText {
    StepText { stage: Stage::Stopped, request: RequestText::Missing(name), lines }
}

/// The step that goes on to build the libraries.
pub open spec fn go_build(lines: Seq<LineText>) -> StepText {
    StepText { stage: Stage::BuildingLibraries, request: RequestText::BuildLibraries, lines }
}

/// The step that asks the bindgen command for its version.
pub open spec fn ask_version(stage: Stage, lines: Seq<LineText>) -> StepText {
    StepText {
        stage,
        request: RequestText::RunBindgen(seq![ArgText::Text("--version"@)]),
        lines,
    }
}

impl BuildText {
    /// The file for the bindings of this build.
    pub open spec fn bindings_path(self) -> PathText {
        self.out_dir.join("bindings.rs"@)
    }

    /// The file for the bindings of later builds on a platform.
    pub open spec fn src_bindings_path(self, triple: Seq<char>) -> PathText {
        self.manifest_dir.join("src"@).join(env::platform_name(triple, "crypto"@) + ".rs"@)
    }

    /// The bindings of this build.
    pub open spec fn generation(self) -> ExternalText {
        ExternalText {
            manifest_dir: self.manifest_dir,
            options: bindings::build_options(self.prefix, self.features.ssl),
            output: self.bindings_path(),
        }
    }

    /// The bindings for later builds on a platform.
    pub open spec fn src_generation(self, triple: Seq<char>) -> ExternalText {
        ExternalText {
            manifest_dir: self.manifest_dir,
            options: bindings::src_options(self.prefix),
            output: self.src_bindings_path(triple),
        }
    }

    /// The step that chooses where bindings come from. Bindings for later builds are written
    /// where the settings ask for them and the bindgen library is a feature of the build. Where
    /// bindings are needed for this build, they come from the bindgen library if the build
    /// program has it, and else from the bindgen command.
    pub open spec fn choose_bindings(self) -> StepText {
        if self.settings.pregenerating_bindings {
            if self.features.bindgen {
                match env::build_triple(self.env) {
                    Err(name) => stop_missing(name, Seq::empty()),
                    Ok(triple) => {
                        let lines = seq![
                            LineText::StdoutPath(
                                "cargo:warning=Generating src bindings: "@,
                                self.src_bindings_path(triple),
                            ),
                        ];
                        if self.settings.external_bindgen {
                            ask_version(Stage::CheckingSrcBindgen, lines)
                        } else {
                            StepText {
                                stage: Stage::WritingSrcBindings,
                                request: RequestText::WriteSrcBindings(self.src_generation(triple)),
                                lines,
                            }
                        }
                    },
                }
            } else {
                ask_version(Stage::CheckingBindgen, Seq::empty())
            }
        } else if self.settings.needs_bindgen(self.features) {
            if self.bindgen_library {
                StepText {
                    stage: Stage::AskingClang,
                    request: RequestText::AskClang,
                    lines: Seq::empty(),
                }
            } else {
                ask_version(Stage::CheckingBindgen, Seq::empty())
            }
        } else {
            go_build(Seq::empty())
        }
    }

    /// The step after the version of libclang is known.
    pub open spec fn use_clang(self, version: Seq<char>) -> StepText {
        let first = env::warning_line("Clang version: "@ + version);
        if self.settings.external_bindgen {
            ask_version(Stage::CheckingBindgen, seq![first])
        } else {
            match env::build_triple(self.env) {
                Err(name) => stop_missing(name, seq![first]),
                Ok(triple) => StepText {
                    stage: Stage::GeneratingBindings,
                    request: RequestText::GenerateBindings(self.generation()),
                    lines: seq![
                        first,
                        env::warning_line(
                            "Generating bindings - internal bindgen. Platform: "@ + triple,
                        ),
                    ],
                },
            }
        }
    }

    /// The step after the version of the bindgen command that writes bindings for later builds.
    pub open spec fn use_src_version(self, result: CommandText) -> StepText {
        match env::build_triple(self.env) {
            Err(name) => stop_missing(name, Seq::empty()),
            Ok(triple) => {
                let generation = self.src_generation(triple);
                let lines = external::version_verdict_lines(
                    generation,
                    result.status,
                    result.executed,
                    result.stdout,
                    self.env,
                );
                match external::version_verdict(generation, result.status, self.env, self.listed) {
                    VerdictText::Rejected(reason) => StepText {
                        stage: Stage::Stopped,
                        request: RequestText::WriteBindings(reason),
                        lines,
                    },
                    VerdictText::Missing(name) => stop_missing(name, lines),
                    VerdictText::Run(args) => StepText {
                        stage: Stage::RunningSrcBindgen,
                        request: RequestText::RunBindgen(args),
                        lines,
                    },
                }
            },
        }
    }

    /// The step after the bindgen command has written bindings for later builds, or failed to.
    pub open spec fn use_src_run(self, params: Seq<Seq<char>>, result: CommandText) -> StepText {
        if result.status {
            go_build(Seq::empty())
        } else {
            StepText {
                stage: Stage::Stopped,
                request: RequestText::WriteBindings(
                    external::run_failure(params, result.stdout, result.stderr),
                ),
                lines: Seq::empty(),
            }
        }
    }

    /// The step after the version of the bindgen command that generates bindings for this build.
    pub open spec fn use_version(self, result: CommandText) -> StepText {
        let lines = external::version_verdict_lines(
            self.generation(),
            result.status,
            result.executed,
            result.stdout,
            self.env,
        );
        match external::version_verdict(self.generation(), result.status, self.env, self.listed) {
            VerdictText::Rejected(reason) => StepText {
                stage: Stage::Stopped,
                request: RequestText::NoBindings,
                lines: lines.push(bindgen_failure_line(reason)),
            },
            VerdictText::Missing(name) => stop_missing(name, lines),
            VerdictText::Run(args) => StepText {
                stage: Stage::RunningBindgen,
                request: RequestText::RunBindgen(args),
                lines,
            },
        }
    }

    /// The step after the bindgen command has generated bindings for this build, or failed to.
    pub open spec fn use_run(self, params: Seq<Seq<char>>, result: CommandText) -> StepText {
        if result.status {
            go_build(seq![env::rustc_cfg_line("use_bindgen_generated"@)])
        } else {
            StepText {
                stage: Stage::Stopped,
                request: RequestText::NoBindings,
                lines: seq![
                    bindgen_failure_line(
                        external::run_failure(params, result.stdout, result.stderr),
                    ),
                ],
            }
        }
    }

    /// The step after the libraries are built.
    pub open spec fn gather(self) -> StepText {
        StepText {
            stage: Stage::GatheringHeaders,
            request: RequestText::GatherHeaders(
                self.out_dir.join("include"@),
                seq![
                    paths::rust_include_dir(self.manifest_dir),
                    paths::generated_include_dir(self.manifest_dir),
                    paths::aws_lc_include_dir(self.manifest_dir),
                ] + paths::extra_include_dirs(self.env, self.listed),
            ),
            lines: seq![env::rerun_line("AWS_LC_FIPS_SYS_INCLUDES"@)],
        }
    }

    /// The directives that tell dependent packages what was built.
    pub open spec fn export_lines(self) -> Seq<LineText> {
        seq![
            LineText::StdoutPath("cargo:include="@, self.out_dir.join("include"@)),
            LineText::Stdout("cargo:libcrypto="@ + libs::symbol_prefix(self.version) + "_crypto"@),
        ] + (if self.features.ssl {
            seq![LineText::Stdout("cargo:libssl="@ + libs::symbol_prefix(self.version) + "_ssl"@)]
        } else {
            Seq::empty()
        }) + seq![
            LineText::Stdout("cargo:conf="@ + text::joined(ossl_conf_defines(), ","@)),
            LineText::Stdout("cargo:rerun-if-changed=builder/"@),
            LineText::Stdout("cargo:rerun-if-changed=aws-lc/"@),
        ]
    }

    /// The step that follows an event.
    pub open spec fn step(self, event: EventText) -> StepText {
        match (self.stage, event) {
            (Stage::CheckingDependencies, EventText::Done) => self.choose_bindings(),
            (Stage::AskingClang, EventText::Clang(version)) => self.use_clang(version),
            (Stage::WritingSrcBindings, EventText::Done) => go_build(Seq::empty()),
            (Stage::CheckingSrcBindgen, EventText::Ran(_, result)) => self.use_src_version(result),
            (Stage::RunningSrcBindgen, EventText::Ran(params, result)) => self.use_src_run(
                params,
                result,
            ),
            (Stage::GeneratingBindings, EventText::Done) => go_build(
                seq![env::rustc_cfg_line("use_bindgen_generated"@)],
            ),
            (Stage::CheckingBindgen, EventText::Ran(_, result)) => self.use_version(result),
            (Stage::RunningBindgen, EventText::Ran(params, result)) => self.use_run(params, result),
            (Stage::BuildingLibraries, EventText::Done) => self.gather(),
            _ => StepText {
                stage: Stage::Finished,
                request: RequestText::Finish,
                lines: self.export_lines(),
            },
        }
    }
}

/// The message on a failure of the bindgen command.
pub open spec fn bindgen_failure_line(reason: Seq<char>) -> LineText {
    LineText::Stderr("Failure invoking external bindgen! "@ + reason)
}

/// A step has been taken: the build is at the stage after it and otherwise as before, the request
/// is the step's, and its lines are printed.
pub open spec fn takes_step(
    before: BuildText,
    after: BuildText,
    step: StepText,
    request: RequestText,
    printed_before: Seq<LineText>,
    printed_after: Seq<LineText>,
) -> bool {
    &&& after == (BuildText { stage: step.stage, ..before })
    &&& request == step.request
    &&& printed_after == printed_before + step.lines
}

/// The start of a build, or the name of a missing variable: the settings, the output directory
/// and the linkage of the libraries have to be known.
pub open spec fn start_settings(env: Variables, features: Features) -> Result<
    (Settings, PathText, OutputLibType),
    Seq<char>,
> {
    match settings::initial_settings(env, features) {
        Err(name) => Err(name),
        Ok(settings) => match env::required(env, "OUT_DIR"@) {
            Err(name) => Err(name),
            Ok(out) => match libs::default_lib_type(env) {
                Err(name) => Err(name),
                Ok(lib_type) => Ok((settings, paths::base_path(out), lib_type)),
            },
        },
    }
}

/// The prefix of symbols, unless the settings want none.
pub open spec fn build_prefix(settings: Settings, version: Seq<char>) -> Option<Seq<char>> {
    if settings.no_prefix {
        None
    } else {
        Some(libs::symbol_prefix(version))
    }
}

/// A build at its start and what the CMake build is told, or the name of a missing variable.
pub open spec fn started(
    env: Variables,
    features: Features,
    bindgen_library: bool,
    version: Seq<char>,
    manifest_dir: PathText,
    listed: Seq<Seq<char>>,
) -> Result<(BuildText, CmakeText), Seq<char>> {
    match start_settings(env, features) {
        Err(name) => Err(name),
        Ok((settings, out_dir, output_lib_type)) => {
            let prefix = build_prefix(settings, version);
            Ok(
                (
                    BuildText {
                        env,
                        features,
                        bindgen_library,
                        version,
                        manifest_dir,
                        out_dir,
                        listed,
                        settings,
                        prefix,
                        stage: Stage::CheckingDependencies,
                    },
                    CmakeText { manifest_dir, out_dir, build_prefix: prefix, output_lib_type },
                ),
            )
        },
    }
}

/// What is printed at the start of a build.
pub open spec fn start_lines(
    env: Variables,
    features: Features,
    clippy: bool,
    version: Seq<char>,
) -> Seq<LineText> {
    settings::initialize_lines(env, features) + (match settings::initial_settings(env, features) {
        Err(_) => Seq::empty(),
        Ok(settings) => settings::cargo_cfg_lines(clippy) + (match env::required(env, "OUT_DIR"@) {
            Err(_) => Seq::empty(),
            Ok(_) => env::env_switch_lines(env, "AWS_LC_FIPS_SYS_STATIC"@) + (
            match libs::default_lib_type(env) {
                Err(_) => Seq::empty(),
                Ok(_) => seq![
                    env::warning_line("Building with: CMake"@),
                    env::warning_line(
                        "Symbol Prefix: "@ + text::debug_of_optional_text(
                            build_prefix(settings, version),
                        ),
                    ),
                ],
            }),
        }),
    })
}

impl Build {
    /// Starts a build. The first thing to do is the check of the tools that the libraries are
    /// built with, on the settings that come with the build.
    pub fn start(
        env: BuildEnv,
        features: Features,
        clippy: bool,
        bindgen_library: bool,
        version: String,
        manifest_dir: BuildPath,
        listed: Vec<String>,
        log: &mut Transcript,
    ) -> (r: Result<(Build, CmakeSettings), MissingVariable>)
        ensures
            match r {
                Ok((build, cmake)) => {
                    &&& start_settings(env@, features) matches Ok((settings, out, lib_type)) && {
                        &&& build@ == (BuildText {
                            env: env@,
                            features,
                            bindgen_library,
                            version: version@,
                            manifest_dir: manifest_dir@,
                            out_dir: out,
                            listed: text::texts(listed@),
                            settings,
                            prefix: build_prefix(settings, version@),
                            stage: Stage::CheckingDependencies,
                        })
                        &&& cmake.manifest_dir@ == manifest_dir@
                        &&& cmake.out_dir@ == out
                        &&& text::optional_text(cmake.build_prefix) == build_prefix(
                            settings,
                            version@,
                        )
                        &&& cmake.output_lib_type == lib_type
                    }
                },
                Err(missing) => start_settings(env@, features) == Err::<
                    (Settings, PathText, OutputLibType),
                    Seq<char>,
                >(missing.name@),
            },
            (match r {
                Ok((build, cmake)) => Ok((build@, cmake@)),
                Err(missing) => Err(missing.name@),
            }) == started(
                env@,
                features,
                bindgen_library,
                version@,
                manifest_dir@,
                text::texts(listed@),
            ),
            final(log)@ == old(log)@ + start_lines(env@, features, clippy, version@),
    {
        let ghost printed = start_lines(env@, features, clippy, version@);
        let settings = match initialize(&env, features, log) {
            Ok(settings) => settings,
            Err(missing) => {
                assert(log@ =~= old(log)@ + printed);
                return Err(missing);
            },
        };
        prepare_cargo_cfg(clippy, log);
        let prefix = if settings.is_no_prefix() {
            None
        } else {
            Some(prefix_string(version.as_str()))
        };
        let out = match out_dir(&env) {
            Ok(out) => out,
            Err(missing) => {
                assert(log@ =~= old(log)@ + printed);
                return Err(missing);
            },
        };
        let cmake = match get_builder(&prefix, &manifest_dir, &out, &env, log) {
            Ok(cmake) => cmake,
            Err(missing) => {
                assert(log@ =~= old(log)@ + printed);
                return Err(missing);
            },
        };
        emit_warning("Building with: CMake", log);
        emit_warning(
            "Symbol Prefix: ".to_owned().concat(debug_optional_string(&prefix).as_str()).as_str(),
            log,
        );
        assert(log@ =~= old(log)@ + printed);
        let build = Build {
            env,
            features,
            bindgen_library,
            version,
            manifest_dir,
            out_dir: out,
            listed,
            settings,
            prefix,
            stage: Stage::CheckingDependencies,
        };
        Ok((build, cmake))
    }

    /// What the build waits for.
    pub fn stage(&self) -> (r: Stage)
        ensures
            r == self@.stage,
    {
        self.stage
    }

    /// The settings of the build.
    pub fn settings(&self) -> (r: Settings)
        ensures
            r == self@.settings,
    {
        self.settings
    }

    /// Tells whether an event is of the kind that the build waits for.
    pub fn is_awaited(&self, event: &Event) -> (r: bool)
        ensures
            r == awaits(self@.stage, event@),
    {
        match self.stage {
            Stage::CheckingDependencies
            | Stage::WritingSrcBindings
            | Stage::GeneratingBindings
            | Stage::BuildingLibraries
            | Stage::GatheringHeaders => matches!(event, Event::Done),
            Stage::AskingClang => matches!(event, Event::Clang(_)),
            Stage::CheckingSrcBindgen
            | Stage::RunningSrcBindgen
            | Stage::CheckingBindgen
            | Stage::RunningBindgen => matches!(event, Event::Ran(_, _)),
            Stage::Finished | Stage::Stopped => false,
        }
    }

    /// Goes on after an event, and says what is to be done next.
    pub fn step(&mut self, event: Event, log: &mut Transcript) -> (r: Request)
        requires
            awaits(old(self)@.stage, event@),
        ensures
            takes_step(
                old(self)@,
                final(self)@,
                old(self)@.step(event@),
                r@,
                old(log)@,
                final(log)@,
            ),
    {
        match self.stage {
            Stage::CheckingDependencies => self.choose_bindings(log),
            Stage::AskingClang => match event {
                Event::Clang(version) => self.handle_bindgen(version.as_str(), log),
                _ => Request::Finish,
            },
            Stage::WritingSrcBindings => {
                let r = self.go_build();
                assert(log@ =~= old(log)@ + Seq::<LineText>::empty());
                r
            },
            Stage::CheckingSrcBindgen => match event {
                Event::Ran(_, result) => self.use_src_version(&result, log),
                _ => Request::Finish,
            },
            Stage::RunningSrcBindgen => match event {
                Event::Ran(params, result) => self.use_src_run(&params, &result, log),
                _ => Request::Finish,
            },
            Stage::GeneratingBindings => {
                emit_rustc_cfg("use_bindgen_generated", log);
                let r = self.go_build();
                assert(log@ =~= old(log)@ + seq![env::rustc_cfg_line("use_bindgen_generated"@)]);
                r
            },
            Stage::CheckingBindgen => match event {
                Event::Ran(_, result) => self.use_version(&result, log),
                _ => Request::Finish,
            },
            Stage::RunningBindgen => match event {
                Event::Ran(params, result) => self.use_run(&params, &result, log),
                _ => Request::Finish,
            },
            Stage::BuildingLibraries => self.gather(log),
            Stage::GatheringHeaders | Stage::Finished | Stage::Stopped => self.export(log),
        }
    }

    /// Fails for want of a variable.
    fn stop_missing(&mut self, missing: MissingVariable) -> (r: Request)
        ensures
            final(self)@ == (BuildText { stage: Stage::Stopped, ..old(self)@ }),
            r@ == RequestText::Missing(missing.name@),
    {
        self.stage = Stage::Stopped;
        Request::Stop(Failure::Missing(missing))
    }

    /// Goes on to build the libraries.
    fn go_build(&mut self) -> (r: Request)
        ensures
            final(self)@ == (BuildText { stage: Stage::BuildingLibraries, ..old(self)@ }),
            r@ == RequestText::BuildLibraries,
    {
        self.stage = Stage::BuildingLibraries;
        Request::BuildLibraries
    }

    /// Asks the bindgen command for its version.
    fn ask_version(&mut self, stage: Stage) -> (r: Request)
        ensures
            final(self)@ == (BuildText { stage, ..old(self)@ }),
            r@ == RequestText::RunBindgen(seq![ArgText::Text("--version"@)]),
    {
        self.stage = stage;
        Request::RunBindgen(version_args())
    }

    /// The file for the bindings of later builds.
    fn src_bindings_path(&self) -> (r: Result<BuildPath, MissingVariable>)
        ensures
            match env::build_triple(self@.env) {
                Ok(triple) => r matches Ok(path) && path@ == self@.src_bindings_path(triple),
                Err(name) => r matches Err(missing) && missing.name@ == name,
            },
    {
        match target_platform_prefix(&self.env, "crypto") {
            Ok(name) => Ok(self.manifest_dir.join("src").join(name.concat(".rs").as_str())),
            Err(missing) => Err(missing),
        }
    }

    /// Chooses where bindings come from.
    fn choose_bindings(&mut self, log: &mut Transcript) -> (r: Request)
        ensures
            takes_step(
                old(self)@,
                final(self)@,
                old(self)@.choose_bindings(),
                r@,
                old(log)@,
                final(log)@,
            ),
    {
        assert(log@ =~= old(log)@ + Seq::<LineText>::empty());
        if self.settings.is_pregenerating_bindings() {
            if !self.features.has_bindgen_feature() {
                return self.ask_version(Stage::CheckingBindgen);
            }
            let path = match self.src_bindings_path() {
                Ok(path) => path,
                Err(missing) => return self.stop_missing(missing),
            };
            log.stdout_path("cargo:warning=Generating src bindings: ".to_owned(), path.clone());
            assert(log@ =~= old(log)@ + seq![
                LineText::StdoutPath("cargo:warning=Generating src bindings: "@, path@),
            ]);
            if self.settings.is_external_bindgen() {
                self.ask_version(Stage::CheckingSrcBindgen)
            } else {
                self.stage = Stage::WritingSrcBindings;
                Request::WriteSrcBindings(
                    LibraryBindgen {
                        manifest_dir: self.manifest_dir.clone(),
                        options: bindings::generate_src_bindings(&self.prefix),
                        output: path,
                    },
                )
            }
        } else if self.settings.is_bindgen_required(self.features) {
            if self.bindgen_library {
                self.stage = Stage::AskingClang;
                Request::AskClang
            } else {
                self.ask_version(Stage::CheckingBindgen)
            }
        } else {
            self.go_build()
        }
    }

    /// Generates the bindings of this build with the bindgen library, unless the settings ask
    /// for the bindgen command.
    fn handle_bindgen(&mut self, clang_version: &str, log: &mut Transcript) -> (r: Request)
        ensures
            takes_step(
                old(self)@,
                final(self)@,
                old(self)@.use_clang(clang_version@),
                r@,
                old(log)@,
                final(log)@,
            ),
    {
        emit_warning("Clang version: ".to_owned().concat(clang_version).as_str(), log);
        let ghost first = env::warning_line("Clang version: "@ + clang_version@);
        assert(log@ =~= old(log)@ + seq![first]);
        if self.settings.is_external_bindgen() {
            return self.ask_version(Stage::CheckingBindgen);
        }
        let triple = match effective_target(&self.env) {
            Ok(triple) => triple,
            Err(missing) => return self.stop_missing(missing),
        };
        emit_warning(
            "Generating bindings - internal bindgen. Platform: ".to_owned().concat(
                triple.as_str(),
            ).as_str(),
            log,
        );
        assert(log@ =~= old(log)@ + seq![
            first,
            env::warning_line("Generating bindings - internal bindgen. Platform: "@ + triple@),
        ]);
        self.stage = Stage::GeneratingBindings;
        Request::GenerateBindings(
            LibraryBindgen {
                manifest_dir: self.manifest_dir.clone(),
                options: bindings::generate_bindings(&self.prefix, self.features.ssl),
                output: self.out_dir.join("bindings.rs"),
            },
        )
    }

    /// Goes on after the version of the bindgen command that writes bindings for later builds.
    fn use_src_version(&mut self, result: &TestCommandResult, log: &mut Transcript) -> (r: Request)
        ensures
            takes_step(
                old(self)@,
                final(self)@,
                old(self)@.use_src_version(command_text(*result)),
                r@,
                old(log)@,
                final(log)@,
            ),
    {
        assert(log@ =~= old(log)@ + Seq::<LineText>::empty());
        let path = match self.src_bindings_path() {
            Ok(path) => path,
            Err(missing) => return self.stop_missing(missing),
        };
        let generation = external_generate_src_bindings(&self.manifest_dir, &self.prefix, &path);
        match generation.after_version(result, &self.env, &self.listed, log) {
            VersionVerdict::Rejected(reason) => {
                self.stage = Stage::Stopped;
                Request::Stop(Failure::WriteBindings(reason))
            },
            VersionVerdict::Missing(missing) => self.stop_missing(missing),
            VersionVerdict::Run(args) => {
                self.stage = Stage::RunningSrcBindgen;
                Request::RunBindgen(args)
            },
        }
    }

    /// Goes on after the bindgen command has written bindings for later builds, or failed to.
    fn use_src_run(
        &mut self,
        params: &Vec<String>,
        result: &TestCommandResult,
        log: &mut Transcript,
    ) -> (r: Request)
        ensures
            takes_step(
                old(self)@,
                final(self)@,
                old(self)@.use_src_run(text::texts(params@), command_text(*result)),
                r@,
                old(log)@,
                final(log)@,
            ),
    {
        assert(log@ =~= old(log)@ + Seq::<LineText>::empty());
        match ExternalBindgen::after_run(params, result) {
            Ok(_) => self.go_build(),
            Err(reason) => {
                self.stage = Stage::Stopped;
                Request::Stop(Failure::WriteBindings(reason))
            },
        }
    }

    /// Goes on after the version of the bindgen command that generates the bindings of this
    /// build.
    fn use_version(&mut self, result: &TestCommandResult, log: &mut Transcript) -> (r: Request)
        ensures
            takes_step(
                old(self)@,
                final(self)@,
                old(self)@.use_version(command_text(*result)),
                r@,
                old(log)@,
                final(log)@,
            ),
    {
        let options = bindings::generate_bindings(&self.prefix, self.features.ssl);
        let output = self.out_dir.join("bindings.rs");
        let generation = invoke_external_bindgen(&self.manifest_dir, &options, &output);
        match generation.after_version(result, &self.env, &self.listed, log) {
            VersionVerdict::Rejected(reason) => {
                log.stderr(
                    "Failure invoking external bindgen! ".to_owned().concat(reason.as_str()),
                );
                assert(log@ =~= old(log)@ + old(self)@.use_version(command_text(*result)).lines);
                self.stage = Stage::Stopped;
                Request::Stop(Failure::NoBindings)
            },
            VersionVerdict::Missing(missing) => self.stop_missing(missing),
            VersionVerdict::Run(args) => {
                self.stage = Stage::RunningBindgen;
                Request::RunBindgen(args)
            },
        }
    }

    /// Goes on after the bindgen command has generated the bindings of this build, or failed to.
    fn use_run(
        &mut self,
        params: &Vec<String>,
        result: &TestCommandResult,
        log: &mut Transcript,
    ) -> (r: Request)
        ensures
            takes_step(
                old(self)@,
                final(self)@,
                old(self)@.use_run(text::texts(params@), command_text(*result)),
                r@,
                old(log)@,
                final(log)@,
            ),
    {
        let ghost lines = self@.use_run(text::texts(params@), command_text(*result)).lines;
        match ExternalBindgen::after_run(params, result) {
            Ok(_) => {
                emit_rustc_cfg("use_bindgen_generated", log);
                assert(log@ =~= old(log)@ + lines);
                self.go_build()
            },
            Err(reason) => {
                log.stderr(
                    "Failure invoking external bindgen! ".to_owned().concat(reason.as_str()),
                );
                assert(log@ =~= old(log)@ + lines);
                self.stage = Stage::Stopped;
                Request::Stop(Failure::NoBindings)
            },
        }
    }

    /// Goes on to gather the headers.
    fn gather(&mut self, log: &mut Transcript) -> (r: Request)
        ensures
            takes_step(old(self)@, final(self)@, old(self)@.gather(), r@, old(log)@, final(log)@),
    {
        let setup = setup_include_paths(
            &self.out_dir,
            &self.manifest_dir,
            &self.env,
            &self.listed,
            log,
        );
        assert(log@ =~= old(log)@ + old(self)@.gather().lines);
        self.stage = Stage::GatheringHeaders;
        Request::GatherHeaders(setup)
    }

    /// Tells dependent packages what was built.
    fn export(&mut self, log: &mut Transcript) -> (r: Request)
        ensures
            final(self)@ == (BuildText { stage: Stage::Finished, ..old(self)@ }),
            r@ == RequestText::Finish,
            final(log)@ == old(log)@ + old(self)@.export_lines(),
    {
        log.stdout_path("cargo:include=".to_owned(), self.out_dir.join("include"));
        log.stdout(
            "cargo:libcrypto=".to_owned().concat(prefix_string(self.version.as_str()).as_str()).concat(
                "_crypto",
            ),
        );
        if self.features.ssl {
            log.stdout(
                "cargo:libssl=".to_owned().concat(
                    prefix_string(self.version.as_str()).as_str(),
                ).concat("_ssl"),
            );
        }
        log.stdout("cargo:conf=".to_owned().concat(join(&conf_defines(), ",").as_str()));
        log.stdout("cargo:rerun-if-changed=builder/".to_owned());
        log.stdout("cargo:rerun-if-changed=aws-lc/".to_owned());
        assert(log@ =~= old(log)@ + old(self)@.export_lines());
        self.stage = Stage::Finished;
        Request::Finish
    }
}

// ---------------------------------------------------------------------------
// What holds of every build
// ---------------------------------------------------------------------------

/// How many steps a build at a stage can still take at most.
pub open spec fn steps_left(stage: Stage) -> nat {
    match stage {
        Stage::CheckingDependencies => 6,
        Stage::AskingClang => 5,
        Stage::CheckingBindgen | Stage::CheckingSrcBindgen => 4,
        Stage::WritingSrcBindings | Stage::RunningSrcBindgen | Stage::GeneratingBindings
        | Stage::RunningBindgen => 3,
        Stage::BuildingLibraries => 2,
        Stage::GatheringHeaders => 1,
        Stage::Finished | Stage::Stopped => 0,
    }
}

/// Every step brings a build closer to its end.
pub proof fn every_build_ends(build: BuildText, event: EventText)
    requires
        awaits(build.stage, event),
    ensures
        steps_left(build.step(event).stage) < steps_left(build.stage),
{
}

/// A build that waits for nothing has asked for its own end, and only such a build has.
pub proof fn a_build_ends_when_it_says_so(build: BuildText, event: EventText)
    requires
        awaits(build.stage, event),
    ensures
        (build.step(event).stage is Finished) <==> (build.step(event).request is Finish),
        (build.step(event).stage is Stopped) <==> (build.step(event).request is Missing
            || build.step(event).request is WriteBindings || build.step(event).request is NoBindings),
{
}

/// The libraries are built only when bindings are there: bindings made in advance suffice, or
/// bindings have just been written or generated.
pub proof fn libraries_are_built_only_with_bindings(build: BuildText, event: EventText)
    requires
        awaits(build.stage, event),
    ensures
        (build.step(event).request is BuildLibraries) <==> (match build.stage {
            Stage::CheckingDependencies => !build.settings.needs_bindgen(build.features),
            Stage::WritingSrcBindings | Stage::GeneratingBindings => true,
            Stage::RunningSrcBindgen | Stage::RunningBindgen => event->Ran_1.status,
            _ => false,
        }),
{
}

/// A build fails for want of bindings exactly when the bindgen command, asked for the bindings of
/// this build, fails.
pub proof fn only_a_failed_bindgen_leaves_no_bindings(build: BuildText, event: EventText)
    requires
        awaits(build.stage, event),
    ensures
        (build.step(event).request is NoBindings) <==> ((build.stage is CheckingBindgen
            || build.stage is RunningBindgen) && !event->Ran_1.status),
{
}

/// A build with bindings made in advance, and nothing that asks for others, generates none: it
/// goes from the check of its tools to the libraries.
pub proof fn pregenerated_bindings_go_straight_to_the_libraries(build: BuildText)
    requires
        build.stage is CheckingDependencies,
        !build.settings.needs_bindgen(build.features),
    ensures
        build.step(EventText::Done) == go_build(Seq::empty()),
{
}

/// A build finishes in order: its headers are gathered right after the libraries are built, and
/// it is done right after that.
pub proof fn a_build_finishes_in_order(build: BuildText, event: EventText)
    requires
        awaits(build.stage, event),
    ensures
        (build.step(event).stage is GatheringHeaders) <==> (build.stage is BuildingLibraries),
        (build.step(event).stage is Finished) <==> (build.stage is GatheringHeaders),
{
}

/// The package is told to compile bindings generated for this build exactly where they were: the
/// step from the bindings to the libraries then sets the `cfg` flag for them, and prints nothing
/// otherwise.
pub proof fn generated_bindings_are_announced(build: BuildText, event: EventText)
    requires
        awaits(build.stage, event),
        build.step(event).request is BuildLibraries,
    ensures
        build.step(event).lines == (if build.stage is GeneratingBindings
            || build.stage is RunningBindgen {
            seq![env::rustc_cfg_line("use_bindgen_generated"@)]
        } else {
            Seq::empty()
        }),
{
}

/// A step changes the stage of a build alone: its settings and its prefix stay.
pub proof fn settings_stay(
    before: BuildText,
    after: BuildText,
    event: EventText,
    request: RequestText,
    printed_before: Seq<LineText>,
    printed_after: Seq<LineText>,
)
    requires
        takes_step(before, after, before.step(event), request, printed_before, printed_after),
    ensures
        after.settings == before.settings,
        after.prefix == before.prefix,
        after.env == before.env,
        printed_before.is_prefix_of(printed_after),
{
    assert(printed_after.subrange(0, printed_before.len() as int) =~= printed_before);
}

/// In a build whose symbols have a prefix, the exported names are those that the libraries have.
pub proof fn exported_names_are_those_of_the_libraries(build: BuildText)
    requires
        build.prefix == build_prefix(build.settings, build.version),
        !build.settings.no_prefix,
    ensures
        build.export_lines()[1] == LineText::Stdout(
            "cargo:libcrypto="@ + libs::library_name(OutputLib::Crypto, build.prefix),
        ),
        build.features.ssl ==> build.export_lines()[2] == LineText::Stdout(
            "cargo:libssl="@ + libs::library_name(OutputLib::Ssl, build.prefix),
        ),
{
    reveal_strlit("_");
    reveal_strlit("crypto");
    reveal_strlit("_crypto");
    reveal_strlit("ssl");
    reveal_strlit("_ssl");
    let prefix = libs::symbol_prefix(build.version);
    assert("cargo:libcrypto="@ + prefix + "_crypto"@ =~= "cargo:libcrypto="@ + (prefix + "_"@
        + "crypto"@));
    assert("cargo:libssl="@ + prefix + "_ssl"@ =~= "cargo:libssl="@ + (prefix + "_"@ + "ssl"@));
}

} // verus!
