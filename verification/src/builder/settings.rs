//! The settings of a build, and which bindings it uses.

use vstd::prelude::*;

use crate::builder::env;
use crate::builder::env::{
    effective_target, emit_rustc_cfg, env_var_to_bool, BuildEnv, MissingVariable, Transcript,
};
use crate::text::same_text;

verus! {

/// The variable that the build sets for the Go tools that it runs.
pub const GO_FLAGS_NAME: &'static str = "GOFLAGS";

/// Its value: Go records no version control information.
pub const GO_FLAGS_VALUE: &'static str = "-buildvcs=false";

/// The Cargo features of the build.
#[derive(Clone, Copy, PartialEq, Eq, Structural, Debug)]
pub struct Features {
    /// The bindings are generated with the bindgen library.
    pub bindgen: bool,
    /// The bindings cover libssl.
    pub ssl: bool,
}

impl Features {
    /// Tells whether the bindgen feature is on.
    pub fn has_bindgen_feature(&self) -> (r: bool)
        ensures
            r == self.bindgen,
    {
        self.bindgen
    }
}

/// The settings of a build.
#[derive(Clone, Copy, PartialEq, Eq, Structural, Debug)]
pub struct Settings {
    /// Symbols get no prefix.
    pub no_prefix: bool,
    /// The build writes the bindings that later builds use.
    pub pregenerating_bindings: bool,
    /// The bindings come from the bindgen command.
    pub external_bindgen: bool,
    /// AWS-LC is built without assembly code.
    pub no_asm: bool,
    /// AWS-LC gathers entropy from CPU jitter.
    pub cpu_jitter_entropy: bool,
    /// Bindings made in advance are at hand for the target.
    pub pregenerated: bool,
}

/// Tells whether a switch is on. A switch that is not set, or says nothing, is off.
pub open spec fn is_on(env: env::Variables, name: Seq<char>) -> bool {
    env::env_switch(env, name) == Some(true)
}

/// The platforms for which bindings made in advance exist.
pub open spec fn is_supported_platform(triple: Seq<char>) -> bool {
    ||| triple == "x86_64-unknown-linux-gnu"@
    ||| triple == "aarch64-unknown-linux-gnu"@
    ||| triple == "x86_64-unknown-linux-musl"@
    ||| triple == "aarch64-unknown-linux-musl"@
    ||| triple == "x86_64-apple-darwin"@
    ||| triple == "aarch64-apple-darwin"@
}

/// Tells whether bindings made in advance exist for a platform.
pub fn supported_platform(triple: &str) -> (r: bool)
    ensures
        r == is_supported_platform(triple@),
{
    same_text(triple, "x86_64-unknown-linux-gnu") || same_text(triple, "aarch64-unknown-linux-gnu")
        || same_text(triple, "x86_64-unknown-linux-musl") || same_text(
        triple,
        "aarch64-unknown-linux-musl",
    ) || same_text(triple, "x86_64-apple-darwin") || same_text(triple, "aarch64-apple-darwin")
}

/// Tells whether a build looks for bindings made in advance: nothing asks for other bindings, or
/// the build itself makes them.
pub open spec fn considers_pregenerated(env: env::Variables, features: Features) -> bool {
    ||| !is_on(env, "AWS_LC_FIPS_SYS_NO_PREFIX"@) && !features.bindgen && !is_on(
        env,
        "AWS_LC_FIPS_SYS_EXTERNAL_BINDGEN"@,
    ) && !features.ssl
    ||| is_on(env, "AWS_LC_FIPS_SYS_PREGENERATING_BINDINGS"@)
}

/// The platform whose bindings, made in advance, a build has at hand; or the name of a missing
/// variable.
pub open spec fn pregenerated_platform(
    env: env::Variables,
    features: Features,
) -> Result<Option<Seq<char>>, Seq<char>> {
    if considers_pregenerated(env, features) {
        match env::build_triple(env) {
            Ok(triple) => Ok(
                if is_supported_platform(triple) {
                    Some(triple)
                } else {
                    None
                },
            ),
            Err(name) => Err(name),
        }
    } else {
        Ok(None)
    }
}

/// The settings that an environment and a set of features give, or the name of a missing
/// variable.
pub open spec fn initial_settings(env: env::Variables, features: Features) -> Result<
    Settings,
    Seq<char>,
> {
    match pregenerated_platform(env, features) {
        Ok(platform) => Ok(
            Settings {
                no_prefix: is_on(env, "AWS_LC_FIPS_SYS_NO_PREFIX"@),
                pregenerating_bindings: is_on(env, "AWS_LC_FIPS_SYS_PREGENERATING_BINDINGS"@),
                external_bindgen: is_on(env, "AWS_LC_FIPS_SYS_EXTERNAL_BINDGEN"@),
                no_asm: is_on(env, "AWS_LC_FIPS_SYS_NO_ASM"@),
                cpu_jitter_entropy: is_on(env, "AWS_LC_FIPS_SYS_CPU_JITTER_ENTROPY"@),
                pregenerated: platform is Some,
            },
        ),
        Err(name) => Err(name),
    }
}

/// What is printed while the settings are read: the five switches, then the `cfg` flag of the
/// platform where its bindings are at hand.
pub open spec fn initialize_lines(env: env::Variables, features: Features) -> Seq<env::LineText> {
    env::env_switch_lines(env, "AWS_LC_FIPS_SYS_NO_PREFIX"@) + env::env_switch_lines(
        env,
        "AWS_LC_FIPS_SYS_PREGENERATING_BINDINGS"@,
    ) + env::env_switch_lines(env, "AWS_LC_FIPS_SYS_EXTERNAL_BINDGEN"@) + env::env_switch_lines(
        env,
        "AWS_LC_FIPS_SYS_NO_ASM"@,
    ) + env::env_switch_lines(env, "AWS_LC_FIPS_SYS_CPU_JITTER_ENTROPY"@) + (
    match pregenerated_platform(env, features) {
        Ok(Some(platform)) => seq![env::rustc_cfg_line(platform)],
        _ => Seq::empty(),
    })
}

/// Reads the settings of a build.
#[verifier::spinoff_prover]
pub fn initialize(env: &BuildEnv, features: Features, log: &mut Transcript) -> (r: Result<
    Settings,
    MissingVariable,
>)
    ensures
        (match r {
            Ok(settings) => Ok(settings),
            Err(missing) => Err(missing.name@),
        }) == initial_settings(env@, features),
        final(log)@ == old(log)@ + initialize_lines(env@, features),
{
    let mut settings = Settings {
        no_prefix: env_var_to_bool(env, "AWS_LC_FIPS_SYS_NO_PREFIX", log).unwrap_or(false),
        pregenerating_bindings: env_var_to_bool(
            env,
            "AWS_LC_FIPS_SYS_PREGENERATING_BINDINGS",
            log,
        ).unwrap_or(false),
        external_bindgen: env_var_to_bool(
            env,
            "AWS_LC_FIPS_SYS_EXTERNAL_BINDGEN",
            log,
        ).unwrap_or(false),
        no_asm: env_var_to_bool(env, "AWS_LC_FIPS_SYS_NO_ASM", log).unwrap_or(false),
        cpu_jitter_entropy: env_var_to_bool(
            env,
            "AWS_LC_FIPS_SYS_CPU_JITTER_ENTROPY",
            log,
        ).unwrap_or(false),
        pregenerated: false,
    };
    // Bindings made in advance are out of the question wherever the user requires or requests
    // that bindings be generated.
    if (!settings.is_no_prefix() && !features.has_bindgen_feature()
        && !settings.is_external_bindgen() && !features.ssl)
        || settings.is_pregenerating_bindings() {
        match effective_target(env) {
            Ok(platform) => {
                if supported_platform(platform.as_str()) {
                    emit_rustc_cfg(platform.as_str(), log);
                    settings.pregenerated = true;
                }
            },
            Err(missing) => {
                assert(log@ =~= old(log)@ + initialize_lines(env@, features));
                return Err(missing);
            },
        }
    }
    assert(log@ =~= old(log)@ + initialize_lines(env@, features));
    Ok(settings)
}

impl Settings {
    /// Tells whether symbols get no prefix.
    pub fn is_no_prefix(&self) -> (r: bool)
        ensures
            r == self.no_prefix,
    {
        self.no_prefix
    }

    /// Tells whether the build writes the bindings that later builds use.
    pub fn is_pregenerating_bindings(&self) -> (r: bool)
        ensures
            r == self.pregenerating_bindings,
    {
        self.pregenerating_bindings
    }

    /// Tells whether the bindings come from the bindgen command.
    pub fn is_external_bindgen(&self) -> (r: bool)
        ensures
            r == self.external_bindgen,
    {
        self.external_bindgen
    }

    /// Tells whether AWS-LC is built without assembly code.
    pub fn is_no_asm(&self) -> (r: bool)
        ensures
            r == self.no_asm,
    {
        self.no_asm
    }

    /// Tells whether AWS-LC gathers entropy from CPU jitter.
    pub fn is_cpu_jitter_entropy(&self) -> (r: bool)
        ensures
            r == self.cpu_jitter_entropy,
    {
        self.cpu_jitter_entropy
    }

    /// Tells whether bindings made in advance are at hand.
    pub fn has_pregenerated(&self) -> (r: bool)
        ensures
            r == self.pregenerated,
    {
        self.pregenerated
    }

    /// Tells whether bindings have to be generated.
    pub open spec fn needs_bindgen(self, features: Features) -> bool {
        self.no_prefix || self.pregenerating_bindings || self.external_bindgen || features.bindgen
            || !self.pregenerated
    }

    /// Tells whether bindings have to be generated.
    pub fn is_bindgen_required(&self, features: Features) -> (r: bool)
        ensures
            r == self.needs_bindgen(features),
    {
        self.is_no_prefix() || self.is_pregenerating_bindings() || self.is_external_bindgen()
            || features.has_bindgen_feature() || !self.has_pregenerated()
    }
}

/// The directives that declare the `cfg` flags of this build to the compiler.
pub open spec fn cargo_cfg_lines(clippy: bool) -> Seq<env::LineText> {
    if clippy {
        seq![
            env::LineText::Stdout("cargo:rustc-check-cfg=cfg(aarch64_apple_darwin)"@),
            env::LineText::Stdout("cargo:rustc-check-cfg=cfg(aarch64_unknown_linux_gnu)"@),
            env::LineText::Stdout("cargo:rustc-check-cfg=cfg(aarch64_unknown_linux_musl)"@),
            env::LineText::Stdout("cargo:rustc-check-cfg=cfg(cpu_jitter_entropy)"@),
            env::LineText::Stdout("cargo:rustc-check-cfg=cfg(i686_unknown_linux_gnu)"@),
            env::LineText::Stdout("cargo:rustc-check-cfg=cfg(use_bindgen_generated)"@),
            env::LineText::Stdout("cargo:rustc-check-cfg=cfg(x86_64_apple_darwin)"@),
            env::LineText::Stdout("cargo:rustc-check-cfg=cfg(x86_64_unknown_linux_gnu)"@),
            env::LineText::Stdout("cargo:rustc-check-cfg=cfg(x86_64_unknown_linux_musl)"@),
        ]
    } else {
        Seq::empty()
    }
}

/// Declares the `cfg` flags of this build when the build runs under Clippy.
pub fn prepare_cargo_cfg(clippy: bool, log: &mut Transcript)
    ensures
        final(log)@ == old(log)@ + cargo_cfg_lines(clippy),
{
    if clippy {
        log.stdout("cargo:rustc-check-cfg=cfg(aarch64_apple_darwin)".to_owned());
        log.stdout("cargo:rustc-check-cfg=cfg(aarch64_unknown_linux_gnu)".to_owned());
        log.stdout("cargo:rustc-check-cfg=cfg(aarch64_unknown_linux_musl)".to_owned());
        log.stdout("cargo:rustc-check-cfg=cfg(cpu_jitter_entropy)".to_owned());
        log.stdout("cargo:rustc-check-cfg=cfg(i686_unknown_linux_gnu)".to_owned());
        log.stdout("cargo:rustc-check-cfg=cfg(use_bindgen_generated)".to_owned());
        log.stdout("cargo:rustc-check-cfg=cfg(x86_64_apple_darwin)".to_owned());
        log.stdout("cargo:rustc-check-cfg=cfg(x86_64_unknown_linux_gnu)".to_owned());
        log.stdout("cargo:rustc-check-cfg=cfg(x86_64_unknown_linux_musl)".to_owned());
    }
    assert(log@ =~= old(log)@ + cargo_cfg_lines(clippy));
}

/// Bindings made in advance are used only where they exist, and never where the user requires or
/// requests that bindings be generated.
pub proof fn pregenerated_bindings_are_used_only_unasked(env: env::Variables, features: Features)
    ensures
        initial_settings(env, features) matches Ok(settings) ==> !settings.needs_bindgen(features)
            ==> {
            &&& env::build_triple(env) matches Ok(triple) && is_supported_platform(triple)
            &&& !is_on(env, "AWS_LC_FIPS_SYS_NO_PREFIX"@)
            &&& !is_on(env, "AWS_LC_FIPS_SYS_PREGENERATING_BINDINGS"@)
            &&& !is_on(env, "AWS_LC_FIPS_SYS_EXTERNAL_BINDGEN"@)
            &&& !features.bindgen
            &&& !features.ssl
        },
{
}

/// Where the target has bindings made in advance and nothing asks for others, none are generated.
pub proof fn pregenerated_bindings_suffice(env: env::Variables, features: Features, triple: Seq<char>)
    requires
        env::build_triple(env) == Ok::<Seq<char>, Seq<char>>(triple),
        is_supported_platform(triple),
        !is_on(env, "AWS_LC_FIPS_SYS_NO_PREFIX"@),
        !is_on(env, "AWS_LC_FIPS_SYS_PREGENERATING_BINDINGS"@),
        !is_on(env, "AWS_LC_FIPS_SYS_EXTERNAL_BINDGEN"@),
        !features.bindgen,
        !features.ssl,
    ensures
        initial_settings(env, features) matches Ok(settings) && !settings.needs_bindgen(features),
{
}

} // verus!
