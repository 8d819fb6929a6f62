//! Generating bindings with the bindgen command.

use vstd::prelude::*;

use crate::builder::bindings;
use crate::builder::bindings::{
    add_path, add_text, add_text_path, prepare_clang_args, Arg, ArgText, BindingOptions, OptionsText,
};
use crate::builder::command::TestCommandResult;
use crate::builder::env;
use crate::builder::env::{
    effective_target, emit_warning, target_arch, target_os, BuildEnv, LineText, MissingVariable,
    Transcript,
};
use crate::builder::paths;
use crate::builder::paths::{get_rust_include_path, BuildPath, PathText};
use crate::text;
use crate::text::{
    chars_of, debug_optional_string, decimal_string, join, lower, parse_u32, same_text,
    split_at_char, trim,
};

verus! {

/// The notice at the top of generated bindings.
pub const COPYRIGHT: &'static str = r"
// Copyright Amazon.com, Inc. or its affiliates. All Rights Reserved.
// SPDX-License-Identifier: Apache-2.0 OR ISC
";

/// The lines at the top of bindings that are compiled as a module of their own.
pub const PRELUDE: &'static str = r"
// Copyright Amazon.com, Inc. or its affiliates. All Rights Reserved.
// SPDX-License-Identifier: Apache-2.0 OR ISC

#![allow(
    clippy::cast_lossless,
    clippy::cast_possible_truncation,
    clippy::cast_possible_wrap,
    clippy::default_trait_access,
    clippy::missing_safety_doc,
    clippy::must_use_candidate,
    clippy::not_unsafe_ptr_arg_deref,
    clippy::ptr_as_ptr,
    clippy::ptr_offset_with_cast,
    clippy::pub_underscore_fields,
    clippy::semicolon_if_nothing_returned,
    clippy::too_many_lines,
    clippy::unreadable_literal,
    clippy::used_underscore_binding,
    clippy::useless_transmute,
    dead_code,
    improper_ctypes,
    non_camel_case_types,
    non_snake_case,
    non_upper_case_globals,
    unpredictable_function_pointer_comparisons,
    unused_imports
)]
";

// ---------------------------------------------------------------------------
// The version of the command
// ---------------------------------------------------------------------------

/// The number that a text writes, and zero for any other text.
pub open spec fn number_or_zero(s: Seq<char>) -> u32 {
    match text::parsed_u32(s) {
        Some(n) => n,
        None => 0,
    }
}

/// The version that the output of `bindgen --version` gives: the second word, where it has three
/// parts between dots. A part that is no number counts as zero, and so do all three where there
/// are not three.
pub open spec fn detected_version(stdout: Seq<char>) -> (u32, u32, u32) {
    let words = text::split(stdout, ' ');
    if words.len() > 1 {
        let parts = text::split(text::trimmed(words[1]), '.');
        if parts.len() == 3 {
            (number_or_zero(parts[0]), number_or_zero(parts[1]), number_or_zero(parts[2]))
        } else {
            (0, 0, 0)
        }
    } else {
        (0, 0, 0)
    }
}

/// Reads the version out of the output of `bindgen --version`.
pub fn detect_version(stdout: &str) -> (r: (u32, u32, u32))
    ensures
        r == detected_version(stdout@),
{
    let chars = chars_of(stdout);
    let words = split_at_char(&chars, ' ');
    let ghost word_texts = text::part_texts(words@);
    if words.len() > 1 {
        let version = trim(&words[1]);
        assert(word_texts[1] == words@[1]@);
        let parts = split_at_char(&version, '.');
        let ghost part_texts = text::part_texts(parts@);
        if parts.len() == 3 {
            assert(part_texts[0] == parts@[0]@);
            assert(part_texts[1] == parts@[1]@);
            assert(part_texts[2] == parts@[2]@);
            return (
                parse_u32(&parts[0]).unwrap_or(0),
                parse_u32(&parts[1]).unwrap_or(0),
                parse_u32(&parts[2]).unwrap_or(0),
            );
        }
    }
    (0, 0, 0)
}

/// Tells whether a version comes before another.
pub open spec fn comes_before(a: (u32, u32, u32), b: (u32, u32, u32)) -> bool {
    ||| a.0 < b.0
    ||| a.0 == b.0 && a.1 < b.1
    ||| a.0 == b.0 && a.1 == b.1 && a.2 < b.2
}

/// What is printed where bindgen cannot be run.
pub const INSTALL_HINT: &'static str =
    "Consider installing the bindgen-cli: `cargo install --force --locked bindgen-cli`\nSee our User Guide for more information about bindgen:https://aws.github.io/aws-lc-rs/index.html";

/// What follows the version in the message on an old bindgen.
pub const UPGRADE_HINT: &'static str =
    " \nIf this is not the latest version, consider upgrading : `cargo install --force --locked bindgen-cli`\nSee our User Guide for more information about bindgen:https://aws.github.io/aws-lc-rs/index.html";

/// What is printed when the version of bindgen is looked at: where it can be installed if it
/// could not be run, and a warning if it is older than 0.69.3.
pub open spec fn version_lines(status: bool, executed: bool, stdout: Seq<char>) -> Seq<LineText> {
    if !status {
        if !executed {
            seq![LineText::Stderr(INSTALL_HINT@)]
        } else {
            Seq::empty()
        }
    } else {
        let version = detected_version(stdout);
        if comes_before(version, (0, 69, 3)) {
            seq![
                LineText::Stderr(
                    "bindgen-cli was used. Detected version was: "@ + text::decimal(version.0 as nat)
                        + "."@ + text::decimal(version.1 as nat) + "."@ + text::decimal(
                        version.2 as nat,
                    ) + UPGRADE_HINT@,
                ),
            ]
        } else {
            Seq::empty()
        }
    }
}

/// Looks at the outcome of `bindgen --version`.
pub fn verify_bindgen(result: &TestCommandResult, log: &mut Transcript) -> (r: Result<(), String>)
    ensures
        r is Ok <==> result.status,
        r matches Err(message) ==> message@ == "External bindgen command failed."@,
        final(log)@ == old(log)@ + version_lines(result.status, result.executed, result.stdout@),
{
    if !result.status {
        if !result.executed {
            log.stderr(INSTALL_HINT.to_owned());
        }
        assert(log@ =~= old(log)@ + version_lines(
            result.status,
            result.executed,
            result.stdout@,
        ));
        return Err("External bindgen command failed.".to_owned());
    }
    let (major, minor, patch) = detect_version(result.stdout.as_str());
    // All versions from 0.69.3 on are expected to work.
    if major == 0 && (minor < 69 || (minor == 69 && patch < 3)) {
        log.stderr(
            "bindgen-cli was used. Detected version was: ".to_owned().concat(
                decimal_string(major).as_str(),
            ).concat(".").concat(decimal_string(minor).as_str()).concat(".").concat(
                decimal_string(patch).as_str(),
            ).concat(UPGRADE_HINT),
        );
    }
    assert(log@ =~= old(log)@ + version_lines(result.status, result.executed, result.stdout@));
    Ok(())
}

// ---------------------------------------------------------------------------
// The arguments of the command
// ---------------------------------------------------------------------------

/// The prefix of symbols as the linker sees them: the prefix and an underscore, behind one more
/// underscore on the platforms where C symbols have one; or the name of a missing variable.
/// `os` is the operating system in lower case. The architecture matters on Windows alone.
pub open spec fn link_prefix(os: Seq<char>, env: env::Variables, prefix: Seq<char>) -> Result<
    Seq<char>,
    Seq<char>,
> {
    if os == "macos"@ || os == "ios"@ {
        Ok("_"@ + prefix + "_"@)
    } else if os == "windows"@ {
        match env::required(env, "CARGO_CFG_TARGET_ARCH"@) {
            Ok(arch) => if arch == "x86"@ {
                Ok("_"@ + prefix + "_"@)
            } else {
                Ok(prefix + "_"@)
            },
            Err(name) => Err(name),
        }
    } else {
        Ok(prefix + "_"@)
    }
}

/// The prefix of symbols as the linker sees them, on an operating system given in lower case.
pub fn link_prefix_on(os: &str, env: &BuildEnv, prefix: &str) -> (r: Result<String, MissingVariable>)
    ensures
        env::found(r) == link_prefix(os@, env@, prefix@),
{
    let underscore = if same_text(os, "macos") || same_text(os, "ios") {
        true
    } else if same_text(os, "windows") {
        proof {
            reveal_strlit("macos");
            reveal_strlit("ios");
            reveal_strlit("windows");
        }
        match target_arch(env) {
            Ok(arch) => same_text(arch.as_str(), "x86"),
            Err(missing) => return Err(missing),
        }
    } else {
        false
    };
    if underscore {
        Ok("_".to_owned().concat(prefix).concat("_"))
    } else {
        Ok(prefix.to_owned().concat("_"))
    }
}

/// The prefix of symbols as the linker sees them on the target, or the name of a missing
/// variable.
pub open spec fn target_link_prefix(env: env::Variables, prefix: Seq<char>) -> Result<
    Seq<char>,
    Seq<char>,
> {
    match env::required(env, "CARGO_CFG_TARGET_OS"@) {
        Ok(os) => link_prefix(text::lowered(os), env, prefix),
        Err(name) => Err(name),
    }
}

/// The prefix of symbols as the linker sees them on the target.
pub fn sym_prefix(env: &BuildEnv, prefix: &str) -> (r: Result<String, MissingVariable>)
    ensures
        env::found(r) == target_link_prefix(env@, prefix@),
{
    match target_os(env) {
        Ok(os) => link_prefix_on(lower(os.as_str()).as_str(), env, prefix),
        Err(missing) => Err(missing),
    }
}

/// The header that bindings are generated from.
pub open spec fn wrapper_header(manifest_dir: PathText) -> PathText {
    paths::rust_include_dir(manifest_dir).join("rust_wrapper.h"@)
}

/// The arguments that say what is generated, from which header and into which file.
pub open spec fn generation_args(manifest_dir: PathText, output: PathText) -> Seq<ArgText> {
    seq![
        ArgText::Text("--allowlist-file"@),
        ArgText::Text(r".*(/|\\)openssl((/|\\)[^/\\]+)+\.h"@),
        ArgText::Text("--allowlist-file"@),
        ArgText::Text(r".*(/|\\)rust_wrapper\.h"@),
        ArgText::Text("--rustified-enum"@),
        ArgText::Text("point_conversion_form_t"@),
        ArgText::Text("--default-macro-constant-type"@),
        ArgText::Text("signed"@),
        ArgText::Text("--with-derive-default"@),
        ArgText::Text("--with-derive-partialeq"@),
        ArgText::Text("--with-derive-eq"@),
        ArgText::Text("--raw-line"@),
        ArgText::Text(COPYRIGHT@),
        ArgText::Text("--generate"@),
        ArgText::Text("functions,types,vars,methods,constructors,destructors"@),
        ArgText::Path(wrapper_header(manifest_dir)),
        ArgText::Text("--rust-target"@),
        ArgText::Text("1.59"@),
        ArgText::Text("--output"@),
        ArgText::TextPath(output),
        ArgText::Text("--formatter"@),
        ArgText::Text("rustfmt"@),
    ]
}

/// The arguments of the bindgen command. The generated headers, which hold the prefix, are left
/// out: bindgen itself puts the prefix before the name that each symbol is linked under.
pub open spec fn bindgen_args(
    manifest_dir: PathText,
    output: PathText,
    options: OptionsText,
    link_prefix: Option<Seq<char>>,
    extra: Seq<PathText>,
) -> Seq<ArgText> {
    (match link_prefix {
        Some(prefix) => seq![ArgText::Text("--prefix-link-name"@), ArgText::Text(prefix)],
        None => Seq::empty(),
    }) + generation_args(manifest_dir, output) + (if options.disable_prelude {
        Seq::empty()
    } else {
        seq![ArgText::Text("--raw-line"@), ArgText::Text(PRELUDE@)]
    }) + seq![ArgText::Text("--"@)] + bindings::include_args(
        bindings::header_dirs(manifest_dir, false, extra),
    ) + (if options.include_ssl {
        seq![ArgText::Text("-DAWS_LC_RUST_INCLUDE_SSL"@)]
    } else {
        Seq::empty()
    })
}

/// Adds the arguments that say what is generated.
fn add_generation_args(args: &mut Vec<Arg>, manifest_dir: &BuildPath, output: &BuildPath)
    ensures
        bindings::arg_texts(final(args)@) == bindings::arg_texts(old(args)@) + generation_args(
            manifest_dir@,
            output@,
        ),
{
    add_text(args, "--allowlist-file");
    add_text(args, r".*(/|\\)openssl((/|\\)[^/\\]+)+\.h");
    add_text(args, "--allowlist-file");
    add_text(args, r".*(/|\\)rust_wrapper\.h");
    add_text(args, "--rustified-enum");
    add_text(args, "point_conversion_form_t");
    add_text(args, "--default-macro-constant-type");
    add_text(args, "signed");
    add_text(args, "--with-derive-default");
    add_text(args, "--with-derive-partialeq");
    add_text(args, "--with-derive-eq");
    add_text(args, "--raw-line");
    add_text(args, COPYRIGHT);
    add_text(args, "--generate");
    add_text(args, "functions,types,vars,methods,constructors,destructors");
    add_path(args, get_rust_include_path(manifest_dir).join("rust_wrapper.h"));
    add_text(args, "--rust-target");
    add_text(args, "1.59");
    add_text(args, "--output");
    add_text_path(args, output.clone());
    add_text(args, "--formatter");
    add_text(args, "rustfmt");
    assert(bindings::arg_texts(args@) =~= bindings::arg_texts(old(args)@) + generation_args(
        manifest_dir@,
        output@,
    ));
}

// ---------------------------------------------------------------------------
// Running the command
// ---------------------------------------------------------------------------

/// A generation of bindings with the bindgen command. The command is first asked for its version
/// and then run; both runs are left to the caller.
#[derive(Debug)]
pub struct ExternalBindgen {
    pub manifest_dir: BuildPath,
    pub options: BindingOptions,
    pub output: BuildPath,
}

/// The value of a generation of bindings.
pub struct ExternalText {
    pub manifest_dir: PathText,
    pub options: OptionsText,
    pub output: PathText,
}

impl View for ExternalBindgen {
    type V = ExternalText;

    open spec fn view(&self) -> ExternalText {
        ExternalText {
            manifest_dir: self.manifest_dir@,
            options: self.options@,
            output: self.output@,
        }
    }
}

/// What follows from the outcome of `bindgen --version`.
#[derive(Debug)]
pub enum VersionVerdict {
    /// Bindings cannot be generated, for the reason given.
    Rejected(String),
    /// A variable is missing.
    Missing(MissingVariable),
    /// The command is to be run with these arguments.
    Run(Vec<Arg>),
}

/// The value of a verdict.
pub enum VerdictText {
    Rejected(Seq<char>),
    Missing(Seq<char>),
    Run(Seq<ArgText>),
}

impl View for VersionVerdict {
    type V = VerdictText;

    open spec fn view(&self) -> VerdictText {
        match self {
            VersionVerdict::Rejected(message) => VerdictText::Rejected(message@),
            VersionVerdict::Missing(missing) => VerdictText::Missing(missing.name@),
            VersionVerdict::Run(args) => VerdictText::Run(bindings::arg_texts(args@)),
        }
    }
}

/// The prefix of symbols as the linker sees them, where symbols have one, or the name of a
/// missing variable.
pub open spec fn optional_link_prefix(env: env::Variables, prefix: Option<Seq<char>>) -> Result<
    Option<Seq<char>>,
    Seq<char>,
> {
    match prefix {
        Some(prefix) => match target_link_prefix(env, prefix) {
            Ok(link) => Ok(Some(link)),
            Err(name) => Err(name),
        },
        None => Ok(None),
    }
}

/// What follows from the outcome of `bindgen --version`.
pub open spec fn version_verdict(
    generation: ExternalText,
    status: bool,
    env: env::Variables,
    listed: Seq<Seq<char>>,
) -> VerdictText {
    if !status {
        VerdictText::Rejected("External bindgen command failed."@)
    } else {
        match env::build_triple(env) {
            Err(name) => VerdictText::Missing(name),
            Ok(_) => match optional_link_prefix(env, generation.options.build_prefix) {
                Err(name) => VerdictText::Missing(name),
                Ok(link) => VerdictText::Run(
                    bindgen_args(
                        generation.manifest_dir,
                        generation.output,
                        generation.options,
                        link,
                        paths::extra_include_dirs(env, listed),
                    ),
                ),
            },
        }
    }
}

/// The message on a generation of bindings with the bindgen command.
pub open spec fn external_message(triple: Seq<char>, prefix: Option<Seq<char>>) -> Seq<char> {
    "Generating bindings - external bindgen. Platform: '"@ + triple + "' Prefix: '"@
        + text::debug_of_optional_text(prefix) + "'"@
}

/// What is printed after the outcome of `bindgen --version`.
pub open spec fn version_verdict_lines(
    generation: ExternalText,
    status: bool,
    executed: bool,
    stdout: Seq<char>,
    env: env::Variables,
) -> Seq<LineText> {
    version_lines(status, executed, stdout) + (if !status {
        Seq::empty()
    } else {
        match env::build_triple(env) {
            Err(_) => Seq::empty(),
            Ok(triple) => seq![
                env::warning_line(external_message(triple, generation.options.build_prefix)),
                env::rerun_line("AWS_LC_FIPS_SYS_INCLUDES"@),
            ],
        }
    })
}

/// Starts a generation of bindings with the bindgen command.
pub fn invoke_external_bindgen(
    manifest_dir: &BuildPath,
    options: &BindingOptions,
    gen_bindings_path: &BuildPath,
) -> (r: ExternalBindgen)
    ensures
        r@ == (ExternalText {
            manifest_dir: manifest_dir@,
            options: options@,
            output: gen_bindings_path@,
        }),
{
    ExternalBindgen {
        manifest_dir: manifest_dir.clone(),
        options: options.clone(),
        output: gen_bindings_path.clone(),
    }
}

/// Starts writing bindings for later builds with the bindgen command.
pub fn external_generate_src_bindings(
    manifest_dir: &BuildPath,
    prefix: &Option<String>,
    src_bindings_path: &BuildPath,
) -> (r: ExternalBindgen)
    ensures
        r@ == (ExternalText {
            manifest_dir: manifest_dir@,
            options: bindings::src_options(text::optional_text(*prefix)),
            output: src_bindings_path@,
        }),
{
    invoke_external_bindgen(
        manifest_dir,
        &bindings::generate_src_bindings(prefix),
        src_bindings_path,
    )
}

/// The arguments that ask bindgen for its version.
pub fn version_args() -> (r: Vec<Arg>)
    ensures
        bindings::arg_texts(r@) == seq![ArgText::Text("--version"@)],
{
    let mut args: Vec<Arg> = Vec::new();
    add_text(&mut args, "--version");
    assert(bindings::arg_texts(args@) =~= seq![ArgText::Text("--version"@)]);
    args
}

impl ExternalBindgen {
    /// Goes on after `bindgen --version`.
    pub fn after_version(
        &self,
        result: &TestCommandResult,
        env: &BuildEnv,
        listed: &Vec<String>,
        log: &mut Transcript,
    ) -> (r: VersionVerdict)
        ensures
            r@ == version_verdict(self@, result.status, env@, text::texts(listed@)),
            final(log)@ == old(log)@ + version_verdict_lines(
                self@,
                result.status,
                result.executed,
                result.stdout@,
                env@,
            ),
    {
        let ghost printed = version_verdict_lines(
            self@,
            result.status,
            result.executed,
            result.stdout@,
            env@,
        );
        if let Err(message) = verify_bindgen(result, log) {
            assert(log@ =~= old(log)@ + printed);
            return VersionVerdict::Rejected(message);
        }
        let triple = match effective_target(env) {
            Ok(triple) => triple,
            Err(missing) => {
                assert(log@ =~= old(log)@ + printed);
                return VersionVerdict::Missing(missing);
            },
        };
        emit_warning(
            "Generating bindings - external bindgen. Platform: '".to_owned().concat(
                triple.as_str(),
            ).concat("' Prefix: '").concat(
                debug_optional_string(&self.options.build_prefix).as_str(),
            ).concat("'").as_str(),
            log,
        );
        let without_prefix = BindingOptions {
            // With the bindgen command the prefix headers are not wanted: it adds the prefix to
            // the symbols itself to form the link name.
            build_prefix: None,
            include_ssl: self.options.include_ssl,
            disable_prelude: self.options.disable_prelude,
        };
        let mut clang_args = prepare_clang_args(
            &self.manifest_dir,
            &without_prefix,
            env,
            listed,
            log,
        );
        assert(log@ =~= old(log)@ + printed);
        if self.options.include_ssl {
            add_text(&mut clang_args, "-DAWS_LC_RUST_INCLUDE_SSL");
        }
        let mut params: Vec<Arg> = Vec::new();
        assert(bindings::arg_texts(params@) =~= Seq::<ArgText>::empty());
        if let Some(prefix) = &self.options.build_prefix {
            match sym_prefix(env, prefix.as_str()) {
                Ok(link) => {
                    add_text(&mut params, "--prefix-link-name");
                    add_text(&mut params, link.as_str());
                },
                Err(missing) => return VersionVerdict::Missing(missing),
            }
        }
        add_generation_args(&mut params, &self.manifest_dir, &self.output);
        if !self.options.disable_prelude {
            add_text(&mut params, "--raw-line");
            add_text(&mut params, PRELUDE);
        }
        add_text(&mut params, "--");
        let ghost head = params@;
        let ghost tail = clang_args@;
        params.append(&mut clang_args);
        assert(bindings::arg_texts(params@) =~= bindings::arg_texts(head) + bindings::arg_texts(
            tail,
        ));
        let r = VersionVerdict::Run(params);
        proof {
            let link = optional_link_prefix(env@, self@.options.build_prefix)->Ok_0;
            assert(bindings::arg_texts(params@) =~= bindgen_args(
                self@.manifest_dir,
                self@.output,
                self@.options,
                link,
                paths::extra_include_dirs(env@, text::texts(listed@)),
            ));
        }
        r
    }

    /// Goes on after the command has run with the arguments that `after_version` gave. `params`
    /// are these arguments as they were written on the command line.
    pub fn after_run(params: &Vec<String>, result: &TestCommandResult) -> (r: Result<(), String>)
        ensures
            r is Ok <==> result.status,
            r matches Err(message) ==> message@ == run_failure(
                text::texts(params@),
                result.stdout@,
                result.stderr@,
            ),
    {
        if !result.status {
            return Err(
                "\n\nbindgen-PARAMS: ".to_owned().concat(join(params, " ").as_str()).concat(
                    "\nbindgen-STDOUT: ",
                ).concat(result.stdout.as_str()).concat("\nbindgen-STDERR: ").concat(
                    result.stderr.as_str(),
                ),
            );
        }
        Ok(())
    }
}

/// The message on a failed run of the bindgen command.
pub open spec fn run_failure(
    params: Seq<Seq<char>>,
    stdout: Seq<char>,
    stderr: Seq<char>,
) -> Seq<char> {
    "\n\nbindgen-PARAMS: "@ + text::joined(params, " "@) + "\nbindgen-STDOUT: "@ + stdout
        + "\nbindgen-STDERR: "@ + stderr
}

} // verus!
