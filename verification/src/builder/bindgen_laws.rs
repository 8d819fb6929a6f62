//! What holds of the bindings and of the bindgen command that generates them, told from outside.

use vstd::prelude::*;

use crate::builder::bindings;
use crate::builder::bindings::{ArgText, OptionsText};
use crate::builder::command;
use crate::builder::env;
use crate::builder::env::{LineText, Variables};
use crate::builder::external;
use crate::builder::external::{ExternalText, VerdictText, COPYRIGHT, PRELUDE};
use crate::builder::paths;
use crate::builder::paths::PathText;
use crate::text;

verus! {

// ---------------------------------------------------------------------------
// Output of commands
// ---------------------------------------------------------------------------

/// Of an output stream the first 32768 bytes decide, and what follows them does not matter. Where
/// they are UTF-8 their whole text is kept, and otherwise none of it.
pub proof fn the_first_bytes_of_an_output_decide(bytes: Seq<u8>, rest: Seq<u8>)
    ensures
        bytes.len() == 32768 ==> command::kept_output(bytes + rest) == command::kept_output(bytes),
        bytes.len() <= 32768 && vstd::utf8::valid_utf8(bytes) ==> command::kept_output(bytes)
            == vstd::utf8::decode_utf8(bytes),
        bytes.len() <= 32768 && !vstd::utf8::valid_utf8(bytes) ==> command::kept_output(bytes).len()
            == 0,
{
    assert((bytes + rest).take(bytes.len() as int) =~= bytes);
    if bytes.len() == 32768 {
        assert(bytes.take(32768) =~= bytes);
        if rest.len() == 0 {
            assert(bytes + rest =~= bytes);
        }
    }
}

// ---------------------------------------------------------------------------
// Options and directories
// ---------------------------------------------------------------------------

/// All bindings have the prefix of the build. Those of this build cover libssl where its feature is
/// on and have no prelude; those for later builds never cover libssl and have one.
pub proof fn bindings_have_the_prefix_of_the_build(prefix: Option<Seq<char>>, ssl: bool)
    ensures
        bindings::build_options(prefix, ssl).build_prefix == prefix,
        bindings::build_options(prefix, ssl).include_ssl == ssl,
        bindings::build_options(prefix, ssl).disable_prelude,
        bindings::src_options(prefix).build_prefix == prefix,
        !bindings::src_options(prefix).include_ssl,
        !bindings::src_options(prefix).disable_prelude,
{
}

/// Headers are looked for in the bindings' own directory first, in AWS-LC's after it, and then in
/// the listed ones in order. The generated headers come second where symbols have a prefix, and are
/// left out where they have none.
pub proof fn headers_are_looked_for_in_order(dir: PathText, extra: Seq<PathText>, i: int)
    ensures
        ({
            let plain = bindings::header_dirs(dir, false, extra);
            let prefixed = bindings::header_dirs(dir, true, extra);
            &&& plain.len() == 2 + extra.len()
            &&& plain[0] == paths::rust_include_dir(dir)
            &&& plain[1] == paths::aws_lc_include_dir(dir)
            &&& 0 <= i < extra.len() ==> plain[2 + i] == extra[i]
            &&& prefixed == plain.insert(1, paths::generated_include_dir(dir))
        }),
{
    assert(bindings::header_dirs(dir, true, extra) =~= bindings::header_dirs(
        dir,
        false,
        extra,
    ).insert(1, paths::generated_include_dir(dir)));
}

// ---------------------------------------------------------------------------
// The version of the command
// ---------------------------------------------------------------------------

/// The number that a text writes in decimal, and zero for other text.
pub open spec fn number(s: Seq<char>) -> u32 {
    match text::parsed_u32(s) {
        Some(n) => n,
        None => 0,
    }
}

/// No character of a text is white space or a dot.
pub open spec fn is_plain(s: Seq<char>) -> bool {
    forall|i: int|
        0 <= i < s.len() ==> !text::is_white_space(#[trigger] s[i]) && s[i] != '.'
}

/// Whatever the first word of the output, and whatever follows the second, the version is what the
/// second word writes between its dots, if it has three parts; white space at its end, such as the
/// end of the line, does not matter. With more or fewer parts there is no version.
pub proof fn the_second_word_is_the_version(
    word: Seq<char>,
    parts: Seq<Seq<char>>,
    end: Seq<char>,
    more: bool,
    rest: Seq<char>,
)
    requires
        !word.contains(' '),
        parts.len() > 0,
        forall|i: int| 0 <= i < parts.len() ==> is_plain(#[trigger] parts[i]),
        text::is_blank(end),
        !end.contains(' '),
    ensures
        ({
            let line = word + seq![' '] + (text::joined(parts, seq!['.']) + end);
            let stdout = if more {
                line + seq![' '] + rest
            } else {
                line
            };
            external::detected_version(stdout) == (if parts.len() == 3 {
                (number(parts[0]), number(parts[1]), number(parts[2]))
            } else {
                (0u32, 0u32, 0u32)
            })
        }),
{
    let version = text::joined(parts, seq!['.']);
    let second = version + end;
    let line = word + seq![' '] + second;
    joined_is_not_blank(parts);
    assert(!second.contains(' ')) by {
        if second.contains(' ') {
            let j = choose|j: int| 0 <= j < second.len() && second[j] == ' ';
            if j < version.len() {
                assert(!text::is_white_space(version[j]));
            } else {
                assert(end[j - version.len()] == ' ');
            }
        }
    }
    text::a_text_without_separator_is_one_part(word, ' ');
    text::a_text_without_separator_is_one_part(second, ' ');
    text::splitting_may_be_divided(word, second, ' ');
    assert(text::split(line, ' ')[1] == second);
    if more {
        text::splitting_may_be_divided(line, rest, ' ');
        assert(text::split(line + seq![' '] + rest, ' ')[1] == second);
    }
    text::trimming_takes_blanks_away(Seq::empty(), version, end);
    assert(Seq::<char>::empty() + version + end =~= second);
    assert forall|i: int| 0 <= i < parts.len() implies !(#[trigger] parts[i]).contains('.') by {
        assert(is_plain(parts[i]));
    }
    text::join_then_split(parts, '.');
}

/// Output of a single word gives no version.
pub proof fn a_single_word_gives_no_version(stdout: Seq<char>)
    requires
        !stdout.contains(' '),
    ensures
        external::detected_version(stdout) == (0u32, 0u32, 0u32),
{
    text::a_text_without_separator_is_one_part(stdout, ' ');
}

/// A version that a command prints in decimal is the version that is detected.
pub proof fn a_printed_version_is_detected(
    word: Seq<char>,
    major: u32,
    minor: u32,
    patch: u32,
    end: Seq<char>,
)
    requires
        !word.contains(' '),
        text::is_blank(end),
        !end.contains(' '),
    ensures
        external::detected_version(
            word + seq![' '] + (text::joined(
                seq![
                    text::decimal(major as nat),
                    text::decimal(minor as nat),
                    text::decimal(patch as nat),
                ],
                seq!['.'],
            ) + end),
        ) == (major, minor, patch),
{
    let parts = seq![
        text::decimal(major as nat),
        text::decimal(minor as nat),
        text::decimal(patch as nat),
    ];
    decimal_is_plain(major);
    decimal_is_plain(minor);
    decimal_is_plain(patch);
    text::decimal_then_parse(major);
    text::decimal_then_parse(minor);
    text::decimal_then_parse(patch);
    the_second_word_is_the_version(word, parts, end, false, Seq::empty());
}

proof fn decimal_is_plain(n: u32)
    ensures
        is_plain(text::decimal(n as nat)),
{
    text::decimal_then_parse(n);
    let s = text::decimal(n as nat);
    assert forall|i: int| 0 <= i < s.len() implies !text::is_white_space(#[trigger] s[i]) && s[i]
        != '.' by {
        text::numbers_have_digits_alone(s, i);
    }
}

proof fn joined_is_not_blank(parts: Seq<Seq<char>>)
    requires
        forall|i: int| 0 <= i < parts.len() ==> is_plain(#[trigger] parts[i]),
    ensures
        forall|i: int|
            0 <= i < text::joined(parts, seq!['.']).len() ==> !text::is_white_space(
                #[trigger] text::joined(parts, seq!['.'])[i],
            ),
    decreases parts.len(),
{
    if parts.len() > 0 {
        let last = parts.last();
        assert(last == parts[parts.len() - 1]);
        assert(is_plain(last));
        let before = parts.drop_last();
        assert forall|i: int| 0 <= i < before.len() implies is_plain(#[trigger] before[i]) by {
            assert(before[i] == parts[i]);
        }
        joined_is_not_blank(before);
        let whole = text::joined(parts, seq!['.']);
        let head = text::joined(before, seq!['.']);
        assert forall|i: int| 0 <= i < whole.len() implies !text::is_white_space(
            #[trigger] whole[i],
        ) by {
            if parts.len() == 1 {
                assert(whole[i] == last[i]);
            } else if i < head.len() {
                assert(whole[i] == head[i]);
            } else if i > head.len() {
                assert(whole[i] == last[i - head.len() - 1]);
            }
        }
    }
}

/// A version is old that comes before 0.69.3, number by number.
pub open spec fn is_old(version: (u32, u32, u32)) -> bool {
    version.0 == 0 && (version.1 < 69 || version.1 == 69 && version.2 < 3)
}

/// A bindgen that runs is not complained of, unless its version is old, which is said with the
/// version; one that could not be started brings the hint how it is installed, and one that failed
/// brings nothing.
pub proof fn old_versions_are_told(status: bool, executed: bool, stdout: Seq<char>)
    ensures
        ({
            let lines = external::version_lines(status, executed, stdout);
            let version = external::detected_version(stdout);
            &&& status && !is_old(version) ==> lines.len() == 0
            &&& status && is_old(version) ==> lines == seq![
                LineText::Stderr(
                    "bindgen-cli was used. Detected version was: "@ + text::decimal(
                        version.0 as nat,
                    ) + "."@ + text::decimal(version.1 as nat) + "."@ + text::decimal(
                        version.2 as nat,
                    ) + external::UPGRADE_HINT@,
                ),
            ]
            &&& !status && executed ==> lines.len() == 0
            &&& !status && !executed ==> lines == seq![LineText::Stderr(external::INSTALL_HINT@)]
        }),
{
}

// ---------------------------------------------------------------------------
// The prefix of symbols
// ---------------------------------------------------------------------------

/// The linker sees the prefix and an underscore, with one more underscore before it exactly where
/// the target system, in lower case, is `macos` or `ios`, or is `windows` on `x86`. The system has
/// to be known, and the architecture on Windows alone.
pub proof fn symbols_get_an_underscore_by_their_platform(
    variables: Variables,
    prefix: Seq<char>,
    os: Seq<char>,
    arch: Seq<char>,
)
    ensures
        ({
            let link = external::target_link_prefix(variables, prefix);
            let system = text::lowered(os);
            let known_os = env::variable(variables, "CARGO_CFG_TARGET_OS"@) == Some(os);
            let known_arch = env::variable(variables, "CARGO_CFG_TARGET_ARCH"@) == Some(arch);
            let bare = Ok::<Seq<char>, Seq<char>>(prefix + seq!['_']);
            let underscored = Ok::<Seq<char>, Seq<char>>(seq!['_'] + prefix + seq!['_']);
            &&& env::variable(variables, "CARGO_CFG_TARGET_OS"@) is None ==> link == Err::<
                Seq<char>,
                Seq<char>,
            >("CARGO_CFG_TARGET_OS"@)
            &&& known_os && (system == "macos"@ || system == "ios"@) ==> link == underscored
            &&& known_os && system == "windows"@ && env::variable(
                variables,
                "CARGO_CFG_TARGET_ARCH"@,
            ) is None ==> link == Err::<Seq<char>, Seq<char>>("CARGO_CFG_TARGET_ARCH"@)
            &&& known_os && system == "windows"@ && known_arch && arch == "x86"@ ==> link
                == underscored
            &&& known_os && system == "windows"@ && known_arch && arch != "x86"@ ==> link == bare
            &&& known_os && system != "macos"@ && system != "ios"@ && system != "windows"@ ==> link
                == bare
        }),
{
    reveal_strlit("_");
    reveal_strlit("macos");
    reveal_strlit("ios");
    reveal_strlit("windows");
    assert("_"@ =~= seq!['_']);
    assert("macos"@.len() == 5 && "ios"@.len() == 3 && "windows"@.len() == 7);
}

/// On systems other than Windows nothing but the system decides: two environments that agree on it
/// give the same prefix for the linker.
pub proof fn the_architecture_matters_on_windows_alone(
    variables: Variables,
    others: Variables,
    prefix: Seq<char>,
    os: Seq<char>,
)
    requires
        env::variable(variables, "CARGO_CFG_TARGET_OS"@) == Some(os),
        env::variable(others, "CARGO_CFG_TARGET_OS"@) == Some(os),
        text::lowered(os) != "windows"@ || env::variable(variables, "CARGO_CFG_TARGET_ARCH"@)
            == env::variable(others, "CARGO_CFG_TARGET_ARCH"@),
    ensures
        external::target_link_prefix(variables, prefix) == external::target_link_prefix(
            others,
            prefix,
        ),
{
    reveal_strlit("macos");
    reveal_strlit("ios");
    reveal_strlit("windows");
    assert("macos"@.len() == 5 && "ios"@.len() == 3 && "windows"@.len() == 7);
}

// ---------------------------------------------------------------------------
// The arguments of the command
// ---------------------------------------------------------------------------

/// What is generated does not depend on where: for other directories and another file, the
/// arguments differ in the header and in the file alone.
pub proof fn directories_change_two_arguments_alone(
    dir: PathText,
    output: PathText,
    other_dir: PathText,
    other_output: PathText,
)
    ensures
        ({
            let args = external::generation_args(dir, output);
            let header = paths::rust_include_dir(other_dir).join("rust_wrapper.h"@);
            &&& args.len() == 22
            &&& args[15] == ArgText::Path(paths::rust_include_dir(dir).join("rust_wrapper.h"@))
            &&& args[18] == ArgText::Text("--output"@)
            &&& args[19] == ArgText::TextPath(output)
            &&& external::generation_args(other_dir, other_output) == args.update(
                15,
                ArgText::Path(header),
            ).update(19, ArgText::TextPath(other_output))
        }),
{
    assert(external::generation_args(other_dir, other_output) =~= external::generation_args(
        dir,
        output,
    ).update(15, ArgText::Path(paths::rust_include_dir(other_dir).join("rust_wrapper.h"@))).update(
        19,
        ArgText::TextPath(other_output),
    ));
}

/// The arguments of the bindgen command are built up from those that say what is generated: a
/// prefix for the linker comes before them, a prelude after them, and clang's own arguments, each
/// directory of headers and then the macro for libssl, behind a dash pair. Each is there exactly
/// where it is asked for. The generated headers, which hold the prefix, are never among the
/// directories, and whether the options have a prefix does not matter beside that for the linker.
pub proof fn bindgen_arguments_are_built_up(
    dir: PathText,
    output: PathText,
    options: OptionsText,
    link: Option<Seq<char>>,
    extra: Seq<PathText>,
    i: int,
)
    ensures
        ({
            let fixed = external::generation_args(dir, output);
            let args = external::bindgen_args(dir, output, options, link, extra);
            let before: int = if link is Some {
                2
            } else {
                0
            };
            let prelude: int = if options.disable_prelude {
                0
            } else {
                2
            };
            let clang = before + 22 + prelude + 1;
            let ssl: int = if options.include_ssl {
                1
            } else {
                0
            };
            &&& args.len() == clang + 2 * (2 + extra.len()) + ssl
            &&& link matches Some(prefix) ==> args[0] == ArgText::Text("--prefix-link-name"@)
                && args[1] == ArgText::Text(prefix)
            &&& args.subrange(before, before + 22) == fixed
            &&& !options.disable_prelude ==> args[before + 22] == ArgText::Text("--raw-line"@)
                && args[before + 23] == ArgText::Text(PRELUDE@)
            &&& args[clang - 1] == ArgText::Text("--"@)
            &&& args[clang] == ArgText::Text("-I"@)
            &&& args[clang + 1] == ArgText::Path(paths::rust_include_dir(dir))
            &&& args[clang + 2] == ArgText::Text("-I"@)
            &&& args[clang + 3] == ArgText::Path(paths::aws_lc_include_dir(dir))
            &&& 0 <= i < extra.len() ==> args[clang + 4 + 2 * i] == ArgText::Text("-I"@)
                && args[clang + 5 + 2 * i] == ArgText::Path(extra[i])
            &&& options.include_ssl ==> args.last() == ArgText::Text("-DAWS_LC_RUST_INCLUDE_SSL"@)
        }),
{
    let dirs = bindings::header_dirs(dir, false, extra);
    let includes = bindings::include_args(dirs);
    headers_are_looked_for_in_order(dir, extra, i);
    bindings::include_args_pair_up(dirs, 0);
    bindings::include_args_pair_up(dirs, 1);
    if 0 <= i < extra.len() {
        bindings::include_args_pair_up(dirs, 2 + i);
    }
    let args = external::bindgen_args(dir, output, options, link, extra);
    let before: int = if link is Some {
        2
    } else {
        0
    };
    let prelude: int = if options.disable_prelude {
        0
    } else {
        2
    };
    let clang = before + 22 + prelude + 1;
    assert(args.subrange(before, before + 22) =~= external::generation_args(dir, output));
    assert(args.subrange(clang, clang + includes.len() as int) =~= includes);
    assert(forall|k: int|
        0 <= k < includes.len() ==> #[trigger] args[clang + k] == includes[k]) by {
        assert forall|k: int| 0 <= k < includes.len() implies #[trigger] args[clang + k]
            == includes[k] by {
            assert(args.subrange(clang, clang + includes.len() as int)[k] == args[clang + k]);
        }
    }
    assert(args[clang + 0] == includes[0]);
    assert(args[clang + 1] == includes[1]);
    assert(args[clang + 2] == includes[2]);
    assert(args[clang + 3] == includes[3]);
    if 0 <= i < extra.len() {
        assert(args[clang + (4 + 2 * i)] == includes[4 + 2 * i]);
        assert(args[clang + (5 + 2 * i)] == includes[5 + 2 * i]);
    }
}

/// Generated bindings begin with the notice, and those that are compiled as a module of their own
/// with the prelude.
pub proof fn bindings_begin_with_their_notice()
    ensures
        COPYRIGHT@ == r"
// Copyright Amazon.com, Inc. or its affiliates. All Rights Reserved.
// SPDX-License-Identifier: Apache-2.0 OR ISC
"@,
        PRELUDE@ == r"
// Copyright Amazon.com, Inc. or its affiliates. All Rights Reserved.
// SPDX-License-Identifier: Apache-2.0 OR ISC

#![allow(
    clippy::cast_lossless,
    clippy::cast_possible_truncation,
    clippy::cast_possible_wrap,
    clippy::default_trait_access,
    clippy::missing_safety_doc,
    clippy::must_use_candidate,
    clippy::not_unsafe_ptr_arg_deref,
    clippy::ptr_as_ptr,
    clippy::ptr_offset_with_cast,
    clippy::pub_underscore_fields,
    clippy::semicolon_if_nothing_returned,
    clippy::too_many_lines,
    clippy::unreadable_literal,
    clippy::used_underscore_binding,
    clippy::useless_transmute,
    dead_code,
    improper_ctypes,
    non_camel_case_types,
    non_snake_case,
    non_upper_case_globals,
    unpredictable_function_pointer_comparisons,
    unused_imports
)]
"@,
{
}

/// What follows from the version of bindgen: a failure is a rejection, whatever else holds; and
/// otherwise the command is run, with the prefix for the linker exactly where symbols have a prefix,
/// unless the target or what the prefix needs is not known.
pub proof fn bindgen_is_run_when_it_has_a_version(
    generation: ExternalText,
    status: bool,
    variables: Variables,
    listed: Seq<Seq<char>>,
)
    ensures
        ({
            let verdict = external::version_verdict(generation, status, variables, listed);
            let target = env::variable(variables, "TARGET"@);
            let extra = paths::extra_include_dirs(variables, listed);
            &&& !status ==> verdict == VerdictText::Rejected("External bindgen command failed."@)
            &&& status && target is None ==> verdict == VerdictText::Missing("TARGET"@)
            &&& status && target is Some ==> match generation.options.build_prefix {
                None => verdict == VerdictText::Run(
                    external::bindgen_args(
                        generation.manifest_dir,
                        generation.output,
                        generation.options,
                        None,
                        extra,
                    ),
                ),
                Some(prefix) => match external::target_link_prefix(variables, prefix) {
                    Err(name) => verdict == VerdictText::Missing(name),
                    Ok(link) => verdict == VerdictText::Run(
                        external::bindgen_args(
                            generation.manifest_dir,
                            generation.output,
                            generation.options,
                            Some(link),
                            extra,
                        ),
                    ),
                },
            }
        }),
{
}

/// After the version is looked at, the generation is announced with the platform and the prefix,
/// and the variable for additional headers is watched, where the command has a version and the
/// target is known; otherwise nothing more is printed.
pub proof fn generations_are_announced(
    generation: ExternalText,
    status: bool,
    executed: bool,
    stdout: Seq<char>,
    variables: Variables,
    triple: Seq<char>,
)
    ensures
        ({
            let lines = external::version_verdict_lines(
                generation,
                status,
                executed,
                stdout,
                variables,
            );
            let looked_at = external::version_lines(status, executed, stdout);
            &&& !status || env::variable(variables, "TARGET"@) is None ==> lines == looked_at
            &&& status && env::build_triple(variables) == Ok::<Seq<char>, Seq<char>>(triple)
                ==> lines == looked_at + seq![
                LineText::Stdout(
                    "cargo:warning="@ + (
                    "Generating bindings - external bindgen. Platform: '"@ + triple + "' Prefix: '"@
                        + text::debug_of_optional_text(generation.options.build_prefix) + "'"@),
                ),
                LineText::Stdout("cargo:rerun-if-env-changed="@ + "AWS_LC_FIPS_SYS_INCLUDES"@),
            ]
        }),
{
    let looked_at = external::version_lines(status, executed, stdout);
    assert(looked_at + Seq::<LineText>::empty() =~= looked_at);
}

/// A failed run is reported with its arguments, separated by spaces, and both of its outputs.
pub proof fn failed_runs_are_reported_in_full(
    params: Seq<Seq<char>>,
    stdout: Seq<char>,
    stderr: Seq<char>,
)
    ensures
        external::run_failure(params, stdout, stderr) == "\n\nbindgen-PARAMS: "@ + text::joined(
            params,
            seq![' '],
        ) + ("\nbindgen-STDOUT: "@ + stdout) + ("\nbindgen-STDERR: "@ + stderr),
{
    reveal_strlit(" ");
    assert(" "@ =~= seq![' ']);
    assert(external::run_failure(params, stdout, stderr) =~= "\n\nbindgen-PARAMS: "@ + text::joined(
        params,
        seq![' '],
    ) + ("\nbindgen-STDOUT: "@ + stdout) + ("\nbindgen-STDERR: "@ + stderr));
}

} // verus!
