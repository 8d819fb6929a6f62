//! What holds of the build program, told from outside: which variables, features and replies each
//! decision depends on, and what it comes to.

use vstd::prelude::*;

use crate::builder::env;
use crate::builder::env::{LineText, Variables};
use crate::builder::libs;
use crate::builder::libs::{OutputLib, OutputLibType};
use crate::builder::paths;
use crate::builder::paths::{HeaderCopy, PathText};
use crate::builder::settings;
use crate::builder::settings::{Features, Settings};
use crate::text;

verus! {

// ---------------------------------------------------------------------------
// Variables and switches
// ---------------------------------------------------------------------------

/// A variable has the value that it was last given, whatever happens to others, and none before; one
/// that has to be set is missing under its own name.
pub proof fn variables_are_looked_up_by_name(
    variables: Variables,
    name: Seq<char>,
    value: Seq<char>,
    other: Seq<char>,
)
    ensures
        env::variable(variables.insert(name, value), name) == Some(value),
        other != name ==> env::variable(variables.insert(name, value), other) == env::variable(
            variables,
            other,
        ),
        env::variable(Map::<Seq<char>, Seq<char>>::empty(), name) is None,
        env::variable(variables, name) matches Some(found) ==> env::required(variables, name) == Ok::<
            Seq<char>,
            Seq<char>,
        >(found),
        env::variable(variables, name) is None ==> env::required(variables, name) == Err::<
            Seq<char>,
            Seq<char>,
        >(name),
{
}

/// A switch in lower case is told by its first letters: `0`, `n`, `f` and `off` say no, another
/// digit, `y`, `t` and `on` say yes, and nothing else says anything. What follows them does not
/// matter.
pub proof fn a_switch_is_told_by_its_first_letters(s: Seq<char>, rest: Seq<char>)
    ensures
        env::switch_value(s) == Some(false) <==> s.len() > 0 && (s[0] == '0' || s[0] == 'n' || s[0]
            == 'f') || s.len() > 2 && s[0] == 'o' && s[1] == 'f' && s[2] == 'f',
        env::switch_value(s) == Some(true) <==> s.len() > 0 && ('1' <= s[0] && s[0] <= '9' || s[0]
            == 'y' || s[0] == 't') || s.len() > 1 && s[0] == 'o' && s[1] == 'n',
        s.len() > 2 || env::switch_value(s) is Some ==> env::switch_value(s + rest)
            == env::switch_value(s),
{
    reveal_strlit("off");
    reveal_strlit("on");
    prefix_by_characters("off"@, s);
    prefix_by_characters("on"@, s);
    prefix_by_characters("off"@, s + rest);
    prefix_by_characters("on"@, s + rest);
}

/// A text begins with another where it has the same characters in its first places, and ends with
/// it where it has them in its last.
proof fn prefix_by_characters(part: Seq<char>, whole: Seq<char>)
    requires
        2 <= part.len() <= 3,
    ensures
        part.is_prefix_of(whole) <==> part.len() <= whole.len() && part[0] == whole[0] && part[1]
            == whole[1] && (part.len() == 3 ==> part[2] == whole[2]),
        part.is_suffix_of(whole) <==> part.len() <= whole.len() && part[0] == whole[whole.len()
            - part.len()] && part[1] == whole[whole.len() - part.len() + 1] && (part.len() == 3
            ==> part[2] == whole[whole.len() - 1]),
{
    let n = part.len() as int;
    if n <= whole.len() {
        let head = whole.subrange(0, n);
        let tail = whole.subrange(whole.len() - n, whole.len() as int);
        assert(head[0] == whole[0] && head[1] == whole[1]);
        assert(tail[0] == whole[whole.len() - n] && tail[1] == whole[whole.len() - n + 1]);
        if n == 3 {
            assert(head[2] == whole[2]);
            assert(tail[2] == whole[whole.len() - 1]);
        }
        if part[0] == head[0] && part[1] == head[1] && (n == 3 ==> part[2] == head[2]) {
            assert(part =~= head);
        }
        if part[0] == tail[0] && part[1] == tail[1] && (n == 3 ==> part[2] == tail[2]) {
            assert(part =~= tail);
        }
    }
}

/// A character is a letter, in either case. The letter is given in lower case.
pub open spec fn is_letter(c: char, letter: char) -> bool {
    c == letter || c as int + 32 == letter as int
}

/// An ASCII value is a switch by its first letters in either case. A variable that is not set says
/// nothing, and no other variable has a say.
pub proof fn a_variable_is_a_switch_by_its_first_letters(
    variables: Variables,
    others: Variables,
    name: Seq<char>,
    v: Seq<char>,
)
    ensures
        env::variable(variables, name) == Some(v) && vstd::utf8::is_ascii_chars(v) ==> {
            &&& env::env_switch(variables, name) == Some(false) <==> v.len() > 0 && (v[0] == '0'
                || is_letter(v[0], 'n') || is_letter(v[0], 'f')) || v.len() > 2 && is_letter(
                v[0],
                'o',
            ) && is_letter(v[1], 'f') && is_letter(v[2], 'f')
            &&& env::env_switch(variables, name) == Some(true) <==> v.len() > 0 && ('1' <= v[0]
                && v[0] <= '9' || is_letter(v[0], 'y') || is_letter(v[0], 't')) || v.len() > 1
                && is_letter(v[0], 'o') && is_letter(v[1], 'n')
        },
        env::variable(variables, name) is None ==> env::env_switch(variables, name) is None,
        env::variable(variables, name) == env::variable(others, name) ==> env::env_switch(
            variables,
            name,
        ) == env::env_switch(others, name),
{
    a_switch_is_told_by_its_first_letters(text::lowered(v), Seq::empty());
    if vstd::utf8::is_ascii_chars(v) && v.len() > 0 {
        let l = text::lowered(v);
        text::ascii_text_is_lowered_in_place(v, 0);
        if v.len() > 1 {
            text::ascii_text_is_lowered_in_place(v, 1);
        }
        if v.len() > 2 {
            text::ascii_text_is_lowered_in_place(v, 2);
        }
        assert(forall|i: int| 0 <= i < v.len() ==> '\0' <= #[trigger] v[i] <= '\u{7f}');
    }
}

/// A switch is read aloud: Cargo is told to watch the variable, and, where it is set, its value and
/// what it says are reported.
pub proof fn a_switch_is_read_aloud(variables: Variables, name: Seq<char>)
    ensures
        env::variable(variables, name) is None ==> env::env_switch_lines(variables, name) == seq![
            LineText::Stdout("cargo:rerun-if-env-changed="@ + name),
        ],
        env::variable(variables, name) matches Some(value) ==> {
            let lines = env::env_switch_lines(variables, name);
            &&& lines.len() == 3
            &&& lines[0] == LineText::Stdout("cargo:rerun-if-env-changed="@ + name)
            &&& lines[1] == LineText::Stderr("Evaluating: "@ + name + "='"@ + value + "'"@)
            &&& env::env_switch(variables, name) == Some(true) ==> lines[2] == LineText::Stderr(
                "Parsed: "@ + name + "=true"@,
            )
            &&& env::env_switch(variables, name) == Some(false) ==> lines[2] == LineText::Stderr(
                "Parsed: "@ + name + "=false"@,
            )
            &&& env::env_switch(variables, name) is None ==> lines[2] == LineText::Stderr(
                "Parsed: "@ + name + "=unknown"@,
            )
        },
{
}

/// Directives for Cargo begin with their names. A flag is printed with underscores for dashes and
/// is otherwise as given.
pub proof fn directives_begin_with_their_names(message: Seq<char>, cfg: Seq<char>, i: int)
    ensures
        env::warning_line(message) == LineText::Stdout("cargo:warning="@ + message),
        env::rerun_line(message) == LineText::Stdout("cargo:rerun-if-env-changed="@ + message),
        env::rustc_cfg_line(cfg) matches LineText::Stdout(line) && {
            let name = "cargo:rustc-cfg="@;
            &&& line.len() == name.len() + cfg.len()
            &&& line.take(name.len() as int) == name
            &&& 0 <= i < cfg.len() ==> line[name.len() + i] == (if cfg[i] == '-' {
                '_'
            } else {
                cfg[i]
            })
        },
{
    let name = "cargo:rustc-cfg="@;
    let line = name + text::replaced(cfg, '-', '_');
    assert(line.take(name.len() as int) =~= name);
}

/// The target is known under its own triple, but for Alpine's two, which are known as generic musl
/// targets; and it has to be set.
pub proof fn targets_are_known_under_their_triples(variables: Variables, target: Seq<char>)
    ensures
        env::variable(variables, "TARGET"@) is None ==> env::build_triple(variables) == Err::<
            Seq<char>,
            Seq<char>,
        >("TARGET"@),
        env::variable(variables, "TARGET"@) == Some(target) ==> (env::build_triple(variables) matches Ok(
            triple,
        ) && {
            &&& target == "x86_64-alpine-linux-musl"@ ==> triple == "x86_64-unknown-linux-musl"@
            &&& target == "aarch64-alpine-linux-musl"@ ==> triple == "aarch64-unknown-linux-musl"@
            &&& target != "x86_64-alpine-linux-musl"@ && target != "aarch64-alpine-linux-musl"@
                ==> triple == target
        }),
{
    reveal_strlit("x86_64-alpine-linux-musl");
    reveal_strlit("aarch64-alpine-linux-musl");
    assert("x86_64-alpine-linux-musl"@.len() != "aarch64-alpine-linux-musl"@.len());
}

/// A name made specific to a platform is the triple, with underscores for its dashes alone, an
/// underscore and the name.
pub proof fn platform_names_begin_with_the_triple(triple: Seq<char>, name: Seq<char>, i: int)
    ensures
        env::platform_name(triple, name).len() == triple.len() + 1 + name.len(),
        0 <= i < triple.len() ==> env::platform_name(triple, name)[i] == (if triple[i] == '-' {
            '_'
        } else {
            triple[i]
        }),
        env::platform_name(triple, name)[triple.len() as int] == '_',
        env::platform_name(triple, name).skip(triple.len() as int + 1) == name,
{
    reveal_strlit("_");
    assert(env::platform_name(triple, name).skip(triple.len() as int + 1) =~= name);
}

// ---------------------------------------------------------------------------
// Libraries
// ---------------------------------------------------------------------------

/// The linkage is what the switch for it says, on every target. Where it says nothing, AWS-LC is
/// linked statically exactly on Linux and on the systems whose names end in `bsd`, on `x86_64` and
/// `aarch64`. The system has to be known then, and the architecture on these systems alone.
pub proof fn linkage_follows_the_switch_and_then_the_target(
    variables: Variables,
    os: Seq<char>,
    arch: Seq<char>,
)
    ensures
        ({
            let switch = env::env_switch(variables, "AWS_LC_FIPS_SYS_STATIC"@);
            let linkage = libs::default_lib_type(variables);
            let unix = os == "linux"@ || os.len() >= 3 && os[os.len() - 3] == 'b' && os[os.len() - 2]
                == 's' && os[os.len() - 1] == 'd';
            &&& switch == Some(true) ==> linkage == Ok::<OutputLibType, Seq<char>>(
                OutputLibType::Static,
            )
            &&& switch == Some(false) ==> linkage == Ok::<OutputLibType, Seq<char>>(
                OutputLibType::Dynamic,
            )
            &&& switch is None && env::variable(variables, "CARGO_CFG_TARGET_OS"@) is None
                ==> linkage == Err::<OutputLibType, Seq<char>>("CARGO_CFG_TARGET_OS"@)
            &&& switch is None && env::variable(variables, "CARGO_CFG_TARGET_OS"@) == Some(os) ==> {
                &&& !unix ==> linkage == Ok::<OutputLibType, Seq<char>>(OutputLibType::Dynamic)
                &&& unix && env::variable(variables, "CARGO_CFG_TARGET_ARCH"@) is None ==> linkage
                    == Err::<OutputLibType, Seq<char>>("CARGO_CFG_TARGET_ARCH"@)
                &&& unix && env::variable(variables, "CARGO_CFG_TARGET_ARCH"@) == Some(arch)
                    ==> linkage == Ok::<OutputLibType, Seq<char>>(
                    if arch == "x86_64"@ || arch == "aarch64"@ {
                        OutputLibType::Static
                    } else {
                        OutputLibType::Dynamic
                    },
                )
            }
        }),
{
    reveal_strlit("bsd");
    prefix_by_characters("bsd"@, os);
}

/// The libraries are called `crypto`, `ssl` and `rust_wrapper`; with a prefix, the prefix and an
/// underscore stand before that.
pub proof fn libraries_are_called_by_their_names(lib: OutputLib, prefix: Seq<char>)
    ensures
        libs::library_name(OutputLib::Crypto, None) == "crypto"@,
        libs::library_name(OutputLib::Ssl, None) == "ssl"@,
        libs::library_name(OutputLib::RustWrapper, None) == "rust_wrapper"@,
        libs::library_name(lib, Some(prefix)) == prefix + seq!['_'] + libs::library_name(lib, None),
{
    reveal_strlit("_");
    assert("_"@ =~= seq!['_']);
}

/// The prefix of symbols is fixed but for the version, which stands at its end with underscores for
/// its dots alone.
pub proof fn symbol_prefixes_end_in_the_version(version: Seq<char>, i: int)
    ensures
        ({
            let fixed = "aws_lc_fips_"@;
            let prefix = libs::symbol_prefix(version);
            &&& prefix.len() == fixed.len() + version.len()
            &&& prefix.take(fixed.len() as int) == fixed
            &&& 0 <= i < version.len() ==> prefix[fixed.len() + i] == (if version[i] == '.' {
                '_'
            } else {
                version[i]
            })
        }),
{
    let fixed = "aws_lc_fips_"@;
    assert(libs::symbol_prefix(version).take(fixed.len() as int) =~= fixed);
}

// ---------------------------------------------------------------------------
// Settings
// ---------------------------------------------------------------------------

/// A platform is a 64-bit one of a system.
pub open spec fn is_on_system(triple: Seq<char>, system: Seq<char>) -> bool {
    triple == "x86_64"@ + system || triple == "aarch64"@ + system
}

/// Bindings made in advance exist for Linux with either C library and for macOS, on both 64-bit
/// architectures, and for nothing else.
pub proof fn platforms_with_bindings_made_in_advance(triple: Seq<char>)
    ensures
        settings::is_supported_platform(triple) <==> is_on_system(triple, "-unknown-linux-gnu"@)
            || is_on_system(triple, "-unknown-linux-musl"@) || is_on_system(
            triple,
            "-apple-darwin"@,
        ),
{
    reveal_strlit("x86_64");
    reveal_strlit("aarch64");
    reveal_strlit("-unknown-linux-gnu");
    reveal_strlit("-unknown-linux-musl");
    reveal_strlit("-apple-darwin");
    reveal_strlit("x86_64-unknown-linux-gnu");
    reveal_strlit("aarch64-unknown-linux-gnu");
    reveal_strlit("x86_64-unknown-linux-musl");
    reveal_strlit("aarch64-unknown-linux-musl");
    reveal_strlit("x86_64-apple-darwin");
    reveal_strlit("aarch64-apple-darwin");
    assert("x86_64"@ + "-unknown-linux-gnu"@ =~= "x86_64-unknown-linux-gnu"@);
    assert("aarch64"@ + "-unknown-linux-gnu"@ =~= "aarch64-unknown-linux-gnu"@);
    assert("x86_64"@ + "-unknown-linux-musl"@ =~= "x86_64-unknown-linux-musl"@);
    assert("aarch64"@ + "-unknown-linux-musl"@ =~= "aarch64-unknown-linux-musl"@);
    assert("x86_64"@ + "-apple-darwin"@ =~= "x86_64-apple-darwin"@);
    assert("aarch64"@ + "-apple-darwin"@ =~= "aarch64-apple-darwin"@);
}

/// A switch is on where its variable says yes; where it says no or nothing, or is not set, it is
/// off.
pub open spec fn says_yes(variables: Variables, name: Seq<char>) -> bool {
    env::env_switch(variables, name) == Some(true)
}

/// Every setting is told by the switch of its own name alone; and bindings made in advance are at
/// hand where the target has them, and either nothing asks for other bindings or the build makes
/// them itself. The target has to be known only where it matters.
pub proof fn settings_follow_their_switches(variables: Variables, features: Features)
    ensures
        ({
            let looked_for = says_yes(variables, "AWS_LC_FIPS_SYS_PREGENERATING_BINDINGS"@) || !(
            says_yes(variables, "AWS_LC_FIPS_SYS_NO_PREFIX"@) || says_yes(
                variables,
                "AWS_LC_FIPS_SYS_EXTERNAL_BINDGEN"@,
            ) || features.bindgen || features.ssl);
            match settings::initial_settings(variables, features) {
                Ok(found) => {
                    &&& found.no_prefix == says_yes(variables, "AWS_LC_FIPS_SYS_NO_PREFIX"@)
                    &&& found.pregenerating_bindings == says_yes(
                        variables,
                        "AWS_LC_FIPS_SYS_PREGENERATING_BINDINGS"@,
                    )
                    &&& found.external_bindgen == says_yes(
                        variables,
                        "AWS_LC_FIPS_SYS_EXTERNAL_BINDGEN"@,
                    )
                    &&& found.no_asm == says_yes(variables, "AWS_LC_FIPS_SYS_NO_ASM"@)
                    &&& found.cpu_jitter_entropy == says_yes(
                        variables,
                        "AWS_LC_FIPS_SYS_CPU_JITTER_ENTROPY"@,
                    )
                    &&& found.pregenerated <==> looked_for && (env::build_triple(variables) matches Ok(
                        triple,
                    ) && settings::is_supported_platform(triple))
                    &&& looked_for ==> env::variable(variables, "TARGET"@) is Some
                },
                Err(name) => looked_for && name == "TARGET"@ && env::variable(variables, "TARGET"@) is None,
            }
        }),
{
}

/// Bindings have to be generated exactly where something asks for it or none are at hand.
pub proof fn bindings_are_generated_where_asked_or_needed(found: Settings, features: Features)
    ensures
        !found.needs_bindgen(features) <==> found.pregenerated && !found.no_prefix
            && !found.pregenerating_bindings && !found.external_bindgen && !features.bindgen,
{
}

/// While the settings are read, the five switches are read aloud in order, and then the flag of the
/// platform is set exactly where its bindings are at hand.
pub proof fn settings_are_read_aloud(variables: Variables, features: Features)
    ensures
        ({
            let switches = env::env_switch_lines(variables, "AWS_LC_FIPS_SYS_NO_PREFIX"@)
                + env::env_switch_lines(variables, "AWS_LC_FIPS_SYS_PREGENERATING_BINDINGS"@)
                + env::env_switch_lines(variables, "AWS_LC_FIPS_SYS_EXTERNAL_BINDGEN"@)
                + env::env_switch_lines(variables, "AWS_LC_FIPS_SYS_NO_ASM"@)
                + env::env_switch_lines(variables, "AWS_LC_FIPS_SYS_CPU_JITTER_ENTROPY"@);
            let lines = settings::initialize_lines(variables, features);
            match (settings::initial_settings(variables, features), env::build_triple(variables)) {
                (Ok(found), Ok(triple)) if found.pregenerated => lines == switches.push(
                    env::rustc_cfg_line(triple),
                ),
                _ => lines == switches,
            }
        }),
{
    let switches = env::env_switch_lines(variables, "AWS_LC_FIPS_SYS_NO_PREFIX"@)
        + env::env_switch_lines(variables, "AWS_LC_FIPS_SYS_PREGENERATING_BINDINGS"@)
        + env::env_switch_lines(variables, "AWS_LC_FIPS_SYS_EXTERNAL_BINDGEN"@)
        + env::env_switch_lines(variables, "AWS_LC_FIPS_SYS_NO_ASM"@) + env::env_switch_lines(
        variables,
        "AWS_LC_FIPS_SYS_CPU_JITTER_ENTROPY"@,
    );
    assert(switches + Seq::<LineText>::empty() =~= switches);
    if let Ok(triple) = env::build_triple(variables) {
        assert(switches + seq![env::rustc_cfg_line(triple)] =~= switches.push(
            env::rustc_cfg_line(triple),
        ));
    }
}

/// The flags that the build may set: those of the platforms, and those for entropy and for generated
/// bindings.
pub open spec fn declared_flags() -> Seq<Seq<char>> {
    seq![
        "aarch64_apple_darwin"@,
        "aarch64_unknown_linux_gnu"@,
        "aarch64_unknown_linux_musl"@,
        "cpu_jitter_entropy"@,
        "i686_unknown_linux_gnu"@,
        "use_bindgen_generated"@,
        "x86_64_apple_darwin"@,
        "x86_64_unknown_linux_gnu"@,
        "x86_64_unknown_linux_musl"@,
    ]
}

/// Under Clippy every flag that the build may set is declared, each in one directive; otherwise none
/// is.
pub proof fn flags_are_declared_under_clippy(i: int)
    ensures
        settings::cargo_cfg_lines(false).len() == 0,
        settings::cargo_cfg_lines(true).len() == declared_flags().len(),
        0 <= i < declared_flags().len() ==> settings::cargo_cfg_lines(true)[i] == LineText::Stdout(
            "cargo:rustc-check-cfg=cfg("@ + declared_flags()[i] + ")"@,
        ),
{
    reveal_strlit("cargo:rustc-check-cfg=cfg(");
    reveal_strlit(")");
    reveal_strlit("aarch64_apple_darwin");
    reveal_strlit("aarch64_unknown_linux_gnu");
    reveal_strlit("aarch64_unknown_linux_musl");
    reveal_strlit("cpu_jitter_entropy");
    reveal_strlit("i686_unknown_linux_gnu");
    reveal_strlit("use_bindgen_generated");
    reveal_strlit("x86_64_apple_darwin");
    reveal_strlit("x86_64_unknown_linux_gnu");
    reveal_strlit("x86_64_unknown_linux_musl");
    reveal_strlit("cargo:rustc-check-cfg=cfg(aarch64_apple_darwin)");
    reveal_strlit("cargo:rustc-check-cfg=cfg(aarch64_unknown_linux_gnu)");
    reveal_strlit("cargo:rustc-check-cfg=cfg(aarch64_unknown_linux_musl)");
    reveal_strlit("cargo:rustc-check-cfg=cfg(cpu_jitter_entropy)");
    reveal_strlit("cargo:rustc-check-cfg=cfg(i686_unknown_linux_gnu)");
    reveal_strlit("cargo:rustc-check-cfg=cfg(use_bindgen_generated)");
    reveal_strlit("cargo:rustc-check-cfg=cfg(x86_64_apple_darwin)");
    reveal_strlit("cargo:rustc-check-cfg=cfg(x86_64_unknown_linux_gnu)");
    reveal_strlit("cargo:rustc-check-cfg=cfg(x86_64_unknown_linux_musl)");
    let f = "cargo:rustc-check-cfg=cfg("@;
    assert(f + "aarch64_apple_darwin"@ + ")"@
        =~= "cargo:rustc-check-cfg=cfg(aarch64_apple_darwin)"@);
    assert(f + "aarch64_unknown_linux_gnu"@ + ")"@
        =~= "cargo:rustc-check-cfg=cfg(aarch64_unknown_linux_gnu)"@);
    assert(f + "aarch64_unknown_linux_musl"@ + ")"@
        =~= "cargo:rustc-check-cfg=cfg(aarch64_unknown_linux_musl)"@);
    assert(f + "cpu_jitter_entropy"@ + ")"@ =~= "cargo:rustc-check-cfg=cfg(cpu_jitter_entropy)"@);
    assert(f + "i686_unknown_linux_gnu"@ + ")"@
        =~= "cargo:rustc-check-cfg=cfg(i686_unknown_linux_gnu)"@);
    assert(f + "use_bindgen_generated"@ + ")"@
        =~= "cargo:rustc-check-cfg=cfg(use_bindgen_generated)"@);
    assert(f + "x86_64_apple_darwin"@ + ")"@ =~= "cargo:rustc-check-cfg=cfg(x86_64_apple_darwin)"@);
    assert(f + "x86_64_unknown_linux_gnu"@ + ")"@
        =~= "cargo:rustc-check-cfg=cfg(x86_64_unknown_linux_gnu)"@);
    assert(f + "x86_64_unknown_linux_musl"@ + ")"@
        =~= "cargo:rustc-check-cfg=cfg(x86_64_unknown_linux_musl)"@);
}

// ---------------------------------------------------------------------------
// Directories and headers
// ---------------------------------------------------------------------------

/// Joining a component to a path puts it at the end and changes nothing before it; the directories
/// of a package lie in the package.
pub proof fn directories_lie_in_the_package(dir: PathText, part: Seq<char>)
    ensures
        dir.join(part).base == dir.base,
        dir.join(part).parts == dir.parts + seq![part],
        paths::base_path(part).base == part,
        paths::base_path(part).parts.len() == 0,
        paths::rust_include_dir(dir).base == dir.base,
        paths::rust_include_dir(dir).parts == dir.parts + seq!["include"@],
        paths::generated_include_dir(dir).base == dir.base,
        paths::generated_include_dir(dir).parts == dir.parts + seq!["generated-include"@],
        paths::aws_lc_include_dir(dir).base == dir.base,
        paths::aws_lc_include_dir(dir).parts == dir.parts + seq!["aws-lc"@, "include"@],
{
    assert(dir.parts.push(part) =~= dir.parts + seq![part]);
    assert(dir.parts.push("include"@) =~= dir.parts + seq!["include"@]);
    assert(dir.parts.push("generated-include"@) =~= dir.parts + seq!["generated-include"@]);
    assert(dir.parts.push("aws-lc"@).push("include"@) =~= dir.parts + seq!["aws-lc"@, "include"@]);
}

/// The listed directories count exactly where their variable is set, all of them and in order.
pub proof fn listed_directories_count_where_their_variable_is_set(
    variables: Variables,
    listed: Seq<Seq<char>>,
    i: int,
)
    ensures
        env::variable(variables, "AWS_LC_FIPS_SYS_INCLUDES"@) is None
            ==> paths::extra_include_dirs(variables, listed).len() == 0,
        env::variable(variables, "AWS_LC_FIPS_SYS_INCLUDES"@) is Some ==> {
            let dirs = paths::extra_include_dirs(variables, listed);
            &&& dirs.len() == listed.len()
            &&& 0 <= i < listed.len() ==> dirs[i].base == listed[i] && dirs[i].parts.len() == 0
        },
{
}

/// Only what is known to be a plain file is copied as one; anything else is copied as a directory
/// inside the destination that leaves what is there.
pub proof fn only_known_files_replace(is_file: Option<bool>)
    ensures
        paths::header_copy_of(is_file) is ReplaceFile <==> is_file == Some(true),
        paths::header_copy_of(is_file) matches HeaderCopy::Directory { skip_exist, copy_inside }
            ==> skip_exist && copy_inside,
{
}

} // verus!
