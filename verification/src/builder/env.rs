//! The environment of the build, and what the build prints.

use vstd::prelude::*;
use crate::builder::paths;
use crate::builder::paths::BuildPath;
use crate::text;
use crate::text::{chars_of, lower, replace_char, same_text, starts_with};

verus! {

// ---------------------------------------------------------------------------
// Printed lines
// ---------------------------------------------------------------------------

/// A line that the build program prints.
#[derive(Debug)]
pub enum Line {
    /// A line on standard output, where Cargo reads directives.
    Stdout(String),
    /// A line on standard output that ends in a path, written as the platform displays it.
    StdoutPath(String, BuildPath),
    /// A line on standard error.
    Stderr(String),
}

/// The text of a printed line.
pub enum LineText {
    Stdout(Seq<char>),
    StdoutPath(Seq<char>, paths::PathText),
    Stderr(Seq<char>),
}

impl View for Line {
    type V = LineText;

    open spec fn view(&self) -> LineText {
        match self {
            Line::Stdout(text) => LineText::Stdout(text@),
            Line::StdoutPath(text, path) => LineText::StdoutPath(text@, path@),
            Line::Stderr(text) => LineText::Stderr(text@),
        }
    }
}

/// The lines printed so far, in order.
#[derive(Debug)]
pub struct Transcript {
    lines: Vec<Line>,
}

impl View for Transcript {
    type V = Seq<LineText>;

    closed spec fn view(&self) -> Seq<LineText> {
        self.lines@.map_values(|line: Line| line@)
    }
}

impl Transcript {
    /// A transcript without lines.
    pub fn new() -> (r: Self)
        ensures
            r@ == Seq::<LineText>::empty(),
    {
        let r = Transcript { lines: Vec::new() };
        assert(r@ =~= Seq::<LineText>::empty());
        r
    }

    /// Prints a line on standard output.
    pub fn stdout(&mut self, text: String)
        ensures
            final(self)@ == old(self)@.push(LineText::Stdout(text@)),
    {
        self.lines.push(Line::Stdout(text));
        assert(self@ =~= old(self)@.push(LineText::Stdout(text@)));
    }

    /// Prints a line that ends in a path on standard output.
    pub fn stdout_path(&mut self, text: String, path: BuildPath)
        ensures
            final(self)@ == old(self)@.push(LineText::StdoutPath(text@, path@)),
    {
        self.lines.push(Line::StdoutPath(text, path));
        assert(self@ =~= old(self)@.push(LineText::StdoutPath(text@, path@)));
    }

    /// Prints a line on standard error.
    pub fn stderr(&mut self, text: String)
        ensures
            final(self)@ == old(self)@.push(LineText::Stderr(text@)),
    {
        self.lines.push(Line::Stderr(text));
        assert(self@ =~= old(self)@.push(LineText::Stderr(text@)));
    }

    /// The printed lines.
    pub fn lines(&self) -> (r: &Vec<Line>)
        ensures
            r@.map_values(|line: Line| line@) == self@,
    {
        &self.lines
    }
}

/// The directive that sets a `cfg` flag. Dashes become underscores.
pub open spec fn rustc_cfg_line(cfg: Seq<char>) -> LineText {
    LineText::Stdout("cargo:rustc-cfg="@ + text::replaced(cfg, '-', '_'))
}

/// Prints the directive that sets a `cfg` flag.
pub fn emit_rustc_cfg(cfg: &str, log: &mut Transcript)
    ensures
        final(log)@ == old(log)@.push(rustc_cfg_line(cfg@)),
{
    let cfg = replace_char(cfg, '-', '_');
    log.stdout("cargo:rustc-cfg=".to_owned().concat(cfg.as_str()));
}

/// The directive that shows a warning.
pub open spec fn warning_line(message: Seq<char>) -> LineText {
    LineText::Stdout("cargo:warning="@ + message)
}

/// Prints the directive that shows a warning.
pub fn emit_warning(message: &str, log: &mut Transcript)
    ensures
        final(log)@ == old(log)@.push(warning_line(message@)),
{
    log.stdout("cargo:warning=".to_owned().concat(message));
}

// ---------------------------------------------------------------------------
// Variables
// ---------------------------------------------------------------------------

/// Values of variables by name.
pub type Variables = Map<Seq<char>, Seq<char>>;

/// The environment variables that the build program sees.
#[derive(Debug)]
pub struct BuildEnv {
    variables: Vec<(String, String)>,
}

/// The values that a list of assignments leaves behind.
spec fn assigned(assignments: Seq<(String, String)>) -> Variables
    decreases assignments.len(),
{
    if assignments.len() == 0 {
        Map::empty()
    } else {
        assigned(assignments.drop_last()).insert(assignments.last().0@, assignments.last().1@)
    }
}

impl View for BuildEnv {
    type V = Variables;

    closed spec fn view(&self) -> Variables {
        assigned(self.variables@)
    }
}

/// The value of a variable, if it is set.
pub open spec fn variable(env: Variables, name: Seq<char>) -> Option<Seq<char>> {
    if env.contains_key(name) {
        Some(env[name])
    } else {
        None
    }
}

impl BuildEnv {
    /// An environment without variables.
    pub fn new() -> (r: Self)
        ensures
            r@ == Map::<Seq<char>, Seq<char>>::empty(),
    {
        BuildEnv { variables: Vec::new() }
    }

    /// Sets a variable.
    pub fn set(&mut self, name: String, value: String)
        ensures
            final(self)@ == old(self)@.insert(name@, value@),
    {
        self.variables.push((name, value));
        assert(self.variables@.drop_last() =~= old(self).variables@);
    }

    /// The value of a variable, if it is set.
    pub fn get(&self, name: &str) -> (r: Option<String>)
        ensures
            text::optional_text(r) == variable(self@, name@),
    {
        let mut i: usize = self.variables.len();
        assert(self.variables@.take(i as int) =~= self.variables@);
        while i > 0
            invariant
                i <= self.variables@.len(),
                variable(assigned(self.variables@.take(i as int)), name@) == variable(self@, name@),
            decreases i,
        {
            let ghost before = self.variables@.take(i as int);
            assert(before.drop_last() =~= self.variables@.take(i - 1));
            i = i - 1;
            if same_text(self.variables[i].0.as_str(), name) {
                return Some(self.variables[i].1.clone());
            }
        }
        None
    }
}

/// A variable that the build cannot do without is not set.
#[derive(Debug)]
pub struct MissingVariable {
    /// The name of the variable.
    pub name: String,
}

/// The value of a variable that has to be set, or else its name.
pub open spec fn required(env: Variables, name: Seq<char>) -> Result<Seq<char>, Seq<char>> {
    match variable(env, name) {
        Some(value) => Ok(value),
        None => Err(name),
    }
}

/// The text of a value, or the name of the variable that is missing.
pub open spec fn found(r: Result<String, MissingVariable>) -> Result<Seq<char>, Seq<char>> {
    match r {
        Ok(value) => Ok(value@),
        Err(missing) => Err(missing.name@),
    }
}

/// The value of a variable that Cargo sets.
pub fn cargo_env(env: &BuildEnv, name: &str) -> (r: Result<String, MissingVariable>)
    ensures
        found(r) == required(env@, name@),
{
    match env.get(name) {
        Some(value) => Ok(value),
        None => Err(MissingVariable { name: name.to_owned() }),
    }
}

/// The directive that reruns the build when a variable changes.
pub open spec fn rerun_line(name: Seq<char>) -> LineText {
    LineText::Stdout("cargo:rerun-if-env-changed="@ + name)
}

/// The value of a variable that the user may set. Cargo is told to rerun the build when it
/// changes.
pub fn optional_env(env: &BuildEnv, name: &str, log: &mut Transcript) -> (r: Option<String>)
    ensures
        text::optional_text(r) == variable(env@, name@),
        final(log)@ == old(log)@.push(rerun_line(name@)),
{
    log.stdout("cargo:rerun-if-env-changed=".to_owned().concat(name));
    env.get(name)
}

/// What a lowercase text says as a switch: `0`, `n`, `off` and `f` at its beginning mean no; any
/// other digit, `y`, `on` and `t` mean yes; other text says nothing.
pub open spec fn switch_value(lowered: Seq<char>) -> Option<bool> {
    if lowered.len() > 0 && (lowered[0] == '0' || lowered[0] == 'n' || lowered[0] == 'f')
        || "off"@.is_prefix_of(lowered) {
        Some(false)
    } else if lowered.len() > 0 && (text::is_digit(lowered[0]) || lowered[0] == 'y' || lowered[0] == 't')
        || "on"@.is_prefix_of(lowered) {
        Some(true)
    } else {
        None
    }
}

/// Reads a lowercase text as a switch.
pub fn parse_switch(lowered: &str) -> (r: Option<bool>)
    ensures
        r == switch_value(lowered@),
{
    let chars = chars_of(lowered);
    if chars.len() > 0 && (chars[0] == '0' || chars[0] == 'n' || chars[0] == 'f') || starts_with(
        lowered,
        "off",
    ) {
        return Some(false);
    }
    if chars.len() > 0 && ('0' <= chars[0] && chars[0] <= '9' || chars[0] == 'y' || chars[0] == 't')
        || starts_with(lowered, "on") {
        return Some(true);
    }
    None
}

/// What a variable says as a switch: its value in lower case decides.
pub open spec fn env_switch(env: Variables, name: Seq<char>) -> Option<bool> {
    match variable(env, name) {
        Some(value) => switch_value(text::lowered(value)),
        None => None,
    }
}

/// What is printed when a variable is read as a switch.
pub open spec fn env_switch_lines(env: Variables, name: Seq<char>) -> Seq<LineText> {
    match variable(env, name) {
        Some(value) => seq![
            rerun_line(name),
            LineText::Stderr("Evaluating: "@ + name + "='"@ + value + "'"@),
            LineText::Stderr(
                "Parsed: "@ + name + (match env_switch(env, name) {
                    Some(false) => "=false"@,
                    Some(true) => "=true"@,
                    None => "=unknown"@,
                }),
            ),
        ],
        None => seq![rerun_line(name)],
    }
}

/// Reads a variable as a switch. Upper and lower case ASCII letters mean the same.
pub fn env_var_to_bool(env: &BuildEnv, name: &str, log: &mut Transcript) -> (r: Option<bool>)
    ensures
        r == env_switch(env@, name@),
        final(log)@ == old(log)@ + env_switch_lines(env@, name@),
{
    let value = optional_env(env, name, log);
    let r = match value {
        Some(value) => {
            log.stderr(
                "Evaluating: ".to_owned().concat(name).concat("='").concat(value.as_str()).concat(
                    "'",
                ),
            );
            let lowered = lower(value.as_str());
            let parsed = parse_switch(lowered.as_str());
            let verdict = match parsed {
                Some(false) => "=false",
                Some(true) => "=true",
                None => "=unknown",
            };
            log.stderr("Parsed: ".to_owned().concat(name).concat(verdict));
            parsed
        },
        None => None,
    };
    assert(log@ =~= old(log)@ + env_switch_lines(env@, name@));
    r
}

// ---------------------------------------------------------------------------
// The target
// ---------------------------------------------------------------------------

/// The family of the target's operating system.
pub fn target_family(env: &BuildEnv) -> (r: Result<String, MissingVariable>)
    ensures
        found(r) == required(env@, "CARGO_CFG_TARGET_FAMILY"@),
{
    cargo_env(env, "CARGO_CFG_TARGET_FAMILY")
}

/// The target's operating system.
pub fn target_os(env: &BuildEnv) -> (r: Result<String, MissingVariable>)
    ensures
        found(r) == required(env@, "CARGO_CFG_TARGET_OS"@),
{
    cargo_env(env, "CARGO_CFG_TARGET_OS")
}

/// The target's processor architecture.
pub fn target_arch(env: &BuildEnv) -> (r: Result<String, MissingVariable>)
    ensures
        found(r) == required(env@, "CARGO_CFG_TARGET_ARCH"@),
{
    cargo_env(env, "CARGO_CFG_TARGET_ARCH")
}

/// The target's ABI environment.
pub fn target_env(env: &BuildEnv) -> (r: Result<String, MissingVariable>)
    ensures
        found(r) == required(env@, "CARGO_CFG_TARGET_ENV"@),
{
    cargo_env(env, "CARGO_CFG_TARGET_ENV")
}

/// The target's vendor.
pub fn target_vendor(env: &BuildEnv) -> (r: Result<String, MissingVariable>)
    ensures
        found(r) == required(env@, "CARGO_CFG_TARGET_VENDOR"@),
{
    cargo_env(env, "CARGO_CFG_TARGET_VENDOR")
}

/// The target triple that Cargo compiles for.
pub fn target(env: &BuildEnv) -> (r: Result<String, MissingVariable>)
    ensures
        found(r) == required(env@, "TARGET"@),
{
    cargo_env(env, "TARGET")
}

/// The triple under which a target is known here: Alpine's own triples are those of the generic
/// musl targets.
pub open spec fn effective_triple(target: Seq<char>) -> Seq<char> {
    if target == "x86_64-alpine-linux-musl"@ {
        "x86_64-unknown-linux-musl"@
    } else if target == "aarch64-alpine-linux-musl"@ {
        "aarch64-unknown-linux-musl"@
    } else {
        target
    }
}

/// The triple under which the target of the build is known here, or the name of the variable
/// that should say it.
pub open spec fn build_triple(env: Variables) -> Result<Seq<char>, Seq<char>> {
    match required(env, "TARGET"@) {
        Ok(target) => Ok(effective_triple(target)),
        Err(name) => Err(name),
    }
}

/// The triple under which the target of the build is known here.
pub fn effective_target(env: &BuildEnv) -> (r: Result<String, MissingVariable>)
    ensures
        found(r) == build_triple(env@),
{
    match target(env) {
        Ok(target) => {
            if same_text(target.as_str(), "x86_64-alpine-linux-musl") {
                Ok("x86_64-unknown-linux-musl".to_owned())
            } else if same_text(target.as_str(), "aarch64-alpine-linux-musl") {
                Ok("aarch64-unknown-linux-musl".to_owned())
            } else {
                Ok(target)
            }
        },
        Err(missing) => Err(missing),
    }
}

/// The triple of the target with underscores for dashes.
pub fn target_underscored(env: &BuildEnv) -> (r: Result<String, MissingVariable>)
    ensures
        found(r) == (match build_triple(env@) {
            Ok(triple) => Ok(text::replaced(triple, '-', '_')),
            Err(name) => Err(name),
        }),
{
    match effective_target(env) {
        Ok(target) => Ok(replace_char(target.as_str(), '-', '_')),
        Err(missing) => Err(missing),
    }
}

/// A name made specific to a platform.
pub open spec fn platform_name(triple: Seq<char>, name: Seq<char>) -> Seq<char> {
    text::replaced(triple, '-', '_') + "_"@ + name
}

/// A name made specific to the target platform.
pub fn target_platform_prefix(env: &BuildEnv, name: &str) -> (r: Result<String, MissingVariable>)
    ensures
        found(r) == (match build_triple(env@) {
            Ok(triple) => Ok(platform_name(triple, name@)),
            Err(missing) => Err(missing),
        }),
{
    match effective_target(env) {
        Ok(target) => Ok(replace_char(target.as_str(), '-', '_').concat("_").concat(name)),
        Err(missing) => Err(missing),
    }
}

/// The case of ASCII letters does not matter to a switch: whatever else two values hold, if they
/// differ in that case alone they say the same.
pub proof fn case_does_not_matter_to_a_switch(
    env: Variables,
    other: Variables,
    name: Seq<char>,
    value: Seq<char>,
    spelling: Seq<char>,
)
    requires
        variable(env, name) == Some(value),
        variable(other, name) == Some(spelling),
        text::differ_in_case_alone(value, spelling),
    ensures
        env_switch(env, name) == env_switch(other, name),
{
    text::case_does_not_matter_to_lower_case(value, spelling);
}

/// The effective triple of an effective triple is itself.
pub proof fn effective_triple_is_stable(target: Seq<char>)
    ensures
        effective_triple(effective_triple(target)) == effective_triple(target),
{
    reveal_strlit("x86_64-alpine-linux-musl");
    reveal_strlit("x86_64-unknown-linux-musl");
    reveal_strlit("aarch64-alpine-linux-musl");
    reveal_strlit("aarch64-unknown-linux-musl");
    let x = "x86_64-unknown-linux-musl"@;
    let a = "aarch64-unknown-linux-musl"@;
    assert(x.len() != "x86_64-alpine-linux-musl"@.len());
    assert(x[0] != "aarch64-alpine-linux-musl"@[0]);
    assert(a[0] != "x86_64-alpine-linux-musl"@[0]);
    assert(a.len() != "aarch64-alpine-linux-musl"@.len());
}

/// A `cfg` flag holds no dash.
pub proof fn cfg_flags_have_no_dash(cfg: Seq<char>)
    ensures
        !text::replaced(cfg, '-', '_').contains('-'),
{
}

} // verus!
