//! How the Rust bindings are generated.

use vstd::prelude::*;

use crate::builder::env;
use crate::builder::env::{BuildEnv, Transcript};
use crate::builder::paths;
use crate::builder::paths::{
    get_aws_lc_fips_sys_includes_path, get_aws_lc_include_path, get_generated_include_path,
    get_rust_include_path, BuildPath,
};
use crate::text;

verus! {

// ---------------------------------------------------------------------------
// Options
// ---------------------------------------------------------------------------

/// What the bindings hold.
#[derive(Debug)]
pub struct BindingOptions {
    pub build_prefix: Option<String>,
    pub include_ssl: bool,
    pub disable_prelude: bool,
}

/// The value of binding options.
pub struct OptionsText {
    pub build_prefix: Option<Seq<char>>,
    pub include_ssl: bool,
    pub disable_prelude: bool,
}

impl View for BindingOptions {
    type V = OptionsText;

    open spec fn view(&self) -> OptionsText {
        OptionsText {
            build_prefix: text::optional_text(self.build_prefix),
            include_ssl: self.include_ssl,
            disable_prelude: self.disable_prelude,
        }
    }
}

impl Default for BindingOptions {
    fn default() -> (r: Self)
        ensures
            r@ == (OptionsText { build_prefix: None, include_ssl: false, disable_prelude: false }),
    {
        BindingOptions { build_prefix: None, include_ssl: false, disable_prelude: false }
    }
}

impl Clone for BindingOptions {
    fn clone(&self) -> (r: Self)
        ensures
            r@ == self@,
    {
        BindingOptions {
            build_prefix: self.build_prefix.clone(),
            include_ssl: self.include_ssl,
            disable_prelude: self.disable_prelude,
        }
    }
}

/// The options of bindings that the build itself compiles: no prelude, and libssl where its
/// feature is on.
pub open spec fn build_options(prefix: Option<Seq<char>>, ssl: bool) -> OptionsText {
    OptionsText { build_prefix: prefix, include_ssl: ssl, disable_prelude: true }
}

/// The options of bindings that are written for later builds: a prelude and no libssl.
pub open spec fn src_options(prefix: Option<Seq<char>>) -> OptionsText {
    OptionsText { build_prefix: prefix, include_ssl: false, disable_prelude: false }
}

/// The options of bindings that the build itself compiles.
pub fn generate_bindings(prefix: &Option<String>, ssl: bool) -> (r: BindingOptions)
    ensures
        r@ == build_options(text::optional_text(*prefix), ssl),
{
    BindingOptions { build_prefix: prefix.clone(), include_ssl: ssl, disable_prelude: true }
}

/// The options of bindings that are written for later builds.
pub fn generate_src_bindings(prefix: &Option<String>) -> (r: BindingOptions)
    ensures
        r@ == src_options(text::optional_text(*prefix)),
{
    BindingOptions { build_prefix: prefix.clone(), include_ssl: false, disable_prelude: false }
}

// ---------------------------------------------------------------------------
// Command arguments
// ---------------------------------------------------------------------------

/// An argument of a command.
#[derive(Debug)]
pub enum Arg {
    Text(String),
    /// A path, written as the platform displays it.
    Path(BuildPath),
    /// A path that has to be text, so that nothing is lost where it is written.
    TextPath(BuildPath),
}

/// The value of an argument.
pub enum ArgText {
    Text(Seq<char>),
    Path(paths::PathText),
    TextPath(paths::PathText),
}

impl View for Arg {
    type V = ArgText;

    open spec fn view(&self) -> ArgText {
        match self {
            Arg::Text(text) => ArgText::Text(text@),
            Arg::Path(path) => ArgText::Path(path@),
            Arg::TextPath(path) => ArgText::TextPath(path@),
        }
    }
}

/// The values of a vector of arguments.
pub open spec fn arg_texts(args: Seq<Arg>) -> Seq<ArgText> {
    args.map_values(|arg: Arg| arg@)
}

/// Adds a text to the arguments.
pub fn add_text(args: &mut Vec<Arg>, text: &str)
    ensures
        arg_texts(final(args)@) == arg_texts(old(args)@).push(ArgText::Text(text@)),
{
    args.push(Arg::Text(text.to_owned()));
    assert(arg_texts(args@) =~= arg_texts(old(args)@).push(ArgText::Text(text@)));
}

/// Adds a path to the arguments.
pub fn add_path(args: &mut Vec<Arg>, path: BuildPath)
    ensures
        arg_texts(final(args)@) == arg_texts(old(args)@).push(ArgText::Path(path@)),
{
    args.push(Arg::Path(path));
    assert(arg_texts(args@) =~= arg_texts(old(args)@).push(ArgText::Path(path@)));
}

/// Adds a path that has to be text to the arguments.
pub fn add_text_path(args: &mut Vec<Arg>, path: BuildPath)
    ensures
        arg_texts(final(args)@) == arg_texts(old(args)@).push(ArgText::TextPath(path@)),
{
    args.push(Arg::TextPath(path));
    assert(arg_texts(args@) =~= arg_texts(old(args)@).push(ArgText::TextPath(path@)));
}

/// Adds a directory of headers to the arguments of a compiler.
pub fn add_header_include_path(args: &mut Vec<Arg>, path: BuildPath)
    ensures
        arg_texts(final(args)@) == arg_texts(old(args)@) + include_args(seq![path@]),
{
    let ghost before = arg_texts(args@);
    add_text(args, "-I");
    add_path(args, path);
    proof {
        include_args_grow(Seq::empty(), path@);
        assert(Seq::<paths::PathText>::empty().push(path@) =~= seq![path@]);
        assert(arg_texts(args@) =~= before + include_args(seq![path@]));
    }
}

/// The arguments that make a compiler look for headers in the given directories.
pub open spec fn include_args(dirs: Seq<paths::PathText>) -> Seq<ArgText>
    decreases dirs.len(),
{
    if dirs.len() == 0 {
        Seq::empty()
    } else {
        include_args(dirs.drop_last()) + seq![ArgText::Text("-I"@), ArgText::Path(dirs.last())]
    }
}

proof fn include_args_grow(dirs: Seq<paths::PathText>, dir: paths::PathText)
    ensures
        include_args(dirs.push(dir)) == include_args(dirs) + seq![
            ArgText::Text("-I"@),
            ArgText::Path(dir),
        ],
{
    assert(dirs.push(dir).drop_last() =~= dirs);
}

/// Every directory takes two arguments, `-I` and the directory, in the order of the directories.
pub proof fn include_args_pair_up(dirs: Seq<paths::PathText>, i: int)
    requires
        0 <= i < dirs.len(),
    ensures
        include_args(dirs).len() == 2 * dirs.len(),
        include_args(dirs)[2 * i] == ArgText::Text("-I"@),
        include_args(dirs)[2 * i + 1] == ArgText::Path(dirs[i]),
    decreases dirs.len(),
{
    let before = dirs.drop_last();
    if i < before.len() {
        include_args_pair_up(before, i);
    } else if before.len() > 0 {
        include_args_pair_up(before, 0);
    }
}

/// The directories in which clang looks for headers, in order: the Rust bindings' own, the
/// generated ones where symbols have a prefix, AWS-LC's, then those that the user adds.
pub open spec fn header_dirs(
    manifest_dir: paths::PathText,
    prefixed: bool,
    extra: Seq<paths::PathText>,
) -> Seq<paths::PathText> {
    seq![paths::rust_include_dir(manifest_dir)] + (if prefixed {
        seq![paths::generated_include_dir(manifest_dir)]
    } else {
        Seq::empty()
    }) + seq![paths::aws_lc_include_dir(manifest_dir)] + extra
}

/// The arguments for clang that make it find all headers.
pub fn prepare_clang_args(
    manifest_dir: &BuildPath,
    options: &BindingOptions,
    env: &BuildEnv,
    listed: &Vec<String>,
    log: &mut Transcript,
) -> (r: Vec<Arg>)
    ensures
        arg_texts(r@) == include_args(
            header_dirs(
                manifest_dir@,
                options.build_prefix is Some,
                paths::extra_include_dirs(env@, text::texts(listed@)),
            ),
        ),
        final(log)@ == old(log)@.push(env::rerun_line("AWS_LC_FIPS_SYS_INCLUDES"@)),
{
    let mut clang_args: Vec<Arg> = Vec::new();
    assert(arg_texts(clang_args@) =~= Seq::<ArgText>::empty());
    let ghost mut dirs: Seq<paths::PathText> = Seq::empty();
    add_dir(&mut clang_args, Ghost(dirs), get_rust_include_path(manifest_dir));
    proof {
        dirs = dirs.push(paths::rust_include_dir(manifest_dir@));
    }
    if options.build_prefix.is_some() {
        // The prefix in the generated headers may differ from the one asked for: the version
        // may have changed while the headers have not been generated again.
        add_dir(&mut clang_args, Ghost(dirs), get_generated_include_path(manifest_dir));
        proof {
            dirs = dirs.push(paths::generated_include_dir(manifest_dir@));
        }
    }
    add_dir(&mut clang_args, Ghost(dirs), get_aws_lc_include_path(manifest_dir));
    proof {
        dirs = dirs.push(paths::aws_lc_include_dir(manifest_dir@));
    }
    let ghost own = dirs;
    let ghost extra = paths::extra_include_dirs(env@, text::texts(listed@));
    match get_aws_lc_fips_sys_includes_path(env, listed, log) {
        Some(include_paths) => {
            for i in 0..include_paths.len()
                invariant
                    path_texts_are(include_paths@, extra),
                    dirs == own + extra.take(i as int),
                    arg_texts(clang_args@) == include_args(dirs),
            {
                add_dir(&mut clang_args, Ghost(dirs), include_paths[i].clone());
                proof {
                    dirs = dirs.push(extra[i as int]);
                    assert(dirs =~= own + extra.take(i + 1));
                }
            }
            assert(dirs =~= own + extra);
        },
        None => {
            assert(dirs =~= own + extra);
        },
    }
    assert(own + extra =~= header_dirs(manifest_dir@, options.build_prefix is Some, extra));
    clang_args
}

spec fn path_texts_are(all: Seq<BuildPath>, values: Seq<paths::PathText>) -> bool {
    &&& all.len() == values.len()
    &&& forall|i: int| 0 <= i < all.len() ==> (#[trigger] all[i])@ == values[i]
}

/// Adds a directory of headers to arguments that hold nothing but such directories.
fn add_dir(args: &mut Vec<Arg>, dirs: Ghost<Seq<paths::PathText>>, path: BuildPath)
    requires
        arg_texts(old(args)@) == include_args(dirs@),
    ensures
        arg_texts(final(args)@) == include_args(dirs@.push(path@)),
{
    add_header_include_path(args, path);
    proof {
        include_args_grow(Seq::empty(), path@);
        assert(Seq::<paths::PathText>::empty().push(path@) =~= seq![path@]);
        include_args_grow(dirs@, path@);
        assert(include_args(dirs@) + include_args(seq![path@]) =~= include_args(
            dirs@.push(path@),
        ));
    }
}

} // verus!
