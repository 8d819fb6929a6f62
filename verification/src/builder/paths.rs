//! The directories of a build, and how headers are gathered.

use vstd::prelude::*;

use crate::builder::env;
use crate::builder::env::{cargo_env, optional_env, BuildEnv, MissingVariable, Transcript};
use crate::text;

verus! {

// ---------------------------------------------------------------------------
// Paths
// ---------------------------------------------------------------------------

/// A path: a base as the system gives it, and the components joined to it one after the other.
/// How a component is joined, and with which separator, is the platform's business.
#[derive(Debug)]
pub struct BuildPath {
    base: String,
    parts: Vec<String>,
}

/// The base and the components of a path.
#[verifier::ext_equal]
pub struct PathText {
    pub base: Seq<char>,
    pub parts: Seq<Seq<char>>,
}

impl PathText {
    /// The path with one component more.
    pub open spec fn join(self, part: Seq<char>) -> PathText {
        PathText { base: self.base, parts: self.parts.push(part) }
    }
}

/// The path that is a base alone.
pub open spec fn base_path(base: Seq<char>) -> PathText {
    PathText { base, parts: Seq::empty() }
}

impl View for BuildPath {
    type V = PathText;

    closed spec fn view(&self) -> PathText {
        PathText { base: self.base@, parts: text::texts(self.parts@) }
    }
}

/// The texts of a vector of paths.
pub open spec fn path_texts(paths: Seq<BuildPath>) -> Seq<PathText> {
    paths.map_values(|path: BuildPath| path@)
}

impl BuildPath {
    /// The path that is a base alone.
    pub fn new(base: String) -> (r: Self)
        ensures
            r@ == base_path(base@),
    {
        let r = BuildPath { base, parts: Vec::new() };
        assert(r@ =~= base_path(base@));
        r
    }

    /// The path with one component more.
    pub fn join(&self, part: &str) -> (r: Self)
        ensures
            r@ == self@.join(part@),
    {
        let mut r = self.clone();
        r.parts.push(part.to_owned());
        assert(r@ =~= self@.join(part@));
        r
    }

    /// The base of the path.
    pub fn base(&self) -> (r: &String)
        ensures
            r@ == self@.base,
    {
        &self.base
    }

    /// The components joined to the base.
    pub fn parts(&self) -> (r: &Vec<String>)
        ensures
            text::texts(r@) == self@.parts,
    {
        &self.parts
    }
}

impl Clone for BuildPath {
    fn clone(&self) -> (r: Self)
        ensures
            r@ == self@,
    {
        let mut parts: Vec<String> = Vec::new();
        for i in 0..self.parts.len()
            invariant
                parts@.len() == i,
                forall|j: int| 0 <= j < i ==> (#[trigger] parts@[j])@ == self.parts@[j]@,
        {
            parts.push(self.parts[i].clone());
        }
        let r = BuildPath { base: self.base.clone(), parts };
        assert(r@ =~= self@);
        r
    }
}

/// The directory of AWS-LC's own headers.
pub open spec fn aws_lc_include_dir(manifest_dir: PathText) -> PathText {
    manifest_dir.join("aws-lc"@).join("include"@)
}

/// The directory of the headers written for the Rust bindings.
pub open spec fn rust_include_dir(manifest_dir: PathText) -> PathText {
    manifest_dir.join("include"@)
}

/// The directory of the generated headers, which hold the symbol prefix.
pub open spec fn generated_include_dir(manifest_dir: PathText) -> PathText {
    manifest_dir.join("generated-include"@)
}

/// The directory of AWS-LC's own headers.
pub fn get_aws_lc_include_path(manifest_dir: &BuildPath) -> (r: BuildPath)
    ensures
        r@ == aws_lc_include_dir(manifest_dir@),
{
    manifest_dir.join("aws-lc").join("include")
}

/// The directory of the headers written for the Rust bindings.
pub fn get_rust_include_path(manifest_dir: &BuildPath) -> (r: BuildPath)
    ensures
        r@ == rust_include_dir(manifest_dir@),
{
    manifest_dir.join("include")
}

/// The directory of the generated headers.
pub fn get_generated_include_path(manifest_dir: &BuildPath) -> (r: BuildPath)
    ensures
        r@ == generated_include_dir(manifest_dir@),
{
    manifest_dir.join("generated-include")
}

/// The directory for the build's output.
pub fn out_dir(env: &BuildEnv) -> (r: Result<BuildPath, MissingVariable>)
    ensures
        (match r {
            Ok(path) => Ok(path@),
            Err(missing) => Err(missing.name@),
        }) == (match env::required(env@, "OUT_DIR"@) {
            Ok(base) => Ok(base_path(base)),
            Err(name) => Err(name),
        }),
{
    match cargo_env(env, "OUT_DIR") {
        Ok(base) => Ok(BuildPath::new(base)),
        Err(missing) => Err(missing),
    }
}

/// The directories that the user adds to the include path: none where the variable for them is
/// not set, and otherwise those that its value lists.
pub open spec fn extra_include_dirs(env: env::Variables, listed: Seq<Seq<char>>) -> Seq<PathText> {
    if env.contains_key("AWS_LC_FIPS_SYS_INCLUDES"@) {
        listed.map_values(|base: Seq<char>| base_path(base))
    } else {
        Seq::empty()
    }
}

/// The directories that the user adds to the include path. `listed` is what the value of
/// `AWS_LC_FIPS_SYS_INCLUDES` holds under the system's rule for lists of paths.
pub fn get_aws_lc_fips_sys_includes_path(
    env: &BuildEnv,
    listed: &Vec<String>,
    log: &mut Transcript,
) -> (r: Option<Vec<BuildPath>>)
    ensures
        r is Some <==> env@.contains_key("AWS_LC_FIPS_SYS_INCLUDES"@),
        r matches Some(paths) ==> path_texts(paths@) == extra_include_dirs(
            env@,
            text::texts(listed@),
        ),
        final(log)@ == old(log)@.push(env::rerun_line("AWS_LC_FIPS_SYS_INCLUDES"@)),
{
    match optional_env(env, "AWS_LC_FIPS_SYS_INCLUDES", log) {
        Some(_) => {
            let mut paths: Vec<BuildPath> = Vec::new();
            for i in 0..listed.len()
                invariant
                    paths@.len() == i,
                    forall|j: int|
                        0 <= j < i ==> (#[trigger] paths@[j])@ == base_path(listed@[j]@),
            {
                paths.push(BuildPath::new(listed[i].clone()));
            }
            assert(path_texts(paths@) =~= extra_include_dirs(env@, text::texts(listed@)));
            Some(paths)
        },
        None => None,
    }
}

// ---------------------------------------------------------------------------
// Gathering headers
// ---------------------------------------------------------------------------

/// Where headers are gathered, and the directories that they are gathered from, in order.
#[derive(Debug)]
pub struct IncludeSetup {
    pub include_dir: BuildPath,
    pub sources: Vec<BuildPath>,
}

/// Says which directories of headers are gathered in the output directory.
pub fn setup_include_paths(
    out_dir: &BuildPath,
    manifest_dir: &BuildPath,
    env: &BuildEnv,
    listed: &Vec<String>,
    log: &mut Transcript,
) -> (r: IncludeSetup)
    ensures
        r.include_dir@ == out_dir@.join("include"@),
        path_texts(r.sources@) == seq![
            rust_include_dir(manifest_dir@),
            generated_include_dir(manifest_dir@),
            aws_lc_include_dir(manifest_dir@),
        ] + extra_include_dirs(env@, text::texts(listed@)),
        final(log)@ == old(log)@.push(env::rerun_line("AWS_LC_FIPS_SYS_INCLUDES"@)),
{
    let mut sources: Vec<BuildPath> = Vec::new();
    sources.push(get_rust_include_path(manifest_dir));
    sources.push(get_generated_include_path(manifest_dir));
    sources.push(get_aws_lc_include_path(manifest_dir));
    let ghost own = sources@;
    let mut extra: Vec<BuildPath> = match get_aws_lc_fips_sys_includes_path(env, listed, log) {
        Some(paths) => paths,
        None => Vec::new(),
    };
    assert(path_texts(extra@) =~= extra_include_dirs(env@, text::texts(listed@)));
    let ghost more = extra@;
    sources.append(&mut extra);
    assert(path_texts(sources@) =~= path_texts(own) + path_texts(more));
    assert(path_texts(own) =~= seq![
        rust_include_dir(manifest_dir@),
        generated_include_dir(manifest_dir@),
        aws_lc_include_dir(manifest_dir@),
    ]);
    IncludeSetup { include_dir: out_dir.join("include"), sources }
}

/// How an entry of an include directory gets into the gathered headers.
#[derive(Clone, Copy, PartialEq, Eq, Structural, Debug)]
pub enum HeaderCopy {
    /// The file is copied under its own name, over a file that is already there.
    ReplaceFile,
    /// The directory is copied with all that it holds.
    Directory {
        /// Files that are already there stay as they are.
        skip_exist: bool,
        /// The directory is placed inside the destination.
        copy_inside: bool,
    },
}

/// How an entry is copied: a plain file replaces, and anything else, an entry of unknown kind
/// too, is copied as a directory beside what is there.
pub open spec fn header_copy_of(is_file: Option<bool>) -> HeaderCopy {
    if is_file == Some(true) {
        HeaderCopy::ReplaceFile
    } else {
        HeaderCopy::Directory { skip_exist: true, copy_inside: true }
    }
}

/// Says how an entry of an include directory is copied. `is_file` is nothing where the kind of
/// the entry cannot be found out.
pub fn header_copy(is_file: Option<bool>) -> (r: HeaderCopy)
    ensures
        r == header_copy_of(is_file),
{
    match is_file {
        Some(true) => HeaderCopy::ReplaceFile,
        // prefer the earliest paths
        _ => HeaderCopy::Directory { skip_exist: true, copy_inside: true },
    }
}

/// The gathered headers, each with the number of the copy that brought it, after a series of
/// copies. Each copy is given with the names of the headers that it brings.
pub open spec fn gathered(copies: Seq<(HeaderCopy, Set<Seq<char>>)>) -> Map<Seq<char>, int>
    decreases copies.len(),
{
    if copies.len() == 0 {
        Map::empty()
    } else {
        let before = gathered(copies.drop_last());
        let (copy, names) = copies.last();
        let brought = Map::new(|name: Seq<char>| names.contains(name), |name: Seq<char>| copies.len() - 1);
        match copy {
            HeaderCopy::ReplaceFile => before.union_prefer_right(brought),
            HeaderCopy::Directory { skip_exist, .. } => if skip_exist {
                brought.union_prefer_right(before)
            } else {
                before.union_prefer_right(brought)
            },
        }
    }
}

/// Of a header that directories alone bring, the earliest directory that holds it provides it.
pub proof fn earliest_directory_provides_a_header(
    copies: Seq<(HeaderCopy, Set<Seq<char>>)>,
    name: Seq<char>,
    first: int,
)
    requires
        forall|i: int|
            0 <= i < copies.len() && (#[trigger] copies[i]).1.contains(name) ==> copies[i].0
                == header_copy_of(Some(false)),
        0 <= first < copies.len(),
        copies[first].1.contains(name),
        forall|i: int| 0 <= i < first ==> !(#[trigger] copies[i]).1.contains(name),
    ensures
        gathered(copies).contains_key(name),
        gathered(copies)[name] == first,
    decreases copies.len(),
{
    let before = copies.drop_last();
    if first == copies.len() - 1 {
        unheld_header_is_not_gathered(before, name);
    } else {
        earliest_directory_provides_a_header(before, name, first);
    }
    assert(copies.last() == copies[copies.len() - 1]);
}

/// Of a header that plain files alone bring, the last file copied is the one that stays.
pub proof fn last_file_provides_a_header(
    copies: Seq<(HeaderCopy, Set<Seq<char>>)>,
    name: Seq<char>,
    last: int,
)
    requires
        forall|i: int|
            0 <= i < copies.len() && (#[trigger] copies[i]).1.contains(name) ==> copies[i].0
                == header_copy_of(Some(true)),
        0 <= last < copies.len(),
        copies[last].1.contains(name),
        forall|i: int| last < i < copies.len() ==> !(#[trigger] copies[i]).1.contains(name),
    ensures
        gathered(copies).contains_key(name),
        gathered(copies)[name] == last,
    decreases copies.len(),
{
    assert(copies.last() == copies[copies.len() - 1]);
    if last < copies.len() - 1 {
        last_file_provides_a_header(copies.drop_last(), name, last);
    }
}

/// What no copy brings is not gathered.
pub proof fn unheld_header_is_not_gathered(
    copies: Seq<(HeaderCopy, Set<Seq<char>>)>,
    name: Seq<char>,
)
    requires
        forall|i: int| 0 <= i < copies.len() ==> !(#[trigger] copies[i]).1.contains(name),
    ensures
        !gathered(copies).contains_key(name),
    decreases copies.len(),
{
    if copies.len() > 0 {
        assert(copies.last() == copies[copies.len() - 1]);
        unheld_header_is_not_gathered(copies.drop_last(), name);
    }
}

} // verus!
