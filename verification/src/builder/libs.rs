//! The libraries that the build produces, and their names.

use vstd::prelude::*;

use crate::builder::env;
use crate::builder::env::{
    env_var_to_bool, target_arch, target_os, BuildEnv, MissingVariable, Transcript,
};
use crate::text;
use crate::text::{ends_with, replace_char, same_text};

verus! {

/// A library that the build produces.
#[derive(Clone, Copy, PartialEq, Eq, Structural, Debug)]
pub enum OutputLib {
    RustWrapper,
    Crypto,
    Ssl,
}

/// How a library is linked.
#[derive(Clone, Copy, PartialEq, Eq, Structural, Debug)]
pub enum OutputLibType {
    Static,
    Dynamic,
}

/// How AWS-LC is linked: as `AWS_LC_FIPS_SYS_STATIC` says, else statically on the 64-bit Linux and
/// BSD platforms and dynamically elsewhere; or the name of a missing variable. The architecture
/// is asked for only where it matters.
pub open spec fn default_lib_type(env: env::Variables) -> Result<OutputLibType, Seq<char>> {
    match env::env_switch(env, "AWS_LC_FIPS_SYS_STATIC"@) {
        Some(true) => Ok(OutputLibType::Static),
        Some(false) => Ok(OutputLibType::Dynamic),
        None => match env::required(env, "CARGO_CFG_TARGET_OS"@) {
            Err(name) => Err(name),
            Ok(os) => if os == "linux"@ || "bsd"@.is_suffix_of(os) {
                match env::required(env, "CARGO_CFG_TARGET_ARCH"@) {
                    Err(name) => Err(name),
                    Ok(arch) => if arch == "x86_64"@ || arch == "aarch64"@ {
                        Ok(OutputLibType::Static)
                    } else {
                        Ok(OutputLibType::Dynamic)
                    },
                }
            } else {
                Ok(OutputLibType::Dynamic)
            },
        },
    }
}

impl OutputLibType {
    /// How AWS-LC is linked in this build.
    pub fn default(env: &BuildEnv, log: &mut Transcript) -> (r: Result<Self, MissingVariable>)
        ensures
            (match r {
                Ok(lib_type) => Ok(lib_type),
                Err(missing) => Err(missing.name@),
            }) == default_lib_type(env@),
            final(log)@ == old(log)@ + env::env_switch_lines(env@, "AWS_LC_FIPS_SYS_STATIC"@),
    {
        match env_var_to_bool(env, "AWS_LC_FIPS_SYS_STATIC", log) {
            Some(true) => return Ok(OutputLibType::Static),
            Some(false) => return Ok(OutputLibType::Dynamic),
            None => {},
        }
        let os = match target_os(env) {
            Ok(os) => os,
            Err(missing) => return Err(missing),
        };
        if !(same_text(os.as_str(), "linux") || ends_with(os.as_str(), "bsd")) {
            return Ok(OutputLibType::Dynamic);
        }
        let arch = match target_arch(env) {
            Ok(arch) => arch,
            Err(missing) => return Err(missing),
        };
        if same_text(arch.as_str(), "x86_64") || same_text(arch.as_str(), "aarch64") {
            Ok(OutputLibType::Static)
        } else {
            Ok(OutputLibType::Dynamic)
        }
    }

    /// The name of the linkage in Cargo's link directive.
    pub fn rust_lib_type(&self) -> (r: &'static str)
        ensures
            r@ == (match self {
                OutputLibType::Static => "static"@,
                OutputLibType::Dynamic => "dylib"@,
            }),
    {
        match self {
            OutputLibType::Static => "static",
            OutputLibType::Dynamic => "dylib",
        }
    }
}

/// The name of a library: its own, behind the prefix and an underscore where there is a prefix.
pub open spec fn library_name(lib: OutputLib, prefix: Option<Seq<char>>) -> Seq<char> {
    let name = match lib {
        OutputLib::Crypto => "crypto"@,
        OutputLib::Ssl => "ssl"@,
        OutputLib::RustWrapper => "rust_wrapper"@,
    };
    match prefix {
        Some(prefix) => prefix + "_"@ + name,
        None => name,
    }
}

impl OutputLib {
    /// The name under which the library is linked.
    pub fn libname(self, prefix: &Option<String>) -> (r: String)
        ensures
            r@ == library_name(self, text::optional_text(*prefix)),
    {
        let name = match self {
            OutputLib::Crypto => "crypto",
            OutputLib::Ssl => "ssl",
            OutputLib::RustWrapper => "rust_wrapper",
        };
        match prefix {
            Some(prefix) => prefix.clone().concat("_").concat(name),
            None => name.to_owned(),
        }
    }
}

/// The prefix of all symbols and library names of a version: dots become underscores.
pub open spec fn symbol_prefix(version: Seq<char>) -> Seq<char> {
    "aws_lc_fips_"@ + text::replaced(version, '.', '_')
}

/// The prefix of all symbols and library names.
pub fn prefix_string(version: &str) -> (r: String)
    ensures
        r@ == symbol_prefix(version@),
{
    "aws_lc_fips_".to_owned().concat(replace_char(version, '.', '_').as_str())
}

/// A symbol prefix holds no dot.
pub proof fn symbol_prefix_has_no_dot(version: Seq<char>)
    ensures
        !symbol_prefix(version).contains('.'),
{
    reveal_strlit("aws_lc_fips_");
}

/// Different libraries of one build have different names.
pub proof fn library_names_differ(a: OutputLib, b: OutputLib, prefix: Option<Seq<char>>)
    requires
        a != b,
    ensures
        library_name(a, prefix) != library_name(b, prefix),
{
    reveal_strlit("crypto");
    reveal_strlit("ssl");
    reveal_strlit("rust_wrapper");
    assert(library_name(a, prefix).len() != library_name(b, prefix).len());
}

} // verus!
