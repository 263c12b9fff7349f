use vstd::prelude::*;
use vstd::string::*;
use crate::request::views;

verus! {

/// How the runtime support library is linked into the consuming build.
#[derive(Clone, Copy, Debug, PartialEq, Eq, Structural)]
pub enum LinkMode {
    /// The runtime archive and the C++ standard library archive, statically.
    Static,
    /// The runtime as a shared library.
    Dynamic,
}

/// The generator version that the conventional jar path names.
pub const ANTLR_VERSION: &'static str = "4.7.2-SNAPSHOT";

/// The runtime's include directories under the directory its build wrote to.
pub open spec fn include_dirs_of(base: Seq<char>) -> Seq<Seq<char>> {
    let root = base + "/antlr4/include/antlr4-runtime"@;
    seq![root, root + "/atn"@, root + "/dfa"@, root + "/support"@, root + "/misc"@, root + "/tree"@]
}

/// The runtime's include directories, for a runtime built under `base`.
pub fn antlr_include_dirs(base: &str) -> (r: Vec<String>)
    ensures
        views(r@) == include_dirs_of(base@),
{
    let root = String::from_str(base).concat("/antlr4/include/antlr4-runtime");
    let mut dirs: Vec<String> = Vec::new();
    dirs.push(root.clone());
    dirs.push(root.clone().concat("/atn"));
    dirs.push(root.clone().concat("/dfa"));
    dirs.push(root.clone().concat("/support"));
    dirs.push(root.clone().concat("/misc"));
    dirs.push(root.concat("/tree"));
    assert(views(dirs@) =~= include_dirs_of(base@));
    dirs
}

/// The build directives that link the runtime from `lib_dir`.
pub open spec fn link_lines(lib_dir: Seq<char>, mode: LinkMode) -> Seq<Seq<char>> {
    let search = "cargo:rustc-link-search=native="@ + lib_dir;
    match mode {
        LinkMode::Static => seq![
            search,
            "cargo:rustc-link-lib=static=antlr4-runtime"@,
            "cargo:rustc-link-search=native=/usr/lib"@,
            "cargo:rustc-link-lib=static=stdc++"@,
        ],
        LinkMode::Dynamic => seq![search, "cargo:rustc-link-lib=dylib=antlr4-runtime"@],
    }
}

/// The directives, one per line, that link the runtime library found in
/// `lib_dir` into the consuming build.
pub fn link_antlr4_runtime(lib_dir: &str, mode: LinkMode) -> (r: Vec<String>)
    ensures
        views(r@) == link_lines(lib_dir@, mode),
{
    let mut lines: Vec<String> = Vec::new();
    lines.push(String::from_str("cargo:rustc-link-search=native=").concat(lib_dir));
    match mode {
        LinkMode::Static => {
            lines.push(String::from_str("cargo:rustc-link-lib=static=antlr4-runtime"));
            lines.push(String::from_str("cargo:rustc-link-search=native=/usr/lib"));
            lines.push(String::from_str("cargo:rustc-link-lib=static=stdc++"));
        },
        LinkMode::Dynamic => {
            lines.push(String::from_str("cargo:rustc-link-lib=dylib=antlr4-runtime"));
        },
    }
    assert(views(lines@) =~= link_lines(lib_dir@, mode));
    lines
}

/// The generator jar: the configured one if there is one, else the
/// conventional path under the generator's source tree.
pub open spec fn jar_path_of(configured: Option<Seq<char>>, antlr_dir: Seq<char>) -> Seq<char> {
    match configured {
        Some(j) => j,
        None => antlr_dir + "/tool/target/antlr4-"@ + ANTLR_VERSION@ + "-complete.jar"@,
    }
}

/// The path of the generator jar, from the configured path (if any) and the
/// directory of the generator's sources.
pub fn antlr_jar_path(configured: Option<String>, antlr_dir: &str) -> (r: String)
    ensures
        r@ == jar_path_of(
            match configured {
                Some(j) => Some(j@),
                None => None,
            },
            antlr_dir@,
        ),
{
    match configured {
        Some(j) => j,
        None => String::from_str(antlr_dir).concat("/tool/target/antlr4-").concat(ANTLR_VERSION).concat(
            "-complete.jar",
        ),
    }
}

} // verus!
