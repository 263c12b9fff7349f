use vstd::prelude::*;
use vstd::string::*;
use crate::classify::{FileKind, classify, select};
use crate::request::views;
use crate::runtime::{LinkMode, link_antlr4_runtime, link_lines};

verus! {

/// The classified output of a successful generator run, with the adapter
/// files registered so far.
#[derive(Debug)]
pub struct Generated {
    /// Source files to compile: generated ones, then registered adapters.
    pub source: Vec<String>,
    /// Generated header files.
    pub headers: Vec<String>,
    /// The directory the generator wrote to.
    pub source_dir: String,
    /// The runtime's include directories.
    pub antlr_include_dirs: Vec<String>,
    /// Registered adapter headers, from which bindings are generated.
    pub shim_headers: Vec<String>,
}

/// Bindings to generate from the adapter headers.
#[derive(Debug)]
pub struct BindingJob {
    /// The headers, read together as one translation unit, in order.
    pub headers: Vec<String>,
    /// Arguments for the C++ front end.
    pub clang_args: Vec<String>,
    /// The file the bindings are written to.
    pub output: String,
}

/// Everything needed to compile, link and bind one native library.
#[derive(Debug)]
pub struct BuildPlan {
    /// Name of the static library.
    pub name: String,
    /// Whether code is compiled position-independent.
    pub pic: bool,
    /// Include directories, in order.
    pub includes: Vec<String>,
    /// Files to compile, in order.
    pub files: Vec<String>,
    /// Compiler flags.
    pub flags: Vec<String>,
    /// Compiler flags passed only where the compiler accepts them.
    pub flags_if_supported: Vec<String>,
    /// Build directives that link the runtime.
    pub link: Vec<String>,
    /// Bindings to generate, if any adapter header was registered.
    pub bindings: Option<BindingJob>,
}

/// The language standard everything is compiled and read under.
pub open spec fn std_flag() -> Seq<char> {
    "-std=c++14"@
}

/// The file the bindings of library `name` are written to.
pub open spec fn binding_file(dir: Seq<char>, name: Seq<char>) -> Seq<char> {
    dir + "/"@ + name + ".rs"@
}

impl Generated {
    /// Classifies the paths found under `source_dir` after a generator run:
    /// `.cpp` files become sources and `.h` files headers, in the order
    /// found; other paths are ignored. No adapter header is registered yet.
    pub fn gather(source_dir: String, found: Vec<String>, antlr_include_dirs: Vec<String>) -> (r: Generated)
        ensures
            views(r.source@) == select(views(found@), FileKind::Source),
            views(r.headers@) == select(views(found@), FileKind::Header),
            r.source_dir@ == source_dir@,
            views(r.antlr_include_dirs@) == views(antlr_include_dirs@),
            r.shim_headers@.len() == 0,
    {
        let mut source: Vec<String> = Vec::new();
        let mut headers: Vec<String> = Vec::new();
        let mut i: usize = 0;
        while i < found.len()
            invariant
                i <= found@.len(),
                views(source@) == select(views(found@.take(i as int)), FileKind::Source),
                views(headers@) == select(views(found@.take(i as int)), FileKind::Header),
            decreases found@.len() - i,
        {
            let p = found[i].clone();
            let ghost fv = views(found@.take(i + 1));
            assert(fv.drop_last() =~= views(found@.take(i as int)));
            assert(fv.last() == p@);
            let k = classify(p.as_str());
            let ghost s0 = source@;
            let ghost h0 = headers@;
            match k {
                FileKind::Source => {
                    source.push(p);
                    assert(views(source@) =~= views(s0).push(p@));
                },
                FileKind::Header => {
                    headers.push(p);
                    assert(views(headers@) =~= views(h0).push(p@));
                },
                FileKind::Other => {},
            }
            i = i + 1;
        }
        assert(found@.take(found@.len() as int) =~= found@);
        Generated { source, headers, source_dir, antlr_include_dirs, shim_headers: Vec::new() }
    }

    /// Registers an adapter source file, compiled after the generated ones.
    pub fn shim_source(self, source: String) -> (r: Generated)
        ensures
            r.source@ == self.source@.push(source),
            r.headers@ == self.headers@,
            r.source_dir@ == self.source_dir@,
            r.antlr_include_dirs@ == self.antlr_include_dirs@,
            r.shim_headers@ == self.shim_headers@,
    {
        let mut g = self;
        g.source.push(source);
        g
    }

    /// Registers an adapter header, from which bindings are generated.
    pub fn shim_header(self, header: String) -> (r: Generated)
        ensures
            r.source@ == self.source@,
            r.headers@ == self.headers@,
            r.source_dir@ == self.source_dir@,
            r.antlr_include_dirs@ == self.antlr_include_dirs@,
            r.shim_headers@ == self.shim_headers@.push(header),
    {
        let mut g = self;
        g.shim_headers.push(header);
        g
    }

    /// Plans the build of the static library `name`: every source file is
    /// compiled position-independent as C++14 against the output directory
    /// and the runtime's include directories; the runtime found in
    /// `runtime_lib_dir` is linked per `mode`; and, exactly when adapter
    /// headers were registered, one binding job covers all of them, written
    /// to `<binding_dir>/<name>.rs`.
    pub fn build(self, name: &str, mode: LinkMode, runtime_lib_dir: &str, binding_dir: &str) -> (r: BuildPlan)
        ensures
            r.name@ == name@,
            r.pic,
            views(r.includes@) == seq![self.source_dir@] + views(self.antlr_include_dirs@),
            views(r.files@) == views(self.source@),
            views(r.flags@) == seq![std_flag()],
            views(r.flags_if_supported@) == seq!["-Wno-attributes"@],
            views(r.link@) == link_lines(runtime_lib_dir@, mode),
            (r.bindings is Some) == (self.shim_headers@.len() > 0),
            r.bindings is Some ==> {
                let job = r.bindings->Some_0;
                &&& views(job.headers@) == views(self.shim_headers@)
                &&& views(job.clang_args@) == seq![std_flag(), "-xc++"@]
                &&& job.output@ == binding_file(binding_dir@, name@)
            },
    {
        let mut includes: Vec<String> = Vec::new();
        includes.push(self.source_dir);
        let mut dirs = self.antlr_include_dirs;
        let ghost d0 = views(dirs@);
        includes.append(&mut dirs);
        assert(views(includes@) =~= seq![self.source_dir@] + d0);
        let mut flags: Vec<String> = Vec::new();
        flags.push(String::from_str("-std=c++14"));
        assert(views(flags@) =~= seq![std_flag()]);
        let mut optional: Vec<String> = Vec::new();
        optional.push(String::from_str("-Wno-attributes"));
        assert(views(optional@) =~= seq!["-Wno-attributes"@]);
        let bindings = if self.shim_headers.len() > 0 {
            let mut clang_args: Vec<String> = Vec::new();
            clang_args.push(String::from_str("-std=c++14"));
            clang_args.push(String::from_str("-xc++"));
            assert(views(clang_args@) =~= seq![std_flag(), "-xc++"@]);
            let output = String::from_str(binding_dir).concat("/").concat(name).concat(".rs");
            Some(BindingJob { headers: self.shim_headers, clang_args, output })
        } else {
            None
        };
        BuildPlan {
            name: String::from_str(name),
            pic: true,
            includes,
            files: self.source,
            flags,
            flags_if_supported: optional,
            link: link_antlr4_runtime(runtime_lib_dir, mode),
            bindings,
        }
    }
}

} // verus!
