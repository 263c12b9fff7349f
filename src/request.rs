use vstd::prelude::*;
use vstd::string::*;

verus! {

/// Declares std's `io::Error` so that failures to start the generator or to
/// read its output can be carried, unopened, inside `GenerateFailure`.
#[verifier::external_type_specification]
#[verifier::external_body]
pub struct ExIoError(std::io::Error);

/// The views of a sequence of strings.
pub open spec fn views(v: Seq<String>) -> Seq<Seq<char>> {
    v.map_values(|s: String| s@)
}

/// A request to the grammar generator, built up before it is run.
#[derive(Debug)]
pub struct Builder {
    /// Grammar files, handed to the generator in this order.
    pub grammar_files: Vec<String>,
    /// Where the generator writes; the current directory when unset.
    pub out_dir: Option<String>,
    /// Whether the generator is told not to emit a listener.
    pub no_listener: bool,
    /// Whether the generator is told to emit a visitor.
    pub visitor: bool,
    /// Package (namespace) of the generated code.
    pub package: Option<String>,
}

/// What the generator process did, once it has run.
#[derive(Debug)]
pub struct RunOutput {
    /// Whether it exited with status zero.
    pub success: bool,
    /// Its standard output, as text.
    pub stdout: String,
    /// Its standard error, as text.
    pub stderr: String,
}

/// Why generation failed.
#[derive(Debug)]
pub enum GenerateFailure {
    /// The generator could not be started.
    Run(std::io::Error),
    /// The generator ran and failed; its standard output and standard error,
    /// each followed by a line break.
    Cmd(String, String),
    /// The generator's output directory could not be read.
    Gather(std::io::Error),
}

/// A string option's view.
pub open spec fn opt_view(o: Option<String>) -> Option<Seq<char>> {
    match o {
        Some(s) => Some(s@),
        None => None,
    }
}

/// The directory a request's output is found in.
pub open spec fn resolved_out_dir(b: Builder) -> Seq<char> {
    match b.out_dir {
        Some(d) => d@,
        None => "."@,
    }
}

/// The generator's arguments for a request, after the launcher: the jar,
/// the native target, then the options that are set, then the grammars.
pub open spec fn generator_args_of(b: Builder, jar: Seq<char>) -> Seq<Seq<char>> {
    seq!["-jar"@, jar, "-Dlanguage=Cpp"@]
        + (match b.out_dir {
            Some(d) => seq!["-o"@, d@],
            None => Seq::empty(),
        })
        + (match b.package {
            Some(p) => seq!["-package"@, p@],
            None => Seq::empty(),
        })
        + (if b.no_listener { seq!["-no-listener"@] } else { Seq::empty() })
        + (if b.visitor { seq!["-visitor"@] } else { Seq::empty() })
        + views(b.grammar_files@)
}

/// The line that asks the enclosing build to run again when `path` changes.
pub open spec fn rerun_line(path: Seq<char>) -> Seq<char> {
    "cargo:rerun-if-changed="@ + path
}

/// The directive that tells the enclosing build to run again when `path`
/// changes.
pub fn rerun_if_changed(path: &str) -> (r: String)
    ensures
        r@ == rerun_line(path@),
{
    String::from_str("cargo:rerun-if-changed=").concat(path)
}

impl Default for Builder {
    fn default() -> (r: Builder)
        ensures
            r.grammar_files@.len() == 0,
            r.out_dir is None,
            !r.no_listener,
            !r.visitor,
            r.package is None,
    {
        Builder {
            grammar_files: Vec::new(),
            out_dir: None,
            no_listener: false,
            visitor: false,
            package: None,
        }
    }
}

impl Builder {
    /// Adds a grammar file after those already given.
    pub fn grammar(self, file: String) -> (r: Builder)
        ensures
            r.grammar_files@ == self.grammar_files@.push(file),
            opt_view(r.out_dir) == opt_view(self.out_dir),
            r.no_listener == self.no_listener,
            r.visitor == self.visitor,
            opt_view(r.package) == opt_view(self.package),
    {
        let mut b = self;
        b.grammar_files.push(file);
        b
    }

    /// Sets the package of the generated code.
    pub fn package(self, package: String) -> (r: Builder)
        ensures
            r.grammar_files@ == self.grammar_files@,
            opt_view(r.out_dir) == opt_view(self.out_dir),
            r.no_listener == self.no_listener,
            r.visitor == self.visitor,
            opt_view(r.package) == Some(package@),
    {
        let mut b = self;
        b.package = Some(package);
        b
    }

    /// Sets the directory the generator writes to.
    pub fn out_dir(self, out_dir: String) -> (r: Builder)
        ensures
            r.grammar_files@ == self.grammar_files@,
            opt_view(r.out_dir) == Some(out_dir@),
            r.no_listener == self.no_listener,
            r.visitor == self.visitor,
            opt_view(r.package) == opt_view(self.package),
    {
        let mut b = self;
        b.out_dir = Some(out_dir);
        b
    }

    /// Sets whether a listener is generated.
    pub fn listener(self, listener: bool) -> (r: Builder)
        ensures
            r.grammar_files@ == self.grammar_files@,
            opt_view(r.out_dir) == opt_view(self.out_dir),
            r.no_listener == !listener,
            r.visitor == self.visitor,
            opt_view(r.package) == opt_view(self.package),
    {
        let mut b = self;
        b.no_listener = !listener;
        b
    }

    /// Sets whether a visitor is generated.
    pub fn visitor(self, visitor: bool) -> (r: Builder)
        ensures
            r.grammar_files@ == self.grammar_files@,
            opt_view(r.out_dir) == opt_view(self.out_dir),
            r.no_listener == self.no_listener,
            r.visitor == visitor,
            opt_view(r.package) == opt_view(self.package),
    {
        let mut b = self;
        b.visitor = visitor;
        b
    }
    /// The generator's command-line arguments after the launcher, given the
    /// path of the generator's jar.
    pub fn generator_args(&self, jar_path: &str) -> (r: Vec<String>)
        ensures
            views(r@) == generator_args_of(*self, jar_path@),
    {
        let mut args: Vec<String> = Vec::new();
        args.push(String::from_str("-jar"));
        args.push(String::from_str(jar_path));
        args.push(String::from_str("-Dlanguage=Cpp"));
        let ghost mut want: Seq<Seq<char>> = seq!["-jar"@, jar_path@, "-Dlanguage=Cpp"@];
        assert(views(args@) =~= want);
        if let Some(d) = &self.out_dir {
            args.push(String::from_str("-o"));
            args.push(d.clone());
            proof {
                want = want + seq!["-o"@, d@];
            }
        }
        assert(views(args@) =~= want);
        if let Some(p) = &self.package {
            args.push(String::from_str("-package"));
            args.push(p.clone());
            proof {
                want = want + seq!["-package"@, p@];
            }
        }
        assert(views(args@) =~= want);
        if self.no_listener {
            args.push(String::from_str("-no-listener"));
            proof {
                want = want + seq!["-no-listener"@];
            }
        }
        assert(views(args@) =~= want);
        if self.visitor {
            args.push(String::from_str("-visitor"));
            proof {
                want = want + seq!["-visitor"@];
            }
        }
        assert(views(args@) =~= want);
        let ghost head = want;
        let files = &self.grammar_files;
        let mut i: usize = 0;
        while i < files.len()
            invariant
                i <= files@.len(),
                views(args@) == head + views(files@.take(i as int)),
            decreases files@.len() - i,
        {
            let ghost prev = args@;
            let f = files[i].clone();
            args.push(f);
            assert(views(args@) =~= views(prev).push(files@[i as int]@));
            assert(views(files@.take(i + 1)) =~= views(files@.take(i as int)).push(files@[i as int]@));
            assert(views(args@) =~= head + views(files@.take(i + 1)));
            i = i + 1;
        }
        assert(files@.take(files@.len() as int) =~= files@);
        args
    }

    /// Judges a finished (or failed) run of the generator. A run that could
    /// not start, and one that exited with a failure, are errors; after a
    /// successful run the result is the directory to gather output from.
    /// The request is used up either way.
    pub fn generate(self, run: Result<RunOutput, std::io::Error>) -> (r: Result<String, GenerateFailure>)
        ensures
            run is Err ==> r == Err::<String, GenerateFailure>(GenerateFailure::Run(run->Err_0)),
            run is Ok && !run->Ok_0.success ==> r is Err && match r->Err_0 {
                GenerateFailure::Cmd(out, err) => {
                    &&& out@ == run->Ok_0.stdout@ + "\n"@
                    &&& err@ == run->Ok_0.stderr@ + "\n"@
                    &&& err@.len() > 0
                },
                _ => false,
            },
            run is Ok && run->Ok_0.success ==> r is Ok && r->Ok_0@ == resolved_out_dir(self),
    {
        match run {
            Err(e) => Err(GenerateFailure::Run(e)),
            Ok(out) => {
                if !out.success {
                    let stdout = out.stdout.concat("\n");
                    let stderr = out.stderr.concat("\n");
                    proof {
                        reveal_strlit("\n");
                    }
                    return Err(GenerateFailure::Cmd(stdout, stderr));
                }
                match self.out_dir {
                    Some(d) => Ok(d),
                    None => Ok(String::from_str(".")),
                }
            },
        }
    }
}

} // verus!
