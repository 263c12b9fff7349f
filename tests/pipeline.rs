use antlr_tool::{
    antlr_include_dirs, antlr_jar_path, classify, link_antlr4_runtime, rerun_if_changed, Builder,
    Entry, FileKind, GenerateFailure, Generated, LinkMode, RunOutput, Walk, WalkStep,
};

fn strings(v: &[&str]) -> Vec<String> {
    v.iter().map(|s| s.to_string()).collect()
}

#[test]
fn lib_it_works() {
    assert_eq!(2 + 2, 4);
}

#[test]
fn classify_by_extension() {
    assert_eq!(classify("out/JSONParser.cpp"), FileKind::Source);
    assert_eq!(classify("out/JSONParser.h"), FileKind::Header);
    assert_eq!(classify("out/JSON.tokens"), FileKind::Other);
    assert_eq!(classify("out/notes.txt"), FileKind::Other);
    assert_eq!(classify("out/.h"), FileKind::Other);
    assert_eq!(classify("out/a.hpp"), FileKind::Other);
    assert_eq!(classify("out/a.cpp.bak"), FileKind::Other);
    assert_eq!(classify("dir.h/file"), FileKind::Other);
    assert_eq!(classify("plain"), FileKind::Other);
    assert_eq!(classify("x.h"), FileKind::Header);
}

#[test]
fn gather_ignores_unrelated_files() {
    let found = strings(&[
        "gen/JSONLexer.cpp",
        "gen/JSONLexer.h",
        "gen/README.unknownext",
        "gen/sub",
        "gen/sub/JSONParser.cpp",
        "gen/sub/JSONParser.h",
    ]);
    let g = Generated::gather("gen".to_string(), found, strings(&["inc"]));
    assert_eq!(g.source, strings(&["gen/JSONLexer.cpp", "gen/sub/JSONParser.cpp"]));
    assert_eq!(g.headers, strings(&["gen/JSONLexer.h", "gen/sub/JSONParser.h"]));
    assert_eq!(g.source_dir, "gen");
    assert_eq!(g.antlr_include_dirs, strings(&["inc"]));
    assert!(g.shim_headers.is_empty());
    assert!(!g.source.iter().any(|p| p.ends_with(".unknownext")));
    assert!(!g.headers.iter().any(|p| p.ends_with(".unknownext")));
}

#[test]
fn gather_of_nothing_is_empty() {
    let g = Generated::gather(".".to_string(), vec![], vec![]);
    assert!(g.source.is_empty());
    assert!(g.headers.is_empty());
}

fn entry(path: &str, is_dir: bool) -> Entry {
    Entry { path: path.to_string(), is_dir }
}

/// Drives a walk over a fixed listing table and returns the visited paths.
fn drive(root: &str, root_is_dir: bool, table: &[(&str, Vec<Entry>)]) -> Vec<String> {
    let mut w = Walk::new(root.to_string(), root_is_dir);
    let mut seen = vec![];
    loop {
        if let Some(dir) = w.awaiting() {
            let children = table
                .iter()
                .find(|(d, _)| *d == dir)
                .map(|(_, c)| c.clone())
                .unwrap_or_default();
            w.listed(children);
            continue;
        }
        match w.next() {
            WalkStep::Visit(e) => seen.push(e.path),
            WalkStep::Done => break,
        }
    }
    seen
}

#[test]
fn walk_is_preorder() {
    let table = vec![
        ("r", vec![entry("r/a", true), entry("r/b.h", false), entry("r/c", true)]),
        ("r/a", vec![entry("r/a/x.cpp", false), entry("r/a/d", true)]),
        ("r/a/d", vec![entry("r/a/d/deep.h", false)]),
        ("r/c", vec![]),
    ];
    let seen = drive("r", true, &table);
    assert_eq!(
        seen,
        strings(&["r/a", "r/a/x.cpp", "r/a/d", "r/a/d/deep.h", "r/b.h", "r/c"])
    );
}

#[test]
fn walk_of_missing_root_visits_nothing() {
    let mut w = Walk::new("nowhere".to_string(), false);
    assert!(w.awaiting().is_none());
    assert!(matches!(w.next(), WalkStep::Done));
    assert!(drive("file.txt", false, &[]).is_empty());
}

#[test]
fn walk_of_empty_root() {
    let mut w = Walk::new("r".to_string(), true);
    assert_eq!(w.awaiting(), Some("r".to_string()));
    w.listed(vec![]);
    assert!(w.awaiting().is_none());
    assert!(matches!(w.next(), WalkStep::Done));
}

#[test]
fn builder_defaults() {
    let b = Builder::default();
    assert!(b.grammar_files.is_empty());
    assert!(b.out_dir.is_none());
    assert!(!b.no_listener);
    assert!(!b.visitor);
    assert!(b.package.is_none());
}

#[test]
fn generator_args_minimal() {
    let b = Builder::default()
        .grammar("JSON.g4".to_string())
        .listener(true)
        .visitor(false)
        .out_dir("out/generated".to_string());
    assert_eq!(
        b.generator_args("antlr.jar"),
        strings(&["-jar", "antlr.jar", "-Dlanguage=Cpp", "-o", "out/generated", "JSON.g4"])
    );
}

#[test]
fn generator_args_all_options() {
    let b = Builder::default()
        .grammar("Lexer.g4".to_string())
        .grammar("Parser.g4".to_string())
        .package("pkg".to_string())
        .listener(false)
        .visitor(true)
        .out_dir("o".to_string());
    assert_eq!(
        b.generator_args("j"),
        strings(&[
            "-jar", "j", "-Dlanguage=Cpp", "-o", "o", "-package", "pkg", "-no-listener",
            "-visitor", "Lexer.g4", "Parser.g4"
        ])
    );
}

#[test]
fn generator_args_without_out_dir() {
    let b = Builder::default().grammar("G.g4".to_string());
    assert_eq!(b.generator_args("j"), strings(&["-jar", "j", "-Dlanguage=Cpp", "G.g4"]));
}

#[test]
fn generate_success_gives_out_dir() {
    let run = Ok(RunOutput { success: true, stdout: String::new(), stderr: String::new() });
    let b = Builder::default().grammar("JSON.g4".to_string()).out_dir("gen".to_string());
    assert_eq!(b.generate(run).unwrap(), "gen");
    let run = Ok(RunOutput { success: true, stdout: String::new(), stderr: String::new() });
    assert_eq!(Builder::default().generate(run).unwrap(), ".");
}

#[test]
fn generate_rejected_grammar_is_cmd_failure() {
    let run = Ok(RunOutput {
        success: false,
        stdout: "".to_string(),
        stderr: "error(50): Bad.g4:1:5: syntax error".to_string(),
    });
    let b = Builder::default().grammar("Bad.g4".to_string());
    match b.generate(run) {
        Err(GenerateFailure::Cmd(out, err)) => {
            assert_eq!(out, "\n");
            assert_eq!(err, "error(50): Bad.g4:1:5: syntax error\n");
            assert!(!err.is_empty());
        }
        other => panic!("unexpected {:?}", other),
    }
}

#[test]
fn generate_unlaunchable_is_run_failure() {
    let err = std::io::Error::new(std::io::ErrorKind::NotFound, "no java");
    let b = Builder::default().grammar("JSON.g4".to_string());
    match b.generate(Err(err)) {
        Err(GenerateFailure::Run(e)) => assert_eq!(e.kind(), std::io::ErrorKind::NotFound),
        other => panic!("unexpected {:?}", other),
    }
}

#[test]
fn build_without_headers_has_no_bindings() {
    let g = Generated::gather(
        "gen".to_string(),
        strings(&["gen/JSONParser.cpp", "gen/JSONParser.h"]),
        strings(&["rt/a", "rt/b"]),
    )
    .shim_source("src/shim.cpp".to_string());
    let plan = g.build("json", LinkMode::Static, "rt/lib", "target/out");
    assert_eq!(plan.name, "json");
    assert!(plan.pic);
    assert_eq!(plan.includes, strings(&["gen", "rt/a", "rt/b"]));
    assert_eq!(plan.files, strings(&["gen/JSONParser.cpp", "src/shim.cpp"]));
    assert_eq!(plan.flags, strings(&["-std=c++14"]));
    assert_eq!(plan.flags_if_supported, strings(&["-Wno-attributes"]));
    assert!(plan.bindings.is_none());
}

#[test]
fn build_with_header_has_one_binding_job() {
    let g = Generated::gather("gen".to_string(), strings(&["gen/P.cpp"]), vec![])
        .shim_source("src/shim.cpp".to_string())
        .shim_header("src/shim.h".to_string());
    let plan = g.build("json", LinkMode::Dynamic, "rt/lib", "target/out");
    let job = plan.bindings.expect("bindings");
    assert_eq!(job.headers, strings(&["src/shim.h"]));
    assert_eq!(job.clang_args, strings(&["-std=c++14", "-xc++"]));
    assert_eq!(job.output, "target/out/json.rs");
    assert_eq!(
        plan.link,
        strings(&["cargo:rustc-link-search=native=rt/lib", "cargo:rustc-link-lib=dylib=antlr4-runtime"])
    );
}

#[test]
fn build_with_two_headers_covers_both() {
    let g = Generated::gather("gen".to_string(), vec![], vec![])
        .shim_header("a.h".to_string())
        .shim_header("b.h".to_string());
    let plan = g.build("n", LinkMode::Static, "l", "d");
    assert_eq!(plan.bindings.unwrap().headers, strings(&["a.h", "b.h"]));
}

#[test]
fn runtime_link_static() {
    assert_eq!(
        link_antlr4_runtime("/o/lib", LinkMode::Static),
        strings(&[
            "cargo:rustc-link-search=native=/o/lib",
            "cargo:rustc-link-lib=static=antlr4-runtime",
            "cargo:rustc-link-search=native=/usr/lib",
            "cargo:rustc-link-lib=static=stdc++",
        ])
    );
}

#[test]
fn runtime_include_dirs() {
    assert_eq!(
        antlr_include_dirs("/o"),
        strings(&[
            "/o/antlr4/include/antlr4-runtime",
            "/o/antlr4/include/antlr4-runtime/atn",
            "/o/antlr4/include/antlr4-runtime/dfa",
            "/o/antlr4/include/antlr4-runtime/support",
            "/o/antlr4/include/antlr4-runtime/misc",
            "/o/antlr4/include/antlr4-runtime/tree",
        ])
    );
}

#[test]
fn jar_path_configured_or_conventional() {
    assert_eq!(antlr_jar_path(Some("/x/antlr.jar".to_string()), "/src"), "/x/antlr.jar");
    assert_eq!(
        antlr_jar_path(None, "/src"),
        "/src/tool/target/antlr4-4.7.2-SNAPSHOT-complete.jar"
    );
}

#[test]
fn rerun_directive() {
    assert_eq!(rerun_if_changed("JSON.g4"), "cargo:rerun-if-changed=JSON.g4");
}
