use cargo_build::{
    classify, plan, rewrite, BuildEngine, CommandKind, CompileCommand, ConfigError,
    BUILD_HELPER_NAME,
};

fn strings(v: &[&str]) -> Vec<String> {
    v.iter().map(|s| s.to_string()).collect()
}

fn engine(emit: Option<&str>, target: Option<&str>, sysroot: Option<&str>) -> BuildEngine {
    BuildEngine {
        target: target.map(|s| s.to_string()),
        sysroot: sysroot.map(|s| s.to_string()),
        emcc: None,
        opt: None,
        emit: emit.map(|s| s.to_string()),
        plugin: "/opt/passes/RemoveAssume.so".to_string(),
    }
}

fn compiler(args: &[&str]) -> CompileCommand {
    let mut c = CompileCommand::new(CommandKind::Compiler, "rustc".to_string());
    c.args = strings(args);
    c.envs = vec![
        ("CARGO_PKG_NAME".to_string(), Some("demo".to_string())),
        ("RUST_LOG".to_string(), None),
    ];
    c.cwd = Some("/work/demo".to_string());
    c
}

const DEMO_BIN: &[&str] = &[
    "src/main.rs",
    "--crate-name",
    "demo",
    "--crate-type",
    "bin",
    "--emit=dep-info,link",
    "--out-dir",
    "/tmp/out",
    "--target",
    "asmjs-unknown-emscripten",
];

#[test]
fn emit_needs_35_kinds() {
    assert!(BuildEngine::emit_needs_35(&Some("llvm35-ir".to_string())));
    assert!(BuildEngine::emit_needs_35(&Some("em-html".to_string())));
    assert!(BuildEngine::emit_needs_35(&Some("em-js".to_string())));
    assert!(!BuildEngine::emit_needs_35(&Some("llvm-ir".to_string())));
    assert!(!BuildEngine::emit_needs_35(&Some("link".to_string())));
    assert!(!BuildEngine::emit_needs_35(&None));
}

#[test]
fn classify_final_binary() {
    let e = engine(None, Some("asmjs-unknown-emscripten"), None);
    let c = classify(&strings(DEMO_BIN), &e).unwrap();
    assert!(c.is_binary);
    assert!(!c.is_build_helper);
    assert!(c.has_target);
    assert_eq!(c.crate_name, "demo");
    assert_eq!(c.out_dir, "/tmp/out");
}

#[test]
fn classify_library() {
    let args = strings(&["--crate-name", "util", "--crate-type", "lib", "--out-dir", "/o"]);
    let c = classify(&args, &engine(None, None, None)).unwrap();
    assert!(!c.is_binary);
    assert!(!c.is_build_helper);
    assert!(!c.has_target);
}

#[test]
fn classify_host_tool_when_cross_compiling() {
    let args = strings(&["--crate-name", "gen", "--crate-type", "bin", "--out-dir", "/o"]);
    let c = classify(&args, &engine(None, Some("arm-linux"), None)).unwrap();
    assert!(c.is_binary);
    assert!(c.is_build_helper);
    let c = classify(&args, &engine(None, None, None)).unwrap();
    assert!(!c.is_build_helper);
}

#[test]
fn classify_reserved_helper_name() {
    let args = strings(&["--crate-name", BUILD_HELPER_NAME, "--target", "t", "--out-dir", "/o"]);
    let c = classify(&args, &engine(None, None, None)).unwrap();
    assert!(c.is_build_helper);
}

#[test]
fn classify_takes_first_value() {
    let args = strings(&["--crate-name", "a", "--crate-name", "b", "--out-dir", "/x", "--out-dir"]);
    let c = classify(&args, &engine(None, None, None)).unwrap();
    assert_eq!(c.crate_name, "a");
    assert_eq!(c.out_dir, "/x");
}

#[test]
fn missing_crate_name() {
    let args = strings(&["--crate-type", "bin", "--out-dir", "/o", "--crate-name"]);
    assert_eq!(classify(&args, &engine(None, None, None)).unwrap_err(), ConfigError::MissingCrateName);
    let r = plan(compiler(&["--out-dir", "/o"]), &engine(None, None, None));
    assert_eq!(r.unwrap_err(), ConfigError::MissingCrateName);
}

#[test]
fn missing_out_dir() {
    let args = strings(&["--crate-name", "demo", "--crate-type", "bin"]);
    assert_eq!(classify(&args, &engine(None, None, None)).unwrap_err(), ConfigError::MissingOutDir);
    assert_eq!(ConfigError::MissingOutDir.message(), "missing --out-dir argument");
}

#[test]
fn unsupported_web_kind() {
    let r = plan(compiler(DEMO_BIN), &engine(Some("em-wasm"), Some("asmjs-unknown-emscripten"), None));
    let err = r.unwrap_err();
    assert_eq!(err, ConfigError::UnsupportedEmit("em-wasm".to_string()));
    assert_eq!(err.message(), "unsupported web emit kind: em-wasm");
}

#[test]
fn unsupported_web_kind_ignored_for_libraries() {
    let args = &["--crate-name", "util", "--crate-type", "lib", "--out-dir", "/o", "--target", "t"];
    let p = plan(compiler(args), &engine(Some("em-wasm"), Some("t"), None)).unwrap();
    assert_eq!(p.compile.args, strings(args));
    assert!(p.repair.is_none());
    assert!(p.web.is_none());
}

#[test]
fn compatible_ir_scenario() {
    let e = engine(Some("llvm35-ir"), Some("asmjs-unknown-emscripten"), None);
    let p = plan(compiler(DEMO_BIN), &e).unwrap();
    assert_eq!(
        p.compile.args,
        strings(&[
            "src/main.rs",
            "--crate-name",
            "demo",
            "--crate-type",
            "bin",
            "--out-dir",
            "/tmp/out",
            "--target",
            "asmjs-unknown-emscripten",
            "--emit",
            "dep-info,llvm-ir",
            "-C",
            "lto",
        ])
    );
    assert_eq!(p.compile.kind, CommandKind::Compiler);
    assert_eq!(p.compile.program, "rustc");
    assert_eq!(p.compile.cwd, Some("/work/demo".to_string()));
    assert_eq!(p.compile.envs, compiler(DEMO_BIN).envs);
    let r = p.repair.unwrap();
    assert_eq!(r.ir_file, "/tmp/out/demo.ll");
    assert_eq!(r.optimizer.kind, CommandKind::Tool);
    assert_eq!(r.optimizer.program, "opt");
    assert_eq!(
        r.optimizer.args,
        strings(&["-load=/opt/passes/RemoveAssume.so", "-remove-assume", "-globaldce", "-S"])
    );
    assert!(p.web.is_none());
}

#[test]
fn web_html_scenario() {
    let mut e = engine(Some("em-html"), Some("asmjs-unknown-emscripten"), None);
    e.opt = Some("/usr/lib/llvm-3.5/bin/opt".to_string());
    let p = plan(compiler(DEMO_BIN), &e).unwrap();
    assert_eq!(p.compile.args[p.compile.args.len() - 3], "dep-info,llvm-ir");
    let r = p.repair.unwrap();
    assert_eq!(r.ir_file, "/tmp/out/demo.ll");
    assert_eq!(r.optimizer.program, "/usr/lib/llvm-3.5/bin/opt");
    let w = p.web.unwrap();
    assert_eq!(w.kind, CommandKind::Tool);
    assert_eq!(w.program, "emcc");
    assert_eq!(
        w.args,
        strings(&["/tmp/out/demo.ll", "-lGL", "-lSDL", "-s", "USE_SDL=2", "-o", "/tmp/out/demo.html"])
    );
    assert!(w.envs.is_empty());
    assert!(w.cwd.is_none());
}

#[test]
fn web_js_uses_configured_compiler() {
    let mut e = engine(Some("em-js"), Some("asmjs-unknown-emscripten"), None);
    e.emcc = Some("/emsdk/emcc".to_string());
    let w = plan(compiler(DEMO_BIN), &e).unwrap().web.unwrap();
    assert_eq!(w.program, "/emsdk/emcc");
    assert_eq!(w.args[6], "/tmp/out/demo.js");
}

#[test]
fn build_helper_scenario() {
    let args = &[
        "build.rs",
        "--crate-name",
        BUILD_HELPER_NAME,
        "--crate-type",
        "bin",
        "--out-dir",
        "/tmp/out/build",
        "--target",
        "asmjs-unknown-emscripten",
    ];
    let e = engine(Some("em-html"), Some("asmjs-unknown-emscripten"), Some("/sysroot"));
    let p = plan(compiler(args), &e).unwrap();
    assert_eq!(p.compile.args, strings(args));
    assert!(p.repair.is_none());
    assert!(p.web.is_none());
}

#[test]
fn library_is_untouched() {
    let args = &["--crate-name", "util", "--crate-type", "lib", "--emit=dep-info,link", "--out-dir", "/o"];
    let e = engine(Some("llvm35-ir"), None, Some("/sysroot"));
    let p = plan(compiler(args), &e).unwrap();
    assert_eq!(p.compile.args, strings(args));
    assert!(p.repair.is_none());
}

#[test]
fn sysroot_added_without_emit() {
    let args = &["--crate-name", "demo", "--crate-type", "bin", "--out-dir", "/o", "--target", "t"];
    let e = engine(None, Some("t"), Some("/sysroot"));
    let p = plan(compiler(args), &e).unwrap();
    let mut expected = strings(args);
    expected.push("--sysroot".to_string());
    expected.push("/sysroot".to_string());
    assert_eq!(p.compile.args, expected);
    assert!(p.repair.is_none());
    assert!(p.web.is_none());
}

#[test]
fn plain_emit_passes_through() {
    let args = &["--emit", "link", "--crate-name", "demo", "--crate-type", "bin", "--out-dir", "/o"];
    let e = engine(Some("llvm-bc"), None, Some("/s"));
    let c = classify(&strings(args), &e).unwrap();
    let r = rewrite(compiler(args), &c, &e);
    assert_eq!(
        r.args,
        strings(&[
            "--crate-name", "demo", "--crate-type", "bin", "--out-dir", "/o", "--emit",
            "dep-info,llvm-bc", "--sysroot", "/s",
        ])
    );
    let emit_flags = r.args.iter().filter(|a| a.starts_with("--emit")).count();
    assert_eq!(emit_flags, 1);
}

#[test]
fn every_emit_flag_is_replaced() {
    let args = &[
        "--emit=obj", "--crate-name", "demo", "--crate-type", "bin", "--emit", "asm", "--out-dir",
        "/o", "--emit",
    ];
    let e = engine(Some("llvm35-ir"), None, None);
    let p = plan(compiler(args), &e).unwrap();
    let emit_flags = p.compile.args.iter().filter(|a| a.starts_with("--emit")).count();
    assert_eq!(emit_flags, 1);
    assert!(!p.compile.args.contains(&"asm".to_string()));
}

#[test]
fn tool_command_runs_as_is() {
    let mut c = CompileCommand::new(CommandKind::Tool, "ar".to_string());
    c.args = strings(&["crs", "libx.a", "x.o"]);
    let p = plan(c.clone(), &engine(Some("em-html"), Some("t"), Some("/s"))).unwrap();
    assert_eq!(p.compile.kind, CommandKind::Tool);
    assert_eq!(p.compile.program, "ar");
    assert_eq!(p.compile.args, c.args);
    assert!(p.repair.is_none());
    assert!(p.web.is_none());
}
