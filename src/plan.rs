use vstd::prelude::*;

use crate::classify::{classify, has_pair, is_helper, value_of};
use crate::command::{CommandKind, CompileCommand};
use crate::engine::{is_web, needs_repair, opt_view, BuildEngine};
use crate::error::ConfigError;
use crate::rewrite::{rewrite, rewritten_args};
use crate::text::{eq_str, starts_with};

verus! {

/// Running the optimizer over the IR file the compiler wrote.
#[derive(Clone, Debug)]
pub struct RepairStep {
    /// The optimizer; it reads the repaired lines on its input and writes the
    /// optimized IR on its output.
    pub optimizer: CompileCommand,
    /// The IR file, read before and overwritten after.
    pub ir_file: String,
}

/// What one compile command turns into: the compiler run, then the repair of
/// its IR, then the web compiler, each step only if present.
#[derive(Clone, Debug)]
pub struct Plan {
    pub compile: CompileCommand,
    pub repair: Option<RepairStep>,
    pub web: Option<CompileCommand>,
}

/// The file extension of a web artifact kind.
pub open spec fn web_extension(e: Seq<char>) -> Option<Seq<char>> {
    if e == "em-html"@ {
        Some("html"@)
    } else if e == "em-js"@ {
        Some("js"@)
    } else {
        None
    }
}

/// `<dir>/<name>.<ext>`.
pub open spec fn output_path(dir: Seq<char>, name: Seq<char>, ext: Seq<char>) -> Seq<char> {
    dir + "/"@ + name + "."@ + ext
}

/// The optimizer's arguments: the plugin, the two passes, textual output.
pub open spec fn optimizer_args(plugin: Seq<char>) -> Seq<Seq<char>> {
    seq!["-load="@ + plugin, "-remove-assume"@, "-globaldce"@, "-S"@]
}

/// The web compiler's arguments: the IR file, the graphics and windowing
/// libraries, and the artifact path.
pub open spec fn web_args(ir: Seq<char>, out: Seq<char>) -> Seq<Seq<char>> {
    seq![ir, "-lGL"@, "-lSDL"@, "-s"@, "USE_SDL=2"@, "-o"@, out]
}

/// A configured program, or the default name.
pub open spec fn program_or(p: Option<Seq<char>>, default: Seq<char>) -> Seq<char> {
    match p {
        Some(p) => p,
        None => default,
    }
}

/// A tool command with the given program and arguments, no environment
/// overrides and the inherited working directory.
pub open spec fn is_tool_command(c: CompileCommand, program: Seq<char>, args: Seq<Seq<char>>) -> bool {
    &&& c.kind == CommandKind::Tool
    &&& c.program@ == program
    &&& c.args_view() == args
    &&& c.envs@.len() == 0
    &&& c.cwd is None
}

/// The emit kind in effect for an invocation: the configured one for a final
/// target binary, none otherwise.
pub open spec fn effective_emit(target_binary: bool, engine: BuildEngine) -> Option<Seq<char>> {
    if target_binary {
        opt_view(engine.emit)
    } else {
        None
    }
}

/// `p` is the plan for the compiler invocation `cmd` with crate name `name`
/// and output directory `dir`.
pub open spec fn plans_compile(
    p: Plan,
    cmd: CompileCommand,
    engine: BuildEngine,
    name: Seq<char>,
    dir: Seq<char>,
) -> bool {
    let a = cmd.args_view();
    let has_target = a.contains("--target"@);
    let tb = has_pair(a, "--crate-type"@, "bin"@) && !is_helper(name, has_target, engine.target is Some);
    let emit = effective_emit(tb, engine);
    let ir = output_path(dir, name, "ll"@);
    &&& p.compile.kind == cmd.kind
    &&& p.compile.program == cmd.program
    &&& p.compile.envs == cmd.envs
    &&& p.compile.cwd == cmd.cwd
    &&& p.compile.args_view() == rewritten_args(a, tb, opt_view(engine.emit), opt_view(engine.sysroot))
    &&& (p.repair is Some <==> (emit is Some && needs_repair(emit->Some_0)))
    &&& p.repair is Some ==> {
        &&& p.repair->Some_0.ir_file@ == ir
        &&& is_tool_command(
            p.repair->Some_0.optimizer,
            program_or(opt_view(engine.opt), "opt"@),
            optimizer_args(engine.plugin@),
        )
    }
    &&& (p.web is Some <==> (emit is Some && is_web(emit->Some_0)))
    &&& p.web is Some ==> is_tool_command(
        p.web->Some_0,
        program_or(opt_view(engine.emcc), "emcc"@),
        web_args(ir, output_path(dir, name, web_extension(emit->Some_0)->Some_0)),
    )
}

/// The extension of a web artifact kind.
fn extension_of(e: &String) -> (r: Option<String>)
    ensures
        opt_view(r) == web_extension(e@),
{
    if eq_str(e, "em-html") {
        Some(String::from_str("html"))
    } else if eq_str(e, "em-js") {
        Some(String::from_str("js"))
    } else {
        None
    }
}

/// `<dir>/<name>.<ext>`.
fn make_path(dir: &String, name: &String, ext: &str) -> (r: String)
    ensures
        r@ == output_path(dir@, name@, ext@),
{
    dir.clone().concat("/").concat(name.as_str()).concat(".").concat(ext)
}

/// A tool command from its program and arguments.
fn tool_command(program: String, args: Vec<String>) -> (r: CompileCommand)
    ensures
        r.kind == CommandKind::Tool,
        r.program == program,
        r.args == args,
        r.envs@.len() == 0,
        r.cwd is None,
{
    CompileCommand { kind: CommandKind::Tool, program, args, envs: Vec::new(), cwd: None }
}

/// A configured program, or the default name.
fn program_of(p: &Option<String>, default: &str) -> (r: String)
    ensures
        r@ == program_or(opt_view(*p), default@),
{
    match p {
        Some(p) => p.clone(),
        None => String::from_str(default),
    }
}

/// Plans the runs for one command. A tool command runs as it is. A compiler
/// command is classified and rewritten; where its effective emit kind asks for
/// it, the IR repair and the web compiler follow.
///
/// Fails when the crate name or the output directory is missing, and when a
/// web emit kind has no known extension.
pub fn plan(cmd: CompileCommand, engine: &BuildEngine) -> (r: Result<Plan, ConfigError>)
    ensures
        cmd.kind == CommandKind::Tool ==> r == Ok::<Plan, ConfigError>(
            (Plan { compile: cmd, repair: None, web: None }),
        ),
        cmd.kind == CommandKind::Compiler ==> {
            let a = cmd.args_view();
            let name = value_of(a, "--crate-name"@);
            let dir = value_of(a, "--out-dir"@);
            &&& (name is None <==> r == Err::<Plan, ConfigError>(ConfigError::MissingCrateName))
            &&& (name is Some && dir is None <==> r == Err::<Plan, ConfigError>(
                ConfigError::MissingOutDir,
            ))
            &&& name is Some && dir is Some ==> {
                let has_target = a.contains("--target"@);
                let tb = has_pair(a, "--crate-type"@, "bin"@) && !is_helper(
                    name->Some_0,
                    has_target,
                    engine.target is Some,
                );
                let emit = effective_emit(tb, *engine);
                let unsupported = emit is Some && is_web(emit->Some_0) && web_extension(
                    emit->Some_0,
                ) is None;
                &&& (unsupported <==> r is Err)
                &&& unsupported ==> r == Err::<Plan, ConfigError>(
                    ConfigError::UnsupportedEmit(engine.emit->Some_0),
                )
                &&& r is Ok ==> plans_compile(r->Ok_0, cmd, *engine, name->Some_0, dir->Some_0)
            }
        },
{
    match cmd.kind {
        CommandKind::Tool => return Ok(Plan { compile: cmd, repair: None, web: None }),
        CommandKind::Compiler => {},
    }
    let c = match classify(&cmd.args, engine) {
        Ok(c) => c,
        Err(e) => return Err(e),
    };
    let target_binary = c.is_binary && !c.is_build_helper;
    let mut web_ext: Option<String> = None;
    if target_binary {
        if let Some(e) = &engine.emit {
            if starts_with(e.as_str(), "em-") {
                match extension_of(e) {
                    Some(x) => web_ext = Some(x),
                    None => return Err(ConfigError::UnsupportedEmit(e.clone())),
                }
            }
        }
    }
    let repair_ir = target_binary && BuildEngine::emit_needs_35(&engine.emit);
    let ir_file = make_path(&c.out_dir, &c.crate_name, "ll");
    let compile = rewrite(cmd, &c, engine);
    let repair = if repair_ir {
        let mut args: Vec<String> = Vec::new();
        args.push(String::from_str("-load=").concat(engine.plugin.as_str()));
        args.push(String::from_str("-remove-assume"));
        args.push(String::from_str("-globaldce"));
        args.push(String::from_str("-S"));
        let optimizer = tool_command(program_of(&engine.opt, "opt"), args);
        assert(optimizer.args_view() =~= optimizer_args(engine.plugin@));
        Some(RepairStep { optimizer, ir_file: ir_file.clone() })
    } else {
        None
    };
    let web = match web_ext {
        Some(x) => {
            let out = make_path(&c.out_dir, &c.crate_name, x.as_str());
            let mut args: Vec<String> = Vec::new();
            args.push(ir_file);
            args.push(String::from_str("-lGL"));
            args.push(String::from_str("-lSDL"));
            args.push(String::from_str("-s"));
            args.push(String::from_str("USE_SDL=2"));
            args.push(String::from_str("-o"));
            args.push(out);
            let w = tool_command(program_of(&engine.emcc, "emcc"), args);
            assert(w.args_view() =~= web_args(
                output_path(c.out_dir@, c.crate_name@, "ll"@),
                output_path(c.out_dir@, c.crate_name@, x@),
            ));
            Some(w)
        },
        None => None,
    };
    Ok(Plan { compile, repair, web })
}

} // verus!
