use vstd::prelude::*;

verus! {

/// Whether a command runs the compiler or some other tool.
#[derive(Clone, Copy, Debug, PartialEq, Eq, Structural)]
pub enum CommandKind {
    Compiler,
    Tool,
}

/// One ready-to-run command: program, ordered arguments, environment
/// overrides (`None` inherits the variable) and working directory.
#[derive(Clone, Debug)]
pub struct CompileCommand {
    pub kind: CommandKind,
    pub program: String,
    pub args: Vec<String>,
    pub envs: Vec<(String, Option<String>)>,
    pub cwd: Option<String>,
}

/// The chars of each string, in order.
pub open spec fn strs(v: Seq<String>) -> Seq<Seq<char>> {
    v.map_values(|s: String| s@)
}

impl CompileCommand {
    /// The arguments as char sequences.
    pub open spec fn args_view(&self) -> Seq<Seq<char>> {
        strs(self.args@)
    }

    /// A command of the given kind with no arguments, no environment
    /// overrides and the inherited working directory.
    pub fn new(kind: CommandKind, program: String) -> (r: CompileCommand)
        ensures
            r.kind == kind,
            r.program == program,
            r.args@.len() == 0,
            r.envs@.len() == 0,
            r.cwd is None,
    {
        CompileCommand { kind, program, args: Vec::new(), envs: Vec::new(), cwd: None }
    }
}

} // verus!
