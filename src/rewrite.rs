use vstd::prelude::*;

use crate::classify::Classification;
use crate::command::{strs, CompileCommand};
use crate::engine::{needs_repair, opt_view, BuildEngine};
use crate::text::{eq_str, starts_with};

verus! {

/// An argument that sets the emit kind (`--emit` or `--emit=...`).
pub open spec fn is_emit_arg(a: Seq<char>) -> bool {
    "--emit"@.is_prefix_of(a)
}

/// The arguments without their emit flags: a bare `--emit` goes with the
/// value after it, `--emit=...` goes alone.
pub open spec fn strip_emit(a: Seq<Seq<char>>) -> Seq<Seq<char>>
    decreases a.len(),
{
    if a.len() == 0 {
        seq![]
    } else if a[0] == "--emit"@ {
        if a.len() >= 2 {
            strip_emit(a.skip(2))
        } else {
            seq![]
        }
    } else if is_emit_arg(a[0]) {
        strip_emit(a.drop_first())
    } else {
        seq![a[0]] + strip_emit(a.drop_first())
    }
}

/// The emit kind the compiler itself is asked for: plain IR text where the
/// repair step makes the compatible variant afterwards.
pub open spec fn compiler_emit(e: Seq<char>) -> Seq<char> {
    if needs_repair(e) {
        "llvm-ir"@
    } else {
        e
    }
}

/// The rewritten argument list. Only a final binary built for the target
/// (`target_binary`) is changed: its emit flags are replaced by the one
/// requested, link-time optimization is added when the IR will be repaired,
/// and the sysroot is appended when one is configured.
pub open spec fn rewritten_args(
    a: Seq<Seq<char>>,
    target_binary: bool,
    emit: Option<Seq<char>>,
    sysroot: Option<Seq<char>>,
) -> Seq<Seq<char>> {
    if !target_binary {
        a
    } else {
        let base = match emit {
            Some(e) => strip_emit(a) + seq!["--emit"@, "dep-info,"@ + compiler_emit(e)] + if needs_repair(e) {
                seq!["-C"@, "lto"@]
            } else {
                seq![]
            },
            None => a,
        };
        match sysroot {
            Some(s) => base + seq!["--sysroot"@, s],
            None => base,
        }
    }
}

/// No two arguments set the emit kind.
pub open spec fn at_most_one_emit(a: Seq<Seq<char>>) -> bool {
    forall|i: int, j: int|
        0 <= i < j < a.len() ==> !(is_emit_arg(#[trigger] a[i]) && is_emit_arg(#[trigger] a[j]))
}

/// No argument sets the emit kind.
pub open spec fn no_emit(a: Seq<Seq<char>>) -> bool {
    forall|i: int| 0 <= i < a.len() ==> !is_emit_arg(#[trigger] a[i])
}

/// After the emit flags are stripped, none is left.
proof fn lemma_strip_leaves_no_emit(a: Seq<Seq<char>>)
    ensures
        no_emit(strip_emit(a)),
    decreases a.len(),
{
    if a.len() > 0 {
        if a[0] == "--emit"@ {
            if a.len() >= 2 {
                lemma_strip_leaves_no_emit(a.skip(2));
            }
        } else {
            lemma_strip_leaves_no_emit(a.drop_first());
        }
    }
}

/// The flags the rewrite may append after the emit pair set no emit kind.
proof fn lemma_appended_flags_not_emit(e: Seq<char>)
    ensures
        !is_emit_arg("dep-info,"@ + e),
        !is_emit_arg("-C"@),
        !is_emit_arg("lto"@),
        !is_emit_arg("--sysroot"@),
        is_emit_arg("--emit"@),
{
    reveal_strlit("--emit");
    reveal_strlit("dep-info,");
    reveal_strlit("-C");
    reveal_strlit("lto");
    reveal_strlit("--sysroot");
    let d = "dep-info,"@ + e;
    assert(d[0] != "--emit"@[0]);
    assert("lto"@[0] != "--emit"@[0]);
    assert("--sysroot"@[2] != "--emit"@[2]);
    assert("--emit"@.subrange(0, 6) =~= "--emit"@);
}

/// A command that does not build an executable comes out of the rewrite
/// argument for argument as it went in, whatever the engine asks for.
pub proof fn lemma_non_binary_untouched(
    a: Seq<Seq<char>>,
    is_binary: bool,
    is_build_helper: bool,
    emit: Option<Seq<char>>,
    sysroot: Option<Seq<char>>,
)
    requires
        !is_binary,
    ensures
        rewritten_args(a, is_binary && !is_build_helper, emit, sysroot) == a,
{
}

/// A build helper gets no sysroot, nor any other flag, even where the engine
/// has a sysroot and a cross-compile target.
pub proof fn lemma_helper_untouched(
    a: Seq<Seq<char>>,
    is_binary: bool,
    is_build_helper: bool,
    emit: Option<Seq<char>>,
    sysroot: Option<Seq<char>>,
)
    requires
        is_build_helper,
    ensures
        rewritten_args(a, is_binary && !is_build_helper, emit, sysroot) == a,
{
}

/// The rewrite never leaves two emit flags: where it sets the emit kind its
/// own flag is the only one, and elsewhere it adds none.
pub proof fn lemma_single_emit(
    a: Seq<Seq<char>>,
    target_binary: bool,
    emit: Option<Seq<char>>,
    sysroot: Option<Seq<char>>,
)
    requires
        (target_binary && emit is Some) || at_most_one_emit(a),
        sysroot is Some ==> !is_emit_arg(sysroot->Some_0),
    ensures
        at_most_one_emit(rewritten_args(a, target_binary, emit, sysroot)),
{
    let out = rewritten_args(a, target_binary, emit, sysroot);
    if target_binary {
        match emit {
            Some(e) => {
                let st = strip_emit(a);
                lemma_strip_leaves_no_emit(a);
                lemma_appended_flags_not_emit(compiler_emit(e));
                assert forall|i: int| 0 <= i < out.len() && i != st.len() implies !is_emit_arg(
                    #[trigger] out[i],
                ) by {
                    if i < st.len() {
                        assert(out[i] == st[i]);
                    }
                }
            },
            None => {
                lemma_appended_flags_not_emit(seq![]);
                assert forall|i: int, j: int| 0 <= i < j < out.len() implies !(is_emit_arg(
                    #[trigger] out[i],
                ) && is_emit_arg(#[trigger] out[j])) by {
                    if j < a.len() {
                        assert(out[i] == a[i] && out[j] == a[j]);
                    }
                }
            },
        }
    }
}

/// The arguments without their emit flags.
fn strip_emit_args(args: &Vec<String>) -> (r: Vec<String>)
    ensures
        strs(r@) == strip_emit(strs(args@)),
{
    let ghost a = strs(args@);
    let mut out: Vec<String> = Vec::new();
    let mut i: usize = 0;
    assert(a.skip(0) =~= a);
    while i < args.len()
        invariant
            a == strs(args@),
            i <= a.len(),
            strs(out@) + strip_emit(a.skip(i as int)) == strip_emit(a),
        decreases a.len() - i,
    {
        let ghost t = a.skip(i as int);
        if eq_str(&args[i], "--emit") {
            if args.len() - i >= 2 {
                assert(t.skip(2) =~= a.skip(i + 2));
                i = i + 2;
            } else {
                assert(a.skip(a.len() as int) =~= Seq::<Seq<char>>::empty());
                i = args.len();
            }
        } else if starts_with(args[i].as_str(), "--emit") {
            assert(t.drop_first() =~= a.skip(i + 1));
            i = i + 1;
        } else {
            let ghost before = out@;
            out.push(args[i].clone());
            assert(strs(out@) =~= strs(before) + seq![a[i as int]]);
            assert(t.drop_first() =~= a.skip(i + 1));
            i = i + 1;
        }
    }
    assert(a.skip(i as int) =~= Seq::<Seq<char>>::empty());
    assert(strs(out@) + Seq::<Seq<char>>::empty() =~= strs(out@));
    out
}

/// Appends one argument.
fn push_arg(args: &mut Vec<String>, s: String)
    ensures
        strs(final(args)@) == strs(old(args)@).push(s@),
{
    args.push(s);
    assert(strs(final(args)@) =~= strs(old(args)@).push(s@));
}

/// A new command for the given invocation: emit, link-time optimization and
/// sysroot flags set as `rewritten_args` says; program, kind, environment and
/// working directory carried over.
pub fn rewrite(cmd: CompileCommand, c: &Classification, engine: &BuildEngine) -> (r: CompileCommand)
    ensures
        r.kind == cmd.kind,
        r.program == cmd.program,
        r.envs == cmd.envs,
        r.cwd == cmd.cwd,
        r.args_view() == rewritten_args(
            cmd.args_view(),
            c.is_binary && !c.is_build_helper,
            opt_view(engine.emit),
            opt_view(engine.sysroot),
        ),
{
    if !c.is_binary || c.is_build_helper {
        return cmd;
    }
    let CompileCommand { kind, program, args, envs, cwd } = cmd;
    let mut new_args = match &engine.emit {
        Some(e) => {
            let mut stripped = strip_emit_args(&args);
            let repair = BuildEngine::emit_needs_35(&engine.emit);
            push_arg(&mut stripped, String::from_str("--emit"));
            let value = if repair {
                String::from_str("dep-info,llvm-ir")
            } else {
                String::from_str("dep-info,").concat(e.as_str())
            };
            proof {
                reveal_strlit("dep-info,llvm-ir");
                reveal_strlit("dep-info,");
                reveal_strlit("llvm-ir");
                assert("dep-info,llvm-ir"@ =~= "dep-info,"@ + "llvm-ir"@);
            }
            push_arg(&mut stripped, value);
            if repair {
                push_arg(&mut stripped, String::from_str("-C"));
                push_arg(&mut stripped, String::from_str("lto"));
            }
            stripped
        },
        None => args,
    };
    match &engine.sysroot {
        Some(s) => {
            push_arg(&mut new_args, String::from_str("--sysroot"));
            push_arg(&mut new_args, s.clone());
        },
        None => {},
    }
    let r = CompileCommand { kind, program, args: new_args, envs, cwd };
    assert(r.args_view() =~= rewritten_args(
        cmd.args_view(),
        c.is_binary && !c.is_build_helper,
        opt_view(engine.emit),
        opt_view(engine.sysroot),
    ));
    r
}

} // verus!
