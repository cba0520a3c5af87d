use vstd::prelude::*;

use crate::command::strs;
use crate::engine::BuildEngine;
use crate::error::ConfigError;
use crate::text::eq_str;

verus! {

/// The crate name the orchestrator gives its own build-time helper programs.
pub const BUILD_HELPER_NAME: &'static str = "build-script-build";

/// What the classifier learns of one compiler invocation.
#[derive(Clone, Debug)]
pub struct Classification {
    /// The invocation produces an executable.
    pub is_binary: bool,
    /// The invocation builds a program that runs on the build host.
    pub is_build_helper: bool,
    pub crate_name: String,
    pub out_dir: String,
    /// A `--target` flag is present.
    pub has_target: bool,
}

/// Some adjacent pair of arguments is `flag` followed by `value`.
pub open spec fn has_pair(a: Seq<Seq<char>>, flag: Seq<char>, value: Seq<char>) -> bool {
    exists|i: int| 0 <= i && i + 1 < a.len() && #[trigger] a[i] == flag && a[i + 1] == value
}

/// The argument after the first `flag` that has one after it.
pub open spec fn value_of(a: Seq<Seq<char>>, flag: Seq<char>) -> Option<Seq<char>>
    decreases a.len(),
{
    if a.len() < 2 {
        None
    } else if a[0] == flag {
        Some(a[1])
    } else {
        value_of(a.drop_first(), flag)
    }
}

/// The helper rule: the reserved name, or no explicit target while the
/// engine cross-compiles (then the program is meant for the build host).
pub open spec fn is_helper(name: Seq<char>, has_target: bool, cross: bool) -> bool {
    name == "build-script-build"@ || (!has_target && cross)
}

/// Whether some adjacent pair is `flag`, `value`.
fn find_pair(args: &Vec<String>, flag: &str, value: &str) -> (r: bool)
    ensures
        r == has_pair(strs(args@), flag@, value@),
{
    let ghost a = strs(args@);
    let mut i: usize = 0;
    while args.len() - i >= 2
        invariant
            a == strs(args@),
            i <= args@.len(),
            forall|j: int| 0 <= j < i && j + 1 < a.len() ==> !(#[trigger] a[j] == flag@ && a[j + 1] == value@),
        decreases args.len() - i,
    {
        if eq_str(&args[i], flag) && eq_str(&args[i + 1], value) {
            assert(a[i as int] == flag@ && a[i + 1] == value@);
            return true;
        }
        i = i + 1;
    }
    false
}

/// The argument after the first `flag` that has one after it.
fn find_value(args: &Vec<String>, flag: &str) -> (r: Option<String>)
    ensures
        opt_string_view(r) == value_of(strs(args@), flag@),
{
    let ghost a = strs(args@);
    let mut i: usize = 0;
    assert(a.skip(0) =~= a);
    while args.len() - i >= 2
        invariant
            a == strs(args@),
            i <= args@.len(),
            value_of(a, flag@) == value_of(a.skip(i as int), flag@),
        decreases args.len() - i,
    {
        assert(a.skip(i as int).drop_first() =~= a.skip(i + 1));
        if eq_str(&args[i], flag) {
            return Some(args[i + 1].clone());
        }
        i = i + 1;
    }
    None
}

/// The view of an optional string.
pub open spec fn opt_string_view(o: Option<String>) -> Option<Seq<char>> {
    match o {
        Some(s) => Some(s@),
        None => None,
    }
}

/// Whether any argument equals `flag`.
fn find_flag(args: &Vec<String>, flag: &str) -> (r: bool)
    ensures
        r == strs(args@).contains(flag@),
{
    let ghost a = strs(args@);
    let mut i: usize = 0;
    while i < args.len()
        invariant
            a == strs(args@),
            forall|j: int| 0 <= j < i ==> a[j] != flag@,
        decreases args.len() - i,
    {
        if eq_str(&args[i], flag) {
            assert(a[i as int] == flag@);
            return true;
        }
        i = i + 1;
    }
    false
}

/// Classifies a compiler invocation by its arguments.
///
/// Fails when the crate name or the output directory is missing, in that
/// order.
pub fn classify(args: &Vec<String>, engine: &BuildEngine) -> (r: Result<Classification, ConfigError>)
    ensures
        value_of(strs(args@), "--crate-name"@) is None <==> r == Err::<Classification, ConfigError>(
            ConfigError::MissingCrateName,
        ),
        value_of(strs(args@), "--crate-name"@) is Some && value_of(strs(args@), "--out-dir"@) is None
            <==> r == Err::<Classification, ConfigError>(ConfigError::MissingOutDir),
        value_of(strs(args@), "--crate-name"@) is Some && value_of(strs(args@), "--out-dir"@) is Some
            <==> r is Ok,
        r is Ok ==> {
            let c = r->Ok_0;
            let a = strs(args@);
            &&& Some(c.crate_name@) == value_of(a, "--crate-name"@)
            &&& Some(c.out_dir@) == value_of(a, "--out-dir"@)
            &&& c.is_binary == has_pair(a, "--crate-type"@, "bin"@)
            &&& c.has_target == a.contains("--target"@)
            &&& c.is_build_helper == is_helper(c.crate_name@, c.has_target, engine.target is Some)
        },
{
    let is_binary = find_pair(args, "--crate-type", "bin");
    let crate_name = match find_value(args, "--crate-name") {
        Some(n) => n,
        None => return Err(ConfigError::MissingCrateName),
    };
    let out_dir = match find_value(args, "--out-dir") {
        Some(d) => d,
        None => return Err(ConfigError::MissingOutDir),
    };
    let has_target = find_flag(args, "--target");
    let is_build_helper = eq_str(&crate_name, BUILD_HELPER_NAME) || (!has_target
        && engine.target.is_some());
    Ok(Classification { is_binary, is_build_helper, crate_name, out_dir, has_target })
}

} // verus!
