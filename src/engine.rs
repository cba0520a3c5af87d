use vstd::prelude::*;

use crate::text::starts_with;

verus! {

/// The adapter's fixed configuration, built once per run and only read after.
pub struct BuildEngine {
    /// Cross-compile target triple, if any.
    pub target: Option<String>,
    /// Sysroot handed to the compiler for final target binaries.
    pub sysroot: Option<String>,
    /// The web compiler; `emcc` when absent.
    pub emcc: Option<String>,
    /// The IR optimizer; `opt` when absent.
    pub opt: Option<String>,
    /// The requested emit kind (`link`, `llvm-ir`, `llvm-bc`, `llvm35-ir`, `em-html`, `em-js`).
    pub emit: Option<String>,
    /// Path of the optimizer plugin that provides the assume-removal pass.
    pub plugin: String,
}

/// Emit kinds that ask for the version-compatibility repair of the IR.
pub open spec fn needs_repair(e: Seq<char>) -> bool {
    "llvm35-"@.is_prefix_of(e) || "em-"@.is_prefix_of(e)
}

/// Emit kinds whose artifact comes from the web compiler.
pub open spec fn is_web(e: Seq<char>) -> bool {
    "em-"@.is_prefix_of(e)
}

/// The optional emit kind asks for the repair step.
pub open spec fn opt_needs_repair(emit: Option<Seq<char>>) -> bool {
    match emit {
        Some(e) => needs_repair(e),
        None => false,
    }
}

/// The view of an optional string.
pub open spec fn opt_view(o: Option<String>) -> Option<Seq<char>> {
    match o {
        Some(s) => Some(s@),
        None => None,
    }
}

impl BuildEngine {
    /// Whether the emit kind asks for IR repaired for the older toolchain.
    pub fn emit_needs_35(emit: &Option<String>) -> (r: bool)
        ensures
            r == opt_needs_repair(opt_view(*emit)),
    {
        match emit {
            Some(e) => starts_with(e.as_str(), "llvm35-") || starts_with(e.as_str(), "em-"),
            None => false,
        }
    }
}

} // verus!
