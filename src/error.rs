use vstd::prelude::*;

verus! {

/// A malformed command or configuration; fatal for the compile unit.
#[derive(Clone, Debug, PartialEq, Eq)]
pub enum ConfigError {
    /// The compiler invocation has no `--crate-name` value.
    MissingCrateName,
    /// The compiler invocation has no `--out-dir` value.
    MissingOutDir,
    /// A web emit kind with no known artifact extension.
    UnsupportedEmit(String),
}

impl ConfigError {
    /// A one-line description of the error.
    pub fn message(&self) -> (r: String)
        ensures
            r@ == match self {
                ConfigError::MissingCrateName => "missing --crate-name argument"@,
                ConfigError::MissingOutDir => "missing --out-dir argument"@,
                ConfigError::UnsupportedEmit(e) => "unsupported web emit kind: "@ + e@,
            },
    {
        match self {
            ConfigError::MissingCrateName => String::from_str("missing --crate-name argument"),
            ConfigError::MissingOutDir => String::from_str("missing --out-dir argument"),
            ConfigError::UnsupportedEmit(e) => String::from_str("unsupported web emit kind: ").concat(
                e.as_str(),
            ),
        }
    }
}

} // verus!
