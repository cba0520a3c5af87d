//! Adapter between a build orchestrator and the compiler: decides which
//! compile invocations to rewrite so that they produce IR, repairs that IR's
//! metadata syntax for an older consumer, and plans the follow-up tool runs.

pub mod classify;
pub mod command;
pub mod engine;
pub mod error;
pub mod ir;
pub mod plan;
pub mod rewrite;
mod text;

pub use classify::{classify, Classification, BUILD_HELPER_NAME};
pub use command::{CommandKind, CompileCommand};
pub use engine::BuildEngine;
pub use error::ConfigError;
pub use plan::{plan, Plan, RepairStep};
pub use rewrite::rewrite;
pub use ir::{repair_line, repair_lines, KEYWORD_OFFSET, METADATA_KEYWORD};
