//! Build-time pipeline that turns a grammar into a linkable native library.
//!
//! The library decides everything the pipeline does: the generator's command
//! line, how a finished run is judged, how a directory tree is walked, how
//! generated files are classified, and what is compiled, linked and bound.
//! Running processes and touching the filesystem is left to the caller.

pub mod classify;
pub mod walk;
pub mod request;
pub mod runtime;
pub mod artifacts;

pub use classify::{FileKind, classify};
pub use walk::{Entry, Walk, WalkStep};
pub use request::{Builder, GenerateFailure, RunOutput, rerun_if_changed};
pub use runtime::{LinkMode, ANTLR_VERSION, antlr_include_dirs, antlr_jar_path, link_antlr4_runtime};
pub use artifacts::{Generated, BuildPlan, BindingJob};
