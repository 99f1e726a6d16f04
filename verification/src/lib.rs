//! Module-specifier resolution and rewriting for a module-serving pipeline.
//!
//! The crate walks a parsed module tree, replaces every eligible import or
//! export specifier with the URL an import table resolves it to, records each
//! resolved specifier as a dependency, selects which transform stages a module
//! must run, and prunes dependencies that no longer occur in the emitted code.

pub mod ast;
pub mod laws;
pub mod pipeline;
pub mod prune;
pub mod resolve_fold;
pub mod resolver;
pub mod text;
