//! The builtins that build scripts call, one module per group.

pub mod graph;
pub mod crypto;
pub mod path;
pub mod regex;
pub mod compress;
pub mod corelib;
pub mod curl;
pub mod glob;
pub mod harden;
pub mod native;
pub mod serializer;
pub mod shell;
