//! Core logic of the pksc build tool: path confinement, the build graph,
//! hashing and checksums, regular-expression helpers and the tables that
//! bind builtins into the scripting environment.

pub mod text;
pub mod paths;
pub mod utils;
pub mod builtin;
pub mod registry;
pub mod options;
pub mod cli;
pub mod stdlib;
pub mod types;
