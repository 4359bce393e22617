//! The manifest of a plugin: its grammar, its validation, and the calls of
//! the host's setter that it stands for.

pub mod codegen;
pub mod error;
pub mod grammar;
pub mod info;
pub mod laws;
pub mod module;
pub mod parse;
pub mod parse_module;
pub mod token;
