//! Safe building blocks for plugins of a C media-framework host.
//!
//! A plugin describes itself with a *manifest*: its identity, the capability
//! it implements, its configuration parameters and its entry points.  The
//! host reads the manifest through one setter callback that takes an
//! operation code and arguments.  This crate holds the rules of that
//! protocol, the grammar and the validation of manifests, the sequence of
//! setter calls that a manifest stands for, and the conversion of the host's
//! trace records into measurement points.

pub mod convert;
pub mod macros;
pub mod messages;
pub mod object;
pub mod plugin;
pub mod sys_generator;
pub mod telegraf_rs;
pub mod text;
pub mod tracer;
