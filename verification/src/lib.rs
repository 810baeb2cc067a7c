//! Command dispatch and build orchestration for a build tool's command line.
//!
//! The crate turns raw process arguments into a validated command value,
//! assembles the immutable compiler configuration each command implies, and
//! sequences dependency resolution, compilation and the follow-up action with
//! a fail-fast pipeline. The collaborators that do the heavy lifting
//! (dependency resolver, compiler, entry-point runner) live outside this
//! crate; this crate decides what to call and in which order.

pub mod args;
pub mod command;
pub mod dispatch;
pub mod error;
pub mod options;
pub mod parser;
pub mod paths;
pub mod pipeline;
pub mod platform;
pub mod strutil;
