//! Configuration resolution for a code-screenshot renderer.
//!
//! Two pieces of logic live here: a parser for the loosely-delimited
//! range expressions that select and highlight source-code line spans,
//! and the layered merge that resolves the effective configuration from
//! a persisted file layer and a command-line layer.

pub mod config;
pub mod error;
pub mod range;
