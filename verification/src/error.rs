//! Errors reported while parsing range expressions and resolving
//! configuration.

use vstd::prelude::*;

verus! {

/// An error of the configuration core.
#[derive(Clone, Copy, Debug, PartialEq, Eq)]
pub enum CodeScreenshotError {
    /// A range expression held no delimiter character at all. Carries the
    /// field's logical name and the expected shape, for display to the user.
    InvalidFormat(&'static str, &'static str),
    /// The persisted configuration file was present but failed to parse:
    /// a fatal startup error, never silently degraded to command-line-only
    /// behaviour.
    InvalidConfig,
}

} // verus!
