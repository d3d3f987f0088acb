//! Logging severity levels and configuration errors.

use vstd::prelude::*;
use vstd::string::StringExecFns;

verus! {

/// Severity attached to every emitted log event.
///
/// The level is chosen at construction and never changes afterwards.
#[derive(Clone, Copy, Debug, PartialEq, Eq, Structural)]
pub enum Level {
    Trace,
    Debug,
    Info,
    Warn,
    Error,
}

/// An error reported at construction time.
#[derive(Clone, Copy, Debug, PartialEq, Eq, Structural)]
pub enum ConfigError {
    /// The snapshot interval was not strictly positive.
    NonPositiveInterval,
}

impl ConfigError {
    /// A human-readable description of the error.
    pub fn message(&self) -> (m: String)
        ensures
            m@ == "the snapshot interval must be strictly positive"@,
    {
        String::from_str("the snapshot interval must be strictly positive")
    }
}

} // verus!
