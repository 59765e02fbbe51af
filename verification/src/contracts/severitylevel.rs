//! Severity levels of the schema.
use vstd::prelude::*;

verus! {

/// Defines the level of severity for the event.
#[derive(Debug, Clone, Copy, PartialEq, Eq, Structural)]
pub enum SeverityLevel {
    /// Verbose severity level.
    Verbose,
    /// Information severity level.
    Information,
    /// Warning severity level.
    Warning,
    /// Error severity level.
    Error,
    /// Critical severity level.
    Critical,
}

} // verus!
