//! Severity levels of trace telemetry.
use vstd::prelude::*;

use crate::contracts::SeverityLevel as ContractsSeverityLevel;

verus! {

/// Defines the level of severity for the event.
#[derive(Debug, Clone, Copy, PartialEq, Eq, Structural)]
pub enum SeverityLevel {
    /// Verbose severity level.
    Verbose,
    /// Information severity level.
    Information,
    /// Warning severity level.
    Warning,
    /// Error severity level.
    Error,
    /// Critical severity level.
    Critical,
}

/// The schema's level for a telemetry severity level: the one of the same name.
pub open spec fn contract_level(severity: SeverityLevel) -> ContractsSeverityLevel {
    match severity {
        SeverityLevel::Verbose => ContractsSeverityLevel::Verbose,
        SeverityLevel::Information => ContractsSeverityLevel::Information,
        SeverityLevel::Warning => ContractsSeverityLevel::Warning,
        SeverityLevel::Error => ContractsSeverityLevel::Error,
        SeverityLevel::Critical => ContractsSeverityLevel::Critical,
    }
}

impl From<SeverityLevel> for ContractsSeverityLevel {
    fn from(severity: SeverityLevel) -> (r: Self) {
        match severity {
            SeverityLevel::Verbose => ContractsSeverityLevel::Verbose,
            SeverityLevel::Information => ContractsSeverityLevel::Information,
            SeverityLevel::Warning => ContractsSeverityLevel::Warning,
            SeverityLevel::Error => ContractsSeverityLevel::Error,
            SeverityLevel::Critical => ContractsSeverityLevel::Critical,
        }
    }
}

impl vstd::std_specs::convert::FromSpecImpl<SeverityLevel> for ContractsSeverityLevel {
    open spec fn obeys_from_spec() -> bool {
        true
    }

    open spec fn from_spec(v: SeverityLevel) -> ContractsSeverityLevel {
        contract_level(v)
    }
}

/// Law: distinct telemetry levels map to distinct schema levels, and every
/// schema level is reached.
pub proof fn lemma_contract_level_bijective(a: SeverityLevel, b: SeverityLevel, c: ContractsSeverityLevel)
    ensures
        contract_level(a) == contract_level(b) ==> a == b,
        exists|s: SeverityLevel| contract_level(s) == c,
{
    match c {
        ContractsSeverityLevel::Verbose => assert(contract_level(SeverityLevel::Verbose) == c),
        ContractsSeverityLevel::Information => assert(contract_level(SeverityLevel::Information) == c),
        ContractsSeverityLevel::Warning => assert(contract_level(SeverityLevel::Warning) == c),
        ContractsSeverityLevel::Error => assert(contract_level(SeverityLevel::Error) == c),
        ContractsSeverityLevel::Critical => assert(contract_level(SeverityLevel::Critical) == c),
    }
}

} // verus!
