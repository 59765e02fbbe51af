//! The abstract common base of all domains.
use vstd::prelude::*;

verus! {

/// The abstract common base of all domains.
#[derive(Debug, Clone, Copy, PartialEq, Eq, Structural)]
pub struct Domain;

/// Creates: The abstract common base of all domains.
#[derive(Debug, Clone, Copy)]
pub struct DomainBuilder;

impl DomainBuilder {
    /// Creates a new [DomainBuilder] instance with default values set by the schema.
    pub fn new() -> (r: Self)
        ensures
            r == DomainBuilder,
    {
        Self {  }
    }

    /// Creates a new [Domain] instance with values from [DomainBuilder].
    pub fn build(&self) -> (r: Domain)
        ensures
            r == Domain,
    {
        Domain {  }
    }
}

} // verus!
