//! Data struct to contain both B and C sections.
use vstd::prelude::*;

use super::stackframe::clone_opt_string;

verus! {

/// Data struct to contain both B and C sections.
#[derive(Debug)]
pub struct Data<TDomain> {
    /// Name of item (B section) if any. If telemetry data is derived straight from this, this should be null.
    pub base_type: Option<String>,
    /// Container for data item (B section).
    pub base_data: TDomain,
}

/// Creates: Data struct to contain both B and C sections.
#[derive(Debug)]
pub struct DataBuilder<TDomain> {
    /// Name of item (B section) if any.
    pub base_type: Option<String>,
    /// Container for data item (B section).
    pub base_data: TDomain,
}

/// Data struct to contain only C section with custom fields.
#[derive(Debug)]
pub enum Base<TDomain> {
    /// The data section.
    Data(Data<TDomain>),
}

impl<TDomain: Clone> Clone for Data<TDomain> {
    /// A copy of the data; the data item is what its `clone` gives.
    fn clone(&self) -> (r: Self)
        ensures
            r.base_type == self.base_type,
            cloned(self.base_data, r.base_data),
    {
        Data { base_type: clone_opt_string(&self.base_type), base_data: self.base_data.clone() }
    }
}

impl<TDomain: Clone> Clone for DataBuilder<TDomain> {
    /// A copy of the builder; the data item is what its `clone` gives.
    fn clone(&self) -> (r: Self)
        ensures
            r.base_type == self.base_type,
            cloned(self.base_data, r.base_data),
    {
        DataBuilder { base_type: clone_opt_string(&self.base_type), base_data: self.base_data.clone() }
    }
}

impl<TDomain: Clone> Clone for Base<TDomain> {
    /// A copy of the section; the data item is what its `clone` gives.
    fn clone(&self) -> (r: Self)
        ensures
            match (self, r) {
                (Base::Data(a), Base::Data(b)) => a.base_type == b.base_type && cloned(
                    a.base_data,
                    b.base_data,
                ),
            },
    {
        match self {
            Base::Data(d) => Base::Data(d.clone()),
        }
    }
}

impl<TDomain: Clone> DataBuilder<TDomain> {
    /// Creates a new [DataBuilder] instance with default values set by the schema.
    pub fn new(base_data: TDomain) -> (r: Self)
        ensures
            r == (DataBuilder { base_type: None, base_data }),
    {
        Self { base_type: None, base_data }
    }

    /// Sets: Name of item (B section) if any. If telemetry data is derived straight from this, this should be null.
    pub fn base_type(&mut self, base_type: Option<String>) -> (r: &mut Self)
        ensures
            *r == (DataBuilder { base_type, ..*old(self) }),
            *final(self) == *final(r),
    {
        self.base_type = base_type;
        self
    }

    /// Creates a new [Data] instance with values from [DataBuilder]; the data
    /// item is what its `clone` gives.
    pub fn build(&self) -> (r: Data<TDomain>)
        ensures
            r.base_type == self.base_type,
            cloned(self.base_data, r.base_data),
    {
        Data { base_type: clone_opt_string(&self.base_type), base_data: self.base_data.clone() }
    }
}

} // verus!
