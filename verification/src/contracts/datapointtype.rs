//! Kinds of metric data points.
use vstd::prelude::*;

verus! {

/// Type of the metric data measurement.
#[derive(Debug, Clone, Copy, PartialEq, Eq, Structural)]
pub enum DataPointType {
    /// A single measurement.
    Measurement,
    /// An aggregation of measurements.
    Aggregation,
}

} // verus!
