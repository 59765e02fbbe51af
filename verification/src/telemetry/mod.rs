//! Telemetry items and the bags of properties and tags they carry.
use vstd::prelude::*;

pub mod properties;
pub mod severity;
pub mod string_map;
pub mod tags;

pub use properties::Properties;
pub use severity::SeverityLevel;
pub use tags::ContextTags;

verus! {

} // verus!
