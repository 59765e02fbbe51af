//! Application Insights telemetry: data contracts, telemetry bags, duration
//! formatting and the transmission decisions of the sender, with contracts.
use vstd::prelude::*;

pub mod contracts;
pub mod telemetry;
pub mod time;
pub mod transmitter;
pub mod uuid;

verus! {

} // verus!
