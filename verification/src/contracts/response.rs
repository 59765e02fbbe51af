//! Shape of the body the ingestion endpoint answers with.
use vstd::prelude::*;

verus! {

/// Summary of a submission as reported by the server.
pub struct Transmission {
    /// Number of items the server received.
    pub items_received: usize,
    /// Number of items the server accepted.
    pub items_accepted: usize,
    /// One entry per item that was not accepted.
    pub errors: Vec<TransmissionItem>,
}

/// Status of one item of a submission that the server did not accept.
pub struct TransmissionItem {
    /// Position of the item in the submitted batch.
    pub index: usize,
    /// HTTP status that applies to this item.
    pub status_code: u16,
    /// Explanation given by the server.
    pub message: String,
}

} // verus!
