//! The outcome of one submission, as the sender keeps it.
use vstd::prelude::*;

use std::collections::BTreeSet;

use super::{is_retryable_status, STATUS_OK, STATUS_PARTIAL_CONTENT};

verus! {

broadcast use vstd::std_specs::btree::group_btree_axioms;

/// Describes the result of sending telemetry events to the server.
pub struct Transmission {
    status_code: u16,
    retry_after: Option<(i64, u32)>,
    can_retry_item_indices: Option<BTreeSet<usize>>,
    success: bool,
}

/// Body of the server's answer: how many items it received and accepted,
/// and why the others were refused.
pub struct TransmissionResponse {
    /// Number of items the server received.
    pub items_received: u32,
    /// Number of items the server accepted.
    pub items_accepted: u32,
    /// One entry per item that was not accepted.
    pub errors: Vec<TransmissionItem>,
}

/// Why one item of a submission was not accepted.
pub struct TransmissionItem {
    /// Position of the item in the submitted batch.
    pub index: usize,
    /// HTTP status that applies to this item.
    pub status_code: u16,
    /// Explanation given by the server.
    pub message: String,
}

/// Mathematical form of a [`Transmission`].
pub struct TransmissionView {
    /// HTTP status of the answer.
    pub status_code: u16,
    /// When the server allows the next attempt: seconds since the Unix epoch
    /// and nanoseconds past that second.
    pub retry_after: Option<(i64, u32)>,
    /// For a partial success, the positions of the items that may be sent again.
    pub retry_indices: Option<Set<usize>>,
    /// Whether every item was accepted.
    pub success: bool,
}

impl View for Transmission {
    type V = TransmissionView;

    closed spec fn view(&self) -> TransmissionView {
        TransmissionView {
            status_code: self.status_code,
            retry_after: self.retry_after,
            retry_indices: match self.can_retry_item_indices {
                Some(s) => Some(s@),
                None => None,
            },
            success: self.success,
        }
    }
}

/// Positions named by the retryable entries of `errors`.
pub open spec fn retryable_positions(errors: Seq<TransmissionItem>) -> Set<usize> {
    Set::new(
        |i: usize|
            exists|k: int|
                0 <= k < errors.len() && #[trigger] errors[k].index == i && is_retryable_status(
                    errors[k].status_code,
                ),
    )
}

/// Whether an answer with this status and body means that every item was accepted.
pub open spec fn is_success_answer(status_code: u16, response: TransmissionResponse) -> bool {
    status_code == STATUS_OK || (status_code == STATUS_PARTIAL_CONTENT && response.items_received
        == response.items_accepted)
}

impl TransmissionItem {
    /// Whether the item may be sent again under the status the server gave it.
    pub fn can_retry(&self) -> (r: bool)
        ensures
            r == is_retryable_status(self.status_code),
    {
        super::is_retryable(self.status_code)
    }
}

impl Transmission {
    /// Creates a new instance of object that describes the result of sending
    /// telemetry events to the server.
    pub fn new(status_code: u16, retry_after: Option<(i64, u32)>, response: TransmissionResponse) -> (r:
        Self)
        ensures
            r@.status_code == status_code,
            r@.retry_after == retry_after,
            r@.success == is_success_answer(status_code, response),
            r@.retry_indices == if status_code == STATUS_PARTIAL_CONTENT {
                Some(retryable_positions(response.errors@))
            } else {
                None::<Set<usize>>
            },
    {
        let success = status_code == STATUS_OK || (status_code == STATUS_PARTIAL_CONTENT
            && response.items_received == response.items_accepted);
        let can_retry_item_indices = if status_code == STATUS_PARTIAL_CONTENT {
            let ghost errs = response.errors@;
            let mut indices: BTreeSet<usize> = BTreeSet::new();
            let mut i: usize = 0;
            while i < response.errors.len()
                invariant
                    0 <= i <= errs.len(),
                    errs == response.errors@,
                    indices@ == retryable_positions(errs.take(i as int)),
                decreases errs.len() - i,
            {
                let error = &response.errors[i];
                proof {
                    assert(errs.take(i as int + 1).drop_last() =~= errs.take(i as int));
                }
                if error.can_retry() {
                    indices.insert(error.index);
                }
                proof {
                    let before = errs.take(i as int);
                    let after = errs.take(i as int + 1);
                    assert(after[i as int] == errs[i as int]);
                    assert forall|x: usize| indices@.contains(x) == retryable_positions(after).contains(x) by {
                        if retryable_positions(before).contains(x) {
                            let k = choose|k: int|
                                0 <= k < before.len() && #[trigger] before[k].index == x
                                    && is_retryable_status(before[k].status_code);
                            assert(after[k] == before[k]);
                        }
                        if retryable_positions(after).contains(x) {
                            let k = choose|k: int|
                                0 <= k < after.len() && #[trigger] after[k].index == x
                                    && is_retryable_status(after[k].status_code);
                            if k < i {
                                assert(before[k] == after[k]);
                            }
                        }
                    }
                    assert(indices@ =~= retryable_positions(after));
                }
                i += 1;
            }
            proof {
                assert(errs.take(errs.len() as int) =~= errs);
            }
            Some(indices)
        } else {
            None
        };
        Transmission { status_code, retry_after, can_retry_item_indices, success }
    }

    /// Returns true when all telemetry events were accepted; false otherwise.
    pub fn is_success(&self) -> (r: bool)
        ensures
            r == self@.success,
    {
        self.success
    }

    /// Returns true when client should retry an attempt to re-send some
    /// telemetry events back to the server.
    pub fn can_retry(&self) -> (r: bool)
        ensures
            r == retry_allowed(self@),
    {
        if self.is_success() {
            false
        } else {
            super::is_retryable(self.status_code)
        }
    }

    /// Whether the item at `index` of the batch may be sent again: for a
    /// partial success only the items the server marked as retryable, for
    /// any other answer every item.
    pub fn can_retry_item(&self, index: usize) -> (r: bool)
        ensures
            r == match self@.retry_indices {
                Some(s) => s.contains(index),
                None => true,
            },
    {
        match &self.can_retry_item_indices {
            Some(indices) => indices.contains(&index),
            None => true,
        }
    }
}

/// Whether the client should try again after a submission with this outcome.
pub open spec fn retry_allowed(t: TransmissionView) -> bool {
    !t.success && is_retryable_status(t.status_code)
}

/// Law: a submission that succeeded is never retried, and one answered with
/// a status that allows no retry is not retried either.
pub proof fn lemma_success_is_not_retried(t: TransmissionView)
    ensures
        t.success ==> !retry_allowed(t),
        !is_retryable_status(t.status_code) ==> !retry_allowed(t),
{
}

/// Law: the outcome of a submission reports exactly the status and the
/// `Retry-After` time it was made with, and any answer but a partial success
/// lets every item be retried.
pub proof fn lemma_new_keeps_answer(
    status_code: u16,
    retry_after: Option<(i64, u32)>,
    response: TransmissionResponse,
    t: TransmissionView,
)
    requires
        t.status_code == status_code,
        t.retry_after == retry_after,
        t.success == is_success_answer(status_code, response),
        t.retry_indices == if status_code == STATUS_PARTIAL_CONTENT {
            Some(retryable_positions(response.errors@))
        } else {
            None::<Set<usize>>
        },
    ensures
        status_code == STATUS_OK ==> t.success && !retry_allowed(t),
        status_code != STATUS_PARTIAL_CONTENT ==> t.retry_indices is None,
{
}


/// Law: a submission may be tried again exactly when it was not a success
/// and its status is 206, 408, 429, 500 or 503; when the server allows the
/// next attempt plays no part.
pub proof fn lemma_retry_rule(t: TransmissionView)
    ensures
        retry_allowed(t) == (!t.success && (t.status_code == 206 || t.status_code == 408
            || t.status_code == 429 || t.status_code == 500 || t.status_code == 503)),
        retry_allowed(t) == retry_allowed(TransmissionView { retry_after: None, ..t }),
{
}

/// Law: an answer means success exactly for status 200, or for status 206
/// when the server accepted every item it received; so never when it
/// accepted fewer items than it received, and never for another status.
pub proof fn lemma_success_rule(status_code: u16, response: TransmissionResponse)
    ensures
        is_success_answer(status_code, response) == (status_code == 200 || (status_code == 206
            && response.items_received == response.items_accepted)),
        status_code == 206 ==> (is_success_answer(status_code, response)
            <==> response.items_accepted == response.items_received),
        response.items_accepted < response.items_received ==> (is_success_answer(
            status_code,
            response,
        ) <==> status_code == 200),
        status_code != 200 && status_code != 206 ==> !is_success_answer(status_code, response),
{
}

/// Law: after a partial success the positions that may be sent again are
/// exactly the `index` of the error entries whose status is 206, 408, 429,
/// 500 or 503.
pub proof fn lemma_retryable_positions_rule(errors: Seq<TransmissionItem>, i: usize)
    ensures
        retryable_positions(errors).contains(i) <==> exists|k: int|
            0 <= k < errors.len() && (#[trigger] errors[k]).index == i && (errors[k].status_code
                == 206 || errors[k].status_code == 408 || errors[k].status_code == 429
                || errors[k].status_code == 500 || errors[k].status_code == 503),
{
}

} // verus!
