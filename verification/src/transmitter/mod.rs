//! What the sender does with the server's answer to a submission: which
//! items to send again, and whether to wait before doing so.
use vstd::prelude::*;

use vstd::multiset::Multiset;

use crate::contracts::{Transmission, TransmissionItem};

pub mod transmission;

verus! {

/// HTTP status: the request was accepted in full.
pub const STATUS_OK: u16 = 200;
/// HTTP status: some items were accepted.
pub const STATUS_PARTIAL_CONTENT: u16 = 206;
/// HTTP status: the server timed out waiting for the request.
pub const STATUS_REQUEST_TIMEOUT: u16 = 408;
/// HTTP status: the client is throttled.
pub const STATUS_TOO_MANY_REQUESTS: u16 = 429;
/// HTTP status: the server failed.
pub const STATUS_INTERNAL_SERVER_ERROR: u16 = 500;
/// HTTP status: the server is not available.
pub const STATUS_SERVICE_UNAVAILABLE: u16 = 503;

/// Status codes under which an item may be sent again.
pub open spec fn is_retryable_status(code: u16) -> bool {
    code == STATUS_PARTIAL_CONTENT || code == STATUS_REQUEST_TIMEOUT
        || code == STATUS_INTERNAL_SERVER_ERROR || code == STATUS_SERVICE_UNAVAILABLE
        || code == STATUS_TOO_MANY_REQUESTS
}

/// Whether an item with this status code may be sent again.
pub fn is_retryable(code: u16) -> (r: bool)
    ensures
        r == is_retryable_status(code),
{
    code == STATUS_PARTIAL_CONTENT || code == STATUS_REQUEST_TIMEOUT
        || code == STATUS_INTERNAL_SERVER_ERROR || code == STATUS_SERVICE_UNAVAILABLE
        || code == STATUS_TOO_MANY_REQUESTS
}

/// Determines whether a telemetry item can be re-sent under the status the
/// server reported for it.
pub fn can_retry_item(item: &TransmissionItem) -> (r: bool)
    ensures
        r == is_retryable_status(item.status_code),
{
    item.status_code == STATUS_PARTIAL_CONTENT || item.status_code == STATUS_REQUEST_TIMEOUT
        || item.status_code == STATUS_INTERNAL_SERVER_ERROR
        || item.status_code == STATUS_SERVICE_UNAVAILABLE
        || item.status_code == STATUS_TOO_MANY_REQUESTS
}

/// Positions of the items that may be re-sent, in the order the server
/// listed them.
pub open spec fn retry_indices(errors: Seq<TransmissionItem>) -> Seq<usize>
    decreases errors.len(),
{
    if errors.len() == 0 {
        Seq::empty()
    } else {
        let rest = retry_indices(errors.drop_last());
        if is_retryable_status(errors.last().status_code) {
            rest.push(errors.last().index)
        } else {
            rest
        }
    }
}

/// The `k`-th removal takes position `idxs[k] - k` of what is left, which
/// exists exactly when `k <= idxs[k] < len`.
pub open spec fn removals_in_bounds(len: nat, idxs: Seq<usize>) -> bool {
    forall|k: int| 0 <= k < idxs.len() ==> k <= #[trigger] idxs[k] < len
}

/// Removes, in turn, the item at `idxs[k] - k` from what is left, where `k`
/// counts the items removed so far. Gives the removed items in the order of
/// removal, and what is left.
pub open spec fn remove_in_turn<T>(items: Seq<T>, idxs: Seq<usize>) -> (Seq<T>, Seq<T>)
    decreases idxs.len(),
{
    if idxs.len() == 0 {
        (Seq::empty(), items)
    } else {
        let prev = remove_in_turn(items, idxs.drop_last());
        let j = idxs.last() - (idxs.len() - 1);
        (prev.0.push(prev.1[j]), prev.1.remove(j))
    }
}

/// Items that are kept for another attempt after the server answered `content`.
pub open spec fn retained<T>(items: Seq<T>, content: Transmission) -> Seq<T> {
    remove_in_turn(items, retry_indices(content.errors@)).0
}

/// Whether the items named for a retry by `content` can be taken out of a
/// batch of `len` items.
pub open spec fn retain_fits(len: nat, content: Transmission) -> bool {
    removals_in_bounds(len, retry_indices(content.errors@))
}

proof fn lemma_in_bounds_prefix(len: nat, idxs: Seq<usize>)
    requires
        idxs.len() > 0,
        removals_in_bounds(len, idxs),
    ensures
        removals_in_bounds(len, idxs.drop_last()),
{
    assert forall|k: int| 0 <= k < idxs.drop_last().len() implies k <= #[trigger] idxs.drop_last()[k]
        < len by {
        assert(idxs.drop_last()[k] == idxs[k]);
    }
}

proof fn lemma_remove_in_turn_len<T>(items: Seq<T>, idxs: Seq<usize>)
    requires
        removals_in_bounds(items.len(), idxs),
    ensures
        idxs.len() <= items.len(),
        remove_in_turn(items, idxs).0.len() == idxs.len(),
        remove_in_turn(items, idxs).1.len() == items.len() - idxs.len(),
    decreases idxs.len(),
{
    if idxs.len() > 0 {
        lemma_in_bounds_prefix(items.len(), idxs);
        lemma_remove_in_turn_len(items, idxs.drop_last());
        assert(idxs.len() - 1 <= idxs[idxs.len() - 1] < items.len());
    }
}

proof fn lemma_retry_indices_prefix(errors: Seq<TransmissionItem>, i: int, j: int)
    requires
        0 <= i <= j <= errors.len(),
    ensures
        retry_indices(errors.take(i)).len() <= retry_indices(errors.take(j)).len(),
        forall|k: int|
            0 <= k < retry_indices(errors.take(i)).len() ==> retry_indices(errors.take(i))[k]
                == #[trigger] retry_indices(errors.take(j))[k],
    decreases j - i,
{
    if i < j {
        lemma_retry_indices_prefix(errors, i, j - 1);
        assert(errors.take(j).drop_last() =~= errors.take(j - 1));
    }
}

/// Replaces `items` with those the server allows to send again: for each
/// retryable entry of `content.errors`, in order, the item it names is taken
/// out of the batch, and the items taken out form the new batch.
pub fn retain_retry_items<T>(items: &mut Vec<T>, content: Transmission)
    requires
        retain_fits(old(items)@.len(), content),
    ensures
        final(items)@ == retained(old(items)@, content),
{
    let ghost orig = items@;
    let ghost errs = content.errors@;
    let mut retry_items: Vec<T> = Vec::new();
    let mut i: usize = 0;
    proof {
        assert(errs.take(0) =~= Seq::<TransmissionItem>::empty());
    }
    while i < content.errors.len()
        invariant
            0 <= i <= errs.len(),
            errs == content.errors@,
            removals_in_bounds(orig.len(), retry_indices(errs)),
            retry_items@ == remove_in_turn(orig, retry_indices(errs.take(i as int))).0,
            items@ == remove_in_turn(orig, retry_indices(errs.take(i as int))).1,
        decreases errs.len() - i,
    {
        let ghost before = retry_indices(errs.take(i as int));
        proof {
            assert(errs.take(errs.len() as int) =~= errs);
            lemma_retry_indices_prefix(errs, i as int, errs.len() as int);
            lemma_retry_indices_prefix(errs, i as int + 1, errs.len() as int);
            assert(errs.take(i as int + 1).drop_last() =~= errs.take(i as int));
            assert(errs.take(i as int + 1).last() == errs[i as int]);
            let after = retry_indices(errs.take(i as int + 1));
            assert(removals_in_bounds(orig.len(), before)) by {
                assert forall|k: int| 0 <= k < before.len() implies k <= #[trigger] before[k]
                    < orig.len() by {
                    assert(before[k] == retry_indices(errs)[k]);
                }
            }
            assert(removals_in_bounds(orig.len(), after)) by {
                assert forall|k: int| 0 <= k < after.len() implies k <= #[trigger] after[k]
                    < orig.len() by {
                    assert(after[k] == retry_indices(errs)[k]);
                }
            }
            lemma_remove_in_turn_len(orig, before);
            lemma_remove_in_turn_len(orig, after);
        }
        let error = &content.errors[i];
        if can_retry_item(error) {
            proof {
                let after = retry_indices(errs.take(i as int + 1));
                assert(after.drop_last() =~= before);
                assert(after.last() == error.index);
                assert(after.len() - 1 <= after[after.len() - 1]);
            }
            let j = error.index - retry_items.len();
            let item = items.remove(j);
            retry_items.push(item);
        }
        i += 1;
    }
    proof {
        assert(errs.take(errs.len() as int) =~= errs);
    }
    *items = retry_items;
}

/// Law: the removals neither lose nor duplicate items: what is taken and
/// what is left together are the batch.
pub proof fn lemma_removals_conserve_items<T>(items: Seq<T>, idxs: Seq<usize>)
    requires
        removals_in_bounds(items.len(), idxs),
    ensures
        remove_in_turn(items, idxs).0.to_multiset().add(remove_in_turn(items, idxs).1.to_multiset())
            == items.to_multiset(),
    decreases idxs.len(),
{
    broadcast use vstd::seq_lib::group_to_multiset_ensures;

    if idxs.len() == 0 {
        assert(Seq::<T>::empty().to_multiset() =~= Multiset::<T>::empty());
        assert(Multiset::<T>::empty().add(items.to_multiset()) =~= items.to_multiset());
    } else {
        lemma_in_bounds_prefix(items.len(), idxs);
        lemma_remove_in_turn_len(items, idxs.drop_last());
        lemma_removals_conserve_items(items, idxs.drop_last());
        let prev = remove_in_turn(items, idxs.drop_last());
        let j = idxs.last() - (idxs.len() - 1);
        assert(idxs.len() - 1 <= idxs[idxs.len() - 1] < items.len());
        let x = prev.1[j];
        assert(prev.0.push(x).to_multiset() =~= prev.0.to_multiset().insert(x));
        assert(prev.1.remove(j).to_multiset() =~= prev.1.to_multiset().remove(x));
        assert(prev.1.to_multiset().count(x) > 0) by {
            assert(prev.1.contains(x));
        }
        assert(prev.0.to_multiset().insert(x).add(prev.1.to_multiset().remove(x))
            =~= prev.0.to_multiset().add(prev.1.to_multiset()));
    }
}

/// Law: when the retryable positions are strictly increasing and inside the
/// batch, the removals take exactly the items at those positions, in order.
pub proof fn lemma_increasing_removals_select<T>(items: Seq<T>, idxs: Seq<usize>)
    requires
        forall|a: int, b: int| 0 <= a < b < idxs.len() ==> idxs[a] < idxs[b],
        forall|k: int| 0 <= k < idxs.len() ==> #[trigger] idxs[k] < items.len(),
    ensures
        removals_in_bounds(items.len(), idxs),
        remove_in_turn(items, idxs).0 == idxs.map_values(|i: usize| items[i as int]),
{
    lemma_increasing_removals(items, idxs);
}

proof fn lemma_increasing_removals<T>(items: Seq<T>, idxs: Seq<usize>)
    requires
        forall|a: int, b: int| 0 <= a < b < idxs.len() ==> idxs[a] < idxs[b],
        forall|k: int| 0 <= k < idxs.len() ==> #[trigger] idxs[k] < items.len(),
    ensures
        removals_in_bounds(items.len(), idxs),
        remove_in_turn(items, idxs).0 =~= idxs.map_values(|i: usize| items[i as int]),
        remove_in_turn(items, idxs).1.len() == items.len() - idxs.len(),
        forall|p: int|
            (idxs.len() == 0 || idxs.last() < p) && p < items.len() ==> remove_in_turn(
                items,
                idxs,
            ).1[p - idxs.len()] == items[p],
    decreases idxs.len(),
{
    if idxs.len() > 0 {
        let n = idxs.len();
        let init = idxs.drop_last();
        let last = idxs.last();
        assert forall|a: int, b: int| 0 <= a < b < init.len() implies init[a] < init[b] by {
            assert(init[a] == idxs[a] && init[b] == idxs[b]);
        }
        assert forall|k: int| 0 <= k < init.len() implies #[trigger] init[k] < items.len() by {
            assert(init[k] == idxs[k]);
        }
        lemma_increasing_removals(items, init);
        let prev = remove_in_turn(items, init);
        if n > 1 {
            assert(init.last() == idxs[n - 2]);
            assert(idxs[n - 2] < idxs[n - 1]);
            assert(init[n - 2] == idxs[n - 2]);
            assert(n - 2 <= init[n - 2]);
        }
        assert(last < items.len());
        assert(n - 1 <= last);
        let j = last - (n - 1);
        assert(prev.1[j] == items[last as int]);
        assert forall|k: int| 0 <= k < idxs.len() implies k <= #[trigger] idxs[k] < items.len() by {
            if k < n - 1 {
                assert(init[k] == idxs[k]);
            }
        }
        let cur = remove_in_turn(items, idxs);
        assert(cur.0 == prev.0.push(items[last as int]));
        assert(idxs.map_values(|i: usize| items[i as int]) =~= init.map_values(
            |i: usize| items[i as int],
        ).push(items[last as int]));
        assert forall|p: int| (idxs.len() == 0 || idxs.last() < p) && p < items.len() implies cur.1[p
            - idxs.len()] == items[p] by {
            assert(cur.1[p - n] == prev.1[p - n + 1]);
            if n > 1 {
                assert(init.last() < p);
            }
        }
    }
}

/// Checks, before the items are taken out, that every item the server names
/// for a retry can be found in a batch of `len` items.
pub fn can_retain(len: usize, content: &Transmission) -> (r: bool)
    ensures
        r == retain_fits(len as nat, *content),
{
    let ghost errs = content.errors@;
    let mut taken: usize = 0;
    let mut i: usize = 0;
    proof {
        assert(errs.take(0) =~= Seq::<TransmissionItem>::empty());
    }
    while i < content.errors.len()
        invariant
            0 <= i <= errs.len(),
            errs == content.errors@,
            taken == retry_indices(errs.take(i as int)).len(),
            taken <= i,
            removals_in_bounds(len as nat, retry_indices(errs.take(i as int))),
        decreases errs.len() - i,
    {
        let ghost before = retry_indices(errs.take(i as int));
        proof {
            assert(errs.take(i as int + 1).drop_last() =~= errs.take(i as int));
            assert(errs.take(i as int + 1).last() == errs[i as int]);
        }
        let error = &content.errors[i];
        if can_retry_item(error) {
            let ghost after = retry_indices(errs.take(i as int + 1));
            proof {
                assert(after.drop_last() =~= before);
            }
            if error.index < taken || error.index >= len {
                proof {
                    assert(after[after.len() - 1] == error.index);
                    lemma_retry_indices_prefix(errs, i as int + 1, errs.len() as int);
                    assert(errs.take(errs.len() as int) =~= errs);
                    let full = retry_indices(errs);
                    assert(full[after.len() - 1] == error.index);
                    assert(!removals_in_bounds(len as nat, full));
                }
                return false;
            }
            proof {
                assert forall|k: int| 0 <= k < after.len() implies k <= #[trigger] after[k]
                    < len by {
                    if k < after.len() - 1 {
                        assert(after[k] == before[k]);
                    }
                }
            }
            taken = taken + 1;
        }
        i += 1;
    }
    proof {
        assert(errs.take(errs.len() as int) =~= errs);
    }
    true
}

/// What the sender does next about a batch.
#[derive(Debug, PartialEq, Eq)]
pub enum Response<T> {
    /// Every item was accepted.
    Success,
    /// These items should be sent again.
    Retry(Vec<T>),
    /// These items should be sent again, not before the given time: seconds
    /// since the Unix epoch, and nanoseconds past that second (a leap second
    /// counts from 1_000_000_000 up).
    Throttled((i64, u32), Vec<T>),
    /// Nothing is to be sent again.
    NoRetry,
}

/// Mathematical form of a [`Response`].
pub enum Outcome<T> {
    /// Every item was accepted.
    Success,
    /// These items should be sent again.
    Retry(Seq<T>),
    /// These items should be sent again after the given time.
    Throttled((i64, u32), Seq<T>),
    /// Nothing is to be sent again.
    NoRetry,
}

impl<T> View for Response<T> {
    type V = Outcome<T>;

    open spec fn view(&self) -> Outcome<T> {
        match self {
            Response::Success => Outcome::Success,
            Response::Retry(items) => Outcome::Retry(items@),
            Response::Throttled(at, items) => Outcome::Throttled(*at, items@),
            Response::NoRetry => Outcome::NoRetry,
        }
    }
}

/// Why an answer of the server could not be interpreted.
#[derive(Debug, PartialEq, Eq, Clone, Copy)]
pub enum SendError {
    /// A partial success came without a readable summary of the items.
    MalformedBody,
    /// The server asked to wait, but its `Retry-After` date could not be read.
    MalformedRetryAfter,
}

/// Result of interpreting an answer, in mathematical form.
pub open spec fn outcome_of<T>(r: Result<Response<T>, SendError>) -> Result<Outcome<T>, SendError> {
    match r {
        Ok(resp) => Ok(resp@),
        Err(e) => Err(e),
    }
}

/// Retry the given items, or nothing when none is left.
pub open spec fn retry_or_drop<T>(items: Seq<T>) -> Outcome<T> {
    if items.len() == 0 {
        Outcome::NoRetry
    } else {
        Outcome::Retry(items)
    }
}

/// Whether the answer makes the sender take the retryable items out of the batch.
pub open spec fn retains_items(status: u16, content: Option<Transmission>) -> bool {
    match content {
        Some(c) => (status == STATUS_PARTIAL_CONTENT && c.items_received != c.items_accepted)
            || status == STATUS_TOO_MANY_REQUESTS || status == STATUS_REQUEST_TIMEOUT
            || status == STATUS_INTERNAL_SERVER_ERROR,
        None => false,
    }
}

/// Tells whether an answer with `status` and the summary `content` makes the
/// sender take the retryable items out of the batch, so that a caller can
/// check with [`can_retain`] beforehand that the summary fits the batch.
pub fn retains_items_now(status: u16, content: &Option<Transmission>) -> (r: bool)
    ensures
        r == retains_items(status, *content),
{
    match content {
        Some(c) => (status == STATUS_PARTIAL_CONTENT && c.items_received != c.items_accepted)
            || status == STATUS_TOO_MANY_REQUESTS || status == STATUS_REQUEST_TIMEOUT
            || status == STATUS_INTERNAL_SERVER_ERROR,
        None => false,
    }
}

/// What the sender makes of an answer with HTTP `status`, the summary
/// `content` when the body could be read as one, and `retry_after` when the
/// answer has a `Retry-After` header (`Some(None)` when its date is unreadable).
pub open spec fn expected_outcome<T>(
    status: u16,
    content: Option<Transmission>,
    retry_after: Option<Option<(i64, u32)>>,
    items: Seq<T>,
) -> Result<Outcome<T>, SendError> {
    if status == STATUS_OK {
        Ok(Outcome::Success)
    } else if status == STATUS_PARTIAL_CONTENT {
        match content {
            None => Err(SendError::MalformedBody),
            Some(c) => if c.items_received == c.items_accepted {
                Ok(Outcome::Success)
            } else {
                Ok(retry_or_drop(retained(items, c)))
            },
        }
    } else if status == STATUS_TOO_MANY_REQUESTS || status == STATUS_REQUEST_TIMEOUT {
        let kept = match content {
            Some(c) => retained(items, c),
            None => items,
        };
        match retry_after {
            None => Ok(Outcome::Retry(kept)),
            Some(None) => Err(SendError::MalformedRetryAfter),
            Some(Some(at)) => Ok(Outcome::Throttled(at, kept)),
        }
    } else if status == STATUS_SERVICE_UNAVAILABLE {
        Ok(Outcome::Retry(items))
    } else if status == STATUS_INTERNAL_SERVER_ERROR {
        match content {
            Some(c) => Ok(retry_or_drop(retained(items, c))),
            None => Ok(Outcome::Retry(items)),
        }
    } else {
        Ok(Outcome::NoRetry)
    }
}

fn retry_or_drop_exec<T>(items: Vec<T>) -> (r: Response<T>)
    ensures
        r@ == retry_or_drop(items@),
{
    if items.len() == 0 {
        Response::NoRetry
    } else {
        Response::Retry(items)
    }
}

/// Decides what to do about a submitted batch `items` once the server has
/// answered with `status`; `content` is the answer's body when it reads as a
/// submission summary, and `retry_after` is the answer's `Retry-After` date
/// when it has one, already read (`Some(None)` when it could not be read).
pub fn decide_response<T>(
    status: u16,
    content: Option<Transmission>,
    retry_after: Option<Option<(i64, u32)>>,
    items: Vec<T>,
) -> (r: Result<Response<T>, SendError>)
    requires
        retains_items(status, content) ==> retain_fits(items@.len(), content->0),
    ensures
        outcome_of(r) == expected_outcome(status, content, retry_after, items@),
{
    let mut items = items;
    if status == STATUS_OK {
        Ok(Response::Success)
    } else if status == STATUS_PARTIAL_CONTENT {
        match content {
            None => Err(SendError::MalformedBody),
            Some(c) => {
                if c.items_received == c.items_accepted {
                    Ok(Response::Success)
                } else {
                    retain_retry_items(&mut items, c);
                    Ok(retry_or_drop_exec(items))
                }
            },
        }
    } else if status == STATUS_TOO_MANY_REQUESTS || status == STATUS_REQUEST_TIMEOUT {
        match content {
            Some(c) => retain_retry_items(&mut items, c),
            None => {},
        }
        match retry_after {
            None => Ok(Response::Retry(items)),
            Some(None) => Err(SendError::MalformedRetryAfter),
            Some(Some(at)) => Ok(Response::Throttled(at, items)),
        }
    } else if status == STATUS_SERVICE_UNAVAILABLE {
        Ok(Response::Retry(items))
    } else if status == STATUS_INTERNAL_SERVER_ERROR {
        match content {
            Some(c) => {
                retain_retry_items(&mut items, c);
                Ok(retry_or_drop_exec(items))
            },
            None => Ok(Response::Retry(items)),
        }
    } else {
        Ok(Response::NoRetry)
    }
}

/// The instant that an RFC 2822 date names, as seconds since the Unix epoch
/// and nanoseconds past that second, or `None` when the text is not such a
/// date.
pub uninterp spec fn rfc2822_timestamp(value: Seq<char>) -> Option<(i64, u32)>;

/// Reads an RFC 2822 date with `chrono::DateTime::parse_from_rfc2822` and
/// takes its instant with `DateTime::timestamp` and
/// `DateTime::timestamp_subsec_nanos` (above 999_999_999 within a leap
/// second). The contract only names the result: it is a function of the
/// text alone.
#[verifier::external_body]
fn parse_rfc2822_timestamp(value: &str) -> (r: Option<(i64, u32)>)
    ensures
        r == rfc2822_timestamp(value@),
{
    chrono::DateTime::parse_from_rfc2822(value).ok().map(
        |date| (date.timestamp(), date.timestamp_subsec_nanos()),
    )
}

/// The `Retry-After` header as the decision reads it.
pub open spec fn read_retry_after(header: Option<&str>) -> Option<Option<(i64, u32)>> {
    match header {
        Some(value) => Some(rfc2822_timestamp(value@)),
        None => None,
    }
}

/// Interprets the server's answer to the batch `items`: `status` is its HTTP
/// status, `content` its body when the body reads as a submission summary,
/// and `retry_after` the text of its `Retry-After` header, if any. The date is
/// read only when the status asks the sender to wait.
pub fn handle_response<T>(
    status: u16,
    content: Option<Transmission>,
    retry_after: Option<&str>,
    items: Vec<T>,
) -> (r: Result<Response<T>, SendError>)
    requires
        retains_items(status, content) ==> retain_fits(items@.len(), content->0),
    ensures
        outcome_of(r) == expected_outcome(status, content, read_retry_after(retry_after), items@),
{
    let parsed = if status == STATUS_TOO_MANY_REQUESTS || status == STATUS_REQUEST_TIMEOUT {
        match retry_after {
            Some(value) => Some(parse_rfc2822_timestamp(value)),
            None => None,
        }
    } else {
        None
    };
    decide_response(status, content, parsed, items)
}


/// Law: the positions named for a retry are the `index` of every error entry
/// whose status is 206, 408, 429, 500 or 503, in the order the server listed
/// them, and of no other entry.
pub proof fn lemma_retry_indices_are_retryable_errors(errors: Seq<TransmissionItem>)
    ensures
        retry_indices(errors) == errors.filter(
            |e: TransmissionItem|
                e.status_code == 206 || e.status_code == 408 || e.status_code == 429
                    || e.status_code == 500 || e.status_code == 503,
        ).map_values(|e: TransmissionItem| e.index),
    decreases errors.len(),
{
    let pred = |e: TransmissionItem|
        e.status_code == 206 || e.status_code == 408 || e.status_code == 429 || e.status_code
            == 500 || e.status_code == 503;
    let idx = |e: TransmissionItem| e.index;
    reveal(Seq::filter);
    if errors.len() > 0 {
        lemma_retry_indices_are_retryable_errors(errors.drop_last());
        let sub = errors.drop_last().filter(pred);
        assert(errors.filter(pred) == if pred(errors.last()) {
            sub.push(errors.last())
        } else {
            sub
        });
        if pred(errors.last()) {
            assert(sub.push(errors.last()).map_values(idx) =~= sub.map_values(idx).push(
                errors.last().index,
            ));
        }
    } else {
        assert(errors.filter(pred) =~= Seq::<TransmissionItem>::empty());
        assert(errors.filter(pred).map_values(idx) =~= Seq::<usize>::empty());
    }
}

/// Law: when the retryable entries (status 206, 408, 429, 500 or 503) name
/// strictly increasing positions inside the batch, the items kept for
/// another attempt are the items at those positions, in that order.
pub proof fn lemma_retained_are_retryable_items<T>(items: Seq<T>, content: Transmission)
    requires
        ({
            let named = content.errors@.filter(
                |e: TransmissionItem|
                    e.status_code == 206 || e.status_code == 408 || e.status_code == 429
                        || e.status_code == 500 || e.status_code == 503,
            );
            &&& forall|a: int, b: int| 0 <= a < b < named.len() ==> named[a].index < named[b].index
            &&& forall|k: int| 0 <= k < named.len() ==> (#[trigger] named[k]).index < items.len()
        }),
    ensures
        retain_fits(items.len(), content),
        retained(items, content) == content.errors@.filter(
            |e: TransmissionItem|
                e.status_code == 206 || e.status_code == 408 || e.status_code == 429
                    || e.status_code == 500 || e.status_code == 503,
        ).map_values(|e: TransmissionItem| items[e.index as int]),
{
    let named = content.errors@.filter(
        |e: TransmissionItem|
            e.status_code == 206 || e.status_code == 408 || e.status_code == 429 || e.status_code
                == 500 || e.status_code == 503,
    );
    lemma_retry_indices_are_retryable_errors(content.errors@);
    let idxs = retry_indices(content.errors@);
    assert(idxs == named.map_values(|e: TransmissionItem| e.index));
    assert forall|a: int, b: int| 0 <= a < b < idxs.len() implies idxs[a] < idxs[b] by {
        assert(idxs[a] == named[a].index && idxs[b] == named[b].index);
    }
    assert forall|k: int| 0 <= k < idxs.len() implies #[trigger] idxs[k] < items.len() by {
        assert(idxs[k] == named[k].index);
    }
    lemma_increasing_removals_select(items, idxs);
    assert(idxs.map_values(|i: usize| items[i as int]) =~= named.map_values(
        |e: TransmissionItem| items[e.index as int],
    ));
}

/// Law: under 429 (too many requests) and 408 (request timeout), a readable
/// summary in the answer decides which items go out again: those it names as
/// retryable, straight away without a `Retry-After` date and after that date
/// with one. Without a summary every item goes out again.
pub proof fn lemma_waiting_answers_apply_summary<T>(
    status: u16,
    content: Transmission,
    items: Seq<T>,
    at: (i64, u32),
)
    requires
        status == 429 || status == 408,
    ensures
        expected_outcome(status, Some(content), None, items) == Ok::<Outcome<T>, SendError>(
            Outcome::Retry(retained(items, content)),
        ),
        expected_outcome(status, Some(content), Some(Some(at)), items) == Ok::<
            Outcome<T>,
            SendError,
        >(Outcome::Throttled(at, retained(items, content))),
        expected_outcome(status, None, None, items) == Ok::<Outcome<T>, SendError>(
            Outcome::Retry(items),
        ),
        expected_outcome(status, None, Some(Some(at)), items) == Ok::<Outcome<T>, SendError>(
            Outcome::Throttled(at, items),
        ),
        expected_outcome(status, Some(content), Some(None), items) == Err::<Outcome<T>, SendError>(
            SendError::MalformedRetryAfter,
        ),
{
}

/// Law: what the sender makes of each other answer. 200 is a success; 206
/// is a success when every item was accepted, an error without a readable
/// summary, and otherwise sends again the items the summary names as
/// retryable (nothing at all when it names none); 503 sends every item
/// again; 500 sends again what a readable summary names, or every item
/// without one; any status but 200, 206, 408, 429, 500 and 503 drops the
/// batch.
pub proof fn lemma_other_answers<T>(
    status: u16,
    content: Option<Transmission>,
    retry_after: Option<Option<(i64, u32)>>,
    items: Seq<T>,
)
    ensures
        status == 200 ==> expected_outcome(status, content, retry_after, items) == Ok::<
            Outcome<T>,
            SendError,
        >(Outcome::Success),
        status == 206 && content is None ==> expected_outcome(status, content, retry_after, items)
            == Err::<Outcome<T>, SendError>(SendError::MalformedBody),
        status == 206 && content is Some && content->0.items_received == content->0.items_accepted
            ==> expected_outcome(status, content, retry_after, items) == Ok::<Outcome<T>, SendError>(
            Outcome::Success,
        ),
        status == 206 && content is Some && content->0.items_received != content->0.items_accepted
            && retained(items, content->0).len() > 0 ==> expected_outcome(status, content, retry_after, items)
            == Ok::<Outcome<T>, SendError>(Outcome::Retry(retained(items, content->0))),
        status == 206 && content is Some && content->0.items_received != content->0.items_accepted
            && retained(items, content->0).len() == 0 ==> expected_outcome(status, content, retry_after, items)
            == Ok::<Outcome<T>, SendError>(Outcome::NoRetry),
        status == 503 ==> expected_outcome(status, content, retry_after, items) == Ok::<
            Outcome<T>,
            SendError,
        >(Outcome::Retry(items)),
        status == 500 && content is None ==> expected_outcome(status, content, retry_after, items)
            == Ok::<Outcome<T>, SendError>(Outcome::Retry(items)),
        status == 500 && content is Some && retained(items, content->0).len() > 0
            ==> expected_outcome(status, content, retry_after, items) == Ok::<Outcome<T>, SendError>(
            Outcome::Retry(retained(items, content->0)),
        ),
        status == 500 && content is Some && retained(items, content->0).len() == 0
            ==> expected_outcome(status, content, retry_after, items) == Ok::<Outcome<T>, SendError>(
            Outcome::NoRetry,
        ),
        status != 200 && status != 206 && status != 408 && status != 429 && status != 500 && status
            != 503 ==> expected_outcome(status, content, retry_after, items) == Ok::<
            Outcome<T>,
            SendError,
        >(Outcome::NoRetry),
{
}

} // verus!
