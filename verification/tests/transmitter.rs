use appinsights::contracts::{Transmission, TransmissionItem};
use appinsights::transmitter::{
    can_retain, can_retry_item, decide_response, handle_response, retain_retry_items, Response,
    SendError,
};

fn items() -> Vec<u32> {
    (0..5).collect()
}

fn error(index: usize, status_code: u16) -> TransmissionItem {
    TransmissionItem { index, status_code, message: format!("item {}", index) }
}

fn content(accepted: usize, received: usize, errors: Vec<TransmissionItem>) -> Transmission {
    Transmission { items_received: received, items_accepted: accepted, errors }
}

fn partial_no_retries() -> Transmission {
    content(3, 5, vec![error(2, 400), error(4, 400)])
}

fn partial_some_retries() -> Transmission {
    content(2, 5, vec![error(2, 400), error(4, 408)])
}

fn none_accepted() -> Transmission {
    content(0, 5, (0..5).map(|i| error(i, 500)).collect())
}

fn all_accepted() -> Transmission {
    content(5, 5, Vec::new())
}

const RETRY_AFTER: &str = "Wed, 09 Aug 2017 23:43:57 GMT";
const RETRY_AFTER_TIMESTAMP: (i64, u32) = (1_502_322_237, 0);

#[test]
fn success() {
    assert_eq!(handle_response(200, Some(all_accepted()), None, items()), Ok(Response::Success));
}

#[test]
fn partial_resend_some_items() {
    assert_eq!(
        handle_response(206, Some(partial_some_retries()), None, items()),
        Ok(Response::Retry(vec![4]))
    );
}

#[test]
fn partial_nothing_to_resend() {
    assert_eq!(handle_response(206, Some(partial_no_retries()), None, items()), Ok(Response::NoRetry));
}

#[test]
fn partial_resend_everything() {
    assert_eq!(handle_response(206, Some(none_accepted()), None, items()), Ok(Response::Retry(items())));
}

#[test]
fn partial_everything_accepted() {
    assert_eq!(handle_response(206, Some(all_accepted()), None, items()), Ok(Response::Success));
}

#[test]
fn partial_without_summary_is_an_error() {
    assert_eq!(handle_response(206, None, None, items()), Err(SendError::MalformedBody));
}

#[test]
fn bad_request_no_retry() {
    assert_eq!(handle_response(400, None, None, items()), Ok(Response::NoRetry));
}

#[test]
fn timeout_resend_everything() {
    assert_eq!(handle_response(408, None, None, items()), Ok(Response::Retry(items())));
}

#[test]
fn timeout_throttled() {
    assert_eq!(
        handle_response(408, None, Some(RETRY_AFTER), items()),
        Ok(Response::Throttled(RETRY_AFTER_TIMESTAMP, items()))
    );
}

#[test]
fn too_many_requests_no_retry_after_resend_everything() {
    assert_eq!(handle_response(429, None, None, items()), Ok(Response::Retry(items())));
}

#[test]
fn too_many_requests_retry_after_throttled() {
    assert_eq!(
        handle_response(429, None, Some(RETRY_AFTER), items()),
        Ok(Response::Throttled(RETRY_AFTER_TIMESTAMP, items()))
    );
}

#[test]
fn unreadable_retry_after_is_an_error() {
    assert_eq!(handle_response(429, None, Some("soon"), items()), Err(SendError::MalformedRetryAfter));
}

#[test]
fn server_error_resend_everything() {
    assert_eq!(handle_response(500, None, None, items()), Ok(Response::Retry(items())));
}

#[test]
fn service_unavailable_resend_everything() {
    assert_eq!(handle_response(503, None, None, items()), Ok(Response::Retry(items())));
}

#[test]
fn unauthorized_no_retry() {
    assert_eq!(handle_response(401, None, None, items()), Ok(Response::NoRetry));
}

#[test]
fn timeout_resend_some_items() {
    assert_eq!(
        handle_response(408, Some(partial_some_retries()), None, items()),
        Ok(Response::Retry(vec![4]))
    );
}

#[test]
fn server_error_resend_some_items() {
    assert_eq!(
        handle_response(500, Some(partial_some_retries()), None, items()),
        Ok(Response::Retry(vec![4]))
    );
}

#[test]
fn decision_uses_the_date_already_read() {
    assert_eq!(
        decide_response(429, None, Some(Some((7, 0))), items()),
        Ok(Response::Throttled((7, 0), items()))
    );
    assert_eq!(decide_response(429, None, Some(None), items()), Err(SendError::MalformedRetryAfter));
    assert_eq!(decide_response(200, None, Some(None), items()), Ok(Response::Success));
}

#[test]
fn retain_takes_items_in_turn() {
    let mut batch = items();
    retain_retry_items(&mut batch, content(0, 5, vec![error(1, 500), error(3, 503), error(0, 400)]));
    assert_eq!(batch, vec![1, 3]);

    // Positions name what is left after earlier removals.
    let mut batch = items();
    retain_retry_items(&mut batch, content(0, 5, vec![error(3, 500), error(1, 500)]));
    assert_eq!(batch, vec![3, 0]);
}

#[test]
fn retain_checks_bounds() {
    assert!(can_retain(5, &partial_some_retries()));
    assert!(can_retain(5, &none_accepted()));
    assert!(!can_retain(4, &partial_some_retries()));
    assert!(!can_retain(5, &content(0, 5, vec![error(1, 500), error(0, 500)])));
    assert!(can_retain(0, &partial_no_retries()));
}

#[test]
fn item_retry_statuses() {
    assert!(can_retry_item(&error(0, 206)));
    assert!(can_retry_item(&error(0, 408)));
    assert!(can_retry_item(&error(0, 500)));
    assert!(can_retry_item(&error(0, 503)));
    assert!(can_retry_item(&error(0, 429)));
    assert!(!can_retry_item(&error(0, 400)));
}

#[test]
fn leap_second_retry_after_keeps_its_nanoseconds() {
    assert_eq!(
        handle_response(429, None, Some("Sat, 31 Dec 2016 23:59:60 +0000"), items()),
        Ok(Response::Throttled((1_483_228_799, 1_000_000_000), items()))
    );
}

#[test]
fn retry_after_with_an_offset_names_the_same_instant() {
    assert_eq!(
        handle_response(408, None, Some("Thu, 10 Aug 2017 01:43:57 +0200"), items()),
        Ok(Response::Throttled(RETRY_AFTER_TIMESTAMP, items()))
    );
}
