use appinsights::transmitter::transmission::{Transmission, TransmissionItem, TransmissionResponse};

fn response(received: u32, accepted: u32, errors: Vec<TransmissionItem>) -> TransmissionResponse {
    TransmissionResponse { items_received: received, items_accepted: accepted, errors }
}

fn item(index: usize, status_code: u16) -> TransmissionItem {
    TransmissionItem { index, status_code, message: String::new() }
}

#[test]
fn it_success_when_status_is_ok() {
    let transmission = Transmission::new(200, None, response(0, 0, Vec::new()));

    assert!(transmission.is_success());
}

#[test]
fn it_success_when_status_is_partial_content_and_all_item_accepted() {
    let transmission = Transmission::new(206, None, response(3, 3, Vec::new()));

    assert!(transmission.is_success());
}

#[test]
fn it_is_not_success_when_partial_and_not_all_items_accepted() {
    let transmission = Transmission::new(206, None, response(2, 1, Vec::new()));
    assert!(!transmission.is_success());
}

#[test]
fn it_is_not_success_when_bad_request() {
    let transmission = Transmission::new(400, None, response(0, 0, Vec::new()));
    assert!(!transmission.is_success());
    assert!(!transmission.can_retry());
}

#[test]
fn it_can_retry_on_retryable_statuses() {
    for status in [206u16, 408, 500, 503, 429] {
        let transmission = Transmission::new(status, None, response(1, 0, Vec::new()));
        assert!(transmission.can_retry(), "status {}", status);
    }
}

#[test]
fn successful_transmission_is_not_retried() {
    let transmission = Transmission::new(200, Some((1_502_322_237, 0)), response(1, 1, Vec::new()));
    assert!(!transmission.can_retry());
}

#[test]
fn partial_content_retries_only_retryable_items() {
    let transmission =
        Transmission::new(206, None, response(5, 2, vec![item(2, 400), item(4, 408), item(1, 500)]));
    assert!(!transmission.can_retry_item(2));
    assert!(transmission.can_retry_item(4));
    assert!(transmission.can_retry_item(1));
    assert!(!transmission.can_retry_item(0));
}

#[test]
fn other_statuses_retry_every_item() {
    let transmission = Transmission::new(500, None, response(5, 2, vec![item(2, 400)]));
    assert!(transmission.can_retry_item(2));
    assert!(transmission.can_retry_item(7));
}

#[test]
fn transmission_item_retry_status() {
    assert!(item(0, 206).can_retry());
    assert!(item(0, 429).can_retry());
    assert!(!item(0, 400).can_retry());
    assert!(!item(0, 200).can_retry());
}
