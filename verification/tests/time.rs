use appinsights::time::Duration;

fn text(secs: u64, nanos: u32) -> String {
    Duration::from_secs_nanos(secs, nanos).to_string()
}

#[test]
fn it_converts_hour_to_string() {
    assert_eq!(text(3600, 0), "0.01:00:00.0000000");
}

#[test]
fn it_converts_minute_to_string() {
    assert_eq!(text(60, 0), "0.00:01:00.0000000");
}

#[test]
fn it_converts_second_to_string() {
    assert_eq!(text(1, 0), "0.00:00:01.0000000");
}

#[test]
fn it_converts_millisecond_to_string() {
    assert_eq!(text(0, 1_000_000), "0.00:00:00.0010000");
}

#[test]
fn it_converts_tick_to_string() {
    assert_eq!(Duration::from_nanos(100).to_string(), "0.00:00:00.0000001");
}

#[test]
fn it_converts_custom_duration_to_string() {
    // 2019-01-03T01:02:03 minus 2019-01-01T00:00:00
    assert_eq!(text(176_523, 0), "2.01:02:03.0000000");
}

#[test]
fn it_converts_remote_dependency_duration_to_string() {
    assert_eq!(text(2, 0), "0.00:00:02.0000000");
}

#[test]
fn it_converts_zero_and_long_durations() {
    assert_eq!(Duration::from_nanos(0).to_string(), "0.00:00:00.0000000");
    assert_eq!(text(1000 * 86400 + 23 * 3600 + 59 * 60 + 59, 999_999_999), "1000.23:59:59.9999999");
    assert_eq!(Duration::from_secs_nanos(3, 5).as_nanos(), 3_000_000_005);
}
