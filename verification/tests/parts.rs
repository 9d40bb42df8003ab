use skus::decimal::decimal_string;
use skus::delay::{Delay, MILLIS_PER_SEC, NANOS_PER_MILLI, NANOS_PER_SEC};
use skus::status::{render_status, status_line, MAX_STATUS, MIN_STATUS};

#[test]
fn decimal_of_small_numbers() {
    assert_eq!(decimal_string(0), "0");
    assert_eq!(decimal_string(7), "7");
    assert_eq!(decimal_string(9), "9");
    assert_eq!(decimal_string(10), "10");
    assert_eq!(decimal_string(503), "503");
    assert_eq!(decimal_string(1_000_000), "1000000");
}

#[test]
fn decimal_of_the_largest_number() {
    assert_eq!(decimal_string(u128::MAX), "340282366920938463463374607431768211455");
    assert_eq!(decimal_string(u64::MAX as u128), "18446744073709551615");
}

#[test]
fn decimal_agrees_with_std() {
    let mut n: u128 = 1;
    for _ in 0..127 {
        assert_eq!(decimal_string(n), n.to_string());
        assert_eq!(decimal_string(n - 1), (n - 1).to_string());
        n *= 2;
    }
}

#[test]
fn delay_units() {
    assert_eq!(NANOS_PER_SEC, 1_000_000_000);
    assert_eq!(NANOS_PER_MILLI, 1_000_000);
    assert_eq!(MILLIS_PER_SEC, 1_000);
}

#[test]
fn delay_from_parts() {
    let delay = Delay::new(3, 250_000_000).unwrap();
    assert_eq!(delay.as_secs(), 3);
    assert_eq!(delay.subsec_nanos(), 250_000_000);
    assert_eq!(delay.as_millis(), 3250);
}

#[test]
fn delay_refuses_a_second_of_nanoseconds() {
    assert_eq!(Delay::new(0, 1_000_000_000), None);
    assert_eq!(Delay::new(5, u32::MAX), None);
    assert!(Delay::new(0, 999_999_999).is_some());
}

#[test]
fn delay_from_millis() {
    let delay = Delay::from_millis(1500);
    assert_eq!(delay.as_secs(), 1);
    assert_eq!(delay.subsec_nanos(), 500_000_000);
    assert_eq!(delay.as_millis(), 1500);
    assert_eq!(Some(delay), Delay::new(1, 500_000_000));
    let delay = Delay::from_millis(0);
    assert_eq!(delay.as_millis(), 0);
    let delay = Delay::from_millis(u64::MAX);
    assert_eq!(delay.as_secs(), 18_446_744_073_709_551);
    assert_eq!(delay.subsec_nanos(), 615_000_000);
    assert_eq!(delay.as_millis(), u64::MAX as u128);
}

#[test]
fn delay_millis_drop_the_rest() {
    assert_eq!(Delay::new(0, 999_999).unwrap().as_millis(), 0);
    assert_eq!(Delay::new(0, 1_000_000).unwrap().as_millis(), 1);
    assert_eq!(Delay::new(1, 999_999_999).unwrap().as_millis(), 1999);
    assert_eq!(
        Delay::new(u64::MAX, 999_999_999).unwrap().as_millis(),
        18_446_744_073_709_551_615_999
    );
}

#[test]
fn delay_agrees_with_std() {
    let cases: [(u64, u32); 5] =
        [(0, 0), (1, 1), (59, 999_999_999), (86_400, 123_456_789), (u64::MAX, 999_999_999)];
    for (secs, nanos) in cases {
        let ours = Delay::new(secs, nanos).unwrap();
        let theirs = std::time::Duration::new(secs, nanos);
        assert_eq!(ours.as_millis(), theirs.as_millis());
        assert_eq!(ours.as_secs(), theirs.as_secs());
        assert_eq!(ours.subsec_nanos(), theirs.subsec_nanos());
    }
    assert_eq!(
        Delay::from_millis(98_765).as_millis(),
        std::time::Duration::from_millis(98_765).as_millis()
    );
}

#[test]
fn delays_are_equal_when_they_last_equally_long() {
    assert_eq!(Delay::from_millis(2000), Delay::new(2, 0).unwrap());
    assert_ne!(Delay::new(2, 1).unwrap(), Delay::new(2, 0).unwrap());
    assert_ne!(Delay::new(1, 0).unwrap(), Delay::new(0, 999_999_999).unwrap());
}

#[test]
fn status_bounds() {
    assert_eq!(MIN_STATUS, 100);
    assert_eq!(MAX_STATUS, 999);
}

#[test]
fn status_line_with_a_phrase() {
    assert_eq!(
        status_line("Server internal error", 503, Some("Service Unavailable")),
        "Server internal error: 503 Service Unavailable"
    );
    assert_eq!(status_line("Any", 7, Some("")), "Any: 7 ");
}

#[test]
fn status_line_without_a_phrase() {
    assert_eq!(status_line("Bad client request", 499, None), "Bad client request: 499 unknown");
    assert_eq!(status_line("", 0, None), ": 0 unknown");
}

#[test]
fn render_status_looks_the_phrase_up() {
    assert_eq!(render_status("Status", 200), "Status: 200 OK");
    assert_eq!(render_status("Status", 418), "Status: 418 I'm a teapot");
    assert_eq!(render_status("Status", 499), "Status: 499 unknown");
    assert_eq!(render_status("Status", 99), "Status: 99 unknown");
    assert_eq!(render_status("Status", 1000), "Status: 1000 unknown");
}

#[test]
fn render_status_agrees_with_http() {
    for code in MIN_STATUS..=MAX_STATUS {
        let status = http::StatusCode::from_u16(code).unwrap();
        let expected = format!(
            "Status: {} {}",
            status.as_str(),
            status.canonical_reason().unwrap_or("unknown")
        );
        assert_eq!(render_status("Status", code), expected);
    }
}
