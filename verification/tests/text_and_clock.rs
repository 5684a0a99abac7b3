use ws63_starter::clock::{
    deadline_elapsed, network_millis, network_now, ticks_to_millis, ApplicationWaitDeadline,
};
use ws63_starter::ipv4_text::write_ipv4;
use ws63_starter::wait::{application_deadline_line, radio_error_line, PollDecision, RadioWait};

fn ipv4(address: [u8; 4]) -> String {
    let mut out = Vec::new();
    write_ipv4(&mut out, address);
    String::from_utf8(out).unwrap()
}

#[test]
fn ipv4_text_of_typical_lease() {
    assert_eq!(ipv4([192, 168, 1, 42]), "192.168.1.42");
}

#[test]
fn ipv4_text_of_zero_and_max_octets() {
    assert_eq!(ipv4([0, 0, 0, 0]), "0.0.0.0");
    assert_eq!(ipv4([255, 255, 255, 255]), "255.255.255.255");
}

#[test]
fn ipv4_text_has_no_leading_zeros() {
    assert_eq!(ipv4([10, 9, 100, 1]), "10.9.100.1");
    assert_eq!(ipv4([100, 10, 0, 99]), "100.10.0.99");
}

#[test]
fn ipv4_text_appends_after_existing_bytes() {
    let mut out = b"addr=".to_vec();
    write_ipv4(&mut out, [172, 16, 254, 3]);
    assert_eq!(out, b"addr=172.16.254.3".to_vec());
}

#[test]
fn ipv4_text_distinguishes_addresses_that_share_digits() {
    // 1.11.1.1 and 11.1.1.1 use the same digits; the dots tell them apart.
    assert_ne!(ipv4([1, 11, 1, 1]), ipv4([11, 1, 1, 1]));
    assert_ne!(ipv4([12, 3, 4, 5]), ipv4([1, 23, 4, 5]));
}

#[test]
fn ticks_to_millis_divides_by_ticks_per_millisecond() {
    assert_eq!(ticks_to_millis(24_000_000, 24_000_000), 1_000);
    assert_eq!(ticks_to_millis(40_000 * 7 + 39_999, 40_000_000), 7);
    assert_eq!(ticks_to_millis(0, 40_000_000), 0);
    // A frequency that is not a multiple of 1000 Hz rounds ticks per ms down.
    assert_eq!(ticks_to_millis(2_000, 1_999), 2_000);
}

#[test]
fn network_millis_saturates_at_i64_max() {
    assert_eq!(network_millis(5), 5);
    assert_eq!(network_millis(i64::MAX as u64), i64::MAX);
    assert_eq!(network_millis(u64::MAX), i64::MAX);
}

#[test]
fn network_now_is_the_millisecond_instant() {
    assert_eq!(network_now(1_234).total_millis(), 1_234);
    assert_eq!(network_now(0).total_micros(), 0);
    assert_eq!(network_now(86_400_000).total_micros(), 86_400_000_000);
}

#[test]
fn wait_deadline_from_seconds() {
    assert_eq!(ApplicationWaitDeadline::from_secs(35).as_millis(), 35_000);
    assert_eq!(ApplicationWaitDeadline::from_millis(250).as_millis(), 250);
}

#[test]
fn deadline_elapsed_without_wrap() {
    let d = ApplicationWaitDeadline::from_millis(100);
    assert!(!deadline_elapsed(1_000, 1_099, d));
    assert!(deadline_elapsed(1_000, 1_100, d));
    assert!(deadline_elapsed(1_000, 5_000, d));
}

#[test]
fn deadline_elapsed_across_counter_wrap() {
    let d = ApplicationWaitDeadline::from_millis(16);
    let started = u64::MAX - 5;
    // 15 ms after the start the counter has wrapped to 9.
    assert!(!deadline_elapsed(started, 9, d));
    // 16 ms after the start the counter reads 10.
    assert!(deadline_elapsed(started, 10, d));
}

#[test]
fn ready_poll_wins_even_after_the_deadline() {
    let wait = RadioWait::start(0, ApplicationWaitDeadline::from_millis(10));
    assert_eq!(wait.after_poll(true, 1_000), PollDecision::Ready);
}

#[test]
fn pending_poll_reschedules_then_gives_up() {
    let wait = RadioWait::start(500, ApplicationWaitDeadline::from_millis(30_000));
    assert_eq!(wait.after_poll(false, 500), PollDecision::Reschedule);
    assert_eq!(wait.after_poll(false, 30_499), PollDecision::Reschedule);
    assert_eq!(wait.after_poll(false, 30_500), PollDecision::DeadlineElapsed);
}

#[test]
fn application_deadline_line_names_the_stage() {
    let line = application_deadline_line(b"scan");
    assert_eq!(
        String::from_utf8(line).unwrap(),
        "WIFI_ERROR {\"schema\":\"hisi-rf-application-wait/v1\",\"code\":\"application.deadline\",\"stage\":\"scan\"}\r\n"
    );
}

#[test]
fn radio_error_line_wraps_the_diagnostic() {
    let line = radio_error_line(b"{\"code\":\"protocol\"}");
    assert_eq!(line, b"WIFI_ERROR {\"code\":\"protocol\"}\r\n".to_vec());
}
