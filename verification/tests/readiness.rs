use launcher_core::port::Port;
use launcher_core::probe::{probe_with_outcomes, ProbeState, ProbeStep};
use launcher_core::text::{decimal_string, local_url};

fn port(n: u16) -> Port {
    Port::from_os_assignment(n).expect("a nonzero port number")
}

#[test]
fn os_assignment_zero_is_refused() {
    assert!(Port::from_os_assignment(0).is_none());
}

#[test]
fn os_assignment_keeps_the_number() {
    assert_eq!(port(1).value(), 1);
    assert_eq!(port(8080).value(), 8080);
    assert_eq!(port(65535).value(), 65535);
}

#[test]
fn decimal_of_single_digit() {
    assert_eq!(decimal_string(0), "0");
    assert_eq!(decimal_string(7), "7");
}

#[test]
fn decimal_of_round_number() {
    assert_eq!(decimal_string(80), "80");
    assert_eq!(decimal_string(1000), "1000");
}

#[test]
fn decimal_of_largest_port() {
    assert_eq!(decimal_string(65535), "65535");
}

#[test]
fn local_url_names_localhost_and_port() {
    assert_eq!(local_url(port(8080)), "http://localhost:8080");
    assert_eq!(local_url(port(1)), "http://localhost:1");
}

// A server that binds the port after a two-second delay is detected by a
// probe with a five-second timeout, and not before two seconds of polling
// have elapsed.
#[test]
fn probe_detects_listener_that_binds_after_two_seconds() {
    // One poll each 100ms: the first 20 polls find the port free, the
    // 21st finds it occupied; padded to the 51 polls a 5000ms window admits.
    let mut polls = vec![false; 20];
    polls.push(true);
    polls.extend(vec![true; 30]);
    let run = probe_with_outcomes(5000, &polls);
    assert!(run.ready);
    assert_eq!(run.polls_made, 21);
    assert_eq!(run.elapsed_ms, 2000);
    assert!(run.elapsed_ms >= 2000);
    assert!(run.elapsed_ms < 5000);
}

// A server that never binds the port leaves a probe with a one-second
// timeout unready after approximately one second of polling: eleven polls
// at 0ms through 1000ms, finishing within one interval past the timeout.
#[test]
fn probe_times_out_when_no_listener_ever_binds() {
    let polls = vec![false; 11];
    let run = probe_with_outcomes(1000, &polls);
    assert!(!run.ready);
    assert_eq!(run.polls_made, 11);
    assert_eq!(run.elapsed_ms, 1100);
    assert!(run.elapsed_ms <= 1000 + 100);
}

#[test]
fn probe_ready_immediately_when_port_already_occupied() {
    let polls = vec![true; 101];
    let run = probe_with_outcomes(10000, &polls);
    assert!(run.ready);
    assert_eq!(run.polls_made, 1);
    assert_eq!(run.elapsed_ms, 0);
}

// A listener first bound late in the window — after the last whole
// interval but at or before the timeout — is still seen by the final poll
// at the timeout boundary.
#[test]
fn probe_sees_listener_bound_late_in_the_window() {
    // Bound at 9950ms under a 10000ms timeout: the polls at 0ms through
    // 9900ms find the port free, the boundary poll at 10000ms finds it
    // occupied.
    let mut polls = vec![false; 100];
    polls.push(true);
    let run = probe_with_outcomes(10000, &polls);
    assert!(run.ready);
    assert_eq!(run.polls_made, 101);
    assert_eq!(run.elapsed_ms, 10000);
    assert!(run.elapsed_ms <= 10000 + 100);
}

#[test]
fn probe_with_zero_timeout_polls_once_at_the_boundary() {
    let free = vec![false];
    let run = probe_with_outcomes(0, &free);
    assert!(!run.ready);
    assert_eq!(run.polls_made, 1);
    assert_eq!(run.elapsed_ms, 100);

    let occupied = vec![true];
    let run = probe_with_outcomes(0, &occupied);
    assert!(run.ready);
    assert_eq!(run.polls_made, 1);
    assert_eq!(run.elapsed_ms, 0);
}

#[test]
fn probe_timeout_off_the_interval_grid() {
    // A 250ms window admits three polls, at 0ms, 100ms and 200ms: the
    // elapsed time first exceeds the timeout at 300ms.
    let polls = vec![false; 3];
    let run = probe_with_outcomes(250, &polls);
    assert!(!run.ready);
    assert_eq!(run.polls_made, 3);
    assert_eq!(run.elapsed_ms, 300);
    assert!(run.elapsed_ms <= 250 + 100);
}

#[test]
fn probe_state_steps_poll_until_occupied() {
    let mut probe = ProbeState::new(300);
    assert!(matches!(probe.next(), ProbeStep::Poll));
    probe.record_poll(false);
    assert_eq!(probe.elapsed_ms(), 100);
    assert!(matches!(probe.next(), ProbeStep::Poll));
    probe.record_poll(true);
    assert_eq!(probe.elapsed_ms(), 100);
    assert!(matches!(probe.next(), ProbeStep::Finish(true)));
}

#[test]
fn probe_state_finishes_unready_past_the_timeout() {
    let mut probe = ProbeState::new(200);
    probe.record_poll(false);
    probe.record_poll(false);
    assert_eq!(probe.elapsed_ms(), 200);
    // At the boundary the probe still polls once more.
    assert!(matches!(probe.next(), ProbeStep::Poll));
    probe.record_poll(false);
    assert_eq!(probe.elapsed_ms(), 300);
    assert!(matches!(probe.next(), ProbeStep::Finish(false)));
}
