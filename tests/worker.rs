use echo_bench::worker::{
    outbound_message, response_complete, Action, Count, Exit, Phase, Worker, TERMINATOR,
};

/// Runs one full request/response cycle against a peer that echoes `echoed`
/// bytes per request.
fn cycle(w: &mut Worker, echoed: usize) {
    assert_eq!(w.next_action(), Action::CheckStop);
    w.stop_checked(false);
    assert_eq!(w.next_action(), Action::Write);
    w.write_done(true);
    assert_eq!(w.next_action(), Action::CheckStop);
    w.stop_checked(false);
    assert_eq!(w.next_action(), Action::Read);
    w.read_done(Some(echoed));
}

#[test]
fn outbound_message_of_one_byte_is_the_terminator() {
    assert_eq!(outbound_message(1), vec![TERMINATOR]);
    assert_eq!(TERMINATOR, b'\n');
}

#[test]
fn outbound_message_ends_with_terminator() {
    let m = outbound_message(64);
    assert_eq!(m.len(), 64);
    assert_eq!(m[63], b'\n');
    assert!(m[..63].iter().all(|b| *b == 0));
}

#[test]
fn response_needs_full_length() {
    assert!(response_complete(1, 1));
    assert!(response_complete(64, 64));
    assert!(!response_complete(63, 64));
    assert!(!response_complete(0, 64));
    assert!(!response_complete(65, 64));
}

#[test]
fn new_worker_starts_with_zero_count() {
    let w = Worker::new(8);
    assert_eq!(w.count(), Count::zero());
    assert_eq!(w.phase(), Phase::BeforeWrite);
    assert_eq!(w.message_length(), 8);
    assert!(!w.is_finished());
}

#[test]
fn perfect_echo_counts_every_round_trip() {
    let mut w = Worker::new(64);
    for _ in 0..100 {
        cycle(&mut w, 64);
    }
    w.stop_checked(true);
    assert_eq!(w.phase(), Phase::Finished(Exit::Stopped));
    let c = w.count();
    assert_eq!(c, Count { requests_sent: 100, responses_received: 100 });
    assert_eq!(w.next_action(), Action::Report(c));
}

#[test]
fn stop_before_read_leaves_one_request_outstanding() {
    let mut w = Worker::new(16);
    cycle(&mut w, 16);
    w.stop_checked(false);
    w.write_done(true);
    w.stop_checked(true);
    let c = w.count();
    assert_eq!(c, Count { requests_sent: 2, responses_received: 1 });
    assert!(c.requests_sent >= c.responses_received);
    assert!(c.requests_sent - c.responses_received <= 1);
}

#[test]
fn short_echo_ends_after_first_request() {
    let mut w = Worker::new(64);
    cycle(&mut w, 63);
    assert_eq!(w.phase(), Phase::Finished(Exit::ReadFailed));
    assert_eq!(w.count(), Count { requests_sent: 1, responses_received: 0 });
}

#[test]
fn closed_peer_fails_the_first_write() {
    let mut w = Worker::new(64);
    w.stop_checked(false);
    w.write_done(false);
    assert_eq!(w.phase(), Phase::Finished(Exit::WriteFailed));
    assert_eq!(w.next_action(), Action::Report(Count { requests_sent: 0, responses_received: 0 }));
}

#[test]
fn closed_peer_read_of_zero_bytes_ends_the_loop() {
    let mut w = Worker::new(1);
    cycle(&mut w, 0);
    assert_eq!(w.phase(), Phase::Finished(Exit::ReadFailed));
    assert_eq!(w.count(), Count { requests_sent: 1, responses_received: 0 });
}

#[test]
fn read_error_ends_the_loop() {
    let mut w = Worker::new(4);
    cycle(&mut w, 4);
    w.stop_checked(false);
    w.write_done(true);
    w.stop_checked(false);
    w.read_done(None);
    assert_eq!(w.phase(), Phase::Finished(Exit::ReadFailed));
    assert_eq!(w.count(), Count { requests_sent: 2, responses_received: 1 });
}

#[test]
fn one_byte_echo_peer_returns_one_byte_per_request() {
    let mut w = Worker::new(1);
    for _ in 0..3 {
        cycle(&mut w, 1);
    }
    w.stop_checked(true);
    assert_eq!(w.count(), Count { requests_sent: 3, responses_received: 3 });
}

#[test]
fn stop_at_start_sends_nothing() {
    let mut w = Worker::new(64);
    w.stop_checked(true);
    assert_eq!(w.next_action(), Action::Report(Count { requests_sent: 0, responses_received: 0 }));
}
