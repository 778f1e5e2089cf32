use echo_bench::driver::{aggregate, BenchResult, Driver, DriverAction, DriverPhase};
use echo_bench::worker::{Action, Count, Worker};

/// Takes a driver through spawning and its wait, up to the first count.
fn run_until_collecting(d: &mut Driver) {
    while d.next_action() == DriverAction::SpawnWorker {
        d.worker_spawned();
    }
    assert_eq!(d.next_action(), DriverAction::Sleep(d.duration_seconds()));
    d.slept();
    assert_eq!(d.next_action(), DriverAction::RaiseStop);
    d.stop_raised();
}

/// A worker that makes `rounds` round trips with a perfect echo peer, then
/// sees the stop signal, raised while its last request was in flight when
/// `in_flight` is set.
fn echo_worker(length: usize, rounds: u64, in_flight: bool) -> Count {
    let mut w = Worker::new(length);
    for _ in 0..rounds {
        w.stop_checked(false);
        w.write_done(true);
        w.stop_checked(false);
        w.read_done(Some(length));
    }
    if in_flight {
        w.stop_checked(false);
        w.write_done(true);
    }
    w.stop_checked(true);
    match w.next_action() {
        Action::Report(c) => c,
        other => panic!("worker did not finish: {:?}", other),
    }
}

#[test]
fn no_connections_sleeps_stops_and_returns_zero() {
    let mut d = Driver::new(0, 3);
    assert_eq!(d.phase(), DriverPhase::Sleeping);
    assert_eq!(d.next_action(), DriverAction::Sleep(3));
    d.slept();
    assert_eq!(d.next_action(), DriverAction::RaiseStop);
    d.stop_raised();
    let zero = BenchResult { total_requests: 0, total_responses: 0 };
    assert_eq!(d.next_action(), DriverAction::Finish(zero));
    assert_eq!(d.result(), Some(zero));
}

#[test]
fn spawns_exactly_the_configured_workers() {
    let mut d = Driver::new(5, 1);
    let mut spawned = 0;
    while d.next_action() == DriverAction::SpawnWorker {
        d.worker_spawned();
        spawned += 1;
    }
    assert_eq!(spawned, 5);
    assert_eq!(d.phase(), DriverPhase::Sleeping);
}

#[test]
fn echo_peer_four_connections_totals_are_sums() {
    let counts = vec![
        echo_worker(64, 1000, false),
        echo_worker(64, 900, true),
        echo_worker(64, 1100, true),
        echo_worker(64, 950, false),
    ];
    let mut d = Driver::new(4, 2);
    assert_eq!(d.connection_count(), 4);
    run_until_collecting(&mut d);
    for c in &counts {
        assert_eq!(d.next_action(), DriverAction::ReceiveCount);
        assert_eq!(d.result(), None);
        d.count_received(*c);
    }
    let r = d.result().unwrap();
    assert_eq!(r, BenchResult { total_requests: 3952, total_responses: 3950 });
    assert!(r.total_requests >= r.total_responses);
    assert!(r.total_requests - r.total_responses <= 4);
    assert!(r.total_responses > 0);
    assert_eq!(aggregate(&counts), Some(r));
}

#[test]
fn closed_peer_gives_zero_totals() {
    let mut d = Driver::new(3, 1);
    run_until_collecting(&mut d);
    for _ in 0..3 {
        let mut w = Worker::new(64);
        w.stop_checked(false);
        w.write_done(false);
        d.count_received(w.count());
    }
    assert_eq!(d.result(), Some(BenchResult { total_requests: 0, total_responses: 0 }));
}

#[test]
fn short_echo_peer_gives_one_request_per_worker() {
    let mut d = Driver::new(2, 1);
    run_until_collecting(&mut d);
    for _ in 0..2 {
        let mut w = Worker::new(64);
        w.stop_checked(false);
        w.write_done(true);
        w.stop_checked(false);
        w.read_done(Some(63));
        d.count_received(w.count());
    }
    assert_eq!(d.result(), Some(BenchResult { total_requests: 2, total_responses: 0 }));
}

#[test]
fn overflowing_totals_abort() {
    let mut d = Driver::new(2, 1);
    run_until_collecting(&mut d);
    d.count_received(Count { requests_sent: u64::MAX, responses_received: 1 });
    assert_eq!(d.phase(), DriverPhase::Collecting);
    d.count_received(Count { requests_sent: 1, responses_received: 1 });
    assert_eq!(d.phase(), DriverPhase::Overflowed);
    assert_eq!(d.next_action(), DriverAction::Abort);
    assert_eq!(d.result(), None);
}

#[test]
fn aggregate_sums_counts() {
    let counts = vec![
        Count { requests_sent: 3, responses_received: 2 },
        Count { requests_sent: 7, responses_received: 7 },
    ];
    assert_eq!(aggregate(&counts), Some(BenchResult { total_requests: 10, total_responses: 9 }));
    assert_eq!(aggregate(&Vec::new()), Some(BenchResult { total_requests: 0, total_responses: 0 }));
}

#[test]
fn aggregate_refuses_overflow() {
    let counts = vec![
        Count { requests_sent: 1, responses_received: u64::MAX },
        Count { requests_sent: 1, responses_received: 1 },
    ];
    assert_eq!(aggregate(&counts), None);
    let fits = vec![Count { requests_sent: u64::MAX, responses_received: u64::MAX }];
    assert_eq!(
        aggregate(&fits),
        Some(BenchResult { total_requests: u64::MAX, total_responses: u64::MAX })
    );
}
