//! Rates derived from a run's totals.
use crate::driver::BenchResult;
use vstd::prelude::*;

verus! {

/// Whole events per second over a run of `seconds`; `None` for a run of no
/// time, which has no rate.
pub fn per_second(total: u64, seconds: u64) -> (r: Option<u64>)
    ensures
        r is None <==> seconds == 0,
        r is Some ==> r->Some_0 == total / seconds,
{
    if seconds == 0 {
        None
    } else {
        Some(total / seconds)
    }
}

/// Requests and responses per second over a run.
#[derive(Clone, Copy, Debug, PartialEq, Eq, Structural)]
pub struct Throughput {
    pub requests_per_sec: Option<u64>,
    pub responses_per_sec: Option<u64>,
}

/// The rates of a run of `seconds` with the totals in `result`.
pub fn throughput(result: BenchResult, seconds: u64) -> (r: Throughput)
    ensures
        seconds == 0 ==> r.requests_per_sec is None && r.responses_per_sec is None,
        seconds > 0 ==> r.requests_per_sec == Some((result.total_requests / seconds) as u64),
        seconds > 0 ==> r.responses_per_sec == Some((result.total_responses / seconds) as u64),
{
    Throughput {
        requests_per_sec: per_second(result.total_requests, seconds),
        responses_per_sec: per_second(result.total_responses, seconds),
    }
}

} // verus!
