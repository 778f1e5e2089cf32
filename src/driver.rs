//! The benchmark driver: one pass of spawning workers, waiting, raising the
//! stop signal and summing the workers' counts.
//!
//! Threads, the clock and the channel belong to the caller. The driver says
//! which step comes next (`next_action`) and takes each step's completion.
use crate::worker::Count;
use vstd::prelude::*;

verus! {

/// The totals of a run.
#[derive(Clone, Copy, Debug, PartialEq, Eq, Structural)]
pub struct BenchResult {
    pub total_requests: u64,
    pub total_responses: u64,
}

/// The sum of the requests sent over a sequence of counts.
pub open spec fn sum_requests(s: Seq<Count>) -> nat
    decreases s.len(),
{
    if s.len() == 0 {
        0
    } else {
        sum_requests(s.drop_last()) + s.last().requests_sent as nat
    }
}

/// The sum of the responses received over a sequence of counts.
pub open spec fn sum_responses(s: Seq<Count>) -> nat
    decreases s.len(),
{
    if s.len() == 0 {
        0
    } else {
        sum_responses(s.drop_last()) + s.last().responses_received as nat
    }
}

/// True when both sums over `s` fit in a `u64`.
pub open spec fn sums_fit(s: Seq<Count>) -> bool {
    sum_requests(s) <= u64::MAX && sum_responses(s) <= u64::MAX
}

/// The result whose totals are the sums over `s`.
pub open spec fn spec_totals(s: Seq<Count>) -> BenchResult {
    BenchResult {
        total_requests: sum_requests(s) as u64,
        total_responses: sum_responses(s) as u64,
    }
}

/// A pass over no workers collects no counts, and its totals are zero.
pub proof fn no_counts_zero_totals()
    ensures
        sums_fit(Seq::<Count>::empty()),
        spec_totals(Seq::<Count>::empty()) == (BenchResult { total_requests: 0, total_responses: 0 }),
{
}

proof fn sums_of_prefix_fit(s: Seq<Count>, i: int)
    requires
        0 <= i <= s.len(),
    ensures
        sum_requests(s.take(i)) <= sum_requests(s),
        sum_responses(s.take(i)) <= sum_responses(s),
    decreases s.len() - i,
{
    if i < s.len() {
        sums_of_prefix_fit(s, i + 1);
        assert(s.take(i + 1).drop_last() =~= s.take(i));
    } else {
        assert(s.take(i) =~= s);
    }
}

/// Sums a set of counts. `None` exactly when a total does not fit in a `u64`.
pub fn aggregate(counts: &Vec<Count>) -> (r: Option<BenchResult>)
    ensures
        r is Some <==> sums_fit(counts@),
        r is Some ==> r->Some_0 == spec_totals(counts@),
{
    let mut requests: u64 = 0;
    let mut responses: u64 = 0;
    let mut i: usize = 0;
    while i < counts.len()
        invariant
            i <= counts@.len(),
            requests == sum_requests(counts@.take(i as int)),
            responses == sum_responses(counts@.take(i as int)),
        decreases counts@.len() - i,
    {
        let c = counts[i];
        proof {
            assert(counts@.take(i + 1).drop_last() =~= counts@.take(i as int));
            sums_of_prefix_fit(counts@, i + 1);
        }
        match (requests.checked_add(c.requests_sent), responses.checked_add(c.responses_received)) {
            (Some(a), Some(b)) => {
                requests = a;
                responses = b;
            },
            _ => {
                return None;
            },
        }
        i = i + 1;
    }
    assert(counts@.take(i as int) =~= counts@);
    Some(BenchResult { total_requests: requests, total_responses: responses })
}

/// Where a pass stands.
#[derive(Clone, Copy, Debug, PartialEq, Eq, Structural)]
pub enum DriverPhase {
    /// Workers are still to be spawned.
    Spawning,
    /// All workers run; the driver is to wait for the run's duration.
    Sleeping,
    /// The duration has passed; the stop signal is to be raised.
    Stopping,
    /// Counts are to be received, one per worker.
    Collecting,
    /// Every count has come in and the totals are final.
    Done,
    /// A total grew past the largest `u64`.
    Overflowed,
}

/// The step the caller is to perform next.
#[derive(Clone, Copy, Debug, PartialEq, Eq, Structural)]
pub enum DriverAction {
    /// Start one more worker.
    SpawnWorker,
    /// Wait this many seconds.
    Sleep(u64),
    /// Raise the shared stop signal.
    RaiseStop,
    /// Wait for the next worker's count.
    ReceiveCount,
    /// The pass is over with these totals.
    Finish(BenchResult),
    /// The pass is over and its totals do not fit.
    Abort,
}

/// The state of one benchmark pass.
pub struct Driver {
    connection_count: u32,
    duration_seconds: u64,
    spawned: u32,
    collected: u32,
    totals: BenchResult,
    phase: DriverPhase,
    received: Ghost<Seq<Count>>,
}

impl Driver {
    pub closed spec fn workers(&self) -> nat {
        self.connection_count as nat
    }

    pub closed spec fn duration(&self) -> nat {
        self.duration_seconds as nat
    }

    pub closed spec fn spawned_so_far(&self) -> nat {
        self.spawned as nat
    }

    /// The counts received so far, in arrival order.
    pub closed spec fn counts(&self) -> Seq<Count> {
        self.received@
    }

    pub closed spec fn state(&self) -> DriverPhase {
        self.phase
    }

    pub closed spec fn wf(&self) -> bool {
        &&& self.spawned <= self.connection_count
        &&& self.phase == DriverPhase::Spawning ==> self.spawned < self.connection_count
        &&& self.phase != DriverPhase::Spawning ==> self.spawned == self.connection_count
        &&& self.received@.len() <= self.connection_count
        &&& self.collected == self.received@.len()
        &&& (self.phase == DriverPhase::Spawning || self.phase == DriverPhase::Sleeping
            || self.phase == DriverPhase::Stopping) ==> self.received@.len() == 0
        &&& self.phase == DriverPhase::Collecting ==> self.received@.len()
            < self.connection_count
        &&& self.phase == DriverPhase::Done ==> self.received@.len() == self.connection_count
        &&& self.phase != DriverPhase::Overflowed ==> sums_fit(self.received@)
            && self.totals == spec_totals(self.received@)
    }

    /// A pass over `connection_count` workers lasting `duration_seconds`.
    /// With no workers to start, the pass begins with its wait.
    pub fn new(connection_count: u32, duration_seconds: u64) -> (r: Driver)
        ensures
            r.wf(),
            r.workers() == connection_count,
            r.duration() == duration_seconds,
            r.spawned_so_far() == 0,
            r.counts() == Seq::<Count>::empty(),
            r.state() == if connection_count == 0 {
                DriverPhase::Sleeping
            } else {
                DriverPhase::Spawning
            },
    {
        let phase = if connection_count == 0 {
            DriverPhase::Sleeping
        } else {
            DriverPhase::Spawning
        };
        let d = Driver {
            connection_count,
            duration_seconds,
            spawned: 0,
            collected: 0,
            totals: BenchResult { total_requests: 0, total_responses: 0 },
            phase,
            received: Ghost(Seq::empty()),
        };
        assert(d.received@ =~= Seq::<Count>::empty());
        d
    }

    pub fn phase(&self) -> (r: DriverPhase)
        ensures
            r == self.state(),
    {
        self.phase
    }

    pub fn connection_count(&self) -> (r: u32)
        ensures
            r == self.workers(),
    {
        self.connection_count
    }

    pub fn duration_seconds(&self) -> (r: u64)
        ensures
            r == self.duration(),
    {
        self.duration_seconds
    }

    /// The step the caller is to perform next.
    pub fn next_action(&self) -> (r: DriverAction)
        requires
            self.wf(),
        ensures
            self.state() == DriverPhase::Spawning <==> r == DriverAction::SpawnWorker,
            self.state() == DriverPhase::Sleeping <==> r == DriverAction::Sleep(
                self.duration() as u64,
            ),
            self.state() == DriverPhase::Stopping <==> r == DriverAction::RaiseStop,
            self.state() == DriverPhase::Collecting <==> r == DriverAction::ReceiveCount,
            self.state() == DriverPhase::Done <==> r == DriverAction::Finish(
                spec_totals(self.counts()),
            ),
            self.state() == DriverPhase::Overflowed <==> r == DriverAction::Abort,
    {
        match self.phase {
            DriverPhase::Spawning => DriverAction::SpawnWorker,
            DriverPhase::Sleeping => DriverAction::Sleep(self.duration_seconds),
            DriverPhase::Stopping => DriverAction::RaiseStop,
            DriverPhase::Collecting => DriverAction::ReceiveCount,
            DriverPhase::Done => DriverAction::Finish(self.totals),
            DriverPhase::Overflowed => DriverAction::Abort,
        }
    }

    /// One more worker has been started. After the last one the wait begins.
    pub fn worker_spawned(&mut self)
        requires
            old(self).wf(),
            old(self).state() == DriverPhase::Spawning,
        ensures
            final(self).wf(),
            final(self).workers() == old(self).workers(),
            final(self).duration() == old(self).duration(),
            final(self).counts() == old(self).counts(),
            final(self).spawned_so_far() == old(self).spawned_so_far() + 1,
            final(self).state() == if final(self).spawned_so_far() == final(self).workers() {
                DriverPhase::Sleeping
            } else {
                DriverPhase::Spawning
            },
    {
        self.spawned = self.spawned + 1;
        if self.spawned == self.connection_count {
            self.phase = DriverPhase::Sleeping;
        }
    }

    /// The run's duration has passed; the stop signal is to be raised next.
    pub fn slept(&mut self)
        requires
            old(self).wf(),
            old(self).state() == DriverPhase::Sleeping,
        ensures
            final(self).wf(),
            final(self).workers() == old(self).workers(),
            final(self).duration() == old(self).duration(),
            final(self).spawned_so_far() == old(self).spawned_so_far(),
            final(self).counts() == old(self).counts(),
            final(self).state() == DriverPhase::Stopping,
    {
        self.phase = DriverPhase::Stopping;
    }

    /// The stop signal has been raised. Counts are collected next; with no
    /// workers there is none to wait for and the pass is over with zero
    /// totals. The driver never asks for the signal to be raised again.
    pub fn stop_raised(&mut self)
        requires
            old(self).wf(),
            old(self).state() == DriverPhase::Stopping,
        ensures
            final(self).wf(),
            final(self).workers() == old(self).workers(),
            final(self).duration() == old(self).duration(),
            final(self).spawned_so_far() == old(self).spawned_so_far(),
            final(self).counts() == old(self).counts(),
            final(self).state() == if old(self).workers() == 0 {
                DriverPhase::Done
            } else {
                DriverPhase::Collecting
            },
    {
        if self.connection_count == 0 {
            self.phase = DriverPhase::Done;
        } else {
            self.phase = DriverPhase::Collecting;
        }
    }

    /// A worker's count has arrived. It is added to the totals; after the
    /// last worker's count the pass is over.
    pub fn count_received(&mut self, c: Count)
        requires
            old(self).wf(),
            old(self).state() == DriverPhase::Collecting,
        ensures
            final(self).wf(),
            final(self).workers() == old(self).workers(),
            final(self).duration() == old(self).duration(),
            final(self).spawned_so_far() == old(self).spawned_so_far(),
            final(self).counts() == old(self).counts().push(c),
            final(self).state() == if !sums_fit(final(self).counts()) {
                DriverPhase::Overflowed
            } else if final(self).counts().len() == final(self).workers() {
                DriverPhase::Done
            } else {
                DriverPhase::Collecting
            },
    {
        let ghost before = self.received@;
        self.received = Ghost(self.received@.push(c));
        self.collected = self.collected + 1;
        proof {
            assert(self.received@.drop_last() =~= before);
        }
        match (
            self.totals.total_requests.checked_add(c.requests_sent),
            self.totals.total_responses.checked_add(c.responses_received),
        ) {
            (Some(a), Some(b)) => {
                self.totals = BenchResult { total_requests: a, total_responses: b };
                if self.collected == self.connection_count {
                    self.phase = DriverPhase::Done;
                }
            },
            _ => {
                self.phase = DriverPhase::Overflowed;
            },
        }
    }

    /// The totals of a finished pass: the sums over exactly one count per
    /// worker. `None` while the pass is not over, or when it overflowed.
    pub fn result(&self) -> (r: Option<BenchResult>)
        requires
            self.wf(),
        ensures
            r is Some <==> self.state() == DriverPhase::Done,
            r is Some ==> self.counts().len() == self.workers(),
            r is Some ==> sums_fit(self.counts()),
            r is Some ==> r->Some_0 == spec_totals(self.counts()),
    {
        match self.phase {
            DriverPhase::Done => Some(self.totals),
            _ => None,
        }
    }
}

} // verus!
