//! One connection's request/response loop, as a state machine.
//!
//! The caller owns the connection. It asks the worker what to do next
//! (`next_action`), performs that step (reading the stop signal, writing the
//! outbound message, reading a response), and hands the outcome back. The
//! worker decides when the loop ends and keeps the counters.
use vstd::prelude::*;

verus! {

/// The byte that closes every outbound message.
pub const TERMINATOR: u8 = 10;

/// A worker's tally.
#[derive(Clone, Copy, Debug, PartialEq, Eq, Structural)]
pub struct Count {
    pub requests_sent: u64,
    pub responses_received: u64,
}

impl Count {
    pub fn zero() -> (r: Count)
        ensures
            r.requests_sent == 0,
            r.responses_received == 0,
    {
        Count { requests_sent: 0, responses_received: 0 }
    }

    /// Every response was preceded by its request, and at most one request
    /// is still waiting for its response.
    pub open spec fn lockstep(self) -> bool {
        &&& self.responses_received <= self.requests_sent
        &&& self.requests_sent <= self.responses_received + 1
    }
}

/// Why a worker's loop ended.
#[derive(Clone, Copy, Debug, PartialEq, Eq, Structural)]
pub enum Exit {
    /// The stop signal was seen raised.
    Stopped,
    /// Writing the outbound message failed.
    WriteFailed,
    /// Reading failed: an I/O error, the peer closed, or a short read.
    ReadFailed,
    /// The request counter reached its largest value.
    CounterFull,
}

/// Where a worker stands in its loop.
#[derive(Clone, Copy, Debug, PartialEq, Eq, Structural)]
pub enum Phase {
    /// The stop signal is to be read before the next write.
    BeforeWrite,
    /// The outbound message is to be written.
    Writing,
    /// The stop signal is to be read before the next read.
    BeforeRead,
    /// A response is to be read.
    Reading,
    /// The loop has ended; the count is to be reported.
    Finished(Exit),
}

/// What the caller is to do next on the worker's behalf.
#[derive(Clone, Copy, Debug, PartialEq, Eq, Structural)]
pub enum Action {
    CheckStop,
    Write,
    Read,
    Report(Count),
}

/// The state of one connection worker.
pub struct Worker {
    message_length: usize,
    count: Count,
    phase: Phase,
}

/// True when a read of `bytes_read` bytes is a full response to a message of
/// `length` bytes.
pub open spec fn spec_response_complete(bytes_read: nat, length: nat) -> bool {
    bytes_read != 0 && bytes_read == length
}

/// Decides whether a read that returned `bytes_read` bytes is a full response.
pub fn response_complete(bytes_read: usize, length: usize) -> (r: bool)
    ensures
        r == spec_response_complete(bytes_read as nat, length as nat),
{
    bytes_read != 0 && bytes_read == length
}

/// The message every request sends: `length` bytes, all zero but the last,
/// which is the terminator.
pub open spec fn spec_outbound(length: nat) -> Seq<u8> {
    Seq::new((length - 1) as nat, |i: int| 0u8).push(TERMINATOR)
}

/// Builds the outbound message for messages of `length` bytes.
pub fn outbound_message(length: usize) -> (r: Vec<u8>)
    requires
        length >= 1,
    ensures
        r@ == spec_outbound(length as nat),
{
    let mut buf: Vec<u8> = Vec::new();
    let mut i: usize = 0;
    while i + 1 < length
        invariant
            i + 1 <= length,
            buf@ == Seq::new(i as nat, |j: int| 0u8),
        decreases length - i,
    {
        buf.push(0u8);
        i = i + 1;
        assert(buf@ =~= Seq::new(i as nat, |j: int| 0u8));
    }
    buf.push(TERMINATOR);
    assert(buf@ =~= spec_outbound(length as nat));
    buf
}

/// A one-byte message is the terminator alone, and a full response to it is
/// a single byte.
pub proof fn one_byte_message()
    ensures
        spec_outbound(1) == seq![TERMINATOR],
        spec_response_complete(1, 1),
        !spec_response_complete(0, 1),
{
    assert(spec_outbound(1) =~= seq![TERMINATOR]);
}

impl Worker {
    pub closed spec fn length(&self) -> nat {
        self.message_length as nat
    }

    pub closed spec fn tally(&self) -> Count {
        self.count
    }

    pub closed spec fn state(&self) -> Phase {
        self.phase
    }

    /// The counters agree with the phase: between a write and the next
    /// response exactly one request is outstanding, otherwise none.
    pub closed spec fn wf(&self) -> bool {
        &&& self.message_length >= 1
        &&& self.count.lockstep()
        &&& (self.phase == Phase::BeforeWrite || self.phase == Phase::Writing)
            ==> self.count.requests_sent == self.count.responses_received
        &&& (self.phase == Phase::BeforeRead || self.phase == Phase::Reading)
            ==> self.count.requests_sent == self.count.responses_received + 1
        &&& self.phase == Phase::Writing ==> self.count.requests_sent < u64::MAX
    }

    /// Whatever steps a worker has taken, and in particular once its loop has
    /// ended, it has recorded no response without its request and has at
    /// most one request without its response.
    pub proof fn count_in_lockstep(&self)
        requires
            self.wf(),
        ensures
            self.tally().responses_received <= self.tally().requests_sent,
            self.tally().requests_sent - self.tally().responses_received <= 1,
    {
    }

    /// A worker for messages of `message_length` bytes, with zero counts,
    /// about to check the stop signal.
    pub fn new(message_length: usize) -> (r: Worker)
        requires
            message_length >= 1,
        ensures
            r.wf(),
            r.length() == message_length,
            r.tally() == (Count { requests_sent: 0, responses_received: 0 }),
            r.state() == Phase::BeforeWrite,
    {
        Worker { message_length, count: Count::zero(), phase: Phase::BeforeWrite }
    }

    pub fn message_length(&self) -> (r: usize)
        ensures
            r == self.length(),
    {
        self.message_length
    }

    pub fn phase(&self) -> (r: Phase)
        ensures
            r == self.state(),
    {
        self.phase
    }

    pub fn is_finished(&self) -> (r: bool)
        ensures
            r == (self.state() is Finished),
    {
        match self.phase {
            Phase::Finished(_) => true,
            _ => false,
        }
    }

    /// The counts so far; once the loop has ended, the count to report.
    pub fn count(&self) -> (r: Count)
        requires
            self.wf(),
        ensures
            r == self.tally(),
            r.responses_received <= r.requests_sent,
            r.requests_sent - r.responses_received <= 1,
    {
        self.count
    }

    /// The step the caller is to perform next.
    pub fn next_action(&self) -> (r: Action)
        ensures
            (self.state() == Phase::BeforeWrite || self.state() == Phase::BeforeRead)
                <==> r == Action::CheckStop,
            self.state() == Phase::Writing <==> r == Action::Write,
            self.state() == Phase::Reading <==> r == Action::Read,
            self.state() is Finished <==> r == Action::Report(self.tally()),
    {
        match self.phase {
            Phase::BeforeWrite => Action::CheckStop,
            Phase::BeforeRead => Action::CheckStop,
            Phase::Writing => Action::Write,
            Phase::Reading => Action::Read,
            Phase::Finished(_) => Action::Report(self.count),
        }
    }

    /// Takes the value of the stop signal read at a check point. A raised
    /// signal ends the loop; otherwise the write (or the read) comes next.
    /// A worker whose request counter cannot grow any more ends its loop
    /// rather than send a request it cannot count.
    pub fn stop_checked(&mut self, raised: bool)
        requires
            old(self).wf(),
            old(self).state() == Phase::BeforeWrite || old(self).state() == Phase::BeforeRead,
        ensures
            final(self).wf(),
            final(self).length() == old(self).length(),
            final(self).tally() == old(self).tally(),
            raised ==> final(self).state() == Phase::Finished(Exit::Stopped),
            !raised && old(self).state() == Phase::BeforeRead ==> final(self).state()
                == Phase::Reading,
            !raised && old(self).state() == Phase::BeforeWrite ==> final(self).state() == (
            if old(self).tally().requests_sent == u64::MAX {
                Phase::Finished(Exit::CounterFull)
            } else {
                Phase::Writing
            }),
    {
        if raised {
            self.phase = Phase::Finished(Exit::Stopped);
        } else if self.phase == Phase::BeforeRead {
            self.phase = Phase::Reading;
        } else if self.count.requests_sent == u64::MAX {
            self.phase = Phase::Finished(Exit::CounterFull);
        } else {
            self.phase = Phase::Writing;
        }
    }

    /// Takes the outcome of writing the whole outbound message. Success counts
    /// a request; failure ends the loop.
    pub fn write_done(&mut self, ok: bool)
        requires
            old(self).wf(),
            old(self).state() == Phase::Writing,
        ensures
            final(self).wf(),
            final(self).length() == old(self).length(),
            final(self).tally().responses_received == old(self).tally().responses_received,
            ok ==> final(self).tally().requests_sent == old(self).tally().requests_sent + 1,
            ok ==> final(self).state() == Phase::BeforeRead,
            !ok ==> final(self).tally() == old(self).tally(),
            !ok ==> final(self).state() == Phase::Finished(Exit::WriteFailed),
    {
        if ok {
            self.count.requests_sent = self.count.requests_sent + 1;
            self.phase = Phase::BeforeRead;
        } else {
            self.phase = Phase::Finished(Exit::WriteFailed);
        }
    }

    /// Takes the outcome of a read: the number of bytes read, or `None` for an
    /// I/O error. A full response counts one; anything else ends the loop.
    pub fn read_done(&mut self, bytes_read: Option<usize>)
        requires
            old(self).wf(),
            old(self).state() == Phase::Reading,
        ensures
            final(self).wf(),
            final(self).length() == old(self).length(),
            final(self).tally().requests_sent == old(self).tally().requests_sent,
            ({
                let full = match bytes_read {
                    Some(m) => spec_response_complete(m as nat, old(self).length()),
                    None => false,
                };
                &&& full ==> final(self).tally().responses_received
                    == old(self).tally().responses_received + 1
                &&& full ==> final(self).state() == Phase::BeforeWrite
                &&& !full ==> final(self).tally() == old(self).tally()
                &&& !full ==> final(self).state() == Phase::Finished(Exit::ReadFailed)
            }),
    {
        let full = match bytes_read {
            Some(m) => response_complete(m, self.message_length),
            None => false,
        };
        if full {
            self.count.responses_received = self.count.responses_received + 1;
            self.phase = Phase::BeforeWrite;
        } else {
            self.phase = Phase::Finished(Exit::ReadFailed);
        }
    }
}

} // verus!
