use vstd::prelude::*;

verus! {

/// The status a successful fetch must carry.
pub const STATUS_OK: u16 = 200;

/// Why a benchmark run failed. Every one of them is fatal for the whole run.
#[derive(Clone, Copy, Debug, PartialEq, Eq, Structural)]
pub enum BenchError {
    /// The storage client could not complete a fetch.
    Transport,
    /// A fetch came back with a status other than success.
    UnexpectedStatus(u16),
    /// A byte or latency total no longer fits its counter.
    CounterOverflow,
    /// A worker did not hand back its result (it panicked or was never joined).
    WorkerLost,
}

/// What one completed fetch reported.
#[derive(Clone, Copy, Debug, PartialEq, Eq, Structural)]
pub struct Sample {
    pub status: u16,
    pub body_len: u64,
    pub first_byte_nanos: u64,
    pub last_byte_nanos: u64,
}

/// The totals one worker accumulates over the units it claimed.
#[derive(Clone, Copy, Debug, PartialEq, Eq, Structural)]
pub struct WorkerResult {
    pub fetches: u64,
    pub bytes: u64,
    pub first_byte_nanos: u64,
    pub last_byte_nanos: u64,
}

/// Whether adding `s` to the totals `w` keeps every counter in range.
pub open spec fn fits(w: WorkerResult, s: Sample) -> bool {
    &&& w.fetches + 1 <= u64::MAX
    &&& w.bytes + s.body_len <= u64::MAX
    &&& w.first_byte_nanos + s.first_byte_nanos <= u64::MAX
    &&& w.last_byte_nanos + s.last_byte_nanos <= u64::MAX
}

/// The totals `w` with the sample `s` added.
pub open spec fn add_sample(w: WorkerResult, s: Sample) -> WorkerResult {
    WorkerResult {
        fetches: (w.fetches + 1) as u64,
        bytes: (w.bytes + s.body_len) as u64,
        first_byte_nanos: (w.first_byte_nanos + s.first_byte_nanos) as u64,
        last_byte_nanos: (w.last_byte_nanos + s.last_byte_nanos) as u64,
    }
}

/// What recording the outcome of one fetch does: a failed fetch, or one
/// without a success status, is fatal; otherwise its counters are added.
pub open spec fn record_spec(w: WorkerResult, fetched: Result<Sample, BenchError>) -> Result<
    WorkerResult,
    BenchError,
> {
    match fetched {
        Err(e) => Err(e),
        Ok(s) => if s.status != STATUS_OK {
            Err(BenchError::UnexpectedStatus(s.status))
        } else if !fits(w, s) {
            Err(BenchError::CounterOverflow)
        } else {
            Ok(add_sample(w, s))
        },
    }
}

/// Succeeds exactly on the success status.
pub fn check_status(status: u16) -> (r: Result<(), BenchError>)
    ensures
        r == if status == STATUS_OK {
            Ok::<(), BenchError>(())
        } else {
            Err(BenchError::UnexpectedStatus(status))
        },
{
    if status == STATUS_OK {
        Ok(())
    } else {
        Err(BenchError::UnexpectedStatus(status))
    }
}

impl WorkerResult {
    /// The totals of a worker that has fetched nothing yet.
    pub fn new() -> (r: WorkerResult)
        ensures
            r == (WorkerResult { fetches: 0, bytes: 0, first_byte_nanos: 0, last_byte_nanos: 0 }),
    {
        WorkerResult { fetches: 0, bytes: 0, first_byte_nanos: 0, last_byte_nanos: 0 }
    }

    /// Records the outcome of one fetch. On success the totals grow by the
    /// sample; on any error they are left as they were and the error is
    /// returned, which ends the worker and fails the run.
    pub fn record(&mut self, fetched: Result<Sample, BenchError>) -> (r: Result<(), BenchError>)
        ensures
            match record_spec(*old(self), fetched) {
                Ok(w) => r is Ok && *final(self) == w,
                Err(e) => r == Err::<(), BenchError>(e) && *final(self) == *old(self),
            },
    {
        let s = match fetched {
            Err(e) => return Err(e),
            Ok(s) => s,
        };
        check_status(s.status)?;
        if self.fetches == u64::MAX || self.bytes > u64::MAX - s.body_len
            || self.first_byte_nanos > u64::MAX - s.first_byte_nanos
            || self.last_byte_nanos > u64::MAX - s.last_byte_nanos {
            return Err(BenchError::CounterOverflow);
        }
        self.fetches = self.fetches + 1;
        self.bytes = self.bytes + s.body_len;
        self.first_byte_nanos = self.first_byte_nanos + s.first_byte_nanos;
        self.last_byte_nanos = self.last_byte_nanos + s.last_byte_nanos;
        Ok(())
    }
}

} // verus!
