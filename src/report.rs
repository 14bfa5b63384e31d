use vstd::prelude::*;
use crate::worker::{BenchError, WorkerResult};

verus! {

/// Bytes in one megabyte, as throughput is reported.
pub const BYTES_PER_MB: u64 = 1048576;

/// Nanoseconds in one second.
pub const NANOS_PER_SEC: u128 = 1000000000;

/// The aggregate of one run: every worker's totals summed, with the wall
/// time measured once around the whole run.
#[derive(Clone, Copy, Debug, PartialEq, Eq, Structural)]
pub struct RunReport {
    pub workers: u64,
    pub samples: u32,
    pub elapsed_nanos: u64,
    pub fetches: u64,
    pub total_bytes: u64,
    pub total_first_byte_nanos: u64,
    pub total_last_byte_nanos: u64,
}

/// Sum of the fetch counts of `rs`.
pub open spec fn sum_fetches(rs: Seq<WorkerResult>) -> nat
    decreases rs.len(),
{
    if rs.len() == 0 { 0 } else { (sum_fetches(rs.drop_last()) + rs.last().fetches) as nat }
}

/// Sum of the byte counts of `rs`.
pub open spec fn sum_bytes(rs: Seq<WorkerResult>) -> nat
    decreases rs.len(),
{
    if rs.len() == 0 { 0 } else { (sum_bytes(rs.drop_last()) + rs.last().bytes) as nat }
}

/// Sum of the first-byte latencies of `rs`.
pub open spec fn sum_first(rs: Seq<WorkerResult>) -> nat
    decreases rs.len(),
{
    if rs.len() == 0 { 0 } else { (sum_first(rs.drop_last()) + rs.last().first_byte_nanos) as nat }
}

/// Sum of the last-byte latencies of `rs`.
pub open spec fn sum_last(rs: Seq<WorkerResult>) -> nat
    decreases rs.len(),
{
    if rs.len() == 0 { 0 } else { (sum_last(rs.drop_last()) + rs.last().last_byte_nanos) as nat }
}

/// Whether every sum over `rs` fits a `u64` counter.
pub open spec fn sums_fit(rs: Seq<WorkerResult>) -> bool {
    &&& sum_fetches(rs) <= u64::MAX
    &&& sum_bytes(rs) <= u64::MAX
    &&& sum_first(rs) <= u64::MAX
    &&& sum_last(rs) <= u64::MAX
}

/// The index of the first failed worker of `outcomes`, if any.
pub open spec fn first_failure(outcomes: Seq<Result<WorkerResult, BenchError>>) -> Option<int>
    decreases outcomes.len(),
{
    if outcomes.len() == 0 {
        None
    } else {
        match first_failure(outcomes.drop_last()) {
            Some(i) => Some(i),
            None => if outcomes.last() is Err { Some(outcomes.len() - 1) } else { None },
        }
    }
}

/// The results of workers that all succeeded.
pub open spec fn successes(outcomes: Seq<Result<WorkerResult, BenchError>>) -> Seq<WorkerResult> {
    outcomes.map_values(|o: Result<WorkerResult, BenchError>| o->Ok_0)
}

/// The report of one run, or why it failed: a missing worker, then the first
/// failed worker, then a total that does not fit.
pub open spec fn run_report_spec(
    workers: u64,
    samples: u32,
    outcomes: Seq<Result<WorkerResult, BenchError>>,
    elapsed_nanos: u64,
) -> Result<RunReport, BenchError> {
    if outcomes.len() != workers {
        Err(BenchError::WorkerLost)
    } else if let Some(i) = first_failure(outcomes) {
        Err(outcomes[i]->Err_0)
    } else if !sums_fit(successes(outcomes)) {
        Err(BenchError::CounterOverflow)
    } else {
        let rs = successes(outcomes);
        Ok(
            RunReport {
                workers,
                samples,
                elapsed_nanos,
                fetches: sum_fetches(rs) as u64,
                total_bytes: sum_bytes(rs) as u64,
                total_first_byte_nanos: sum_first(rs) as u64,
                total_last_byte_nanos: sum_last(rs) as u64,
            },
        )
    }
}

proof fn lemma_first_failure_bounds(outcomes: Seq<Result<WorkerResult, BenchError>>)
    ensures
        match first_failure(outcomes) {
            Some(i) => 0 <= i < outcomes.len() && outcomes[i] is Err && forall|j: int|
                0 <= j < i ==> #[trigger] outcomes[j] is Ok,
            None => forall|j: int| 0 <= j < outcomes.len() ==> #[trigger] outcomes[j] is Ok,
        },
    decreases outcomes.len(),
{
    if outcomes.len() > 0 {
        let prev = outcomes.drop_last();
        lemma_first_failure_bounds(prev);
        assert forall|j: int| 0 <= j < prev.len() implies prev[j] == outcomes[j] by {}
    }
}

proof fn lemma_sums_grow(rs: Seq<WorkerResult>, n: int)
    requires
        0 <= n <= rs.len(),
    ensures
        sum_fetches(rs.take(n)) <= sum_fetches(rs),
        sum_bytes(rs.take(n)) <= sum_bytes(rs),
        sum_first(rs.take(n)) <= sum_first(rs),
        sum_last(rs.take(n)) <= sum_last(rs),
    decreases rs.len(),
{
    if n < rs.len() {
        assert(rs.drop_last().take(n) =~= rs.take(n));
        lemma_sums_grow(rs.drop_last(), n);
    } else {
        assert(rs.take(n) =~= rs);
    }
}

/// Folds the outcomes of all workers of one run into its report. Any failed
/// worker fails the run: no partial report comes out of it.
pub fn summarize_run(
    workers: u64,
    samples: u32,
    outcomes: &Vec<Result<WorkerResult, BenchError>>,
    elapsed_nanos: u64,
) -> (r: Result<RunReport, BenchError>)
    ensures
        r == run_report_spec(workers, samples, outcomes@, elapsed_nanos),
{
    if outcomes.len() as u64 != workers {
        return Err(BenchError::WorkerLost);
    }
    let mut i: usize = 0;
    while i < outcomes.len()
        invariant
            0 <= i <= outcomes@.len(),
            outcomes@.len() == workers,
            forall|j: int| 0 <= j < i ==> #[trigger] outcomes@[j] is Ok,
        decreases outcomes@.len() - i,
    {
        if let Err(e) = &outcomes[i] {
            proof {
                lemma_first_failure_bounds(outcomes@);
                match first_failure(outcomes@) {
                    Some(k) => {
                        if k < i {
                            assert(outcomes@[k] is Ok);
                        } else if k > i {
                            assert(outcomes@[i as int] is Ok);
                        }
                    },
                    None => {
                        assert(outcomes@[i as int] is Ok);
                    },
                }
            }
            return Err(*e);
        }
        i = i + 1;
    }
    assert(first_failure(outcomes@) is None) by {
        lemma_first_failure_bounds(outcomes@);
        match first_failure(outcomes@) {
            Some(k) => { assert(outcomes@[k] is Ok); },
            None => {},
        }
    }
    let ghost rs = successes(outcomes@);
    let mut fetches: u64 = 0;
    let mut bytes: u64 = 0;
    let mut first: u64 = 0;
    let mut last: u64 = 0;
    let mut i: usize = 0;
    while i < outcomes.len()
        invariant
            0 <= i <= outcomes@.len(),
            rs == successes(outcomes@),
            rs.len() == outcomes@.len(),
            first_failure(outcomes@) is None,
            outcomes@.len() == workers,
            forall|j: int| 0 <= j < outcomes@.len() ==> #[trigger] outcomes@[j] is Ok,
            fetches == sum_fetches(rs.take(i as int)),
            bytes == sum_bytes(rs.take(i as int)),
            first == sum_first(rs.take(i as int)),
            last == sum_last(rs.take(i as int)),
        decreases outcomes@.len() - i,
    {
        let w = match &outcomes[i] {
            Ok(w) => *w,
            Err(_) => {
                assert(outcomes@[i as int] is Ok);
                return Err(BenchError::WorkerLost);
            },
        };
        proof {
            assert(rs[i as int] == w);
            assert(rs.take(i + 1).drop_last() =~= rs.take(i as int));
            assert(rs.take(i + 1).last() == w);
            lemma_sums_grow(rs, i + 1);
        }
        if fetches > u64::MAX - w.fetches || bytes > u64::MAX - w.bytes
            || first > u64::MAX - w.first_byte_nanos || last > u64::MAX - w.last_byte_nanos {
            return Err(BenchError::CounterOverflow);
        }
        fetches = fetches + w.fetches;
        bytes = bytes + w.bytes;
        first = first + w.first_byte_nanos;
        last = last + w.last_byte_nanos;
        i = i + 1;
    }
    assert(rs.take(i as int) =~= rs);
    Ok(
        RunReport {
            workers,
            samples,
            elapsed_nanos,
            fetches,
            total_bytes: bytes,
            total_first_byte_nanos: first,
            total_last_byte_nanos: last,
        },
    )
}


impl RunReport {
    /// Whole megabytes transferred.
    pub fn megabytes(&self) -> (r: u64)
        ensures
            r == self.total_bytes / BYTES_PER_MB,
    {
        self.total_bytes / BYTES_PER_MB
    }

    /// Throughput in bytes per second, rounded down: total bytes over the
    /// run's wall time. None when no time was measured.
    pub fn bytes_per_second(&self) -> (r: Option<u128>)
        ensures
            self.elapsed_nanos == 0 ==> r is None,
            self.elapsed_nanos > 0 ==> r == Some(
                (self.total_bytes * NANOS_PER_SEC / self.elapsed_nanos as int) as u128,
            ),
    {
        if self.elapsed_nanos == 0 {
            None
        } else {
            let b = self.total_bytes as u128;
            assert(b * NANOS_PER_SEC <= u64::MAX * NANOS_PER_SEC) by (nonlinear_arith)
                requires
                    b <= u64::MAX,
            ;
            Some(b * NANOS_PER_SEC / self.elapsed_nanos as u128)
        }
    }

    /// Average first-byte latency per sample. None when the run had no samples.
    pub fn avg_first_byte_nanos(&self) -> (r: Option<u64>)
        ensures
            r == if self.samples == 0 {
                None
            } else {
                Some((self.total_first_byte_nanos / self.samples as u64) as u64)
            },
    {
        if self.samples == 0 {
            None
        } else {
            Some(self.total_first_byte_nanos / self.samples as u64)
        }
    }

    /// Average last-byte latency per sample. None when the run had no samples.
    pub fn avg_last_byte_nanos(&self) -> (r: Option<u64>)
        ensures
            r == if self.samples == 0 {
                None
            } else {
                Some((self.total_last_byte_nanos / self.samples as u64) as u64)
            },
    {
        if self.samples == 0 {
            None
        } else {
            Some(self.total_last_byte_nanos / self.samples as u64)
        }
    }
}

/// A run in which any worker failed yields no report, only an error.
pub proof fn lemma_failed_worker_fails_run(
    workers: u64,
    samples: u32,
    outcomes: Seq<Result<WorkerResult, BenchError>>,
    elapsed_nanos: u64,
    i: int,
)
    requires
        0 <= i < outcomes.len(),
        outcomes[i] is Err,
    ensures
        run_report_spec(workers, samples, outcomes, elapsed_nanos) is Err,
{
    lemma_first_failure_bounds(outcomes);
}

/// Workers that fetched nothing (there were no samples, or there were no
/// workers at all) produce a report of zero fetches and zero bytes.
pub proof fn lemma_idle_run_moves_no_bytes(
    workers: u64,
    samples: u32,
    outcomes: Seq<Result<WorkerResult, BenchError>>,
    elapsed_nanos: u64,
)
    requires
        outcomes.len() == workers,
        forall|i: int|
            0 <= i < outcomes.len() ==> #[trigger] outcomes[i] == Ok::<WorkerResult, BenchError>(
                WorkerResult { fetches: 0, bytes: 0, first_byte_nanos: 0, last_byte_nanos: 0 },
            ),
    ensures
        run_report_spec(workers, samples, outcomes, elapsed_nanos) is Ok,
        run_report_spec(workers, samples, outcomes, elapsed_nanos)->Ok_0.total_bytes == 0,
        run_report_spec(workers, samples, outcomes, elapsed_nanos)->Ok_0.fetches == 0,
{
    lemma_first_failure_bounds(outcomes);
    if let Some(k) = first_failure(outcomes) {
        assert(outcomes[k] is Ok);
    }
    lemma_idle_sums(successes(outcomes));
}

proof fn lemma_idle_sums(rs: Seq<WorkerResult>)
    requires
        forall|i: int|
            0 <= i < rs.len() ==> #[trigger] rs[i] == (WorkerResult {
                fetches: 0,
                bytes: 0,
                first_byte_nanos: 0,
                last_byte_nanos: 0,
            }),
    ensures
        sum_fetches(rs) == 0,
        sum_bytes(rs) == 0,
        sum_first(rs) == 0,
        sum_last(rs) == 0,
    decreases rs.len(),
{
    if rs.len() > 0 {
        let prev = rs.drop_last();
        assert forall|i: int| 0 <= i < prev.len() implies #[trigger] prev[i] == (WorkerResult {
            fetches: 0,
            bytes: 0,
            first_byte_nanos: 0,
            last_byte_nanos: 0,
        }) by {
            assert(prev[i] == rs[i]);
        }
        lemma_idle_sums(prev);
        assert(rs.last() == rs[rs.len() - 1]);
    }
}

} // verus!
