use s3bench::budget::take_job;
use s3bench::key::{object_key, worker_key, KEY_FAN_OUT};
use s3bench::report::{summarize_run, RunReport};
use s3bench::sweep::sweep_worker_counts;
use s3bench::worker::{check_status, BenchError, Sample, WorkerResult};

fn ok_sample(len: u64) -> Sample {
    Sample { status: 200, body_len: len, first_byte_nanos: 10, last_byte_nanos: 30 }
}

/// Runs `workers` workers against a budget of `samples`, serialising their
/// claims in the order `pick` chooses among the workers still running, and
/// returns the units each worker was granted.
fn run_schedule(workers: usize, samples: u32, mut pick: impl FnMut(usize) -> usize) -> Vec<u32> {
    let mut budget = samples;
    let mut granted = vec![0u32; workers];
    let mut running: Vec<usize> = (0..workers).collect();
    while !running.is_empty() {
        let slot = pick(running.len()) % running.len();
        let w = running[slot];
        if take_job(&mut budget) {
            granted[w] += 1;
        } else {
            running.remove(slot);
        }
    }
    granted
}

#[test]
fn take_job_grants_then_refuses() {
    let mut left: u32 = 2;
    assert!(take_job(&mut left));
    assert_eq!(left, 1);
    assert!(take_job(&mut left));
    assert_eq!(left, 0);
    assert!(!take_job(&mut left));
    assert_eq!(left, 0);
}

#[test]
fn every_sample_claimed_exactly_once() {
    for workers in 1..8usize {
        for samples in [0u32, 1, 7, 40, 99] {
            let granted = run_schedule(workers, samples, |n| n - 1);
            assert_eq!(granted.iter().sum::<u32>(), samples);
            let granted = run_schedule(workers, samples, |_| 0);
            assert_eq!(granted.iter().sum::<u32>(), samples);
        }
    }
}

#[test]
fn fifty_workers_never_exceed_thousand_claims() {
    for seed in 1..20u64 {
        let mut state = seed;
        let granted = run_schedule(50, 1000, |n| {
            state = state.wrapping_mul(6364136223846793005).wrapping_add(1442695040888963407);
            ((state >> 33) as usize) % n
        });
        let total: u32 = granted.iter().sum();
        assert!(total <= 1000);
        assert_eq!(total, 1000);
    }
}

#[test]
fn no_samples_means_no_fetches() {
    let granted = run_schedule(4, 0, |_| 0);
    assert!(granted.iter().all(|g| *g == 0));
    let outcomes: Vec<Result<WorkerResult, BenchError>> = (0..4).map(|_| Ok(WorkerResult::new())).collect();
    let report = summarize_run(4, 0, &outcomes, 1_000).unwrap();
    assert_eq!(report.total_bytes, 0);
    assert_eq!(report.fetches, 0);
}

#[test]
fn no_workers_means_no_bytes() {
    let granted = run_schedule(0, 10, |_| 0);
    assert!(granted.is_empty());
    let report = summarize_run(0, 10, &Vec::new(), 1_000).unwrap();
    assert_eq!(report.total_bytes, 0);
    assert_eq!(report.fetches, 0);
}

#[test]
fn totals_sum_worker_bytes() {
    let mut outcomes = Vec::new();
    for len in [100u64, 200, 300] {
        let mut w = WorkerResult::new();
        w.record(Ok(ok_sample(len))).unwrap();
        outcomes.push(Ok(w));
    }
    let report = summarize_run(3, 3, &outcomes, 2_000_000_000).unwrap();
    assert_eq!(report.total_bytes, 600);
    assert_eq!(report.fetches, 3);
    assert_eq!(report.bytes_per_second(), Some(300));
    let per_sec = 600.0 / 2.0;
    assert!((report.bytes_per_second().unwrap() as f64 - per_sec).abs() < 1e-9);
    let report = summarize_run(3, 3, &outcomes, 1_500_000_000).unwrap();
    assert_eq!(report.bytes_per_second(), Some(400));
    assert_eq!(report.total_first_byte_nanos, 30);
    assert_eq!(report.avg_first_byte_nanos(), Some(10));
    assert_eq!(report.avg_last_byte_nanos(), Some(30));
}

#[test]
fn error_on_fifth_claim_fails_run() {
    let mut budget: u32 = 10;
    let mut worker = WorkerResult::new();
    let mut failure = None;
    let mut claims = 0;
    while take_job(&mut budget) {
        claims += 1;
        let fetched = if claims == 5 { Err(BenchError::Transport) } else { Ok(ok_sample(8)) };
        if let Err(e) = worker.record(fetched) {
            failure = Some(e);
            break;
        }
    }
    assert_eq!(claims, 5);
    assert_eq!(failure, Some(BenchError::Transport));
    assert_eq!(worker.fetches, 4);
    let outcomes = vec![Ok(WorkerResult::new()), Err(BenchError::Transport)];
    assert_eq!(summarize_run(2, 10, &outcomes, 5), Err(BenchError::Transport));
}

#[test]
fn first_failed_worker_decides_error() {
    let outcomes = vec![
        Ok(WorkerResult::new()),
        Err(BenchError::UnexpectedStatus(404)),
        Err(BenchError::Transport),
    ];
    assert_eq!(summarize_run(3, 1, &outcomes, 5), Err(BenchError::UnexpectedStatus(404)));
}

#[test]
fn missing_worker_fails_run() {
    let outcomes = vec![Ok(WorkerResult::new())];
    assert_eq!(summarize_run(2, 1, &outcomes, 5), Err(BenchError::WorkerLost));
}

#[test]
fn overflowing_total_fails_run() {
    let big = WorkerResult { fetches: 1, bytes: u64::MAX, first_byte_nanos: 0, last_byte_nanos: 0 };
    let one = WorkerResult { fetches: 1, bytes: 1, first_byte_nanos: 0, last_byte_nanos: 0 };
    let outcomes = vec![Ok(big), Ok(one)];
    assert_eq!(summarize_run(2, 2, &outcomes, 5), Err(BenchError::CounterOverflow));
    let outcomes = vec![Ok(big)];
    assert_eq!(summarize_run(1, 1, &outcomes, 5).unwrap().total_bytes, u64::MAX);
}

#[test]
fn status_must_be_success() {
    assert_eq!(check_status(200), Ok(()));
    assert_eq!(check_status(404), Err(BenchError::UnexpectedStatus(404)));
    let mut w = WorkerResult::new();
    let bad = Sample { status: 500, ..ok_sample(10) };
    assert_eq!(w.record(Ok(bad)), Err(BenchError::UnexpectedStatus(500)));
    assert_eq!(w, WorkerResult::new());
}

#[test]
fn worker_counter_overflow_is_fatal() {
    let mut w = WorkerResult { fetches: 1, bytes: u64::MAX - 5, first_byte_nanos: 0, last_byte_nanos: 0 };
    let before = w;
    assert_eq!(w.record(Ok(ok_sample(6))), Err(BenchError::CounterOverflow));
    assert_eq!(w, before);
    assert_eq!(w.record(Ok(ok_sample(5))), Ok(()));
    assert_eq!(w.bytes, u64::MAX);
    assert_eq!(w.fetches, 2);
}

#[test]
fn worker_key_fans_out() {
    assert_eq!(worker_key("prefix", 47, KEY_FAN_OUT), "prefix-7");
    assert_eq!(worker_key("test-object", 3, 40), "test-object-3");
    assert_eq!(worker_key("k", 80, 40), "k-0");
}

#[test]
fn object_key_uses_decimal_index() {
    assert_eq!(object_key("test-object", 0), "test-object-0");
    assert_eq!(object_key("obj", 1234567), "obj-1234567");
    assert_eq!(object_key("", u64::MAX), "-18446744073709551615");
}

#[test]
fn report_metrics() {
    let report = RunReport {
        workers: 2,
        samples: 0,
        elapsed_nanos: 0,
        fetches: 0,
        total_bytes: 3 * 1048576 + 5,
        total_first_byte_nanos: 7,
        total_last_byte_nanos: 9,
    };
    assert_eq!(report.megabytes(), 3);
    assert_eq!(report.bytes_per_second(), None);
    assert_eq!(report.avg_first_byte_nanos(), None);
    assert_eq!(report.avg_last_byte_nanos(), None);
}

#[test]
fn sweep_steps_below_bound() {
    assert_eq!(sweep_worker_counts(5, 5, 80), (1..16).map(|i| i * 5).collect::<Vec<u64>>());
    assert_eq!(sweep_worker_counts(3, 5, 15), vec![3, 8, 13]);
    assert!(sweep_worker_counts(80, 5, 80).is_empty());
    assert_eq!(sweep_worker_counts(u64::MAX - 1, 5, u64::MAX), vec![u64::MAX - 1]);
}
