use vstd::prelude::*;

verus! {

/// The worker counts of a sweep: `start`, `start + step`, `start + 2 * step`,
/// ... for as long as they stay below `upper`.
pub fn sweep_worker_counts(start: u64, step: u64, upper: u64) -> (r: Vec<u64>)
    requires
        step > 0,
    ensures
        forall|i: int| 0 <= i < r@.len() ==> #[trigger] r@[i] == start + i * step,
        forall|i: int| 0 <= i < r@.len() ==> #[trigger] r@[i] < upper,
        start + r@.len() * step >= upper,
{
    let mut counts: Vec<u64> = Vec::new();
    let mut next: u64 = start;
    assert(counts@.len() == 0);
    assert(start + counts@.len() * step == start) by (nonlinear_arith)
        requires
            counts@.len() == 0,
    ;
    while next < upper
        invariant
            step > 0,
            next == start + counts@.len() * step,
            forall|i: int| 0 <= i < counts@.len() ==> #[trigger] counts@[i] == start + i * step,
            forall|i: int| 0 <= i < counts@.len() ==> #[trigger] counts@[i] < upper,
        decreases if next < upper { upper - next } else { 0 },
    {
        counts.push(next);
        proof {
            assert(start + counts@.len() * step == start + (counts@.len() - 1) * step + step)
                by (nonlinear_arith);
        }
        if next > u64::MAX - step {
            assert(start + counts@.len() * step >= upper);
            return counts;
        }
        next = next + step;
    }
    counts
}

} // verus!
