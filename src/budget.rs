use vstd::prelude::*;

verus! {

/// One claim against a budget of `remaining` units: whether a unit was
/// granted, and the units left afterwards.
pub open spec fn claim_step(remaining: nat) -> (bool, nat) {
    if remaining > 0 {
        (true, (remaining - 1) as nat)
    } else {
        (false, remaining)
    }
}

/// Claims one unit of work from the shared budget: when units remain, takes
/// one and returns `true`; otherwise leaves the budget untouched and returns
/// `false`.
pub fn take_job(jobs_left: &mut u32) -> (r: bool)
    ensures
        (r, *final(jobs_left) as nat) == claim_step(*old(jobs_left) as nat),
{
    if *jobs_left == 0 {
        false
    } else {
        *jobs_left -= 1;
        true
    }
}


/// Units granted and units left after `n` successive claims against a budget
/// that started at `samples`. Claims made by concurrent workers are
/// serialised by the lock around the budget, so every run is such a sequence.
pub open spec fn replay(samples: nat, n: nat) -> (nat, nat)
    decreases n,
{
    if n == 0 {
        (0, samples)
    } else {
        let prev = replay(samples, (n - 1) as nat);
        let step = claim_step(prev.1);
        (if step.0 { prev.0 + 1 } else { prev.0 }, step.1)
    }
}

/// Whether the claim at position `i` of the serialised sequence is granted.
pub open spec fn granted_at(samples: nat, i: nat) -> bool {
    claim_step(replay(samples, i).1).0
}

/// Units granted to worker `w` by the serialised claims `schedule`, where
/// `schedule[i]` is the index of the worker that made claim `i`.
pub open spec fn granted_to(samples: nat, schedule: Seq<nat>, w: nat) -> nat
    decreases schedule.len(),
{
    if schedule.len() == 0 {
        0
    } else {
        let prev = schedule.drop_last();
        granted_to(samples, prev, w) + if schedule.last() == w && granted_at(samples, prev.len()) {
            1nat
        } else {
            0nat
        }
    }
}

/// Sum of the units granted to workers `0 .. workers`.
pub open spec fn granted_total(samples: nat, schedule: Seq<nat>, workers: nat) -> nat
    decreases workers,
{
    if workers == 0 {
        0
    } else {
        granted_total(samples, schedule, (workers - 1) as nat) + granted_to(
            samples,
            schedule,
            (workers - 1) as nat,
        )
    }
}

/// Whether every claim of `schedule` was made by one of workers `0 .. workers`.
pub open spec fn made_by_workers(schedule: Seq<nat>, workers: nat) -> bool {
    forall|i: int| 0 <= i < schedule.len() ==> #[trigger] schedule[i] < workers
}

/// Whether worker `w` had one of its claims in `schedule` refused.
pub open spec fn was_refused(samples: nat, schedule: Seq<nat>, w: nat) -> bool {
    exists|i: int|
        0 <= i < schedule.len() && #[trigger] schedule[i] == w && !granted_at(samples, i as nat)
}

proof fn lemma_replay_min(samples: nat, n: nat)
    ensures
        replay(samples, n).0 == if n < samples { n } else { samples },
        replay(samples, n).0 + replay(samples, n).1 == samples,
    decreases n,
{
    if n > 0 {
        lemma_replay_min(samples, (n - 1) as nat);
    }
}

proof fn lemma_granted_at(samples: nat, i: nat)
    ensures
        granted_at(samples, i) == (i < samples),
{
    lemma_replay_min(samples, i);
}

proof fn lemma_total_after_push(samples: nat, schedule: Seq<nat>, k: nat)
    requires
        schedule.len() > 0,
    ensures
        granted_total(samples, schedule, k) == granted_total(samples, schedule.drop_last(), k) + if schedule.last() < k && granted_at(samples, (schedule.len() - 1) as nat) {
            1nat
        } else {
            0nat
        },
    decreases k,
{
    if k > 0 {
        lemma_total_after_push(samples, schedule, (k - 1) as nat);
    }
}

proof fn lemma_total_is_replay(samples: nat, schedule: Seq<nat>, workers: nat)
    requires
        made_by_workers(schedule, workers),
    ensures
        granted_total(samples, schedule, workers) == replay(samples, schedule.len()).0,
    decreases schedule.len(),
{
    if schedule.len() == 0 {
        lemma_total_empty(samples, schedule, workers);
    } else {
        let prev = schedule.drop_last();
        assert(made_by_workers(prev, workers)) by {
            assert forall|i: int| 0 <= i < prev.len() implies #[trigger] prev[i] < workers by {
                assert(prev[i] == schedule[i]);
            }
        }
        lemma_total_is_replay(samples, prev, workers);
        lemma_total_after_push(samples, schedule, workers);
        assert(schedule.last() == schedule[schedule.len() - 1]);
    }
}

proof fn lemma_total_empty(samples: nat, schedule: Seq<nat>, workers: nat)
    requires
        schedule.len() == 0,
    ensures
        granted_total(samples, schedule, workers) == 0,
    decreases workers,
{
    if workers > 0 {
        lemma_total_empty(samples, schedule, (workers - 1) as nat);
    }
}

/// Claims are never lost or duplicated: once every one of `workers >= 1`
/// workers has had a claim refused (its loop has ended), the units granted to
/// all of them add up to exactly the budget `samples`.
pub proof fn lemma_every_unit_claimed_once(samples: nat, schedule: Seq<nat>, workers: nat)
    requires
        workers >= 1,
        made_by_workers(schedule, workers),
        forall|w: nat| w < workers ==> #[trigger] was_refused(samples, schedule, w),
    ensures
        granted_total(samples, schedule, workers) == samples,
{
    assert(was_refused(samples, schedule, 0));
    let i = choose|i: int| 0 <= i < schedule.len() && schedule[i] == 0nat && !granted_at(samples, i as nat);
    lemma_granted_at(samples, i as nat);
    lemma_total_is_replay(samples, schedule, workers);
    lemma_replay_min(samples, schedule.len());
}

/// Whatever the interleaving, the workers together are never granted more
/// units than the budget held.
pub proof fn lemma_claims_within_budget(samples: nat, schedule: Seq<nat>, workers: nat)
    requires
        made_by_workers(schedule, workers),
    ensures
        granted_total(samples, schedule, workers) <= samples,
{
    lemma_total_is_replay(samples, schedule, workers);
    lemma_replay_min(samples, schedule.len());
}

/// With no samples, or with no workers, no unit is ever granted, so no fetch
/// is made.
pub proof fn lemma_nothing_to_claim(samples: nat, schedule: Seq<nat>, workers: nat)
    requires
        samples == 0 || workers == 0,
        made_by_workers(schedule, workers),
    ensures
        granted_total(samples, schedule, workers) == 0,
{
    lemma_total_is_replay(samples, schedule, workers);
    lemma_replay_min(samples, schedule.len());
    if workers == 0 && schedule.len() > 0 {
        assert(schedule[0] < workers);
    }
}

} // verus!
