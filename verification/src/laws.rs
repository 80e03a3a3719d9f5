//! The queue's cross-cutting guarantees, stated and proved over the same
//! spec-level transitions that the executable contracts promise.

use vstd::prelude::*;

use crate::policy::RetryPolicy;
use crate::record::JobRecord;
use crate::record::claimed_record;
use crate::record::eligible;
use crate::record::ids_unique;
use crate::record::succeeded_record;
use crate::store::claim_transition;
use crate::store::no_eligible;
use crate::worker::fail_cycle;

verus! {

/// No double claim: however many workers race on one store, its claims
/// happen one conditional update at a time, so two consecutive claims — at
/// any two instants — never hand out the same job.
pub proof fn lemma_no_double_claim(
    s0: Seq<JobRecord>,
    s1: Seq<JobRecord>,
    s2: Seq<JobRecord>,
    r1: JobRecord,
    r2: JobRecord,
    i1: int,
    i2: int,
    now1: u64,
    now2: u64,
)
    requires
        ids_unique(s0),
        claim_transition(s0, s1, r1, i1, now1),
        claim_transition(s1, s2, r2, i2, now2),
    ensures
        r1.id != r2.id,
{
    if i1 == i2 {
        // The first claim left this job `Running`, so it is not eligible.
        assert(s1[i2].status is Running);
        assert(false);
    } else {
        assert(s1[i2] == s0[i2]);
        assert(s0[i1].id != s0[i2].id);
    }
}

/// A claim changes one record's status and attempt count, never any
/// identifier, so identifier uniqueness survives every claim — which lets
/// `lemma_no_double_claim` apply along any chain of claims.
pub proof fn lemma_claim_preserves_ids(
    s0: Seq<JobRecord>,
    s1: Seq<JobRecord>,
    r: JobRecord,
    i: int,
    now: u64,
)
    requires
        ids_unique(s0),
        claim_transition(s0, s1, r, i, now),
    ensures
        ids_unique(s1),
{
    assert forall|x: int, y: int| 0 <= x < y < s1.len() implies s1[x].id != s1[y].id by {
        assert(s1[x].id == s0[x].id);
        assert(s1[y].id == s0[y].id);
    }
}

/// A job whose handler succeeds on its first attempt ends `Succeeded` with
/// an attempt count of exactly one.
pub proof fn lemma_first_attempt_success(j: JobRecord, claim_at: u64, done_at: u64)
    requires
        j.status is Pending,
        j.attempts == 0,
    ensures
        succeeded_record(claimed_record(j, claim_at), done_at).status is Succeeded,
        succeeded_record(claimed_record(j, claim_at), done_at).attempts == 1,
{
}

/// Nothing leaves a terminal state: a record already `Succeeded` or
/// `Abandoned` survives any claim untouched. (The marking operations promise
/// the same in their own contracts: they only rewrite a `Running` record.)
pub proof fn lemma_claim_keeps_terminal(
    s0: Seq<JobRecord>,
    s1: Seq<JobRecord>,
    r: JobRecord,
    i: int,
    now: u64,
    k: int,
)
    requires
        claim_transition(s0, s1, r, i, now),
        0 <= k < s0.len(),
        s0[k].status is Succeeded || s0[k].status is Abandoned,
    ensures
        s1[k] == s0[k],
{
}

/// The record after `errors.len()` further claim-and-fail cycles, the k-th
/// of them failing with detail `errors[k]` at instant `times[k]`.
pub open spec fn run_failing(
    j: JobRecord,
    errors: Seq<String>,
    times: Seq<u64>,
    policy: RetryPolicy,
) -> JobRecord
    decreases errors.len(),
{
    if errors.len() == 0 {
        j
    } else {
        run_failing(
            fail_cycle(j, errors[0], policy, times[0]),
            errors.drop_first(),
            times.drop_first(),
            policy,
        )
    }
}

/// A fresh job whose handler fails on every attempt ends `Abandoned` after
/// exactly `max_attempts` attempts, with `last_error` holding the final
/// failure's detail.
pub proof fn lemma_always_failing_abandons(
    j: JobRecord,
    errors: Seq<String>,
    times: Seq<u64>,
    policy: RetryPolicy,
)
    requires
        j.status is Pending,
        j.attempts == 0,
        1 <= policy.max_attempts,
        errors.len() == policy.max_attempts,
        times.len() == errors.len(),
    ensures
        run_failing(j, errors, times, policy).status is Abandoned,
        run_failing(j, errors, times, policy).attempts == policy.max_attempts,
        run_failing(j, errors, times, policy).last_error == Some(errors.last()),
{
    lemma_failing_from(j, errors, times, policy);
}

/// The induction behind `lemma_always_failing_abandons`, from any attempt
/// count the policy still permits.
proof fn lemma_failing_from(j: JobRecord, errors: Seq<String>, times: Seq<u64>, policy: RetryPolicy)
    requires
        j.attempts < policy.max_attempts,
        errors.len() == policy.max_attempts - j.attempts,
        times.len() == errors.len(),
    ensures
        run_failing(j, errors, times, policy).status is Abandoned,
        run_failing(j, errors, times, policy).attempts == policy.max_attempts,
        run_failing(j, errors, times, policy).last_error == Some(errors.last()),
    decreases errors.len(),
{
    let c = claimed_record(j, times[0]);
    let j1 = fail_cycle(j, errors[0], policy, times[0]);
    if j.attempts + 1 == policy.max_attempts {
        // The policy returns no delay: this cycle abandons the job.
        assert(policy.spec_next_delay(c.attempts) is None);
        assert(errors.drop_first().len() == 0);
        assert(run_failing(j1, errors.drop_first(), times.drop_first(), policy) == j1);
        assert(run_failing(j, errors, times, policy) == j1);
        assert(errors.last() == errors[0]);
    } else {
        assert(j1.attempts == j.attempts + 1);
        lemma_failing_from(j1, errors.drop_first(), times.drop_first(), policy);
        assert(errors.drop_first().last() == errors.last());
    }
}

/// A claim never hands out a job before its availability instant: the
/// selected job was `Pending` with `available_at <= now`, and so is the
/// returned copy.
pub proof fn lemma_claim_respects_availability(
    s0: Seq<JobRecord>,
    s1: Seq<JobRecord>,
    r: JobRecord,
    i: int,
    now: u64,
)
    requires
        claim_transition(s0, s1, r, i, now),
    ensures
        s0[i].status is Pending,
        s0[i].available_at <= now,
        r.available_at <= now,
{
}

/// A `Pending` job whose availability instant has passed (and whose attempt
/// counter has room to count one more claim) is always eligible: a claim on
/// the store cannot come back empty.
pub proof fn lemma_ready_job_is_claimable(s: Seq<JobRecord>, i: int, now: u64)
    requires
        0 <= i < s.len(),
        s[i].status is Pending,
        s[i].available_at <= now,
        s[i].attempts < u64::MAX,
    ensures
        !no_eligible(s, now),
{
    assert(eligible(s[i], now));
}

} // verus!
