//! The worker side of the queue: a registry mapping job kinds to handlers,
//! and one worker cycle — claim the first claimable job, run its handler,
//! and record the outcome, retrying or abandoning per the policy.
//!
//! Concurrency, pacing and timeouts belong to the embedding: each executor
//! drives `worker_step` in its own loop, suspends for the poll interval when
//! the step reports `Idle`, and bounds a handler's run time itself,
//! reporting an overrun as an ordinary handler failure. The store serializes
//! the executors; no other cross-worker coordination exists.

use vstd::prelude::*;

use crate::policy::RetryPolicy;
use crate::record::JobRecord;
use crate::record::abandoned_record;
use crate::record::claimed_record;
use crate::record::retried_record;
use crate::record::succeeded_record;
use crate::store::JobStore;
use crate::store::claim_transition;
use crate::store::min_eligible;
use crate::store::no_eligible;

verus! {

/// What executes one kind of job. The handler reports its own failures as
/// `Err` with a human-readable detail; nothing is assumed about which way it
/// decides, so everything the worker guarantees holds for every outcome.
pub trait JobHandler {
    /// Execute one claimed job. The record carries the payload the job was
    /// dispatched with and the attempt count of this claim.
    fn execute(&self, job: &JobRecord) -> Result<(), String>;
}

/// The error detail recorded when no handler is registered for a job's kind.
pub open spec fn unknown_kind_message() -> Seq<char> {
    "unknown job kind"@
}

/// The kind-to-handler table, populated at startup. Kinds registered later
/// shadow nothing: the first registration of a kind wins.
pub struct Registry<H> {
    kinds: Vec<String>,
    handlers: Vec<H>,
}

impl<H: JobHandler> Registry<H> {
    /// One handler per registered kind.
    pub closed spec fn wf(&self) -> bool {
        self.kinds@.len() == self.handlers@.len()
    }

    /// The registered kinds, in registration order.
    pub closed spec fn spec_kinds(&self) -> Seq<Seq<char>> {
        Seq::new(self.kinds@.len(), |i: int| self.kinds@[i]@)
    }

    /// Whether some handler is registered for `kind`.
    pub open spec fn knows(&self, kind: Seq<char>) -> bool {
        exists|i: int| 0 <= i < self.spec_kinds().len() && self.spec_kinds()[i] == kind
    }

    /// An empty registry.
    pub fn new() -> (r: Registry<H>)
        ensures
            r.wf(),
            r.spec_kinds() == Seq::<Seq<char>>::empty(),
    {
        let r = Registry { kinds: Vec::new(), handlers: Vec::new() };
        proof {
            assert(r.spec_kinds() =~= Seq::<Seq<char>>::empty());
        }
        r
    }

    /// Register `handler` for jobs of kind `kind`.
    pub fn register(&mut self, kind: String, handler: H)
        requires
            old(self).wf(),
        ensures
            final(self).wf(),
            final(self).spec_kinds() == old(self).spec_kinds().push(kind@),
    {
        self.kinds.push(kind);
        self.handlers.push(handler);
        proof {
            assert(self.spec_kinds() =~= old(self).spec_kinds().push(kind@));
        }
    }

    /// Run the handler registered for the job's kind, first registration
    /// first. A kind nobody registered is a failure of the job, not of the
    /// worker: the outcome is an error with the unknown-kind detail.
    pub fn run_handler(&self, job: &JobRecord) -> (r: Result<(), String>)
        requires
            self.wf(),
        ensures
            !self.knows(job.kind@) ==> (r matches Err(e) && e@ == unknown_kind_message()),
    {
        let mut i: usize = 0;
        while i < self.kinds.len()
            invariant
                self.wf(),
                i <= self.kinds@.len(),
                forall|k: int| 0 <= k < i ==> self.spec_kinds()[k] != job.kind@,
            decreases self.kinds@.len() - i,
        {
            if self.kinds[i] == job.kind {
                proof {
                    assert(self.spec_kinds()[i as int] == job.kind@);
                }
                return self.handlers[i].execute(job);
            }
            i = i + 1;
        }
        Err(unknown_kind_error())
    }
}

/// The unknown-kind error detail as a value.
fn unknown_kind_error() -> (r: String)
    ensures
        r@ == unknown_kind_message(),
{
    String::from_str("unknown job kind")
}

/// The record a failed attempt leaves behind: the claim counted, then —
/// by what the policy says of the new attempt count — either back to
/// `Pending` after the backoff delay or terminally `Abandoned`, the failure
/// detail recorded either way.
pub open spec fn fail_cycle(j: JobRecord, error: String, policy: RetryPolicy, now: u64) -> JobRecord {
    let c = claimed_record(j, now);
    match policy.spec_next_delay(c.attempts) {
        Some(d) => retried_record(c, error, (now + d) as u64, now),
        None => abandoned_record(c, error, now),
    }
}

/// What one worker cycle did.
#[derive(Clone, Copy, PartialEq, Eq, Structural, Debug)]
pub enum StepOutcome {
    /// Nothing was claimable; the executor should suspend for its poll
    /// interval before the next cycle.
    Idle,
    /// The job with this identifier ran and succeeded.
    Completed(u64),
    /// The job with this identifier failed; it is claimable again from the
    /// second value.
    Retried(u64, u64),
    /// The job with this identifier failed its last permitted attempt and is
    /// terminally abandoned.
    Abandoned(u64),
}

/// One worker cycle: claim the first claimable job, run its handler, record
/// the outcome. Exactly one record changes, and only along the lawful
/// transitions: to `Succeeded` when the handler succeeded, else through
/// `fail_cycle` — back to `Pending` after the policy's delay or terminally
/// `Abandoned` — whatever the handler did. A job of a kind nobody registered
/// fails with the unknown-kind detail and follows the same retry path.
pub fn worker_step<H: JobHandler>(
    store: &mut JobStore,
    registry: &Registry<H>,
    policy: &RetryPolicy,
    now: u64,
) -> (r: StepOutcome)
    requires
        old(store).wf(),
        registry.wf(),
        now + policy.backoff_cap <= u64::MAX,
    ensures
        final(store).wf(),
        final(store).spec_next_id() == old(store).spec_next_id(),
        r is Idle <==> no_eligible(old(store)@, now),
        r is Idle ==> final(store)@ == old(store)@,
        r matches StepOutcome::Completed(id) ==> exists|i: int|
            {
                &&& #[trigger] min_eligible(old(store)@, i, now)
                &&& old(store)@[i].id == id
                &&& registry.knows(old(store)@[i].kind@)
                &&& final(store)@ == old(store)@.update(
                    i,
                    succeeded_record(claimed_record(old(store)@[i], now), now),
                )
            },
        r matches StepOutcome::Retried(id, at) ==> exists|i: int|
            {
                &&& #[trigger] min_eligible(old(store)@, i, now)
                &&& old(store)@[i].id == id
                &&& exists|e: String|
                    {
                        &&& final(store)@ == old(store)@.update(
                            i,
                            #[trigger] fail_cycle(old(store)@[i], e, *policy, now),
                        )
                        &&& fail_cycle(old(store)@[i], e, *policy, now).status is Pending
                        &&& at == fail_cycle(old(store)@[i], e, *policy, now).available_at
                        &&& (!registry.knows(old(store)@[i].kind@) ==> e@ == unknown_kind_message())
                    }
            },
        r matches StepOutcome::Abandoned(id) ==> exists|i: int|
            {
                &&& #[trigger] min_eligible(old(store)@, i, now)
                &&& old(store)@[i].id == id
                &&& exists|e: String|
                    {
                        &&& final(store)@ == old(store)@.update(
                            i,
                            #[trigger] fail_cycle(old(store)@[i], e, *policy, now),
                        )
                        &&& fail_cycle(old(store)@[i], e, *policy, now).status is Abandoned
                        &&& (!registry.knows(old(store)@[i].kind@) ==> e@ == unknown_kind_message())
                    }
            },
{
    let ghost s0 = old(store)@;
    match store.claim_next(now) {
        None => StepOutcome::Idle,
        Some(rec) => {
            let ghost i = choose|i: int| claim_transition(s0, store@, rec, i, now);
            let ghost mid = *store;
            proof {
                assert(claim_transition(s0, mid@, rec, i, now));
                assert(mid@[i] == claimed_record(s0[i], now));
                assert(!no_eligible(s0, now));
            }
            let outcome = registry.run_handler(&rec);
            match outcome {
                Ok(()) => {
                    let res = store.mark_succeeded(rec.id, now);
                    proof {
                        assert(mid@[i].id == rec.id);
                        if res is Ok {
                            assert(store@ =~= s0.update(
                                i,
                                succeeded_record(claimed_record(s0[i], now), now),
                            ));
                        }
                    }
                    match res {
                        Ok(()) => StepOutcome::Completed(rec.id),
                        Err(_) => {
                            proof {
                                assert(false);
                            }
                            StepOutcome::Idle
                        },
                    }
                },
                Err(e) => {
                    let ghost ge = e;
                    let delay = policy.next_delay(rec.attempts);
                    match delay {
                        Some(d) => {
                            let at = now + d;
                            proof {
                                assert forall|x: int|
                                    0 <= x < mid@.len() && (#[trigger] mid@[x]).id
                                        == rec.id implies at >= mid@[x].created_at by {
                                    crate::record::lemma_id_pins_position(mid@, x, i);
                                }
                            }
                            let res = store.mark_failed(rec.id, e, Some(at), now);
                            proof {
                                assert(mid@[i].id == rec.id);
                                if res is Ok {
                                    assert(fail_cycle(s0[i], ge, *policy, now)
                                        == retried_record(claimed_record(s0[i], now), ge, at, now));
                                    assert(store@ =~= s0.update(
                                        i,
                                        fail_cycle(s0[i], ge, *policy, now),
                                    ));
                                }
                            }
                            match res {
                                Ok(()) => StepOutcome::Retried(rec.id, at),
                                Err(_) => {
                                    proof {
                                        assert(false);
                                    }
                                    StepOutcome::Idle
                                },
                            }
                        },
                        None => {
                            let res = store.mark_failed(rec.id, e, None, now);
                            proof {
                                assert(mid@[i].id == rec.id);
                                if res is Ok {
                                    assert(fail_cycle(s0[i], ge, *policy, now)
                                        == abandoned_record(claimed_record(s0[i], now), ge, now));
                                    assert(store@ =~= s0.update(
                                        i,
                                        fail_cycle(s0[i], ge, *policy, now),
                                    ));
                                }
                            }
                            match res {
                                Ok(()) => StepOutcome::Abandoned(rec.id),
                                Err(_) => {
                                    proof {
                                        assert(false);
                                    }
                                    StepOutcome::Idle
                                },
                            }
                        },
                    }
                },
            }
        },
    }
}

} // verus!
