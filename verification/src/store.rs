//! The job store: concurrency-safe bookkeeping of job records behind four
//! operations — insert, claim, mark succeeded, mark failed. The store is the
//! single serialization point of the queue: all mutation of a record goes
//! through it, and a claim is one atomic conditional update, so no two
//! callers can ever claim the same job.
//!
//! This is the reference, process-local backend: records live in memory and
//! every operation holds `&mut self`, which is exactly the exclusivity a
//! durable backend provides through a transactional compare-and-set. A
//! record left `Running` by a worker that crashed mid-execution stays
//! `Running`; requeueing it is a lease-expiry or operator concern outside
//! this core.

use vstd::prelude::*;

use crate::record::JobRecord;
use crate::record::JobStatus;
use crate::record::abandoned_record;
use crate::record::claimed_record;
use crate::record::earlier;
use crate::record::eligible;
use crate::record::ids_unique;
use crate::record::pending_record;
use crate::record::retried_record;
use crate::record::succeeded_record;

verus! {

/// Store-level failures. `NotFound` and `InvalidState` report a call about a
/// job that does not exist or is not in the state the transition needs; they
/// indicate a bug or a race in the caller. `Persistence` reports that the
/// store cannot durably create a further record (here: the identifier space
/// is exhausted).
#[derive(Clone, Copy, PartialEq, Eq, Structural, Debug)]
pub enum StoreError {
    NotFound,
    InvalidState,
    Persistence,
}

/// No record in `s` is claimable at `now`.
pub open spec fn no_eligible(s: Seq<JobRecord>, now: u64) -> bool {
    forall|i: int| 0 <= i < s.len() ==> !eligible(#[trigger] s[i], now)
}

/// `s[i]` is claimable at `now` and comes before every other claimable
/// record in the claim order.
pub open spec fn min_eligible(s: Seq<JobRecord>, i: int, now: u64) -> bool {
    &&& 0 <= i < s.len()
    &&& eligible(s[i], now)
    &&& forall|k: int| 0 <= k < s.len() && k != i && eligible(#[trigger] s[k], now)
        ==> earlier(s[i], s[k])
}

/// One successful claim: the first claimable record of `s0` (position `i`)
/// turned `Running` with one more attempt, everything else untouched, and
/// exactly that record handed back.
pub open spec fn claim_transition(
    s0: Seq<JobRecord>,
    s1: Seq<JobRecord>,
    r: JobRecord,
    i: int,
    now: u64,
) -> bool {
    &&& min_eligible(s0, i, now)
    &&& s1 == s0.update(i, claimed_record(s0[i], now))
    &&& r == claimed_record(s0[i], now)
}

/// The job store; see the module description.
pub struct JobStore {
    jobs: Vec<JobRecord>,
    next_id: u64,
}

impl View for JobStore {
    type V = Seq<JobRecord>;

    closed spec fn view(&self) -> Seq<JobRecord> {
        self.jobs@
    }
}

impl JobStore {
    /// The identifier the next inserted job will get. Identifiers are handed
    /// out in insertion order and never reused.
    pub closed spec fn spec_next_id(&self) -> u64 {
        self.next_id
    }

    /// The store's invariant: identifiers are unique, below the next free
    /// one, and no record is claimable before it was created.
    pub open spec fn wf(&self) -> bool {
        &&& ids_unique(self@)
        &&& forall|i: int| 0 <= i < self@.len() ==> (#[trigger] self@[i]).id < self.spec_next_id()
        &&& forall|i: int| 0 <= i < self@.len()
            ==> (#[trigger] self@[i]).created_at <= self@[i].available_at
    }

    /// An empty store.
    pub fn new() -> (s: JobStore)
        ensures
            s.wf(),
            s@ == Seq::<JobRecord>::empty(),
            s.spec_next_id() == 1,
    {
        JobStore { jobs: Vec::new(), next_id: 1 }
    }

    /// How many records the store holds, terminal ones included.
    pub fn len(&self) -> (n: usize)
        ensures
            n == self@.len(),
    {
        self.jobs.len()
    }

    /// A copy of the record with identifier `job_id`, if there is one.
    pub fn get(&self, job_id: u64) -> (r: Option<JobRecord>)
        ensures
            match r {
                Some(rec) => exists|i: int|
                    0 <= i < self@.len() && (#[trigger] self@[i]).id == job_id && rec == self@[i],
                None => forall|i: int| 0 <= i < self@.len() ==> (#[trigger] self@[i]).id != job_id,
            },
    {
        match self.find_index(job_id) {
            Some(i) => Some(self.jobs[i].duplicate()),
            None => None,
        }
    }

    /// Atomically create one `Pending` record and hand back its identifier.
    /// Fails with `Persistence` exactly when the store cannot create a
    /// further record because its identifier space is used up; nothing is
    /// written then.
    pub fn insert(&mut self, kind: String, payload: String, now: u64, available_at: u64) -> (r:
        Result<u64, StoreError>)
        requires
            old(self).wf(),
            now <= available_at,
        ensures
            final(self).wf(),
            r is Ok <==> old(self).spec_next_id() < u64::MAX,
            r matches Ok(id) ==> {
                &&& id == old(self).spec_next_id()
                &&& final(self).spec_next_id() == old(self).spec_next_id() + 1
                &&& final(self)@ == old(self)@.push(
                    pending_record(id, kind, payload, now, available_at),
                )
            },
            r matches Err(e) ==> {
                &&& e == StoreError::Persistence
                &&& final(self)@ == old(self)@
                &&& final(self).spec_next_id() == old(self).spec_next_id()
            },
    {
        if self.next_id == u64::MAX {
            return Err(StoreError::Persistence);
        }
        let id = self.next_id;
        self.next_id = self.next_id + 1;
        let rec = JobRecord {
            id,
            kind,
            payload,
            status: JobStatus::Pending,
            attempts: 0,
            available_at,
            created_at: now,
            updated_at: now,
            last_error: None,
        };
        self.jobs.push(rec);
        Ok(id)
    }

    /// Atomically select the first claimable record — oldest `available_at`,
    /// ties broken by `created_at`, then by identifier — turn it `Running`,
    /// count the attempt, and hand back a copy. Returns nothing exactly when
    /// no record is claimable at `now`; a job whose `available_at` lies
    /// after `now` is never returned.
    pub fn claim_next(&mut self, now: u64) -> (r: Option<JobRecord>)
        requires
            old(self).wf(),
        ensures
            final(self).wf(),
            final(self).spec_next_id() == old(self).spec_next_id(),
            match r {
                None => final(self)@ == old(self)@ && no_eligible(old(self)@, now),
                Some(rec) => exists|i: int|
                    #[trigger] claim_transition(old(self)@, final(self)@, rec, i, now),
            },
    {
        let mut best: Option<usize> = None;
        let mut i: usize = 0;
        while i < self.jobs.len()
            invariant
                self == old(self),
                old(self).wf(),
                i <= self@.len(),
                match best {
                    None => forall|k: int| 0 <= k < i ==> !eligible(#[trigger] self@[k], now),
                    Some(b) => {
                        &&& (b as int) < i
                        &&& eligible(self@[b as int], now)
                        &&& forall|k: int|
                            0 <= k < i && k != b as int && eligible(#[trigger] self@[k], now)
                                ==> earlier(self@[b as int], self@[k])
                    },
                },
            decreases self@.len() - i,
        {
            if is_eligible(&self.jobs[i], now) {
                match best {
                    None => {
                        best = Some(i);
                    },
                    Some(b) => {
                        if earlier_cmp(&self.jobs[i], &self.jobs[b]) {
                            best = Some(i);
                        } else {
                            proof {
                                // Distinct identifiers make the claim order
                                // total, so the kept record really is earlier.
                                assert(self@[b as int].id != self@[i as int].id);
                            }
                        }
                    },
                }
            }
            i = i + 1;
        }
        match best {
            None => None,
            Some(b) => {
                proof {
                    assert(eligible(self@[b as int], now));
                }
                let rec = &mut self.jobs[b];
                rec.status = JobStatus::Running;
                rec.attempts = rec.attempts + 1;
                rec.updated_at = now;
                let copy = self.jobs[b].duplicate();
                proof {
                    assert(claim_transition(old(self)@, self@, copy, b as int, now));
                }
                Some(copy)
            },
        }
    }

    /// Record that the handler of job `job_id` succeeded: `Running` turns
    /// `Succeeded`. Idempotent on a job already `Succeeded`. Fails with
    /// `NotFound` exactly when no record has that identifier, and with
    /// `InvalidState` exactly when the record is in any other state.
    pub fn mark_succeeded(&mut self, job_id: u64, now: u64) -> (r: Result<(), StoreError>)
        requires
            old(self).wf(),
        ensures
            final(self).wf(),
            final(self).spec_next_id() == old(self).spec_next_id(),
            match r {
                Ok(()) => {
                    &&& exists|i: int|
                        0 <= i < old(self)@.len() && (#[trigger] old(self)@[i]).id == job_id
                    &&& forall|i: int|
                        0 <= i < old(self)@.len() && (#[trigger] old(self)@[i]).id == job_id
                            ==> {
                            &&& (old(self)@[i].status is Running || old(self)@[i].status
                                is Succeeded)
                            &&& (old(self)@[i].status is Running ==> final(self)@
                                == old(self)@.update(i, succeeded_record(old(self)@[i], now)))
                            &&& (old(self)@[i].status is Succeeded ==> final(self)@ == old(self)@)
                        }
                },
                Err(StoreError::NotFound) => final(self)@ == old(self)@ && (forall|i: int|
                    0 <= i < old(self)@.len() ==> (#[trigger] old(self)@[i]).id != job_id),
                Err(StoreError::InvalidState) => {
                    &&& final(self)@ == old(self)@
                    &&& exists|i: int|
                        0 <= i < old(self)@.len() && (#[trigger] old(self)@[i]).id == job_id
                    &&& forall|i: int|
                        0 <= i < old(self)@.len() && (#[trigger] old(self)@[i]).id == job_id
                            ==> !(old(self)@[i].status is Running) && !(old(self)@[i].status
                            is Succeeded)
                },
                Err(StoreError::Persistence) => false,
            },
    {
        match self.find_index(job_id) {
            None => Err(StoreError::NotFound),
            Some(i) => {
                proof {
                    lemma_position_facts(self@, i as int, job_id);
                }
                let current = self.jobs[i].status;
                match current {
                    JobStatus::Running => {
                        let rec = &mut self.jobs[i];
                        rec.status = JobStatus::Succeeded;
                        rec.updated_at = now;
                        Ok(())
                    },
                    JobStatus::Succeeded => Ok(()),
                    _ => Err(StoreError::InvalidState),
                }
            },
        }
    }

    /// Record that the handler of job `job_id` failed. With a retry instant
    /// the record goes back to `Pending`, claimable again from `retry_at`,
    /// with the failure detail in `last_error`; without one its retries are
    /// exhausted and it turns `Abandoned`, terminally, with the final detail
    /// recorded. Fails with `NotFound` exactly when no record has that
    /// identifier, and with `InvalidState` exactly when the record is not
    /// `Running`.
    pub fn mark_failed(
        &mut self,
        job_id: u64,
        error: String,
        retry_at: Option<u64>,
        now: u64,
    ) -> (r: Result<(), StoreError>)
        requires
            old(self).wf(),
            retry_at matches Some(t) ==> forall|i: int|
                0 <= i < old(self)@.len() && (#[trigger] old(self)@[i]).id == job_id
                    ==> t >= old(self)@[i].created_at,
        ensures
            final(self).wf(),
            final(self).spec_next_id() == old(self).spec_next_id(),
            match r {
                Ok(()) => {
                    &&& exists|i: int|
                        0 <= i < old(self)@.len() && (#[trigger] old(self)@[i]).id == job_id
                    &&& forall|i: int|
                        0 <= i < old(self)@.len() && (#[trigger] old(self)@[i]).id == job_id
                            ==> {
                            &&& old(self)@[i].status is Running
                            &&& final(self)@ == old(self)@.update(
                                i,
                                match retry_at {
                                    Some(t) => retried_record(old(self)@[i], error, t, now),
                                    None => abandoned_record(old(self)@[i], error, now),
                                },
                            )
                        }
                },
                Err(StoreError::NotFound) => final(self)@ == old(self)@ && (forall|i: int|
                    0 <= i < old(self)@.len() ==> (#[trigger] old(self)@[i]).id != job_id),
                Err(StoreError::InvalidState) => {
                    &&& final(self)@ == old(self)@
                    &&& exists|i: int|
                        0 <= i < old(self)@.len() && (#[trigger] old(self)@[i]).id == job_id
                    &&& forall|i: int|
                        0 <= i < old(self)@.len() && (#[trigger] old(self)@[i]).id == job_id
                            ==> !(old(self)@[i].status is Running)
                },
                Err(StoreError::Persistence) => false,
            },
    {
        match self.find_index(job_id) {
            None => Err(StoreError::NotFound),
            Some(i) => {
                proof {
                    lemma_position_facts(self@, i as int, job_id);
                }
                let current = self.jobs[i].status;
                match current {
                    JobStatus::Running => {
                        let rec = &mut self.jobs[i];
                        match retry_at {
                            Some(t) => {
                                rec.status = JobStatus::Pending;
                                rec.available_at = t;
                                rec.updated_at = now;
                                rec.last_error = Some(error);
                            },
                            None => {
                                rec.status = JobStatus::Abandoned;
                                rec.updated_at = now;
                                rec.last_error = Some(error);
                            },
                        }
                        Ok(())
                    },
                    _ => Err(StoreError::InvalidState),
                }
            },
        }
    }

    /// Position of the record with identifier `job_id`, if any.
    fn find_index(&self, job_id: u64) -> (r: Option<usize>)
        ensures
            match r {
                Some(i) => i < self@.len() && self@[i as int].id == job_id,
                None => forall|k: int| 0 <= k < self@.len() ==> (#[trigger] self@[k]).id != job_id,
            },
    {
        let mut i: usize = 0;
        while i < self.jobs.len()
            invariant
                i <= self@.len(),
                forall|k: int| 0 <= k < i ==> (#[trigger] self@[k]).id != job_id,
            decreases self@.len() - i,
        {
            if self.jobs[i].id == job_id {
                return Some(i);
            }
            i = i + 1;
        }
        None
    }
}

/// With unique identifiers, every position holding `job_id` is the one known
/// to hold it.
proof fn lemma_position_facts(s: Seq<JobRecord>, i: int, job_id: u64)
    requires
        ids_unique(s),
        0 <= i < s.len(),
        s[i].id == job_id,
    ensures
        forall|k: int| 0 <= k < s.len() && (#[trigger] s[k]).id == job_id ==> k == i,
{
    assert forall|k: int| 0 <= k < s.len() && (#[trigger] s[k]).id == job_id implies k == i by {
        crate::record::lemma_id_pins_position(s, i, k);
    }
}

/// Whether the record may be claimed at `now`.
fn is_eligible(j: &JobRecord, now: u64) -> (r: bool)
    ensures
        r == eligible(*j, now),
{
    matches!(j.status, JobStatus::Pending) && j.available_at <= now && j.attempts < u64::MAX
}

/// Whether `a` comes before `b` in the claim order.
fn earlier_cmp(a: &JobRecord, b: &JobRecord) -> (r: bool)
    ensures
        r == earlier(*a, *b),
{
    if a.available_at != b.available_at {
        a.available_at < b.available_at
    } else if a.created_at != b.created_at {
        a.created_at < b.created_at
    } else {
        a.id < b.id
    }
}

} // verus!
