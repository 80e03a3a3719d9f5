//! The job record: the durable unit of work, its status, and the spec-level
//! transition functions that every store operation is specified against.

use vstd::prelude::*;

verus! {

/// Lifecycle states of a job record. Transitions are monotonic along
/// `Pending -> Running -> { Succeeded | back to Pending (retry) | Abandoned }`;
/// nothing leaves `Succeeded` or `Abandoned`. `Failed` records a handler
/// failure in store backends that keep a distinct failed state; the reference
/// store in this crate records failures as a retry (back to `Pending`) or as
/// `Abandoned`, so none of its operations produces `Failed`.
#[derive(Clone, Copy, PartialEq, Eq, Structural, Debug)]
pub enum JobStatus {
    Pending,
    Running,
    Succeeded,
    Failed,
    Abandoned,
}

/// One unit of background work as the store keeps it.
///
/// `kind` names the handler that executes the job; `payload` carries the
/// job's parameters as serialized text whose schema is owned by the kind.
/// Timestamps are milliseconds on the caller's clock. `attempts` counts
/// claims and never decreases. A job is claimable only when its status is
/// `Pending` and `available_at` has passed.
pub struct JobRecord {
    pub id: u64,
    pub kind: String,
    pub payload: String,
    pub status: JobStatus,
    pub attempts: u64,
    pub available_at: u64,
    pub created_at: u64,
    pub updated_at: u64,
    pub last_error: Option<String>,
}

impl JobRecord {
    /// An exact copy of the record. Handed out by the store so that callers
    /// never hold a reference into its internal state.
    pub fn duplicate(&self) -> (r: JobRecord)
        ensures
            r == *self,
    {
        JobRecord {
            id: self.id,
            kind: self.kind.clone(),
            payload: self.payload.clone(),
            status: self.status,
            attempts: self.attempts,
            available_at: self.available_at,
            created_at: self.created_at,
            updated_at: self.updated_at,
            last_error: match &self.last_error {
                Some(e) => Some(e.clone()),
                None => None,
            },
        }
    }
}

/// A freshly inserted record: `Pending`, zero attempts, no error yet.
pub open spec fn pending_record(
    id: u64,
    kind: String,
    payload: String,
    now: u64,
    available_at: u64,
) -> JobRecord {
    JobRecord {
        id,
        kind,
        payload,
        status: JobStatus::Pending,
        attempts: 0,
        available_at,
        created_at: now,
        updated_at: now,
        last_error: None,
    }
}

/// The record after a claim: `Running`, one more attempt.
pub open spec fn claimed_record(j: JobRecord, now: u64) -> JobRecord {
    JobRecord {
        status: JobStatus::Running,
        attempts: (j.attempts + 1) as u64,
        updated_at: now,
        ..j
    }
}

/// The record after its handler succeeded.
pub open spec fn succeeded_record(j: JobRecord, now: u64) -> JobRecord {
    JobRecord { status: JobStatus::Succeeded, updated_at: now, ..j }
}

/// The record after a failure that will be retried: back to `Pending`,
/// not claimable again before `retry_at`, with the failure detail recorded.
pub open spec fn retried_record(j: JobRecord, error: String, retry_at: u64, now: u64) -> JobRecord {
    JobRecord {
        status: JobStatus::Pending,
        available_at: retry_at,
        updated_at: now,
        last_error: Some(error),
        ..j
    }
}

/// The record after its retries are exhausted: terminal, with the final
/// failure detail recorded.
pub open spec fn abandoned_record(j: JobRecord, error: String, now: u64) -> JobRecord {
    JobRecord {
        status: JobStatus::Abandoned,
        updated_at: now,
        last_error: Some(error),
        ..j
    }
}

/// A job may be claimed when it is `Pending` and its availability instant has
/// passed. The attempt counter must also have room left to count the claim;
/// a counter at the machine limit makes the job unclaimable rather than let
/// the count wrap.
pub open spec fn eligible(j: JobRecord, now: u64) -> bool {
    &&& j.status is Pending
    &&& j.available_at <= now
    &&& j.attempts < u64::MAX
}

/// Claim order among eligible jobs: oldest `available_at` first, ties broken
/// by `created_at`, then by identifier. Total over records with distinct
/// identifiers, so selection is deterministic.
pub open spec fn earlier(a: JobRecord, b: JobRecord) -> bool {
    ||| a.available_at < b.available_at
    ||| (a.available_at == b.available_at && a.created_at < b.created_at)
    ||| (a.available_at == b.available_at && a.created_at == b.created_at && a.id < b.id)
}

/// No two records share an identifier.
pub open spec fn ids_unique(s: Seq<JobRecord>) -> bool {
    forall|i: int, k: int| #![trigger s[i], s[k]] 0 <= i < k < s.len() ==> s[i].id != s[k].id
}

/// Among records with unique identifiers, an identifier pins the position.
pub proof fn lemma_id_pins_position(s: Seq<JobRecord>, i: int, k: int)
    requires
        ids_unique(s),
        0 <= i < s.len(),
        0 <= k < s.len(),
        s[i].id == s[k].id,
    ensures
        i == k,
{
}

} // verus!
