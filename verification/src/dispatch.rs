//! The dispatcher: the producer-facing façade. It checks that the payload is
//! well-formed, records the job as `Pending` and claimable at once, and
//! returns the identifier without waiting for execution. Success means the
//! record is durably written; whether the job eventually succeeds is not the
//! producer's concern.

use vstd::prelude::*;

use crate::record::pending_record;
use crate::store::JobStore;

verus! {

/// Dispatch-time failures, surfaced synchronously to the producer.
/// `Serialization` reports a payload that is not well-formed (a programmer
/// error, never retried); `Persistence` reports that the store could not
/// create the record.
#[derive(Clone, Copy, PartialEq, Eq, Structural, Debug)]
pub enum DispatchError {
    Serialization,
    Persistence,
}

/// Whether a payload text parses as JSON.
pub uninterp spec fn is_valid_json(s: Seq<char>) -> bool;

/// Relies on `serde_json::from_str::<serde_json::Value>`: whether a text
/// parses as JSON is a function of the text alone, and `Value` accepts every
/// well-formed document.
#[verifier::external_body]
fn json_well_formed(payload: &String) -> (r: bool)
    ensures
        r == is_valid_json(payload@),
{
    serde_json::from_str::<serde_json::Value>(payload.as_str()).is_ok()
}

/// Enqueue one unit of work: persist a `Pending` record for `kind` with
/// `payload`, claimable from `now`, and hand back its identifier. Returns
/// `Serialization` exactly when the payload is not well-formed JSON, and
/// `Persistence` exactly when the payload is fine but the store cannot
/// create a further record; the store is untouched on either failure.
pub fn dispatch(store: &mut JobStore, kind: String, payload: String, now: u64) -> (r: Result<
    u64,
    DispatchError,
>)
    requires
        old(store).wf(),
    ensures
        final(store).wf(),
        r is Ok <==> is_valid_json(payload@) && old(store).spec_next_id() < u64::MAX,
        r matches Ok(id) ==> {
            &&& id == old(store).spec_next_id()
            &&& final(store).spec_next_id() == old(store).spec_next_id() + 1
            &&& final(store)@ == old(store)@.push(pending_record(id, kind, payload, now, now))
        },
        r matches Err(e) ==> {
            &&& final(store)@ == old(store)@
            &&& final(store).spec_next_id() == old(store).spec_next_id()
            &&& (e == DispatchError::Serialization <==> !is_valid_json(payload@))
            &&& (e == DispatchError::Persistence ==> old(store).spec_next_id() == u64::MAX)
        },
{
    if !json_well_formed(&payload) {
        return Err(DispatchError::Serialization);
    }
    match store.insert(kind, payload, now, now) {
        Ok(id) => Ok(id),
        Err(_) => Err(DispatchError::Persistence),
    }
}

} // verus!
