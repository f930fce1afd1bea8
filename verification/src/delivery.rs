//! Delivery client decisions and the inline submitter's record resolution.
//!
//! One delivery attempt is: open the sealed tenant fields (a failure here is
//! a local failed transition, nothing is sent upstream), post the payload
//! once with a bounded timeout, classify the reply, and resolve the record
//! accordingly. No retries happen here; all retry policy lives with the
//! scheduler.

use vstd::prelude::*;

use crate::codec::{lookup_opened_of, opened_of, LookupCodec, OpaqueCodec};
use crate::record::{claimable, SubmissionRecord, MAX_RETRIES};
use crate::retry::MAX_BACKOFF_SECONDS;
use crate::status::Status;
use crate::store::{fail_effect, transmit_effect, SubmissionStore};

verus! {

/// Classification of one delivery attempt against the upstream endpoint.
pub enum DeliveryOutcome {
    /// Success status and a parseable response body.
    Success { body: String },
    /// The endpoint answered, but with a non-success status or a body that
    /// does not parse.
    Rejected { http_status: u16, body: String },
    /// The request never completed: connection failure or timeout.
    TransportError,
}

/// Whether a string is a well-formed JSON document.
pub uninterp spec fn json_well_formed(s: Seq<char>) -> bool;

/// Relies on `serde_json::from_str::<serde_json::Value>`: whether a string
/// parses as JSON depends on its characters alone.
#[verifier::external_body]
fn json_parse_ok(s: &str) -> (r: bool)
    ensures
        r == json_well_formed(s@),
{
    serde_json::from_str::<serde_json::Value>(s).is_ok()
}

/// An HTTP status in the success range.
pub open spec fn is_http_success(status: u16) -> bool {
    200 <= status < 300
}

/// Classifies a completed HTTP exchange: a success status with a parseable
/// JSON body is `Success`; anything else the endpoint answered is
/// `Rejected`. (A transport failure never reaches this point; the caller
/// uses [`DeliveryOutcome::TransportError`] for it directly.)
pub fn classify_response(http_status: u16, body: String) -> (r: DeliveryOutcome)
    ensures
        is_http_success(http_status) && json_well_formed(body@) ==> (r matches
        DeliveryOutcome::Success { body: b } && b@ == body@),
        !(is_http_success(http_status) && json_well_formed(body@)) ==> (r matches
        DeliveryOutcome::Rejected { http_status: s, body: b } && s == http_status && b@ == body@),
{
    let success = 200 <= http_status && http_status < 300;
    if success && json_parse_ok(body.as_str()) {
        DeliveryOutcome::Success { body }
    } else {
        DeliveryOutcome::Rejected { http_status, body }
    }
}

/// The decoded wire payload for one upstream attempt.
pub struct UpstreamPayload {
    /// The tenant's tax identifier, in the clear, for the wire body.
    pub tin: String,
    /// The tenant's branch identifier, in the clear, for the wire body.
    pub branch_id: String,
    /// The record's government-mandated sequence number.
    pub sequence_no: i64,
    /// The canonical document body.
    pub body: String,
}

/// A record-local delivery failure that happens before any network attempt.
#[derive(Clone, Copy, Debug, PartialEq, Eq, Structural)]
pub enum DeliveryError {
    /// A sealed tenant field did not open; garbage credentials are never
    /// sent upstream.
    Decryption,
}

/// Opens the sealed tenant fields of a record and assembles the upstream
/// payload. Fails — without any network attempt — exactly when a sealed
/// field does not open under its codec.
pub fn prepare_upstream(
    record: &SubmissionRecord,
    lookup: &LookupCodec,
    opaque: &OpaqueCodec,
) -> (r: Result<UpstreamPayload, DeliveryError>)
    requires
        lookup.wf(),
        opaque.wf(),
    ensures
        r matches Ok(p) ==> {
            &&& lookup_opened_of(lookup.key_view(), record.tin_sealed.data@) == Some(p.tin@)
            &&& opened_of(opaque.key_view(), record.branch_sealed.data@) == Some(p.branch_id@)
            &&& p.sequence_no == record.sequence_no
            &&& p.body@ == record.payload@
        },
        r is Err <==> (lookup_opened_of(lookup.key_view(), record.tin_sealed.data@) is None
            || opened_of(opaque.key_view(), record.branch_sealed.data@) is None),
{
    let tin = match lookup.open_lookup(&record.tin_sealed) {
        Option::Some(t) => t,
        Option::None => {
            return Err(DeliveryError::Decryption);
        },
    };
    let branch_id = match opaque.open(&record.branch_sealed) {
        Option::Some(b) => b,
        Option::None => {
            return Err(DeliveryError::Decryption);
        },
    };
    Ok(
        UpstreamPayload {
            tin,
            branch_id,
            sequence_no: record.sequence_no,
            body: record.payload.clone(),
        },
    )
}

/// Both sealed tenant fields of a record open under the given keys.
pub open spec fn sealed_fields_open(r: SubmissionRecord, lookup_key: Seq<u8>, opaque_key: Seq<u8>) -> bool {
    &&& lookup_opened_of(lookup_key, r.tin_sealed.data@) is Some
    &&& opened_of(opaque_key, r.branch_sealed.data@) is Some
}

/// Begins one delivery attempt: claims the record carrying `id` (the
/// mutual-exclusion step, persisted before any network call) and opens its
/// sealed tenant fields. Returns the wire payload to post when both
/// succeed. When the claim misses, nothing changes. When a sealed field
/// does not open, the record moves straight to `Failed` — with its retry
/// count raised and backoff set — and no payload is ever produced, so
/// garbage credentials cannot reach the network.
pub fn begin_attempt(
    store: &mut SubmissionStore,
    id: u64,
    lookup: &LookupCodec,
    opaque: &OpaqueCodec,
    now: i64,
) -> (r: Option<UpstreamPayload>)
    requires
        old(store).wf(),
        lookup.wf(),
        opaque.wf(),
        now <= i64::MAX - MAX_BACKOFF_SECONDS,
    ensures
        final(store).wf(),
        final(store).next_id == old(store).next_id,
        final(store).records@.len() == old(store).records@.len(),
        !(exists|i: int|
            0 <= i < old(store).records@.len() && (#[trigger] old(store).records@[i]).id == id
                && claimable(old(store).records@[i])) ==> final(store).records@ == old(
            store,
        ).records@ && r is None,
        forall|i: int|
            0 <= i < old(store).records@.len() && !((#[trigger] old(store).records@[i]).id == id
                && claimable(old(store).records@[i])) ==> final(store).records@[i] == old(
                store,
            ).records@[i],
        forall|i: int|
            0 <= i < old(store).records@.len() && (#[trigger] old(store).records@[i]).id == id
                && claimable(old(store).records@[i]) ==> {
                let pre = old(store).records@[i];
                let claimed = SubmissionRecord {
                    status: Status::Processing,
                    updated_at: now,
                    ..pre
                };
                if sealed_fields_open(pre, lookup.key_view(), opaque.key_view()) {
                    &&& final(store).records@[i] == claimed
                    &&& (r matches Some(p) && {
                        &&& lookup_opened_of(lookup.key_view(), pre.tin_sealed.data@) == Some(
                            p.tin@,
                        )
                        &&& opened_of(opaque.key_view(), pre.branch_sealed.data@) == Some(
                            p.branch_id@,
                        )
                        &&& p.sequence_no == pre.sequence_no
                        &&& p.body@ == pre.payload@
                    })
                } else {
                    &&& r is None
                    &&& if pre.retry_count < MAX_RETRIES {
                        final(store).records@[i] == (SubmissionRecord {
                            status: Status::Failed,
                            retry_count: (pre.retry_count + 1) as u64,
                            next_retry_at: Option::Some(
                                (now + crate::retry::backoff_seconds(
                                    (pre.retry_count + 1) as u64,
                                )) as i64,
                            ),
                            updated_at: now,
                            ..pre
                        })
                    } else {
                        final(store).records@[i] == claimed
                    }
                }
            },
{
    let ghost pre_records = store.records@;
    let was_claimed = store.claim(id, now);
    if !was_claimed {
        return Option::None;
    }
    let ghost mid_records = store.records@;
    proof {
        let w = choose|w: int|
            0 <= w < pre_records.len() && pre_records[w].id == id && claimable(pre_records[w]);
        assert(mid_records[w].id == id);
    }
    let prepared = match store.get_by_id(id) {
        Option::Some(rec) => prepare_upstream(rec, lookup, opaque),
        Option::None => {
            proof {
                assert(false);
            }
            return Option::None;
        },
    };
    match prepared {
        Ok(p) => Option::Some(p),
        Err(_) => {
            let _ = store.mark_failed(id, now);
            Option::None
        },
    }
}

/// Resolves one delivery attempt against the store: a `Success` outcome
/// moves the claimed record to `Transmitted` with the received body stored;
/// a rejection or transport failure moves it to `Failed` with its retry
/// count raised and its backoff window set. Returns whether a record
/// changed.
pub fn resolve_attempt(
    store: &mut SubmissionStore,
    id: u64,
    outcome: DeliveryOutcome,
    now: i64,
) -> (r: bool)
    requires
        old(store).wf(),
        now <= i64::MAX - MAX_BACKOFF_SECONDS,
    ensures
        final(store).wf(),
        final(store).next_id == old(store).next_id,
        outcome matches DeliveryOutcome::Success { body } ==> transmit_effect(
            old(store).records@,
            final(store).records@,
            id,
            body,
            now,
            r,
        ),
        !(outcome is Success) ==> fail_effect(
            old(store).records@,
            final(store).records@,
            id,
            now,
            r,
        ),
{
    match outcome {
        DeliveryOutcome::Success { body } => store.mark_transmitted(id, body, now),
        DeliveryOutcome::Rejected { .. } => store.mark_failed(id, now),
        DeliveryOutcome::TransportError => store.mark_failed(id, now),
    }
}

} // verus!
