//! The submission record: the durable unit of work representing one business
//! document awaiting or having completed delivery.

use vstd::prelude::*;

use crate::codec::{LookupSealed, OpaqueSealed};
use crate::status::Status;

verus! {

/// Hard cap on delivery attempts: once `retry_count` reaches this value a
/// failed record is excluded from further automatic retries.
pub const MAX_RETRIES: u64 = 5;

/// One submission record. Created transactionally alongside its batch
/// siblings, mutated only by the inline submitter and the retry scheduler,
/// never deleted.
pub struct SubmissionRecord {
    /// Store-wide unique identifier, assigned at insert, immutable.
    pub id: u64,
    /// The caller's credential key; scopes sequencing and ownership.
    pub tenant_key: String,
    /// Unique per `tenant_key`, gap-free ascending from 1, assigned at
    /// insert time and never reused.
    pub sequence_no: i64,
    /// Lifecycle status, moving only forward through the transition lattice.
    pub status: Status,
    /// The canonical document body to be sent upstream.
    pub payload: String,
    /// The tenant's tax identifier, at rest under the lookup-preserving seal.
    pub tin_sealed: LookupSealed,
    /// The tenant's branch identifier, at rest under the randomized seal.
    pub branch_sealed: OpaqueSealed,
    /// Set only when a response body was actually received from upstream.
    pub upstream_response: Option<String>,
    /// Number of failed delivery attempts so far.
    pub retry_count: u64,
    /// When present, do not attempt delivery before this instant (seconds).
    pub next_retry_at: Option<i64>,
    /// Audit timestamp: creation instant (seconds).
    pub created_at: i64,
    /// Audit timestamp: last mutation instant (seconds).
    pub updated_at: i64,
}

impl SubmissionRecord {
    /// Field invariant every record in the store satisfies.
    pub open spec fn wf(self) -> bool {
        &&& self.retry_count <= MAX_RETRIES
        &&& 1 <= self.sequence_no
    }

    /// A copy that is equal as a value to the original.
    pub fn dup(&self) -> (r: SubmissionRecord)
        ensures
            r == *self,
    {
        SubmissionRecord {
            id: self.id,
            tenant_key: self.tenant_key.clone(),
            sequence_no: self.sequence_no,
            status: self.status,
            payload: self.payload.clone(),
            tin_sealed: self.tin_sealed.dup(),
            branch_sealed: self.branch_sealed.dup(),
            upstream_response: match &self.upstream_response {
                Option::Some(s) => Option::Some(s.clone()),
                Option::None => Option::None,
            },
            retry_count: self.retry_count,
            next_retry_at: self.next_retry_at,
            created_at: self.created_at,
            updated_at: self.updated_at,
        }
    }
}

/// A record may be claimed (moved to `Processing`, the mutual-exclusion step
/// before a delivery attempt) when it is freshly received, or when it is a
/// failed or stuck in-flight record that still has retry budget.
pub open spec fn claimable(r: SubmissionRecord) -> bool {
    ||| r.status == Status::Received
    ||| ((r.status == Status::Processing || r.status == Status::Failed) && r.retry_count
        < MAX_RETRIES)
}

/// A record the retry scheduler must pick up at instant `now`: failed or
/// stuck in flight, retry budget left, and its backoff window (if any) has
/// elapsed.
pub open spec fn retry_due(r: SubmissionRecord, now: i64) -> bool {
    &&& (r.status == Status::Failed || r.status == Status::Processing)
    &&& r.retry_count < MAX_RETRIES
    &&& match r.next_retry_at {
        Option::None => true,
        Option::Some(t) => t <= now,
    }
}

/// A record whose retry budget is exhausted: failed with the attempt cap
/// reached. Such a record stays failed forever as far as the automatic
/// pipeline is concerned.
pub open spec fn retry_exhausted(r: SubmissionRecord) -> bool {
    r.status == Status::Failed && r.retry_count >= MAX_RETRIES
}

/// Runtime check for [`claimable`].
pub fn is_claimable(r: &SubmissionRecord) -> (b: bool)
    ensures
        b == claimable(*r),
{
    if r.status == Status::Received {
        true
    } else if r.status == Status::Processing || r.status == Status::Failed {
        r.retry_count < MAX_RETRIES
    } else {
        false
    }
}

/// Runtime check for [`retry_due`].
pub fn is_retry_due(r: &SubmissionRecord, now: i64) -> (b: bool)
    ensures
        b == retry_due(*r, now),
{
    if !(r.status == Status::Failed || r.status == Status::Processing) {
        return false;
    }
    if r.retry_count >= MAX_RETRIES {
        return false;
    }
    match r.next_retry_at {
        Option::None => true,
        Option::Some(t) => t <= now,
    }
}

/// Once the retry budget is exhausted, the pipeline never touches the record
/// again: it cannot be claimed and no scheduler pass finds it due, at any
/// instant.
pub proof fn lemma_exhausted_record_is_stuck(r: SubmissionRecord)
    requires
        retry_exhausted(r),
    ensures
        !claimable(r),
        forall|now: i64| !retry_due(r, now),
{
}

} // verus!
