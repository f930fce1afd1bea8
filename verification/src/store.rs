//! The submission record store: the only durable state the pipeline owns.
//!
//! Per-tenant sequence numbers form a gap-free ascending run starting at 1,
//! assigned atomically with record creation; the store's well-formedness
//! invariant carries exactly that fact, and every operation preserves it.

use vstd::prelude::*;

use crate::codec::{LookupSealed, OpaqueSealed};
use crate::record::{claimable, is_claimable, is_retry_due, retry_due, SubmissionRecord,
    MAX_RETRIES};
use crate::status::Status;

verus! {

/// Largest number of records the store can hold while sequence numbers
/// still fit in a signed 64-bit integer.
pub const STORE_CAPACITY: u64 = 0x7fff_ffff_ffff_ffff;

/// How many records of `s` belong to tenant `t`.
pub open spec fn tenant_count(s: Seq<SubmissionRecord>, t: Seq<char>) -> int
    decreases s.len(),
{
    if s.len() == 0 {
        0
    } else {
        tenant_count(s.drop_last(), t) + if s.last().tenant_key@ == t {
            1int
        } else {
            0int
        }
    }
}

/// `tenant_count` is bounded by the length of the sequence.
pub proof fn lemma_tenant_count_bounds(s: Seq<SubmissionRecord>, t: Seq<char>)
    ensures
        0 <= tenant_count(s, t) <= s.len(),
    decreases s.len(),
{
    if s.len() > 0 {
        lemma_tenant_count_bounds(s.drop_last(), t);
    }
}

/// Appending one record raises the count of its own tenant by one and
/// leaves every other tenant's count unchanged.
pub proof fn lemma_tenant_count_push(s: Seq<SubmissionRecord>, t: Seq<char>, r: SubmissionRecord)
    ensures
        tenant_count(s.push(r), t) == tenant_count(s, t) + if r.tenant_key@ == t {
            1int
        } else {
            0int
        },
{
    assert(s.push(r).drop_last() =~= s);
    assert(s.push(r).last() == r);
}

/// Stepping a prefix one record further adjusts the count by whether that
/// record belongs to the tenant.
pub proof fn lemma_tenant_count_take_succ(s: Seq<SubmissionRecord>, t: Seq<char>, i: int)
    requires
        0 <= i < s.len(),
    ensures
        tenant_count(s.take(i + 1), t) == tenant_count(s.take(i), t) + if s[i].tenant_key@ == t {
            1int
        } else {
            0int
        },
{
    assert(s.take(i + 1) =~= s.take(i).push(s[i]));
    lemma_tenant_count_push(s.take(i), t, s[i]);
}

/// Counts only grow as the prefix grows.
pub proof fn lemma_tenant_count_take_mono(s: Seq<SubmissionRecord>, t: Seq<char>, i: int, j: int)
    requires
        0 <= i <= j <= s.len(),
    ensures
        tenant_count(s.take(i), t) <= tenant_count(s.take(j), t),
    decreases j - i,
{
    if i < j {
        lemma_tenant_count_take_succ(s, t, j - 1);
        lemma_tenant_count_take_mono(s, t, i, j - 1);
    }
}

/// Two sequences whose records carry the same tenant keys position by
/// position have the same count for every tenant.
pub proof fn lemma_tenant_count_same_tenants(
    s1: Seq<SubmissionRecord>,
    s2: Seq<SubmissionRecord>,
    t: Seq<char>,
)
    requires
        s1.len() == s2.len(),
        forall|i: int| 0 <= i < s1.len() ==> (#[trigger] s1[i]).tenant_key@ == s2[i].tenant_key@,
    ensures
        tenant_count(s1, t) == tenant_count(s2, t),
    decreases s1.len(),
{
    if s1.len() > 0 {
        lemma_tenant_count_same_tenants(s1.drop_last(), s2.drop_last(), t);
        assert(s1.last().tenant_key@ == s2.last().tenant_key@);
    }
}

/// Every record is well formed, and each record's sequence number is one
/// more than the number of earlier records of its tenant: per tenant, the
/// sequence numbers are exactly 1, 2, 3, ... in insertion order.
pub open spec fn seq_wf(s: Seq<SubmissionRecord>) -> bool {
    &&& forall|i: int| 0 <= i < s.len() ==> (#[trigger] s[i]).wf()
    &&& forall|i: int|
        0 <= i < s.len() ==> (#[trigger] s[i]).sequence_no == tenant_count(
            s.take(i),
            s[i].tenant_key@,
        ) + 1
}

/// Record identifiers are strictly increasing in insertion order (hence
/// unique) and all below the next identifier to hand out.
pub open spec fn ids_wf(s: Seq<SubmissionRecord>, next_id: u64) -> bool {
    &&& forall|i: int, j: int|
        0 <= i < j < s.len() ==> (#[trigger] s[i]).id < (#[trigger] s[j]).id
    &&& forall|i: int| 0 <= i < s.len() ==> (#[trigger] s[i]).id < next_id
}

/// Pushing a record whose sequence number continues its tenant's run
/// preserves `seq_wf`.
proof fn lemma_seq_wf_push(s: Seq<SubmissionRecord>, r: SubmissionRecord)
    requires
        seq_wf(s),
        r.wf(),
        r.sequence_no == tenant_count(s, r.tenant_key@) + 1,
    ensures
        seq_wf(s.push(r)),
{
    let s2 = s.push(r);
    assert forall|i: int| 0 <= i < s2.len() implies (#[trigger] s2[i]).wf() by {
        if i < s.len() {
            assert(s2[i] == s[i]);
        }
    }
    assert forall|i: int|
        0 <= i < s2.len() implies (#[trigger] s2[i]).sequence_no == tenant_count(
        s2.take(i),
        s2[i].tenant_key@,
    ) + 1 by {
        if i < s.len() {
            assert(s2.take(i) =~= s.take(i));
            assert(s2[i] == s[i]);
        } else {
            assert(i == s.len());
            assert(s2.take(i) =~= s);
            assert(s2[i] == r);
        }
    }
}

/// Pushing a record with a fresh, larger identifier preserves `ids_wf`.
proof fn lemma_ids_wf_push(
    s: Seq<SubmissionRecord>,
    r: SubmissionRecord,
    old_next: u64,
    new_next: u64,
)
    requires
        ids_wf(s, old_next),
        old_next <= r.id < new_next,
    ensures
        ids_wf(s.push(r), new_next),
{
    let s2 = s.push(r);
    assert forall|i: int, j: int|
        0 <= i < j < s2.len() implies (#[trigger] s2[i]).id < (#[trigger] s2[j]).id by {
        if j < s.len() {
            assert(s2[i] == s[i] && s2[j] == s[j]);
        } else {
            assert(s2[j] == r);
            assert(s2[i] == s[i]);
            assert(s[i].id < old_next);
        }
    }
    assert forall|i: int| 0 <= i < s2.len() implies (#[trigger] s2[i]).id < new_next by {
        if i < s.len() {
            assert(s2[i] == s[i]);
            assert(s[i].id < old_next);
        }
    }
}

/// Replacing one record with another that keeps its tenant key, sequence
/// number and identifier preserves both invariants.
proof fn lemma_wf_after_update(
    s: Seq<SubmissionRecord>,
    next_id: u64,
    i: int,
    r2: SubmissionRecord,
)
    requires
        seq_wf(s),
        ids_wf(s, next_id),
        0 <= i < s.len(),
        r2.wf(),
        r2.tenant_key@ == s[i].tenant_key@,
        r2.sequence_no == s[i].sequence_no,
        r2.id == s[i].id,
    ensures
        seq_wf(s.update(i, r2)),
        ids_wf(s.update(i, r2), next_id),
{
    let s2 = s.update(i, r2);
    assert forall|m: int| 0 <= m < s2.len() implies (#[trigger] s2[m]).wf() by {
        if m != i {
            assert(s2[m] == s[m]);
        }
    }
    assert forall|m: int|
        0 <= m < s2.len() implies (#[trigger] s2[m]).sequence_no == tenant_count(
        s2.take(m),
        s2[m].tenant_key@,
    ) + 1 by {
        assert(s2.take(m) =~= s2.subrange(0, m));
        assert forall|p: int|
            0 <= p < s2.take(m).len() implies (#[trigger] s2.take(m)[p]).tenant_key@ == s.take(
            m,
        )[p].tenant_key@ by {
            if p != i {
                assert(s2[p] == s[p]);
            }
        }
        lemma_tenant_count_same_tenants(s2.take(m), s.take(m), s2[m].tenant_key@);
        if m != i {
            assert(s2[m] == s[m]);
        }
    }
    assert forall|m: int, n: int|
        0 <= m < n < s2.len() implies (#[trigger] s2[m]).id < (#[trigger] s2[n]).id by {
        assert(s2[m].id == s[m].id);
        assert(s2[n].id == s[n].id);
    }
    assert forall|m: int| 0 <= m < s2.len() implies (#[trigger] s2[m]).id < next_id by {
        assert(s2[m].id == s[m].id);
    }
}

/// No two records of one tenant ever share a sequence number: within a
/// well-formed store, sequence numbers of one tenant strictly increase in
/// insertion order.
pub proof fn lemma_tenant_sequence_unique(store: SubmissionStore, i: int, j: int)
    requires
        store.wf(),
        0 <= i < j < store.records@.len(),
        store.records@[i].tenant_key@ == store.records@[j].tenant_key@,
    ensures
        store.records@[i].sequence_no < store.records@[j].sequence_no,
{
    let s = store.records@;
    let t = s[j].tenant_key@;
    lemma_tenant_count_take_succ(s, t, i);
    lemma_tenant_count_take_mono(s, t, i + 1, j);
}

/// Sequence numbers are gap-free: every record's number lies between 1 and
/// its tenant's total record count, so per tenant the assigned numbers are
/// exactly the initial range 1..count.
pub proof fn lemma_tenant_sequence_range(store: SubmissionStore, i: int)
    requires
        store.wf(),
        0 <= i < store.records@.len(),
    ensures
        1 <= store.records@[i].sequence_no <= tenant_count(
            store.records@,
            store.records@[i].tenant_key@,
        ),
{
    let s = store.records@;
    let t = s[i].tenant_key@;
    lemma_tenant_count_bounds(s.take(i), t);
    lemma_tenant_count_take_succ(s, t, i);
    lemma_tenant_count_take_mono(s, t, i + 1, s.len() as int);
    assert(s.take(s.len() as int) =~= s);
}

/// What a successful or missed claim does to the record table: when some
/// record carries `id` and is [`claimable`], exactly that record moves to
/// `Processing` with its audit timestamp refreshed and `r` is true;
/// otherwise nothing changes and `r` is false.
pub open spec fn claim_effect(
    pre: Seq<SubmissionRecord>,
    post: Seq<SubmissionRecord>,
    id: u64,
    now: i64,
    r: bool,
) -> bool {
    &&& post.len() == pre.len()
    &&& r == exists|i: int| 0 <= i < pre.len() && (#[trigger] pre[i]).id == id && claimable(pre[i])
    &&& forall|i: int|
        0 <= i < pre.len() && !((#[trigger] pre[i]).id == id && claimable(pre[i])) ==> post[i]
            == pre[i]
    &&& forall|i: int|
        0 <= i < pre.len() && (#[trigger] pre[i]).id == id && claimable(pre[i]) ==> post[i]
            == (SubmissionRecord { status: Status::Processing, updated_at: now, ..pre[i] })
}

/// What recording a successful delivery does to the record table: when some
/// record carries `id` and is `Processing`, exactly that record moves to
/// `Transmitted` with the received response stored and its backoff window
/// cleared, and `r` is true; otherwise nothing changes and `r` is false.
pub open spec fn transmit_effect(
    pre: Seq<SubmissionRecord>,
    post: Seq<SubmissionRecord>,
    id: u64,
    response: String,
    now: i64,
    r: bool,
) -> bool {
    &&& post.len() == pre.len()
    &&& r == exists|i: int|
        0 <= i < pre.len() && (#[trigger] pre[i]).id == id && pre[i].status == Status::Processing
    &&& forall|i: int|
        0 <= i < pre.len() && !((#[trigger] pre[i]).id == id && pre[i].status
            == Status::Processing) ==> post[i] == pre[i]
    &&& forall|i: int|
        0 <= i < pre.len() && (#[trigger] pre[i]).id == id && pre[i].status == Status::Processing
            ==> post[i] == (SubmissionRecord {
            status: Status::Transmitted,
            upstream_response: Option::Some(response),
            next_retry_at: Option::None,
            updated_at: now,
            ..pre[i]
        })
}

/// What recording a failed delivery attempt does to the record table: when
/// some record carries `id`, is `Processing` and has retry budget left,
/// exactly that record moves to `Failed`, its retry count rises by one, and
/// its backoff window is exactly `2^new_retry_count` minutes after `now`;
/// `r` is true. Otherwise nothing changes and `r` is false.
pub open spec fn fail_effect(
    pre: Seq<SubmissionRecord>,
    post: Seq<SubmissionRecord>,
    id: u64,
    now: i64,
    r: bool,
) -> bool {
    &&& post.len() == pre.len()
    &&& r == exists|i: int|
        0 <= i < pre.len() && (#[trigger] pre[i]).id == id && pre[i].status == Status::Processing
            && pre[i].retry_count < MAX_RETRIES
    &&& forall|i: int|
        0 <= i < pre.len() && !((#[trigger] pre[i]).id == id && pre[i].status
            == Status::Processing && pre[i].retry_count < MAX_RETRIES) ==> post[i] == pre[i]
    &&& forall|i: int|
        0 <= i < pre.len() && (#[trigger] pre[i]).id == id && pre[i].status == Status::Processing
            && pre[i].retry_count < MAX_RETRIES ==> post[i] == (SubmissionRecord {
            status: Status::Failed,
            retry_count: (pre[i].retry_count + 1) as u64,
            next_retry_at: Option::Some(
                (now + crate::retry::backoff_seconds((pre[i].retry_count + 1) as u64)) as i64,
            ),
            updated_at: now,
            ..pre[i]
        })
}

/// A `Transmitted` record is terminal in the store as well: none of the
/// three effects — claim, transmit, fail — touches a record that has
/// already been transmitted.
pub proof fn lemma_transmitted_record_never_changes(
    pre: Seq<SubmissionRecord>,
    post: Seq<SubmissionRecord>,
    id: u64,
    response: String,
    now: i64,
    r: bool,
    i: int,
)
    requires
        0 <= i < pre.len(),
        pre[i].status == Status::Transmitted,
        claim_effect(pre, post, id, now, r) || transmit_effect(pre, post, id, response, now, r)
            || fail_effect(pre, post, id, now, r),
    ensures
        post[i] == pre[i],
{
}

/// The durable table of submission records.
pub struct SubmissionStore {
    /// All records ever accepted, in insertion order.
    pub records: Vec<SubmissionRecord>,
    /// The identifier the next inserted record will receive.
    pub next_id: u64,
}

impl SubmissionStore {
    /// Store invariant: gap-free per-tenant sequencing, unique ascending
    /// identifiers, and room for sequence numbers in a signed 64-bit
    /// integer.
    pub open spec fn wf(self) -> bool {
        &&& seq_wf(self.records@)
        &&& ids_wf(self.records@, self.next_id)
        &&& self.records@.len() <= STORE_CAPACITY
    }

    /// An empty store.
    pub fn new() -> (r: SubmissionStore)
        ensures
            r.wf(),
            r.records@.len() == 0,
            r.next_id == 0,
    {
        SubmissionStore { records: Vec::new(), next_id: 0 }
    }

    /// The number of records held.
    pub fn len(&self) -> (r: usize)
        ensures
            r == self.records@.len(),
    {
        self.records.len()
    }

    /// The highest sequence number any record of `tenant` carries, or 0
    /// when the tenant has none. Because per-tenant sequence numbers are
    /// exactly 1..count in insertion order, this equals the tenant's record
    /// count.
    pub fn max_seq_for(&self, tenant: &String) -> (r: i64)
        requires
            self.wf(),
        ensures
            r == tenant_count(self.records@, tenant@),
            0 <= r <= self.records@.len(),
    {
        let n = self.records.len();
        let mut count: i64 = 0;
        let mut i: usize = 0;
        while i < n
            invariant
                n == self.records@.len(),
                n <= STORE_CAPACITY,
                0 <= i <= n,
                count == tenant_count(self.records@.take(i as int), tenant@),
                0 <= count <= i,
            decreases n - i,
        {
            proof {
                lemma_tenant_count_take_succ(self.records@, tenant@, i as int);
                lemma_tenant_count_bounds(self.records@.take(i as int + 1), tenant@);
            }
            if self.records[i].tenant_key == *tenant {
                count = count + 1;
            }
            i = i + 1;
        }
        proof {
            assert(self.records@.take(n as int) =~= self.records@);
        }
        count
    }

    /// The invoice sequencer: the number the next record of `tenant` must
    /// receive, one past the tenant's highest stored number (1 for a tenant
    /// with no records). Reading it and inserting must happen under one
    /// exclusive borrow of the store, which is what serializes concurrent
    /// batches for the same tenant.
    pub fn next_seq_for(&self, tenant: &String) -> (r: i64)
        requires
            self.wf(),
            self.records@.len() < STORE_CAPACITY,
        ensures
            r == tenant_count(self.records@, tenant@) + 1,
            1 <= r <= self.records@.len() + 1,
    {
        self.max_seq_for(tenant) + 1
    }

    /// Accepts a batch for one tenant: appends one `Received` record per
    /// payload, assigning the gap-free run of sequence numbers
    /// `prior_max + 1 .. prior_max + k` and fresh ascending identifiers.
    /// Returns the new records' identifiers in batch order.
    #[verifier::rlimit(60)]
    pub fn insert_batch(
        &mut self,
        tenant: &String,
        payloads: &Vec<String>,
        tin_sealed: &LookupSealed,
        branch_sealed: &OpaqueSealed,
        now: i64,
    ) -> (ids: Vec<u64>)
        requires
            old(self).wf(),
            old(self).records@.len() + payloads@.len() <= STORE_CAPACITY,
            old(self).next_id + payloads@.len() <= u64::MAX,
        ensures
            final(self).wf(),
            final(self).next_id == old(self).next_id + payloads@.len(),
            final(self).records@.len() == old(self).records@.len() + payloads@.len(),
            final(self).records@.subrange(0, old(self).records@.len() as int) == old(self).records@,
            ids@.len() == payloads@.len(),
            forall|j: int| 0 <= j < ids@.len() ==> #[trigger] ids@[j] == old(self).next_id + j,
            forall|i: int|
                old(self).records@.len() <= i < final(self).records@.len() ==> {
                    let r = #[trigger] final(self).records@[i];
                    let j = i - old(self).records@.len();
                    &&& r.id == old(self).next_id + j
                    &&& r.tenant_key@ == tenant@
                    &&& r.sequence_no == tenant_count(old(self).records@, tenant@) + j + 1
                    &&& r.status == Status::Received
                    &&& r.payload@ == payloads@[j]@
                    &&& r.tin_sealed == *tin_sealed
                    &&& r.branch_sealed == *branch_sealed
                    &&& r.upstream_response is None
                    &&& r.retry_count == 0
                    &&& r.next_retry_at is None
                    &&& r.created_at == now
                    &&& r.updated_at == now
                },
    {
        let ghost prior = self.records@;
        let ghost prior_next = self.next_id;
        let base = self.max_seq_for(tenant);
        let k = payloads.len();
        let mut ids: Vec<u64> = Vec::new();
        let mut j: usize = 0;
        while j < k
            invariant
                self.wf(),
                k == payloads@.len(),
                0 <= j <= k,
                base == tenant_count(prior, tenant@),
                0 <= base <= prior.len(),
                prior.len() + k <= STORE_CAPACITY,
                prior_next + k <= u64::MAX,
                self.records@.len() == prior.len() + j,
                self.next_id == prior_next + j,
                self.records@.subrange(0, prior.len() as int) == prior,
                tenant_count(self.records@, tenant@) == base + j,
                ids@.len() == j,
                forall|m: int| 0 <= m < ids@.len() ==> #[trigger] ids@[m] == prior_next + m,
                forall|i: int|
                    prior.len() <= i < self.records@.len() ==> {
                        let r = #[trigger] self.records@[i];
                        let m = i - prior.len();
                        &&& r.id == prior_next + m
                        &&& r.tenant_key@ == tenant@
                        &&& r.sequence_no == base + m + 1
                        &&& r.status == Status::Received
                        &&& r.payload@ == payloads@[m]@
                        &&& r.tin_sealed == *tin_sealed
                        &&& r.branch_sealed == *branch_sealed
                        &&& r.upstream_response is None
                        &&& r.retry_count == 0
                        &&& r.next_retry_at is None
                        &&& r.created_at == now
                        &&& r.updated_at == now
                    },
            decreases k - j,
        {
            let seq_no: i64 = base + 1 + (j as i64);
            let rec = SubmissionRecord {
                id: self.next_id,
                tenant_key: tenant.clone(),
                sequence_no: seq_no,
                status: Status::Received,
                payload: payloads[j].clone(),
                tin_sealed: tin_sealed.dup(),
                branch_sealed: branch_sealed.dup(),
                upstream_response: Option::None,
                retry_count: 0,
                next_retry_at: Option::None,
                created_at: now,
                updated_at: now,
            };
            proof {
                lemma_seq_wf_push(self.records@, rec);
                lemma_ids_wf_push(self.records@, rec, self.next_id, (self.next_id + 1) as u64);
                lemma_tenant_count_push(self.records@, tenant@, rec);
                assert(self.records@.push(rec).subrange(0, prior.len() as int) =~= prior);
            }
            ids.push(self.next_id);
            self.records.push(rec);
            self.next_id = self.next_id + 1;
            j = j + 1;
        }
        ids
    }

    /// The record carrying `id` is unique when it exists.
    proof fn lemma_id_unique(self, i: int)
        requires
            self.wf(),
            0 <= i < self.records@.len(),
        ensures
            forall|j: int|
                0 <= j < self.records@.len() && (#[trigger] self.records@[j]).id
                    == self.records@[i].id ==> j == i,
    {
        assert forall|j: int|
            0 <= j < self.records@.len() && (#[trigger] self.records@[j]).id
                == self.records@[i].id implies j == i by {
            if j < i {
                assert(self.records@[j].id < self.records@[i].id);
            } else if j > i {
                assert(self.records@[i].id < self.records@[j].id);
            }
        }
    }

    /// Claims the record carrying `id` for a delivery attempt: the
    /// mutual-exclusion step `-> Processing`, taken only when the record is
    /// [`claimable`]. Returns whether the claim took effect; on a miss the
    /// store is unchanged. A record out of retry budget is never claimed.
    pub fn claim(&mut self, id: u64, now: i64) -> (r: bool)
        requires
            old(self).wf(),
        ensures
            final(self).wf(),
            final(self).next_id == old(self).next_id,
            claim_effect(old(self).records@, final(self).records@, id, now, r),
    {
        match self.find_index(id) {
            Option::None => false,
            Option::Some(i) => {
                proof {
                    self.lemma_id_unique(i as int);
                }
                if is_claimable(&self.records[i]) {
                    let mut rec = self.records[i].dup();
                    rec.status = Status::Processing;
                    rec.updated_at = now;
                    proof {
                        lemma_wf_after_update(self.records@, self.next_id, i as int, rec);
                    }
                    self.records.set(i, rec);
                    true
                } else {
                    false
                }
            },
        }
    }

    /// Records a successful delivery: the claimed record moves
    /// `Processing -> Transmitted`, stores the upstream response body it
    /// actually received, and clears its backoff window. Only a record
    /// currently `Processing` is touched; on a miss the store is unchanged.
    pub fn mark_transmitted(&mut self, id: u64, response: String, now: i64) -> (r: bool)
        requires
            old(self).wf(),
        ensures
            final(self).wf(),
            final(self).next_id == old(self).next_id,
            transmit_effect(old(self).records@, final(self).records@, id, response, now, r),
    {
        match self.find_index(id) {
            Option::None => false,
            Option::Some(i) => {
                proof {
                    self.lemma_id_unique(i as int);
                }
                if self.records[i].status == Status::Processing {
                    let mut rec = self.records[i].dup();
                    rec.status = Status::Transmitted;
                    rec.upstream_response = Option::Some(response);
                    rec.next_retry_at = Option::None;
                    rec.updated_at = now;
                    proof {
                        lemma_wf_after_update(self.records@, self.next_id, i as int, rec);
                    }
                    self.records.set(i, rec);
                    true
                } else {
                    false
                }
            },
        }
    }

    /// Records a failed delivery attempt: the claimed record moves
    /// `Processing -> Failed`, its retry count rises by one, and its next
    /// backoff window is exactly `2^new_retry_count` minutes after `now`.
    /// Only a record currently `Processing` with retry budget left is
    /// touched; on a miss the store is unchanged.
    pub fn mark_failed(&mut self, id: u64, now: i64) -> (r: bool)
        requires
            old(self).wf(),
            now <= i64::MAX - crate::retry::MAX_BACKOFF_SECONDS,
        ensures
            final(self).wf(),
            final(self).next_id == old(self).next_id,
            fail_effect(old(self).records@, final(self).records@, id, now, r),
    {
        match self.find_index(id) {
            Option::None => false,
            Option::Some(i) => {
                proof {
                    self.lemma_id_unique(i as int);
                }
                let processing = self.records[i].status == Status::Processing;
                let budget_left = self.records[i].retry_count < MAX_RETRIES;
                if processing && budget_left {
                    let attempts = self.records[i].retry_count + 1;
                    let delay = crate::retry::backoff_delay(attempts);
                    let mut rec = self.records[i].dup();
                    rec.status = Status::Failed;
                    rec.retry_count = attempts;
                    rec.next_retry_at = Option::Some(now + delay);
                    rec.updated_at = now;
                    proof {
                        lemma_wf_after_update(self.records@, self.next_id, i as int, rec);
                    }
                    self.records.set(i, rec);
                    true
                } else {
                    false
                }
            },
        }
    }

    /// `id` names a record of `s` that is [`retry_due`] at instant `now`.
    pub open spec fn names_due_record(s: Seq<SubmissionRecord>, id: u64, now: i64) -> bool {
        exists|m: int| 0 <= m < s.len() && (#[trigger] s[m]).id == id && retry_due(s[m], now)
    }

    /// The identifiers of every record a scheduler pass at instant `now`
    /// must re-drive: exactly those records that are [`retry_due`].
    pub fn retry_scan(&self, now: i64) -> (due: Vec<u64>)
        requires
            self.wf(),
        ensures
            forall|j: int|
                0 <= j < due@.len() ==> Self::names_due_record(
                    self.records@,
                    #[trigger] due@[j],
                    now,
                ),
            forall|i: int|
                0 <= i < self.records@.len() && retry_due(#[trigger] self.records@[i], now)
                    ==> due@.contains(self.records@[i].id),
    {
        let n = self.records.len();
        let mut due: Vec<u64> = Vec::new();
        let mut i: usize = 0;
        while i < n
            invariant
                n == self.records@.len(),
                0 <= i <= n,
                forall|j: int|
                    0 <= j < due@.len() ==> Self::names_due_record(
                        self.records@,
                        #[trigger] due@[j],
                        now,
                    ),
                forall|m: int|
                    0 <= m < i && retry_due(#[trigger] self.records@[m], now) ==> due@.contains(
                        self.records@[m].id,
                    ),
            decreases n - i,
        {
            if is_retry_due(&self.records[i], now) {
                let ghost prev = due@;
                due.push(self.records[i].id);
                proof {
                    assert forall|m: int|
                        0 <= m < i + 1 && retry_due(
                            #[trigger] self.records@[m],
                            now,
                        ) implies due@.contains(self.records@[m].id) by {
                        if m < i {
                            let k = choose|k: int|
                                0 <= k < prev.len() && prev[k] == self.records@[m].id;
                            assert(due@[k] == self.records@[m].id);
                        } else {
                            assert(due@[prev.len() as int] == self.records@[m].id);
                        }
                    }
                    assert forall|j: int| 0 <= j < due@.len() implies Self::names_due_record(
                        self.records@,
                        #[trigger] due@[j],
                        now,
                    ) by {
                        if j < prev.len() {
                            assert(due@[j] == prev[j]);
                        } else {
                            assert(due@[j] == self.records@[i as int].id);
                            assert((self.records@[i as int]).id == due@[j] && retry_due(
                                self.records@[i as int],
                                now,
                            ));
                        }
                    }
                }
            }
            i = i + 1;
        }
        due
    }

    /// The position of the record carrying `id`, if any.
    fn find_index(&self, id: u64) -> (r: Option<usize>)
        ensures
            r matches Some(i) ==> i < self.records@.len() && self.records@[i as int].id == id,
            r is None ==> forall|i: int|
                0 <= i < self.records@.len() ==> (#[trigger] self.records@[i]).id != id,
    {
        let n = self.records.len();
        let mut i: usize = 0;
        while i < n
            invariant
                n == self.records@.len(),
                0 <= i <= n,
                forall|m: int| 0 <= m < i ==> (#[trigger] self.records@[m]).id != id,
            decreases n - i,
        {
            if self.records[i].id == id {
                return Some(i);
            }
            i = i + 1;
        }
        None
    }

    /// A borrow of the record carrying `id`, if any.
    pub fn get_by_id(&self, id: u64) -> (r: Option<&SubmissionRecord>)
        ensures
            r matches Some(rec) ==> rec.id == id && exists|i: int|
                0 <= i < self.records@.len() && self.records@[i] == *rec,
            r is None ==> forall|i: int|
                0 <= i < self.records@.len() ==> (#[trigger] self.records@[i]).id != id,
    {
        match self.find_index(id) {
            Some(i) => {
                let rec = &self.records[i];
                proof {
                    assert(self.records@[i as int] == *rec);
                }
                Some(rec)
            },
            None => None,
        }
    }
}

} // verus!
