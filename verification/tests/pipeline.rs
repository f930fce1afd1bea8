use vscu_pipeline::codec::{LookupCodec, LookupSealed, OpaqueCodec, OpaqueSealed};
use vscu_pipeline::delivery::{begin_attempt, classify_response, prepare_upstream,
    resolve_attempt, DeliveryError, DeliveryOutcome};
use vscu_pipeline::record::MAX_RETRIES;
use vscu_pipeline::status::Status;
use vscu_pipeline::store::SubmissionStore;

use rand::Rng;

fn lookup_codec() -> LookupCodec {
    LookupCodec::new(vec![7u8; 32]).unwrap()
}

fn opaque_codec() -> OpaqueCodec {
    OpaqueCodec::new(vec![9u8; 32]).unwrap()
}

fn sealed_pair() -> (LookupSealed, OpaqueSealed) {
    let tin = lookup_codec().seal_lookup("P000111222A");
    let branch = opaque_codec().seal("00");
    (tin, branch)
}

fn batch(store: &mut SubmissionStore, tenant: &str, payloads: &[&str], now: i64) -> Vec<u64> {
    let (tin, branch) = sealed_pair();
    let bodies: Vec<String> = payloads.iter().map(|p| p.to_string()).collect();
    store.insert_batch(&tenant.to_string(), &bodies, &tin, &branch, now)
}

#[test]
fn empty_store_has_no_sequence() {
    let store = SubmissionStore::new();
    assert_eq!(store.max_seq_for(&"key-A".to_string()), 0);
    assert_eq!(store.len(), 0);
}

#[test]
fn batch_assigns_gap_free_run() {
    let mut store = SubmissionStore::new();
    let ids = batch(&mut store, "key-A", &["d1", "d2", "d3"], 10);
    assert_eq!(ids, vec![0, 1, 2]);
    for (j, id) in ids.iter().enumerate() {
        let rec = store.get_by_id(*id).unwrap();
        assert_eq!(rec.sequence_no, (j + 1) as i64);
        assert_eq!(rec.status, Status::Received);
        assert_eq!(rec.retry_count, 0);
        assert!(rec.next_retry_at.is_none());
        assert!(rec.upstream_response.is_none());
    }
    assert_eq!(store.max_seq_for(&"key-A".to_string()), 3);
}

#[test]
fn sequencing_continues_from_prior_maximum() {
    let mut store = SubmissionStore::new();
    batch(&mut store, "key-A", &["d1", "d2"], 10);
    let ids = batch(&mut store, "key-A", &["d3", "d4", "d5"], 20);
    let seqs: Vec<i64> = ids
        .iter()
        .map(|id| store.get_by_id(*id).unwrap().sequence_no)
        .collect();
    assert_eq!(seqs, vec![3, 4, 5]);
    assert_eq!(store.max_seq_for(&"key-A".to_string()), 5);
}

#[test]
fn tenants_are_sequenced_independently() {
    let mut store = SubmissionStore::new();
    batch(&mut store, "key-A", &["a1", "a2"], 10);
    let b_ids = batch(&mut store, "key-B", &["b1"], 11);
    let a_ids = batch(&mut store, "key-A", &["a3"], 12);
    assert_eq!(store.get_by_id(b_ids[0]).unwrap().sequence_no, 1);
    assert_eq!(store.get_by_id(a_ids[0]).unwrap().sequence_no, 3);
    assert_eq!(store.max_seq_for(&"key-B".to_string()), 1);
}

#[test]
fn many_batches_for_one_tenant_cover_initial_range() {
    let mut store = SubmissionStore::new();
    let mut all_seqs: Vec<i64> = Vec::new();
    for round in 0..4 {
        let ids = batch(&mut store, "key-A", &["x", "y", "z"], round);
        for id in ids {
            all_seqs.push(store.get_by_id(id).unwrap().sequence_no);
        }
    }
    let mut sorted = all_seqs.clone();
    sorted.sort();
    sorted.dedup();
    assert_eq!(sorted, (1..=12).collect::<Vec<i64>>());
}

#[test]
fn claim_locks_a_received_record() {
    let mut store = SubmissionStore::new();
    let ids = batch(&mut store, "key-A", &["d1"], 10);
    assert!(store.claim(ids[0], 11));
    assert_eq!(store.get_by_id(ids[0]).unwrap().status, Status::Processing);
    assert_eq!(store.get_by_id(ids[0]).unwrap().updated_at, 11);
}

#[test]
fn claim_of_unknown_id_changes_nothing() {
    let mut store = SubmissionStore::new();
    batch(&mut store, "key-A", &["d1"], 10);
    assert!(!store.claim(99, 11));
    assert_eq!(store.get_by_id(0).unwrap().status, Status::Received);
}

#[test]
fn transmitted_is_terminal_for_every_operation() {
    let mut store = SubmissionStore::new();
    let ids = batch(&mut store, "key-A", &["d1"], 10);
    assert!(store.claim(ids[0], 11));
    assert!(store.mark_transmitted(ids[0], "{\"resultCd\":\"000\"}".to_string(), 12));
    assert_eq!(store.get_by_id(ids[0]).unwrap().status, Status::Transmitted);
    assert!(!store.claim(ids[0], 13));
    assert!(!store.mark_failed(ids[0], 14));
    assert!(!store.mark_transmitted(ids[0], "again".to_string(), 15));
    let rec = store.get_by_id(ids[0]).unwrap();
    assert_eq!(rec.status, Status::Transmitted);
    assert_eq!(rec.upstream_response.as_deref(), Some("{\"resultCd\":\"000\"}"));
    assert_eq!(rec.updated_at, 12);
}

#[test]
fn status_never_regresses_under_random_operations() {
    let mut rng = rand::thread_rng();
    let mut store = SubmissionStore::new();
    let ids = batch(&mut store, "key-A", &["d1", "d2"], 0);
    let mut transmitted_at: Vec<Option<i64>> = vec![None, None];
    for step in 0..200i64 {
        let id = ids[rng.gen_range(0..2)];
        match rng.gen_range(0..3) {
            0 => {
                store.claim(id, step);
            }
            1 => {
                store.mark_transmitted(id, "{}".to_string(), step);
            }
            _ => {
                store.mark_failed(id, step);
            }
        }
        for (k, id) in ids.iter().enumerate() {
            let rec = store.get_by_id(*id).unwrap();
            if transmitted_at[k].is_some() {
                assert_eq!(rec.status, Status::Transmitted);
            } else if rec.status == Status::Transmitted {
                transmitted_at[k] = Some(step);
            }
            assert!(rec.retry_count <= MAX_RETRIES);
        }
    }
}

#[test]
fn backoff_doubles_with_each_failure() {
    let mut store = SubmissionStore::new();
    let ids = batch(&mut store, "key-A", &["d1"], 0);
    let now1 = 1_000;
    assert!(store.claim(ids[0], now1));
    assert!(store.mark_failed(ids[0], now1));
    let rec = store.get_by_id(ids[0]).unwrap();
    assert_eq!(rec.retry_count, 1);
    assert_eq!(rec.next_retry_at, Some(now1 + 120));
    let now2 = 2_000;
    assert!(store.claim(ids[0], now2));
    assert!(store.mark_failed(ids[0], now2));
    let rec = store.get_by_id(ids[0]).unwrap();
    assert_eq!(rec.retry_count, 2);
    assert_eq!(rec.next_retry_at, Some(now2 + 240));
}

#[test]
fn retry_scan_respects_backoff_window() {
    let mut store = SubmissionStore::new();
    let ids = batch(&mut store, "key-A", &["d1"], 0);
    assert!(store.claim(ids[0], 1));
    assert!(store.mark_failed(ids[0], 100));
    // Window is 100 + 120 seconds.
    assert!(store.retry_scan(150).is_empty());
    assert_eq!(store.retry_scan(220), vec![ids[0]]);
}

#[test]
fn retry_budget_exhaustion_is_terminal() {
    let mut store = SubmissionStore::new();
    let ids = batch(&mut store, "key-A", &["d1"], 0);
    for attempt in 0..MAX_RETRIES as i64 {
        let now = attempt * 100_000;
        assert!(store.claim(ids[0], now), "attempt {attempt} should claim");
        assert!(store.mark_failed(ids[0], now));
    }
    let rec = store.get_by_id(ids[0]).unwrap();
    assert_eq!(rec.retry_count, MAX_RETRIES);
    assert_eq!(rec.status, Status::Failed);
    // The sixth scheduler pass finds nothing to do, far past any window.
    assert!(store.retry_scan(i64::MAX - 10_000).is_empty());
    // And the record can no longer be claimed or failed further.
    assert!(!store.claim(ids[0], 900_000));
    assert!(!store.mark_failed(ids[0], 900_000));
    let rec = store.get_by_id(ids[0]).unwrap();
    assert_eq!(rec.retry_count, MAX_RETRIES);
    assert_eq!(rec.status, Status::Failed);
}

#[test]
fn stuck_processing_records_are_rescanned() {
    let mut store = SubmissionStore::new();
    let ids = batch(&mut store, "key-A", &["d1"], 0);
    assert!(store.claim(ids[0], 1));
    // A crash mid-call leaves the record visibly Processing; the scheduler
    // must pick it up again.
    assert_eq!(store.retry_scan(2), vec![ids[0]]);
}

#[test]
fn classify_accepts_success_with_parseable_body() {
    let outcome = classify_response(200, "{\"resultCd\":\"000\"}".to_string());
    match outcome {
        DeliveryOutcome::Success { body } => assert_eq!(body, "{\"resultCd\":\"000\"}"),
        _ => panic!("expected success"),
    }
}

#[test]
fn classify_rejects_unparseable_success_body() {
    let outcome = classify_response(200, "not json".to_string());
    match outcome {
        DeliveryOutcome::Rejected { http_status, body } => {
            assert_eq!(http_status, 200);
            assert_eq!(body, "not json");
        }
        _ => panic!("expected rejection"),
    }
}

#[test]
fn classify_rejects_error_status() {
    let outcome = classify_response(500, "{\"ok\":true}".to_string());
    match outcome {
        DeliveryOutcome::Rejected { http_status, .. } => assert_eq!(http_status, 500),
        _ => panic!("expected rejection"),
    }
}

#[test]
fn prepare_upstream_opens_sealed_fields() {
    let lookup = lookup_codec();
    let opaque = opaque_codec();
    let mut store = SubmissionStore::new();
    let tin = lookup.seal_lookup("P000111222A");
    let branch = opaque.seal("02");
    let ids = store.insert_batch(
        &"key-A".to_string(),
        &vec!["{\"invcNo\":1}".to_string()],
        &tin,
        &branch,
        0,
    );
    let rec = store.get_by_id(ids[0]).unwrap();
    let payload = prepare_upstream(rec, &lookup, &opaque).unwrap();
    assert_eq!(payload.tin, "P000111222A");
    assert_eq!(payload.branch_id, "02");
    assert_eq!(payload.sequence_no, 1);
    assert_eq!(payload.body, "{\"invcNo\":1}");
}

#[test]
fn prepare_upstream_fails_under_the_wrong_key() {
    let lookup = lookup_codec();
    let opaque = opaque_codec();
    let other_lookup = LookupCodec::new(vec![1u8; 32]).unwrap();
    let mut store = SubmissionStore::new();
    let tin = lookup.seal_lookup("P000111222A");
    let branch = opaque.seal("02");
    let ids = store.insert_batch(&"key-A".to_string(), &vec!["{}".to_string()], &tin, &branch, 0);
    let rec = store.get_by_id(ids[0]).unwrap();
    match prepare_upstream(rec, &other_lookup, &opaque) {
        Err(DeliveryError::Decryption) => {}
        _ => panic!("expected a decryption failure"),
    }
}

#[test]
fn begin_attempt_claims_and_decodes() {
    let lookup = lookup_codec();
    let opaque = opaque_codec();
    let mut store = SubmissionStore::new();
    let tin = lookup.seal_lookup("P000111222A");
    let branch = opaque.seal("07");
    let ids = store.insert_batch(&"key-A".to_string(), &vec!["{}".to_string()], &tin, &branch, 0);
    let payload = begin_attempt(&mut store, ids[0], &lookup, &opaque, 5).unwrap();
    assert_eq!(payload.tin, "P000111222A");
    assert_eq!(payload.branch_id, "07");
    assert_eq!(store.get_by_id(ids[0]).unwrap().status, Status::Processing);
    assert_eq!(store.get_by_id(ids[0]).unwrap().updated_at, 5);
}

#[test]
fn begin_attempt_misses_an_unknown_or_finished_record() {
    let lookup = lookup_codec();
    let opaque = opaque_codec();
    let mut store = SubmissionStore::new();
    let ids = batch(&mut store, "key-A", &["{}"], 0);
    assert!(begin_attempt(&mut store, 999, &lookup, &opaque, 1).is_none());
    assert!(store.claim(ids[0], 1));
    assert!(store.mark_transmitted(ids[0], "{}".to_string(), 2));
    assert!(begin_attempt(&mut store, ids[0], &lookup, &opaque, 3).is_none());
    assert_eq!(store.get_by_id(ids[0]).unwrap().status, Status::Transmitted);
}

#[test]
fn begin_attempt_fails_locally_on_a_decryption_failure() {
    let lookup = lookup_codec();
    let opaque = opaque_codec();
    let wrong_lookup = LookupCodec::new(vec![99u8; 32]).unwrap();
    let mut store = SubmissionStore::new();
    let tin = lookup.seal_lookup("P000111222A");
    let branch = opaque.seal("07");
    let ids = store.insert_batch(&"key-A".to_string(), &vec!["{}".to_string()], &tin, &branch, 0);
    // A wrong key means the sealed TIN does not open: the record must go
    // straight to Failed with backoff set, and nothing is handed out to post.
    assert!(begin_attempt(&mut store, ids[0], &wrong_lookup, &opaque, 50).is_none());
    let rec = store.get_by_id(ids[0]).unwrap();
    assert_eq!(rec.status, Status::Failed);
    assert_eq!(rec.retry_count, 1);
    assert_eq!(rec.next_retry_at, Some(50 + 120));
}

#[test]
fn end_to_end_batch_of_three_with_one_rejection() {
    let lookup = lookup_codec();
    let opaque = opaque_codec();
    let mut store = SubmissionStore::new();
    let tin = lookup.seal_lookup("P000111222A");
    let branch = opaque.seal("00");
    let bodies: Vec<String> = ["{\"doc\":1}", "{\"doc\":2}", "{\"doc\":3}"]
        .iter()
        .map(|p| p.to_string())
        .collect();
    let ids = store.insert_batch(&"key-A".to_string(), &bodies, &tin, &branch, 100);
    let seqs: Vec<i64> = ids
        .iter()
        .map(|id| store.get_by_id(*id).unwrap().sequence_no)
        .collect();
    assert_eq!(seqs, vec![1, 2, 3]);

    // Inline submitter: claim each record before its attempt.
    for id in &ids {
        assert!(store.claim(*id, 101));
        assert_eq!(store.get_by_id(*id).unwrap().status, Status::Processing);
    }

    // Synthetic upstream: success for records 1 and 3, a 500 for record 2.
    let outcomes = [
        classify_response(200, "{\"resultCd\":\"000\"}".to_string()),
        classify_response(500, "server error".to_string()),
        classify_response(200, "{\"resultCd\":\"000\"}".to_string()),
    ];
    for (id, outcome) in ids.iter().zip(outcomes) {
        assert!(resolve_attempt(&mut store, *id, outcome, 102));
    }

    let first = store.get_by_id(ids[0]).unwrap();
    let second = store.get_by_id(ids[1]).unwrap();
    let third = store.get_by_id(ids[2]).unwrap();
    assert_eq!(first.status, Status::Transmitted);
    assert_eq!(third.status, Status::Transmitted);
    assert_eq!(second.status, Status::Failed);
    assert_eq!(second.retry_count, 1);
    assert_eq!(first.retry_count, 0);
    assert_eq!(third.retry_count, 0);
    assert!(second.upstream_response.is_none());
    assert!(first.upstream_response.is_some());
}
