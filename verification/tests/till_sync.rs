use base64::Engine;
use base64::engine::general_purpose::URL_SAFE_NO_PAD;
use ed25519_dalek::SigningKey;
use sahl::backoff::{Backoff, IDLE_NANOS, NANOS_PER_SEC};
use sahl::engine::{SyncClientError, SyncOutcome, finish_round, push_batch_len, review_push};
use sahl::keys::{
    Credentials, DeviceIdentity, EnrollmentError, base_url, enroll_url, enrollment_outcome,
    enrollment_request, public_key_text,
};
use sahl::protocol::{ChainTip, EventEnvelope, MAX_BATCH, PushResponse, SyncRejection};
use sahl::routes::{EnrollResponse, pull_query, rejection_status, screen_enrollment};
use sahl::scheduler::{LoopAction, SyncHandle, SyncStatus, after_round, is_terminal_failure, panicked_status};
use sahl::store::{
    StoreError, StoredRow, check_append, event_from_row, pending_count, synced_bound, tip_from_row,
};
use sahl::transport::{is_success, pull_path, pull_query_string, pull_url, push_url, read_refusal};

const DEVICE: u128 = 0xD3;

fn event(seq: u64) -> EventEnvelope {
    EventEnvelope {
        event_id: 1_000 + u128::from(seq),
        tenant_id: 2,
        outlet_id: 3,
        device_id: DEVICE,
        device_seq: seq,
        occurred_at: 1_753_000_000_000,
        kind: "test.tick".to_owned(),
        payload: "{\"n\":1}".to_owned(),
        prev_hash: [0u8; 32],
        hash: [seq as u8; 32],
    }
}

fn response(tip_seq: u64, accepted: usize, skipped: usize) -> PushResponse {
    PushResponse {
        accepted,
        skipped,
        tip: ChainTip { device_seq: tip_seq, hash: [tip_seq as u8; 32] },
        high_water: 0,
    }
}

// ---------------------------------------------------------------------------------------------
// A round
// ---------------------------------------------------------------------------------------------

#[test]
fn one_round_pushes_one_bounded_batch() {
    assert_eq!(push_batch_len(0), 0);
    assert_eq!(push_batch_len(7), 7);
    assert_eq!(push_batch_len(MAX_BATCH + 1), MAX_BATCH);
}

#[test]
fn events_are_only_acked_once_the_server_confirms_them() {
    let batch: Vec<EventEnvelope> = (1..=3).map(event).collect();
    let (through, outcome) = review_push(&batch, 3, &response(3, 3, 0), 3).expect("confirmed");
    assert_eq!(through, 3);
    assert_eq!(outcome, SyncOutcome { pushed: 3, skipped: 0, pulled: 0, more_pending: false });
}

#[test]
fn a_server_tip_behind_our_own_is_a_hard_error() {
    let batch: Vec<EventEnvelope> = (1..=3).map(event).collect();
    assert_eq!(
        review_push(&batch, 3, &response(2, 2, 0), 3),
        Err(SyncClientError::TipMismatch { ours: 3, theirs: 2 })
    );
}

#[test]
fn a_large_backlog_reports_more_pending() {
    let batch: Vec<EventEnvelope> = (1..=2).map(event).collect();
    let (_, outcome) = review_push(&batch, 5, &response(2, 2, 0), 5).expect("confirmed");
    assert!(outcome.more_pending);
    let finished = finish_round(outcome, 4, false);
    assert_eq!(finished.pulled, 4);
    assert!(finished.more_pending);
    let quiet = finish_round(SyncOutcome::default(), 0, true);
    assert!(quiet.more_pending, "a pull with more waiting also asks for another round");
}

// ---------------------------------------------------------------------------------------------
// The loop
// ---------------------------------------------------------------------------------------------

#[test]
fn a_revocation_stops_the_loop_rather_than_retrying_forever() {
    let mut backoff = Backoff::standard(1);
    let outcome = Err(SyncClientError::Refused(SyncRejection::NotAuthorised));
    let (status, action) = after_round(&mut backoff, &outcome, 4);
    assert_eq!(action, LoopAction::Stop);
    assert_eq!(
        status,
        SyncStatus::Stopped { reason: "server refused the batch: NotAuthorised".to_owned() }
    );
    assert_eq!(backoff.attempts(), 0);
}

#[test]
fn an_unreachable_server_keeps_retrying() {
    let mut backoff = Backoff::standard(1);
    let outcome = Err(SyncClientError::Refused(SyncRejection::Unavailable));
    let (status, action) = after_round(&mut backoff, &outcome, 4);
    assert_eq!(status, SyncStatus::Retrying { unsynced: 4, attempts: 1 });
    match action {
        LoopAction::Sleep(nanos) => assert!(nanos >= NANOS_PER_SEC / 2 && nanos <= NANOS_PER_SEC),
        other => panic!("expected a sleep, got {other:?}"),
    }
}

#[test]
fn a_successful_round_resets_and_idles_or_goes_again() {
    let mut backoff = Backoff::standard(1);
    let failed = Err(SyncClientError::Store("disk".to_owned()));
    after_round(&mut backoff, &failed, 1);
    assert_eq!(backoff.attempts(), 1);

    let done = Ok(SyncOutcome::default());
    assert_eq!(
        after_round(&mut backoff, &done, 0),
        (SyncStatus::UpToDate { unsynced: 0 }, LoopAction::Sleep(IDLE_NANOS))
    );
    assert_eq!(backoff.attempts(), 0);

    let busy = Ok(SyncOutcome { more_pending: true, ..SyncOutcome::default() });
    assert_eq!(after_round(&mut backoff, &busy, 9).1, LoopAction::Again);
}

#[test]
fn a_fork_or_a_truncated_log_needs_a_person() {
    assert!(is_terminal_failure(&SyncClientError::Refused(SyncRejection::Forked)));
    assert!(is_terminal_failure(&SyncClientError::TipMismatch { ours: 5, theirs: 4 }));
    assert!(!is_terminal_failure(&SyncClientError::Store("busy".to_owned())));
    assert!(!is_terminal_failure(&SyncClientError::Refused(SyncRejection::Unavailable)));
}

#[test]
fn a_failed_round_explains_itself() {
    assert_eq!(
        SyncClientError::TipMismatch { ours: 12, theirs: 9 }.message(),
        "local log disagrees with the server: ours ends at 12, server says 9"
    );
    assert_eq!(SyncClientError::Store("full".to_owned()).message(), "storage error: full");
}

#[test]
fn stopping_interrupts_a_long_backoff() {
    let handle = SyncHandle::new();
    assert!(handle.is_running());
    assert_eq!(handle.status(), SyncStatus::UpToDate { unsynced: 0 });
    handle.set(SyncStatus::Retrying { unsynced: 3, attempts: 2 });
    assert_eq!(handle.status(), SyncStatus::Retrying { unsynced: 3, attempts: 2 });
    let shared = handle.clone();
    shared.stop();
    assert!(!handle.is_running());
}

#[test]
fn a_panicked_loop_reads_as_stopped() {
    assert_eq!(panicked_status(), SyncStatus::Stopped { reason: "sync thread panicked".to_owned() });
}

// ---------------------------------------------------------------------------------------------
// The wire, from the till's side
// ---------------------------------------------------------------------------------------------

#[test]
fn a_trailing_slash_does_not_double_up_in_the_url() {
    assert_eq!(base_url("http://example.invalid/"), "http://example.invalid");
    assert_eq!(base_url("http://example.invalid//"), "http://example.invalid");
    assert_eq!(push_url("http://example.invalid/"), "http://example.invalid/v1/sync/push");
    assert_eq!(enroll_url("http://example.invalid"), "http://example.invalid/v1/devices/enroll");
}

#[test]
fn the_pull_query_is_part_of_the_signed_path() {
    let path = pull_path(7, 50);
    assert_eq!(path, "/v1/sync/pull?cursor=7&limit=50");
    assert_eq!(pull_url("http://example.invalid/", &path), "http://example.invalid/v1/sync/pull?cursor=7&limit=50");
}

#[test]
fn the_server_reads_back_the_pull_the_till_asks_for() {
    let query = pull_query_string(-3, 50);
    assert_eq!(query, "cursor=-3&limit=50");
    let read = pull_query(&query);
    assert_eq!(read.cursor, -3);
    assert_eq!(read.limit, 50);
    assert_eq!(pull_query(&pull_query_string(9, 10_000)).limit, 500);
}

#[test]
fn an_unreachable_server_is_retryable() {
    // A server error means try again; the status decides before the body.
    assert_eq!(read_refusal(503, Some(SyncRejection::Forked)), SyncRejection::Unavailable);
    assert_eq!(read_refusal(500, None), SyncRejection::Unavailable);
}

#[test]
fn a_refusal_is_read_from_its_status_then_its_body() {
    assert_eq!(read_refusal(401, Some(SyncRejection::Gap)), SyncRejection::NotAuthorised);
    assert_eq!(read_refusal(422, Some(SyncRejection::Forked)), SyncRejection::Forked);
    assert_eq!(read_refusal(422, None), SyncRejection::Invalid);
    assert_eq!(read_refusal(404, None), SyncRejection::Invalid);
    for rejection in [
        SyncRejection::NotAuthorised,
        SyncRejection::Invalid,
        SyncRejection::Forked,
        SyncRejection::Gap,
        SyncRejection::Unavailable,
    ] {
        assert_eq!(read_refusal(rejection_status(rejection), Some(rejection)), rejection);
    }
    assert!(is_success(200) && is_success(201) && !is_success(401));
}

// ---------------------------------------------------------------------------------------------
// The till's key
// ---------------------------------------------------------------------------------------------

fn identity() -> DeviceIdentity {
    DeviceIdentity { tenant_id: 1, outlet_id: 2, device_id: 3 }
}

#[test]
fn a_corrupt_key_is_reported_rather_than_used() {
    let broken = Credentials::from_stored(identity(), "not-base64!!".to_owned());
    assert_eq!(broken.signing_key(), Err(EnrollmentError::MalformedReply));
    let short = Credentials::from_stored(identity(), URL_SAFE_NO_PAD.encode([9u8; 31]));
    assert_eq!(short.signing_key(), Err(EnrollmentError::MalformedReply));
}

#[test]
fn credentials_round_trip_through_storage() {
    let issued = Credentials::issue(identity(), &[9u8; 32]);
    assert_eq!(issued.secret_key(), URL_SAFE_NO_PAD.encode([9u8; 32]));
    let stored = Credentials::from_stored(issued.identity, issued.secret_key().to_owned());
    assert_eq!(stored.identity.device_id, 3);
    assert_eq!(stored.signing_key().expect("key"), [9u8; 32], "the private key survives intact");
}

#[test]
fn only_the_public_half_crosses_the_wire() {
    let secret = [4u8; 32];
    let public = SigningKey::from_bytes(&secret).verifying_key().to_bytes();
    assert_eq!(public_key_text(&secret), URL_SAFE_NO_PAD.encode(public));

    let request = enrollment_request("  token \n", &secret, "Counter 2");
    assert_eq!(request.token, "token");
    assert_eq!(request.label, "Counter 2");
    let screened = screen_enrollment(&request).expect("the server accepts what the till sends");
    assert_eq!(screened.public_key, public);
}

#[test]
fn the_servers_answer_decides_what_the_till_keeps() {
    let secret = [4u8; 32];
    assert_eq!(enrollment_outcome(false, None, &secret).unwrap_err(), EnrollmentError::Refused);
    assert_eq!(enrollment_outcome(true, None, &secret).unwrap_err(), EnrollmentError::MalformedReply);
    let reply = EnrollResponse { device_id: 30, tenant_id: 10, outlet_id: 20 };
    let kept = enrollment_outcome(true, Some(reply), &secret).expect("enrolled");
    assert_eq!(kept.identity, DeviceIdentity { tenant_id: 10, outlet_id: 20, device_id: 30 });
    assert_eq!(kept.signing_key().expect("key"), secret);
}

// ---------------------------------------------------------------------------------------------
// The local log
// ---------------------------------------------------------------------------------------------

#[test]
fn a_fresh_store_is_at_genesis() {
    assert_eq!(tip_from_row(None), Ok(None));
}

#[test]
fn the_tip_is_read_from_the_newest_row() {
    assert_eq!(
        tip_from_row(Some((25, vec![7u8; 32]))),
        Ok(Some(ChainTip { device_seq: 25, hash: [7u8; 32] }))
    );
    assert_eq!(
        tip_from_row(Some((-1, vec![7u8; 32]))),
        Err(StoreError::Corrupt { event_id: "tip".to_owned(), reason: "negative sequence -1".to_owned() })
    );
    assert_eq!(
        tip_from_row(Some((3, vec![7u8; 31]))),
        Err(StoreError::Corrupt { event_id: "tip".to_owned(), reason: "hash is 31 bytes, expected 32".to_owned() })
    );
}

#[test]
fn a_sequence_gap_is_refused_rather_than_stored() {
    assert!(matches!(
        check_append(3, &event(11)),
        Err(StoreError::SequenceBreak { tip: 3, found: 11 })
    ));
    assert_eq!(check_append(3, &event(4)), Ok(4));
}

#[test]
fn replaying_the_same_event_is_refused() {
    // Matters for crash recovery: a retry after a partial write must not double-append.
    assert_eq!(check_append(0, &event(1)), Ok(1));
    assert!(matches!(check_append(1, &event(1)), Err(StoreError::SequenceBreak { .. })));
}

#[test]
fn a_sequence_past_the_column_is_corrupt() {
    let mut huge = event(0);
    huge.device_seq = 1 << 63;
    assert_eq!(
        check_append((1 << 63) - 1, &huge),
        Err(StoreError::Corrupt {
            event_id: uuid::Uuid::from_u128(1_000).to_string(),
            reason: "sequence exceeds i64".to_owned()
        })
    );
}

fn row() -> StoredRow {
    StoredRow {
        device_seq: 4,
        event_id: uuid::Uuid::from_u128(1_004).to_string(),
        tenant_id: uuid::Uuid::from_u128(2).to_string(),
        outlet_id: uuid::Uuid::from_u128(3).to_string(),
        device_id: uuid::Uuid::from_u128(DEVICE).to_string(),
        occurred_at: 1_753_000_000_000,
        kind: "test.tick".to_owned(),
        payload: "{\"n\":4}".to_owned(),
        prev_hash: vec![1u8; 32],
        hash: vec![2u8; 32],
    }
}

#[test]
fn stored_events_round_trip_byte_for_byte() {
    let event = event_from_row(row()).expect("reads");
    assert_eq!(event.event_id, 1_004);
    assert_eq!(event.device_id, DEVICE);
    assert_eq!(event.device_seq, 4);
    assert_eq!(event.payload, "{\"n\":4}");
    assert_eq!(event.prev_hash, [1u8; 32]);
    assert_eq!(event.hash, [2u8; 32]);
}

#[test]
fn a_corrupt_row_is_reported_against_its_own_id() {
    let id = row().event_id;
    let mut bad_payload = row();
    bad_payload.payload = "{not json".to_owned();
    assert!(matches!(event_from_row(bad_payload), Err(StoreError::Corrupt { event_id, .. }) if event_id == id));

    let mut bad_tenant = row();
    bad_tenant.tenant_id = "nobody".to_owned();
    assert!(matches!(event_from_row(bad_tenant), Err(StoreError::Corrupt { event_id, .. }) if event_id == id));

    let mut bad_hash = row();
    bad_hash.hash = vec![0u8; 3];
    assert_eq!(
        event_from_row(bad_hash),
        Err(StoreError::Corrupt { event_id: id.clone(), reason: "hash is 3 bytes, expected 32".to_owned() })
    );

    let mut bad_seq = row();
    bad_seq.device_seq = -4;
    assert_eq!(
        event_from_row(bad_seq),
        Err(StoreError::Corrupt { event_id: id, reason: "negative sequence -4".to_owned() })
    );
}

#[test]
fn marking_synced_compares_against_a_storable_bound() {
    assert_eq!(synced_bound(4), 4);
    assert_eq!(synced_bound(u64::MAX), i64::MAX);
    assert_eq!(pending_count(7), 7);
    assert_eq!(pending_count(-1), 0);
}

#[test]
fn a_store_error_reads_as_a_sentence() {
    assert_eq!(
        StoreError::SequenceBreak { tip: 3, found: 11 }.message(),
        "cannot append sequence 11; the chain is at 3"
    );
    assert_eq!(
        StoreError::Duplicate { event_id: 1 }.message(),
        format!("event {} is already stored", uuid::Uuid::from_u128(1))
    );
}

#[test]
fn a_till_enrollment_failure_reads_as_a_sentence() {
    assert_eq!(
        EnrollmentError::Refused.message(),
        "the server refused this enrollment; check the token has not expired or been used"
    );
    assert_eq!(EnrollmentError::Transport("timeout".to_owned()).message(), "could not reach the server: timeout");
    assert_eq!(EnrollmentError::NotEnrolled.message(), "this device is not enrolled");
}

#[test]
fn the_signing_payload_matches_the_servers_shape() {
    // Six newline-delimited fields; the till signs with the very function the server verifies.
    let request = sahl::device::SignedRequest {
        device_id: 0xD3,
        method: "post",
        path: "/v1/sync/push",
        timestamp_millis: 1_753_000_000_000,
        body: b"{}",
    };
    let text = String::from_utf8(request.signing_payload()).expect("utf-8");
    let lines: Vec<_> = text.split('\n').collect();

    assert_eq!(lines[0], "sahl-request-v1");
    assert_eq!(lines[1], "POST", "method is normalised");
    assert_eq!(lines[2], "/v1/sync/push");
    assert_eq!(lines[3], uuid::Uuid::from_u128(0xD3).to_string());
    assert_eq!(lines[4], "1753000000000");
    assert_eq!(lines.len(), 6);
}

#[test]
fn the_signature_header_is_the_hex_of_the_payloads_signature() {
    let secret = [1u8; 32];
    let key = SigningKey::from_bytes(&secret);
    let request = sahl::device::SignedRequest {
        device_id: 5,
        method: "GET",
        path: "/v1/sync/pull?cursor=0&limit=200",
        timestamp_millis: 0,
        body: b"",
    };
    let headers = sahl::keys::sign_request(&secret, &request);
    let signature = ed25519_dalek::Signer::sign(&key, &request.signing_payload()).to_bytes();
    assert_eq!(headers.signature, hex::encode(signature));
    assert_eq!(headers.timestamp, "0");
}
