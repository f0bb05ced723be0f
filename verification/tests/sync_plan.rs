use sahl::plan::{BatchPlan, BatchStep, plan_batch, settle_plan};
use sahl::protocol::{
    ChainTip, EventEnvelope, MAX_BATCH, PushRequest, SyncError, SyncRejection, same_hash,
};
use sha2::{Digest, Sha256};

const DEVICE: u128 = 0xD3;

fn genesis() -> ChainTip {
    ChainTip { device_seq: 0, hash: [0u8; 32] }
}

/// The digest a test chain seals an event with: over its predecessor, position and payload.
fn seal(prev_hash: &[u8; 32], device_seq: u64, payload: &str) -> [u8; 32] {
    let mut hasher = Sha256::new();
    hasher.update(prev_hash);
    hasher.update(device_seq.to_be_bytes());
    hasher.update(payload.as_bytes());
    hasher.finalize().into()
}

fn build(count: u32) -> Vec<EventEnvelope> {
    let mut prev = genesis().hash;
    (0..count)
        .map(|n| {
            let device_seq = u64::from(n) + 1;
            let payload = format!("{{\"n\":{n}}}");
            let hash = seal(&prev, device_seq, &payload);
            let event = EventEnvelope {
                event_id: 1_000 + u128::from(n),
                tenant_id: 2,
                outlet_id: 3,
                device_id: DEVICE,
                device_seq,
                occurred_at: 1_753_000_000_000 + i64::from(n),
                kind: "test.tick".to_owned(),
                payload,
                prev_hash: prev,
                hash,
            };
            prev = hash;
            event
        })
        .collect()
}

/// What verifying a suffix as a chain continuing `tip` reports, for the test chain.
fn verify_from(tip: ChainTip, events: &[EventEnvelope]) -> Result<ChainTip, String> {
    let mut at = tip;
    for event in events {
        if event.device_seq != at.device_seq + 1 || event.prev_hash != at.hash {
            return Err(format!("event {} does not continue the chain", event.event_id));
        }
        if seal(&event.prev_hash, event.device_seq, &event.payload) != event.hash {
            return Err(format!("event {} does not match its digest", event.event_id));
        }
        at = ChainTip { device_seq: event.device_seq, hash: event.hash };
    }
    Ok(at)
}

fn plan(events: &[EventEnvelope], tip: ChainTip, device_id: u128) -> Result<BatchPlan, SyncError> {
    match plan_batch(events, tip, device_id)? {
        BatchStep::Planned(plan) => Ok(plan),
        BatchStep::VerifyFrom { already_stored } => {
            settle_plan(events, already_stored, verify_from(tip, &events[already_stored..]))
        }
    }
}

fn tip_after(events: &[EventEnvelope], count: usize) -> ChainTip {
    if count == 0 {
        return genesis();
    }
    let last = &events[count - 1];
    ChainTip { device_seq: last.device_seq, hash: last.hash }
}

#[test]
fn a_fresh_device_accepts_everything() {
    let events = build(5);
    let plan = plan(&events, genesis(), DEVICE).expect("plans");

    assert_eq!(plan.already_stored, 0);
    assert_eq!(plan.to_insert, 5);
    assert_eq!(plan.resulting_tip.device_seq, 5);
}

#[test]
fn an_empty_batch_is_a_noop() {
    let plan = plan(&[], genesis(), DEVICE).expect("plans");
    assert!(plan.is_noop());
}

#[test]
fn a_full_retry_is_a_noop_not_an_error() {
    // The response to the first push was lost. A till that cannot retry safely stops selling.
    let events = build(5);
    let tip = tip_after(&events, 5);
    let plan = plan(&events, tip, DEVICE).expect("plans");

    assert!(plan.is_noop());
    assert_eq!(plan.already_stored, 5);
    assert_eq!(plan.resulting_tip, tip);
}

#[test]
fn a_partial_retry_skips_the_overlap_and_takes_the_rest() {
    // The terminal kept selling while the ack was in flight, so it resends 1-5 plus 6-8.
    let events = build(8);
    let tip = tip_after(&events, 5);
    let plan = plan(&events, tip, DEVICE).expect("plans");

    assert_eq!(plan.already_stored, 5);
    assert_eq!(plan.to_insert, 3);
    assert_eq!(plan.resulting_tip.device_seq, 8);
}

#[test]
fn a_gap_is_refused() {
    // Sequences only go forward, so a hole accepted now can never be filled.
    let events = build(10);
    let plan = plan(&events[5..], genesis(), DEVICE);

    assert_eq!(
        plan,
        Err(SyncError::Gap {
            tip: 0,
            batch_starts_at: 6
        })
    );
}

#[test]
fn a_fork_is_refused_rather_than_treated_as_a_retry() {
    // Same sequence numbers, different history — a restored backup, or tampering.
    let ours = build(5);
    let tip = tip_after(&ours, 5);

    let mut theirs = build(8);
    theirs[4].hash = Sha256::digest(b"different history").into();

    let plan = plan(&theirs, tip, DEVICE);
    assert!(matches!(plan, Err(SyncError::Forked { .. })));
}

#[test]
fn a_batch_from_another_device_is_refused() {
    let mut events = build(3);
    events[1].device_id = 0xBEEF;

    assert!(matches!(
        plan(&events, genesis(), DEVICE),
        Err(SyncError::WrongDevice { .. })
    ));
}

#[test]
fn a_tampered_event_inside_the_new_portion_is_refused() {
    let mut events = build(5);
    events[3].payload = "{\"n\":999}".to_owned();

    assert!(plan(&events, genesis(), DEVICE).is_err());
}

#[test]
fn planning_the_same_batch_twice_gives_the_same_plan() {
    let events = build(6);
    let tip = tip_after(&events, 2);

    assert_eq!(plan(&events, tip, DEVICE), plan(&events, tip, DEVICE));
}

#[test]
fn a_batch_arriving_exactly_at_the_tip_boundary_is_all_new() {
    let events = build(10);
    let tip = tip_after(&events, 4);
    let plan = plan(&events[4..], tip, DEVICE).expect("plans");

    assert_eq!(plan.already_stored, 0);
    assert_eq!(plan.to_insert, 6);
}

#[test]
fn only_the_new_suffix_is_left_to_verify() {
    let events = build(8);
    let tip = tip_after(&events, 5);
    assert_eq!(plan_batch(&events, tip, DEVICE), Ok(BatchStep::VerifyFrom { already_stored: 5 }));
    assert_eq!(
        settle_plan(&events, 5, Err("broken".to_owned())),
        Err(SyncError::Chain("broken".to_owned()))
    );
}

#[test]
fn the_first_foreign_event_is_the_one_reported() {
    let mut events = build(4);
    events[2].device_id = 0xBEEF;
    events[3].device_id = 0xCAFE;
    assert_eq!(
        plan_batch(&events, genesis(), DEVICE),
        Err(SyncError::WrongDevice { expected: DEVICE, found: 0xBEEF })
    );
}

#[test]
fn only_a_server_problem_is_worth_retrying() {
    // Retrying a fork or a gap forever would just fill logs and never recover.
    assert!(SyncRejection::Unavailable.is_retryable());
    assert!(!SyncRejection::Forked.is_retryable());
    assert!(!SyncRejection::Gap.is_retryable());
    assert!(!SyncRejection::Invalid.is_retryable());
    assert!(!SyncRejection::NotAuthorised.is_retryable());
}

#[test]
fn sync_errors_map_to_actionable_rejections() {
    assert_eq!(
        SyncRejection::from_sync_error(&SyncError::Gap {
            tip: 3,
            batch_starts_at: 7
        }),
        SyncRejection::Gap
    );
    assert_eq!(
        SyncRejection::from_sync_error(&SyncError::Forked {
            device_seq: 3,
            server_hash: [0u8; 32],
            device_hash: [0u8; 32],
        }),
        SyncRejection::Forked
    );
    assert_eq!(
        SyncRejection::from_sync_error(&SyncError::Chain("bad".to_owned())),
        SyncRejection::Invalid
    );
}

#[test]
fn an_oversized_batch_is_refused_before_any_work() {
    // Bounded so a till offline for a week uploads in chunks rather than one request that
    // times out forever, making no progress.
    let one = build(1).remove(0);

    let at_limit = PushRequest {
        device_id: 1,
        events: vec![one.clone(); MAX_BATCH],
    };
    assert_eq!(at_limit.validate(), Ok(()));

    let over = PushRequest {
        device_id: 1,
        events: vec![one; MAX_BATCH + 1],
    };
    assert_eq!(
        over.validate(),
        Err(SyncError::BatchTooLarge {
            count: MAX_BATCH + 1,
            limit: MAX_BATCH
        })
    );
}

#[test]
fn digests_compare_byte_for_byte() {
    let a = [7u8; 32];
    let mut b = a;
    assert!(same_hash(&a, &b));
    b[31] = 8;
    assert!(!same_hash(&a, &b));
}

#[test]
fn an_accepted_batch_is_a_noop_when_resent() {
    let events = build(6);
    let first = plan(&events, genesis(), DEVICE).expect("accepted");
    assert_eq!(first.to_insert, 6);
    let again = plan(&events, first.resulting_tip, DEVICE).expect("accepted again");
    assert!(again.is_noop());
    assert_eq!(again.already_stored, 6);
    assert_eq!(again.resulting_tip, first.resulting_tip);
}
