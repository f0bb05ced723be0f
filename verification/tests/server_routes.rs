use sahl::ingest::{DeviceRecord, IngestError, PulledRow, fetch_size, pull_page};
use sahl::protocol::{ChainTip, EventEnvelope, PushRequest, SyncError, SyncRejection};
use sahl::routes::{
    AuthFailure, DayQuery, DayWindow, HeaderField, PullQuery, auth_refusal, bearer_token, day_window,
    outlet_visible, param, pull_query, reader_admitted, read_signed_headers, rejection_status, screen_push,
};

#[test]
fn query_parameters_are_read_by_name() {
    assert_eq!(param("cursor=17&limit=50", "cursor"), Some("17"));
    assert_eq!(param("cursor=17&limit=50", "limit"), Some("50"));
    assert_eq!(param("cursor=17", "missing"), None);
    assert_eq!(param("", "cursor"), None);
}

#[test]
fn a_retryable_rejection_maps_to_503_and_the_rest_to_422() {
    // The status is what a client's backoff keys off, so the split has to be right.
    assert!(SyncRejection::Unavailable.is_retryable());
    assert!(!SyncRejection::Forked.is_retryable());
    assert_eq!(rejection_status(SyncRejection::Unavailable), 503);
    assert_eq!(rejection_status(SyncRejection::Forked), 422);
    assert_eq!(rejection_status(SyncRejection::Gap), 422);
    assert_eq!(rejection_status(SyncRejection::Invalid), 422);
    assert_eq!(rejection_status(SyncRejection::NotAuthorised), 422);
}

#[test]
fn the_first_pair_of_a_name_wins_and_pairs_without_values_are_skipped() {
    assert_eq!(param("cursor&cursor=3&cursor=4", "cursor"), Some("3"));
    assert_eq!(param("a=1&&b=2", "b"), Some("2"));
    assert_eq!(param("a==1", "a"), Some("=1"));
    assert_eq!(param("limit=", "limit"), Some(""));
}

#[test]
fn a_pull_query_falls_back_and_is_capped() {
    assert_eq!(pull_query("cursor=17&limit=50"), PullQuery { cursor: 17, limit: 50 });
    assert_eq!(pull_query(""), PullQuery { cursor: 0, limit: 200 });
    assert_eq!(pull_query("cursor=abc&limit=-1"), PullQuery { cursor: 0, limit: 200 });
    assert_eq!(pull_query("limit=100000"), PullQuery { cursor: 0, limit: 500 });
    assert_eq!(pull_query("cursor=-5"), PullQuery { cursor: -5, limit: 200 });
}

#[test]
fn every_authentication_failure_looks_identical_from_outside() {
    for failure in [
        AuthFailure::MissingHeaders,
        AuthFailure::MalformedHeaders,
        AuthFailure::UnknownDevice,
        AuthFailure::Revoked,
        AuthFailure::BadSignature,
        AuthFailure::Unavailable,
    ] {
        assert_eq!(auth_refusal(failure), (401, SyncRejection::NotAuthorised));
    }
}

const DEVICE: &str = "00000000-0000-0000-0000-0000000000d3";

#[test]
fn signing_headers_are_read_in_order() {
    let read = read_signed_headers(
        HeaderField::Text(DEVICE),
        HeaderField::Text("1753000000000"),
        HeaderField::Text("00ff"),
    )
    .expect("reads");
    assert_eq!(read.device_id, 0xD3);
    assert_eq!(read.timestamp_millis, 1_753_000_000_000);
    assert_eq!(read.signature, vec![0x00, 0xff]);

    assert_eq!(
        read_signed_headers(HeaderField::Absent, HeaderField::Absent, HeaderField::Absent).unwrap_err(),
        AuthFailure::MissingHeaders
    );
    assert_eq!(
        read_signed_headers(HeaderField::Unreadable, HeaderField::Absent, HeaderField::Absent).unwrap_err(),
        AuthFailure::MalformedHeaders
    );
    assert_eq!(
        read_signed_headers(HeaderField::Text("not-a-uuid"), HeaderField::Absent, HeaderField::Absent)
            .unwrap_err(),
        AuthFailure::MalformedHeaders
    );
    assert_eq!(
        read_signed_headers(HeaderField::Text(DEVICE), HeaderField::Absent, HeaderField::Text("00"))
            .unwrap_err(),
        AuthFailure::MissingHeaders
    );
    assert_eq!(
        read_signed_headers(HeaderField::Text(DEVICE), HeaderField::Text("soon"), HeaderField::Text("00"))
            .unwrap_err(),
        AuthFailure::MalformedHeaders
    );
    assert_eq!(
        read_signed_headers(HeaderField::Text(DEVICE), HeaderField::Text("1"), HeaderField::Absent)
            .unwrap_err(),
        AuthFailure::MissingHeaders
    );
    assert_eq!(
        read_signed_headers(HeaderField::Text(DEVICE), HeaderField::Text("1"), HeaderField::Text("0g"))
            .unwrap_err(),
        AuthFailure::MalformedHeaders
    );
}

#[test]
fn a_dashboard_token_is_a_bearer_token() {
    assert_eq!(bearer_token(HeaderField::Text("Bearer abc")), Some("abc"));
    assert_eq!(bearer_token(HeaderField::Text("bearer abc")), None);
    assert_eq!(bearer_token(HeaderField::Text("Basic abc")), None);
    assert_eq!(bearer_token(HeaderField::Absent), None);
    assert_eq!(bearer_token(HeaderField::Unreadable), None);
}

#[test]
fn only_a_token_row_that_says_it_is_live_admits_a_reader() {
    assert!(reader_admitted(Some(false)));
    assert!(!reader_admitted(Some(true)));
    assert!(!reader_admitted(None));
}

#[test]
fn a_scoped_reader_sees_only_its_outlet() {
    assert!(outlet_visible(None, 7));
    assert!(outlet_visible(Some(7), 7));
    assert!(!outlet_visible(Some(7), 8));
}

#[test]
fn a_scoped_token_reads_only_its_own_outlet_whatever_it_asks() {
    let asked_other = DayQuery { outlet: Some(8), from: None, to: None };
    assert_eq!(day_window(Some(7), &asked_other), Err(403));

    let asked_nothing = DayQuery { outlet: None, from: Some(10), to: None };
    assert_eq!(
        day_window(Some(7), &asked_nothing),
        Ok(DayWindow { outlet: 7, from: 10, to: i64::MAX })
    );

    let tenant_wide_silent = DayQuery { outlet: None, from: None, to: None };
    assert_eq!(day_window(None, &tenant_wide_silent), Err(400));

    let tenant_wide = DayQuery { outlet: Some(9), from: None, to: Some(20) };
    assert_eq!(
        day_window(None, &tenant_wide),
        Ok(DayWindow { outlet: 9, from: i64::MIN, to: 20 })
    );
}

fn event(seq: u64) -> EventEnvelope {
    EventEnvelope {
        event_id: 1_000 + u128::from(seq),
        tenant_id: 2,
        outlet_id: 3,
        device_id: 0xD4,
        device_seq: seq,
        occurred_at: 1_753_000_000_000,
        kind: "test.tick".to_owned(),
        payload: "{}".to_owned(),
        prev_hash: [0u8; 32],
        hash: [seq as u8; 32],
    }
}

#[test]
fn a_pull_page_stops_at_the_limit_and_says_more_is_waiting() {
    let rows: Vec<PulledRow> = (1..=4)
        .map(|n| PulledRow { event: event(n), server_seq: 10 * n as i64 })
        .collect();
    let page = pull_page(rows, 5, 3);
    assert_eq!(page.events.len(), 3);
    assert_eq!(page.events[2].device_seq, 3);
    assert_eq!(page.cursor, 30);
    assert!(page.has_more);

    let empty = pull_page(Vec::new(), 5, 3);
    assert!(empty.events.is_empty());
    assert_eq!(empty.cursor, 5, "an empty page leaves the cursor where it was");
    assert!(!empty.has_more);
}

#[test]
fn one_row_more_than_the_page_is_fetched() {
    assert_eq!(fetch_size(200), 201);
    assert_eq!(fetch_size(usize::MAX), i64::MAX);
}

#[test]
fn ingest_failures_are_deliberately_coarse() {
    assert_eq!(IngestError::UnknownDevice { device_id: 1 }.rejection(), SyncRejection::NotAuthorised);
    assert_eq!(IngestError::Revoked { device_id: 1 }.rejection(), SyncRejection::NotAuthorised);
    assert_eq!(IngestError::Database("down".to_owned()).rejection(), SyncRejection::Unavailable);
    assert_eq!(IngestError::CorruptEvent.rejection(), SyncRejection::Unavailable);
    assert_eq!(
        IngestError::ScopeMismatch { device_id: 1, event_id: 2 }.rejection(),
        SyncRejection::Invalid
    );
    assert_eq!(
        IngestError::Rejected(SyncError::Gap { tip: 1, batch_starts_at: 5 }).rejection(),
        SyncRejection::Gap
    );
}

#[test]
fn pulling_drains_in_pages_without_losing_or_repeating_an_event() {
    let rows: Vec<PulledRow> = (1..=5)
        .map(|n| PulledRow { event: event(n), server_seq: 100 + n as i64 })
        .collect();
    let first = pull_page(rows.clone(), 0, 2);
    assert_eq!(first.cursor, 102);
    let rest: Vec<PulledRow> = rows.iter().filter(|row| row.server_seq > first.cursor).cloned().collect();
    let second = pull_page(rest, first.cursor, 2);
    assert_eq!(second.events[0].device_seq, 3);
    assert_eq!(second.cursor, 104);
    assert!(second.has_more);
}

#[test]
fn a_device_may_only_push_its_own_bounded_batch() {
    let device = DeviceRecord {
        device_id: 0xD4,
        tenant_id: 2,
        outlet_id: 3,
        public_key: [0u8; 32],
        revoked: false,
        tip: ChainTip { device_seq: 0, hash: [0u8; 32] },
    };
    let own = PushRequest { device_id: 0xD4, events: vec![event(1)] };
    assert_eq!(screen_push(&device, &own), Ok(()));
    let other = PushRequest { device_id: 0xBEEF, events: vec![event(1)] };
    assert_eq!(screen_push(&device, &other), Err(SyncRejection::Invalid));
    let huge = PushRequest { device_id: 0xD4, events: vec![event(1); 501] };
    assert_eq!(screen_push(&device, &huge), Err(SyncRejection::Invalid));
}
