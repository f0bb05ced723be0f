use ed25519_dalek::{Signer, SigningKey};
use sahl::device::{DeviceCredentials, SignatureError, SignedRequest, verify_request};
use sahl::ingest::DeviceRecord;
use sahl::keys::sign_request;
use sahl::protocol::ChainTip;
use sahl::routes::{AuthFailure, HeaderField, admit_device, read_signed_headers};
use sha2::{Digest, Sha256};

const NOW: i64 = 1_753_000_000_000;
const SKEW_SECONDS: i64 = 300;

fn device_id() -> u128 {
    0xD3
}

fn keypair() -> SigningKey {
    // Fixed seed: these tests must be deterministic, and this key never leaves the test binary.
    SigningKey::from_bytes(&[7u8; 32])
}

fn credentials(signing_key: &SigningKey, revoked: bool) -> DeviceCredentials {
    DeviceCredentials {
        device_id: device_id(),
        public_key: signing_key.verifying_key().to_bytes(),
        revoked,
    }
}

fn request<'a>(body: &'a [u8], timestamp: i64) -> SignedRequest<'a> {
    SignedRequest {
        device_id: device_id(),
        method: "POST",
        path: "/v1/sync/push",
        timestamp_millis: timestamp,
        body,
    }
}

fn sign(key: &SigningKey, request: &SignedRequest<'_>) -> Vec<u8> {
    key.sign(&request.signing_payload()).to_bytes().to_vec()
}

#[test]
fn a_genuine_request_verifies() {
    let key = keypair();
    let req = request(b"{\"events\":[]}", NOW);
    let signature = sign(&key, &req);

    assert_eq!(
        verify_request(&req, &credentials(&key, false), &signature, NOW, SKEW_SECONDS),
        Ok(())
    );
}

#[test]
fn a_tampered_body_is_rejected() {
    // The whole point: an intercepted sync batch cannot have events added or removed.
    let key = keypair();
    let original = request(b"{\"events\":[1]}", NOW);
    let signature = sign(&key, &original);

    let tampered = request(b"{\"events\":[1,2]}", NOW);
    assert_eq!(
        verify_request(&tampered, &credentials(&key, false), &signature, NOW, SKEW_SECONDS),
        Err(SignatureError::Rejected {
            device_id: device_id()
        })
    );
}

#[test]
fn a_request_replayed_against_another_endpoint_is_rejected() {
    let key = keypair();
    let signed_for_push = request(b"{}", NOW);
    let signature = sign(&key, &signed_for_push);

    let mut moved = signed_for_push;
    moved.path = "/v1/devices/revoke";

    assert!(verify_request(&moved, &credentials(&key, false), &signature, NOW, SKEW_SECONDS).is_err());
}

#[test]
fn a_request_replayed_as_another_device_is_rejected() {
    // device_id is inside the signed payload, so a captured request is bound to one terminal.
    let key = keypair();
    let original = request(b"{}", NOW);
    let signature = sign(&key, &original);

    let mut impersonated = original;
    impersonated.device_id = 0xBEEF;

    assert!(
        verify_request(&impersonated, &credentials(&key, false), &signature, NOW, SKEW_SECONDS)
            .is_err()
    );
}

#[test]
fn a_stale_request_is_rejected_before_any_crypto_runs() {
    let key = keypair();
    let stale = request(b"{}", NOW - 600_000); // ten minutes old
    let signature = sign(&key, &stale);

    assert!(matches!(
        verify_request(&stale, &credentials(&key, false), &signature, NOW, SKEW_SECONDS),
        Err(SignatureError::TimestampOutOfWindow { .. })
    ));
}

#[test]
fn a_future_dated_request_is_rejected_too() {
    // A device whose clock runs fast is as much of a problem as one running slow.
    let key = keypair();
    let ahead = request(b"{}", NOW + 600_000);
    let signature = sign(&key, &ahead);

    assert!(matches!(
        verify_request(&ahead, &credentials(&key, false), &signature, NOW, SKEW_SECONDS),
        Err(SignatureError::TimestampOutOfWindow { .. })
    ));
}

#[test]
fn an_extreme_timestamp_does_not_overflow() {
    // A malicious client controls this value entirely.
    let key = keypair();
    let absurd = request(b"{}", i64::MIN);
    let signature = sign(&key, &absurd);

    assert!(matches!(
        verify_request(&absurd, &credentials(&key, false), &signature, NOW, SKEW_SECONDS),
        Err(SignatureError::TimestampOutOfWindow { .. })
    ));
}

#[test]
fn a_revoked_device_is_refused_even_with_a_valid_signature() {
    // Revocation has to be absolute: this is what stops a stolen terminal.
    let key = keypair();
    let req = request(b"{}", NOW);
    let signature = sign(&key, &req);

    assert_eq!(
        verify_request(&req, &credentials(&key, true), &signature, NOW, SKEW_SECONDS),
        Err(SignatureError::Revoked {
            device_id: device_id()
        })
    );
}

#[test]
fn another_devices_signature_is_rejected() {
    let key = keypair();
    let other = SigningKey::from_bytes(&[9u8; 32]);
    let req = request(b"{}", NOW);
    let signature = sign(&other, &req);

    assert!(verify_request(&req, &credentials(&key, false), &signature, NOW, SKEW_SECONDS).is_err());
}

#[test]
fn a_malformed_signature_is_reported_not_panicked_on() {
    let key = keypair();
    let req = request(b"{}", NOW);

    assert_eq!(
        verify_request(&req, &credentials(&key, false), b"too short", NOW, SKEW_SECONDS),
        Err(SignatureError::MalformedSignature)
    );
}

#[test]
fn the_signing_payload_is_domain_separated_and_stable() {
    let req = request(b"{}", NOW);
    let payload = String::from_utf8(req.signing_payload()).expect("utf-8");

    assert!(payload.starts_with("sahl-request-v1\n"));
    assert!(payload.contains("POST\n/v1/sync/push\n"));
    // The body is committed to by digest, not inlined.
    assert!(payload.contains(&hex::encode(Sha256::digest(b"{}"))));
}

#[test]
fn the_method_is_normalised_so_case_cannot_split_a_signature() {
    let mut lower = request(b"{}", NOW);
    lower.method = "post";
    let upper = request(b"{}", NOW);

    assert_eq!(lower.signing_payload(), upper.signing_payload());
}

#[test]
fn the_signing_payload_has_its_exact_shape() {
    let req = request(b"{}", 1_753_000_000_000);
    let payload = String::from_utf8(req.signing_payload()).expect("utf-8");
    let expected = format!(
        "sahl-request-v1\nPOST\n/v1/sync/push\n{}\n1753000000000\n{}",
        uuid::Uuid::from_u128(0xD3),
        hex::encode(Sha256::digest(b"{}"))
    );
    assert_eq!(payload, expected);
}

#[test]
fn a_negative_timestamp_is_written_with_its_sign() {
    let req = request(b"", -42);
    let payload = String::from_utf8(req.signing_payload()).expect("utf-8");
    assert!(payload.contains("\n-42\n"));
}

#[test]
fn the_window_edge_is_accepted_and_one_past_it_is_not() {
    let key = keypair();
    let at_edge = request(b"{}", NOW - 300_000);
    let signature = sign(&key, &at_edge);
    assert_eq!(
        verify_request(&at_edge, &credentials(&key, false), &signature, NOW, SKEW_SECONDS),
        Ok(())
    );

    let past_edge = request(b"{}", NOW - 300_001);
    let signature = sign(&key, &past_edge);
    assert_eq!(
        verify_request(&past_edge, &credentials(&key, false), &signature, NOW, SKEW_SECONDS),
        Err(SignatureError::TimestampOutOfWindow {
            skew_seconds: 300,
            allowed_seconds: 300
        })
    );
}

#[test]
fn a_key_that_is_not_a_point_is_reported_as_malformed() {
    let key = keypair();
    let req = request(b"{}", NOW);
    let signature = sign(&key, &req);
    // y = 2 is not the y-coordinate of any point on the curve.
    let mut not_a_point = [0u8; 32];
    not_a_point[0] = 2;
    let broken = DeviceCredentials {
        device_id: device_id(),
        public_key: not_a_point,
        revoked: false,
    };
    assert_eq!(
        verify_request(&req, &broken, &signature, NOW, SKEW_SECONDS),
        Err(SignatureError::MalformedPublicKey {
            device_id: device_id()
        })
    );
}

fn record(key: &SigningKey, revoked: bool) -> DeviceRecord {
    DeviceRecord {
        device_id: device_id(),
        tenant_id: 2,
        outlet_id: 3,
        public_key: key.verifying_key().to_bytes(),
        revoked,
        tip: ChainTip {
            device_seq: 0,
            hash: [0u8; 32],
        },
    }
}

#[test]
fn a_request_the_till_signs_is_read_and_admitted_by_the_server() {
    let secret = [7u8; 32];
    let key = SigningKey::from_bytes(&secret);
    let body = b"{\"events\":[]}";
    let req = request(body, NOW);
    let headers = sign_request(&secret, &req);

    assert_eq!(headers.device, uuid::Uuid::from_u128(device_id()).to_string());
    assert_eq!(headers.timestamp, NOW.to_string());

    let read = read_signed_headers(
        HeaderField::Text(&headers.device),
        HeaderField::Text(&headers.timestamp),
        HeaderField::Text(&headers.signature),
    )
    .expect("the server reads what the till wrote");
    assert_eq!(read.device_id, device_id());
    assert_eq!(read.timestamp_millis, NOW);
    assert_eq!(read.signature, sign(&key, &req));

    // A second of clock drift is well inside the window.
    assert_eq!(
        admit_device(&record(&key, false), &req, &read.signature, NOW + 1_000, SKEW_SECONDS),
        Ok(())
    );
}

#[test]
fn a_revoked_device_is_refused_as_revoked() {
    let key = keypair();
    let req = request(b"{}", NOW);
    let signature = sign(&key, &req);
    assert_eq!(
        admit_device(&record(&key, true), &req, &signature, NOW, SKEW_SECONDS),
        Err(AuthFailure::Revoked)
    );
}

#[test]
fn any_signature_failure_is_a_bad_signature() {
    let key = keypair();
    let req = request(b"{}", NOW);
    assert_eq!(
        admit_device(&record(&key, false), &req, b"short", NOW, SKEW_SECONDS),
        Err(AuthFailure::BadSignature)
    );
    let signature = sign(&key, &req);
    assert_eq!(
        admit_device(&record(&key, false), &req, &signature, NOW + 3_600_000, SKEW_SECONDS),
        Err(AuthFailure::BadSignature)
    );
}

#[test]
fn a_payload_changes_with_each_part_it_covers() {
    let base = request(b"{}", NOW);
    let mut path = request(b"{}", NOW);
    path.path = "/v1/sync/pull";
    let mut device = request(b"{}", NOW);
    device.device_id = 0xD4;
    let body = request(b"{ }", NOW);
    let later = request(b"{}", NOW + 1);
    let mut method = request(b"{}", NOW);
    method.method = "GET";
    let payloads = [
        base.signing_payload(),
        path.signing_payload(),
        device.signing_payload(),
        body.signing_payload(),
        later.signing_payload(),
        method.signing_payload(),
    ];
    for i in 0..payloads.len() {
        for j in 0..payloads.len() {
            assert_eq!(i == j, payloads[i] == payloads[j]);
        }
    }
}
