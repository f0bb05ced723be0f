//! Device identity on the server: enrollment tokens, and per-request signature verification.
//!
//! A till is a principal of its own. It generates an Ed25519 keypair, keeps the private half, and
//! signs every request; the server holds only public keys and digests of enrollment tokens, so a
//! leaked database can neither enrol a till nor forge one's traffic.

use vstd::prelude::*;
use vstd::utf8::encode_utf8;
use vstd::string::StringSliceAdditionalSpecFns;
use rand::TryRngCore;
use crate::codec::{
    ascii_chars, base64url, base64url_decode, base64url_encode, decimal_text, hex_encode, hex_text,
    i64_string, lemma_ascii_encoding, lemma_decimal_ascii, lemma_hex_ascii, lemma_uuid_ascii, sha256,
    sha256_digest, uuid_string, uuid_text, no_newline, lemma_texts_have_no_newline,
    lemma_decimal_text_names_one_number, lemma_hex_text_names_one_value, lemma_uuid_text_names_one_value,
};
use crate::text::{push_all, push_upper, trim, trim_chars, upper_bytes};

verus! {

// ---------------------------------------------------------------------------------------------
// Ed25519
// ---------------------------------------------------------------------------------------------

/// Whether 32 bytes decompress to a point on the Ed25519 curve.
pub uninterp spec fn ed25519_point(key: Seq<u8>) -> bool;

/// Whether a public key has small order (a *weak* key, for which signatures are forgeable).
pub uninterp spec fn ed25519_small_order(key: Seq<u8>) -> bool;

/// Whether a signature verifies strictly for a message under a public key.
pub uninterp spec fn ed25519_accepts(key: Seq<u8>, message: Seq<u8>, signature: Seq<u8>) -> bool;

/// `ed25519_dalek::VerifyingKey::from_bytes` succeeds exactly on the encodings of curve points.
#[verifier::external_body]
fn decompresses(key: &[u8; 32]) -> (r: bool)
    ensures
        r == ed25519_point(key@),
{
    ed25519_dalek::VerifyingKey::from_bytes(key).is_ok()
}

/// `ed25519_dalek::VerifyingKey::is_weak` on the key these bytes encode.
#[verifier::external_body]
fn is_weak(key: &[u8; 32]) -> (r: bool)
    requires
        ed25519_point(key@),
    ensures
        r == ed25519_small_order(key@),
{
    match ed25519_dalek::VerifyingKey::from_bytes(key) {
        Ok(point) => point.is_weak(),
        Err(_) => false,
    }
}

/// `ed25519_dalek::VerifyingKey::verify_strict`, which also refuses every weak key.
#[verifier::external_body]
fn verify_strict(key: &[u8; 32], message: &[u8], signature: &[u8; 64]) -> (r: bool)
    requires
        ed25519_point(key@),
    ensures
        r == ed25519_accepts(key@, message@, signature@),
        ed25519_small_order(key@) ==> !r,
{
    match ed25519_dalek::VerifyingKey::from_bytes(key) {
        Ok(point) => point
            .verify_strict(message, &ed25519_dalek::Signature::from_bytes(signature))
            .is_ok(),
        Err(_) => false,
    }
}

// ---------------------------------------------------------------------------------------------
// Enrollment tokens
// ---------------------------------------------------------------------------------------------

#[derive(Debug, Clone, PartialEq, Eq)]
pub enum EnrollmentError {
    Expired,
    AlreadyConsumed,
    MalformedPublicKey,
    /// The operating system's random source failed.
    Entropy(String),
}

/// What an enrollment failure says to an operator.
pub open spec fn enrollment_message(error: EnrollmentError) -> Seq<char> {
    match error {
        EnrollmentError::Expired => "enrollment token has expired"@,
        EnrollmentError::AlreadyConsumed => "enrollment token has already been used"@,
        EnrollmentError::MalformedPublicKey => "public key must be exactly 32 bytes"@,
        EnrollmentError::Entropy(reason) => "could not gather secure randomness: "@ + reason@,
    }
}

impl EnrollmentError {
    /// The failure as a sentence.
    pub fn message(&self) -> (r: String)
        ensures
            r@ == enrollment_message(*self),
    {
        match self {
            EnrollmentError::Expired => "enrollment token has expired".to_owned(),
            EnrollmentError::AlreadyConsumed => "enrollment token has already been used".to_owned(),
            EnrollmentError::MalformedPublicKey => "public key must be exactly 32 bytes".to_owned(),
            EnrollmentError::Entropy(reason) => {
                let mut text = "could not gather secure randomness: ".to_owned();
                text.append(reason.as_str());
                text
            },
        }
    }
}

/// A freshly minted token: the plaintext to hand out once, and the digest to store.
#[derive(Debug, Clone)]
pub struct MintedToken {
    /// Shown to the operator exactly once. Never logged, never persisted.
    pub plaintext: String,
    /// SHA-256 of the plaintext. This is what the database holds.
    pub digest: [u8; 32],
}

/// What the database knows about a stored token.
#[derive(Debug, Clone, Copy)]
pub struct StoredToken {
    pub expires_at_millis: i64,
    pub consumed: bool,
}

/// The digest a presented token is looked up by: SHA-256 of its text without surrounding
/// whitespace, so a pasted token with a trailing newline still matches.
pub open spec fn token_digest(text: Seq<char>) -> Seq<u8> {
    sha256(encode_utf8(trim_chars(text)))
}

/// Fill a buffer from the operating system's random source (`rand::rngs::OsRng`).
///
/// Nothing is stated of the bytes: they are chance.
#[verifier::external_body]
pub(crate) fn os_random(buffer: &mut [u8; 32]) -> (r: Result<(), String>) {
    match rand::rngs::OsRng.try_fill_bytes(buffer) {
        Ok(()) => Ok(()),
        Err(error) => Err(error.to_string()),
    }
}

/// The token 32 bytes of entropy make: their unpadded base64url text, and its digest.
pub fn token_from_entropy(entropy: &[u8; 32]) -> (r: MintedToken)
    ensures
        r.plaintext@ == base64url(entropy@),
        r.plaintext@.len() == 43,
        !r.plaintext@.contains('='),
        r.digest@ == token_digest(r.plaintext@),
{
    let plaintext = base64url_encode(entropy.as_slice());
    let digest = digest_token(plaintext.as_str());
    MintedToken { plaintext, digest }
}

/// Mint a new enrollment token from 32 bytes of operating-system randomness.
///
/// A failing random source aborts rather than falling back to anything weaker.
pub fn mint_token() -> (r: Result<MintedToken, EnrollmentError>)
    ensures
        r matches Ok(minted) ==> {
            &&& minted.digest@ == token_digest(minted.plaintext@)
            &&& minted.plaintext@.len() == 43
            &&& !minted.plaintext@.contains('=')
            &&& exists|entropy: Seq<u8>| entropy.len() == 32 && base64url(entropy) == minted.plaintext@
        },
        r matches Err(error) ==> error is Entropy,
{
    let mut entropy = [0u8; 32];
    match os_random(&mut entropy) {
        Ok(()) => {},
        Err(reason) => return Err(EnrollmentError::Entropy(reason)),
    }
    let minted = token_from_entropy(&entropy);
    assert(entropy@.len() == 32);
    Ok(minted)
}

/// Digest a presented token so it can be looked up against stored rows.
pub fn digest_token(plaintext: &str) -> (r: [u8; 32])
    ensures
        r@ == token_digest(plaintext@),
{
    let trimmed = trim(plaintext);
    sha256_digest(trimmed.as_bytes())
}

/// `subtle::ConstantTimeEq` on two digests: equal exactly when every byte is.
#[verifier::external_body]
fn ct_eq(left: &[u8; 32], right: &[u8; 32]) -> (r: bool)
    ensures
        r == (left@ == right@),
{
    subtle::ConstantTimeEq::ct_eq(left.as_slice(), right.as_slice()).into()
}

/// Compare two digests without leaking their contents through timing.
pub fn digests_match(left: &[u8; 32], right: &[u8; 32]) -> (r: bool)
    ensures
        r == (left@ == right@),
{
    ct_eq(left, right)
}

/// Check a stored token is still usable.
///
/// Consumption is checked before expiry, so re-presenting a used token always reports the same
/// thing however long ago it was used. Expiry is inclusive: at the exact millisecond it is gone.
pub fn check_token_usable(token: &StoredToken, now_millis: i64) -> (r: Result<(), EnrollmentError>)
    ensures
        token.consumed ==> r == Err::<(), EnrollmentError>(EnrollmentError::AlreadyConsumed),
        !token.consumed && now_millis >= token.expires_at_millis ==> r == Err::<(), EnrollmentError>(EnrollmentError::Expired),
        r is Ok <==> !token.consumed && now_millis < token.expires_at_millis,
{
    if token.consumed {
        return Err(EnrollmentError::AlreadyConsumed);
    }
    if now_millis >= token.expires_at_millis {
        return Err(EnrollmentError::Expired);
    }
    Ok(())
}

/// Decode and validate a device's presented public key: 32 base64url bytes forming a curve point
/// of large order. Weak keys are refused here, so a device holding one never exists.
pub fn parse_public_key(encoded: &str) -> (r: Result<[u8; 32], EnrollmentError>)
    ensures
        r matches Ok(key) ==> {
            &&& base64url(key@) == trim_chars(encoded@)
            &&& ed25519_point(key@)
            &&& !ed25519_small_order(key@)
        },
        r is Err ==> r == Err::<[u8; 32], EnrollmentError>(EnrollmentError::MalformedPublicKey),
        r is Err ==> forall|key: Seq<u8>|
            key.len() == 32 && #[trigger] base64url(key) == trim_chars(encoded@)
                ==> !ed25519_point(key) || ed25519_small_order(key),
{
    let trimmed = trim(encoded);
    let bytes = match base64url_decode(trimmed) {
        Some(bytes) => bytes,
        None => return Err(EnrollmentError::MalformedPublicKey),
    };
    if bytes.len() != 32 {
        return Err(EnrollmentError::MalformedPublicKey);
    }
    let mut key = [0u8; 32];
    let mut i: usize = 0;
    while i < 32
        invariant
            0 <= i <= 32,
            bytes@.len() == 32,
            key@.len() == 32,
            forall|j: int| 0 <= j < i ==> key@[j] == bytes@[j],
        decreases 32 - i,
    {
        key[i] = bytes[i];
        i += 1;
    }
    assert(key@ =~= bytes@);
    if !decompresses(&key) {
        return Err(EnrollmentError::MalformedPublicKey);
    }
    if is_weak(&key) {
        return Err(EnrollmentError::MalformedPublicKey);
    }
    Ok(key)
}

/// A token a till pastes is the token, whitespace around it aside: padding the text with
/// whitespace never changes its digest.
pub proof fn law_surrounding_whitespace_does_not_change_a_digest(before: Seq<char>, token: Seq<char>, after: Seq<char>)
    requires
        forall|i: int| 0 <= i < before.len() ==> crate::text::unicode_whitespace(#[trigger] before[i]),
        forall|i: int| 0 <= i < after.len() ==> crate::text::unicode_whitespace(#[trigger] after[i]),
    ensures
        token_digest(before + token + after) == token_digest(token),
{
    crate::text::lemma_trim_padded(before, token, after);
}

// ---------------------------------------------------------------------------------------------
// Signed requests
// ---------------------------------------------------------------------------------------------

/// The version tag every signed payload starts with: `sahl-request-v1`.
pub open spec fn signing_domain() -> Seq<u8> {
    seq![115u8, 97, 104, 108, 45, 114, 101, 113, 117, 101, 115, 116, 45, 118, 49]
}

/// The exact bytes a request's signature covers: the domain, the method in upper case, the path,
/// the device, the timestamp and the body's SHA-256 in hex, one per line.
pub open spec fn payload_bytes(method: Seq<u8>, path: Seq<u8>, device_id: u128, timestamp_millis: i64, body: Seq<u8>) -> Seq<u8> {
    signing_domain() + seq![10u8] + upper_bytes(method) + seq![10u8] + path + seq![10u8]
        + uuid_text(device_id) + seq![10u8] + decimal_text(timestamp_millis as int) + seq![10u8]
        + hex_text(sha256(body))
}

/// Text split at a line feed that the part before it lacks is split in one place only.
proof fn lemma_split_at_first_newline(a: Seq<u8>, b: Seq<u8>, c: Seq<u8>, d: Seq<u8>)
    requires
        a + seq![10u8] + b == c + seq![10u8] + d,
        no_newline(a),
        no_newline(c),
    ensures
        a == c,
        b == d,
{
    let whole = a + seq![10u8] + b;
    let other = c + seq![10u8] + d;
    if a.len() < c.len() {
        assert(whole[a.len() as int] == 10u8);
        assert(other[a.len() as int] == c[a.len() as int]);
    }
    if c.len() < a.len() {
        assert(other[c.len() as int] == 10u8);
        assert(whole[c.len() as int] == a[c.len() as int]);
    }
    assert(a =~= whole.take(a.len() as int));
    assert(c =~= other.take(c.len() as int));
    assert(b =~= whole.skip(a.len() as int + 1));
    assert(d =~= other.skip(c.len() as int + 1));
}

/// Text split at a line feed that the part after it lacks is split in one place only.
proof fn lemma_split_at_last_newline(a: Seq<u8>, b: Seq<u8>, c: Seq<u8>, d: Seq<u8>)
    requires
        a + seq![10u8] + b == c + seq![10u8] + d,
        no_newline(b),
        no_newline(d),
    ensures
        a == c,
        b == d,
{
    let whole = a + seq![10u8] + b;
    let other = c + seq![10u8] + d;
    assert(whole.len() == other.len());
    if b.len() < d.len() {
        let i = whole.len() - 1 - b.len();
        assert(whole[i] == 10u8);
        assert(other[i] == d[d.len() - 1 - b.len()]);
    }
    if d.len() < b.len() {
        let i = other.len() - 1 - d.len();
        assert(other[i] == 10u8);
        assert(whole[i] == b[b.len() - 1 - d.len()]);
    }
    assert(a =~= whole.take(a.len() as int));
    assert(c =~= other.take(c.len() as int));
    assert(b =~= whole.skip(a.len() as int + 1));
    assert(d =~= other.skip(c.len() as int + 1));
}

/// A signed payload names one request: two requests whose methods hold no line feed and whose
/// payloads are the same bytes agree on the method up to ASCII case, the path, the device, the
/// timestamp and the body's SHA-256. So a signature over one request covers no other, as far as
/// the body's digest tells bodies apart.
pub proof fn law_a_signed_payload_names_one_request(
    method: Seq<u8>,
    path: Seq<u8>,
    device_id: u128,
    timestamp_millis: i64,
    body: Seq<u8>,
    other_method: Seq<u8>,
    other_path: Seq<u8>,
    other_device_id: u128,
    other_timestamp_millis: i64,
    other_body: Seq<u8>,
)
    requires
        no_newline(method),
        no_newline(other_method),
        payload_bytes(method, path, device_id, timestamp_millis, body)
            == payload_bytes(other_method, other_path, other_device_id, other_timestamp_millis, other_body),
    ensures
        upper_bytes(method) == upper_bytes(other_method),
        path == other_path,
        device_id == other_device_id,
        timestamp_millis == other_timestamp_millis,
        sha256(body) == sha256(other_body),
{
    let upper = upper_bytes(method);
    let other_upper = upper_bytes(other_method);
    assert(no_newline(upper)) by {
        assert forall|i: int| 0 <= i < upper.len() implies #[trigger] upper[i] != 10 by {
            assert(method[i] != 10);
        }
    }
    assert(no_newline(other_upper)) by {
        assert forall|i: int| 0 <= i < other_upper.len() implies #[trigger] other_upper[i] != 10 by {
            assert(other_method[i] != 10);
        }
    }
    let uuid = uuid_text(device_id);
    let other_uuid = uuid_text(other_device_id);
    let time = decimal_text(timestamp_millis as int);
    let other_time = decimal_text(other_timestamp_millis as int);
    let digest = hex_text(sha256(body));
    let other_digest = hex_text(sha256(other_body));
    lemma_texts_have_no_newline(timestamp_millis as int, sha256(body), device_id);
    lemma_texts_have_no_newline(other_timestamp_millis as int, sha256(other_body), other_device_id);

    // The domain and its line feed are the same sixteen bytes on both sides.
    let head = signing_domain() + seq![10u8];
    let rest = path + seq![10u8] + uuid + seq![10u8] + time + seq![10u8] + digest;
    let other_rest = other_path + seq![10u8] + other_uuid + seq![10u8] + other_time + seq![10u8] + other_digest;
    let whole = payload_bytes(method, path, device_id, timestamp_millis, body);
    let other = payload_bytes(other_method, other_path, other_device_id, other_timestamp_millis, other_body);
    assert(whole =~= head + (upper + seq![10u8] + rest));
    assert(other =~= head + (other_upper + seq![10u8] + other_rest));
    assert(upper + seq![10u8] + rest =~= whole.skip(16));
    assert(other_upper + seq![10u8] + other_rest =~= other.skip(16));
    lemma_split_at_first_newline(upper, rest, other_upper, other_rest);

    // From the end: the digest, then the timestamp, then the device, each after a line feed.
    let before_digest = path + seq![10u8] + uuid + seq![10u8] + time;
    let other_before_digest = other_path + seq![10u8] + other_uuid + seq![10u8] + other_time;
    assert(rest =~= before_digest + seq![10u8] + digest);
    assert(other_rest =~= other_before_digest + seq![10u8] + other_digest);
    lemma_split_at_last_newline(before_digest, digest, other_before_digest, other_digest);
    let before_time = path + seq![10u8] + uuid;
    let other_before_time = other_path + seq![10u8] + other_uuid;
    assert(before_digest =~= before_time + seq![10u8] + time);
    assert(other_before_digest =~= other_before_time + seq![10u8] + other_time);
    lemma_split_at_last_newline(before_time, time, other_before_time, other_time);
    lemma_split_at_last_newline(path, uuid, other_path, other_uuid);

    lemma_hex_text_names_one_value(sha256(body), sha256(other_body));
    lemma_decimal_text_names_one_number(timestamp_millis as int, other_timestamp_millis as int);
    lemma_uuid_text_names_one_value(device_id, other_device_id);
}

#[derive(Debug, Clone, PartialEq, Eq)]
pub enum SignatureError {
    Revoked { device_id: u128 },
    MalformedPublicKey { device_id: u128 },
    MalformedSignature,
    TimestampOutOfWindow { skew_seconds: i64, allowed_seconds: i64 },
    Rejected { device_id: u128 },
}

/// The parts of a request covered by its signature.
#[derive(Debug, Clone, Copy)]
pub struct SignedRequest<'a> {
    pub device_id: u128,
    pub method: &'a str,
    pub path: &'a str,
    /// Milliseconds since the Unix epoch, as claimed by the device.
    pub timestamp_millis: i64,
    pub body: &'a [u8],
}

impl SignedRequest<'_> {
    pub open spec fn payload(&self) -> Seq<u8> {
        payload_bytes(self.method.spec_bytes(), self.path.spec_bytes(), self.device_id, self.timestamp_millis, self.body@)
    }

    /// The exact bytes signed and verified.
    ///
    /// Including the device binds a signature to one till; committing to the body by digest means
    /// a large batch need not be held twice to verify it.
    pub fn signing_payload(&self) -> (r: Vec<u8>)
        ensures
            r@ == self.payload(),
    {
        let mut bytes: Vec<u8> = vec![115u8, 97, 104, 108, 45, 114, 101, 113, 117, 101, 115, 116, 45, 118, 49];
        assert(bytes@ == signing_domain());
        bytes.push(10);
        push_upper(&mut bytes, self.method.as_bytes());
        bytes.push(10);
        push_all(&mut bytes, self.path.as_bytes());
        bytes.push(10);
        let device = uuid_string(self.device_id);
        proof {
            lemma_uuid_ascii(self.device_id);
            lemma_ascii_encoding(uuid_text(self.device_id));
        }
        push_all(&mut bytes, device.as_str().as_bytes());
        bytes.push(10);
        let timestamp = i64_string(self.timestamp_millis);
        proof {
            lemma_decimal_ascii(self.timestamp_millis as int);
            lemma_ascii_encoding(decimal_text(self.timestamp_millis as int));
        }
        push_all(&mut bytes, timestamp.as_str().as_bytes());
        bytes.push(10);
        let digest = sha256_digest(self.body);
        let digest_hex = hex_encode(digest.as_slice());
        proof {
            lemma_hex_ascii(digest@);
            lemma_ascii_encoding(hex_text(digest@));
        }
        push_all(&mut bytes, digest_hex.as_str().as_bytes());
        bytes
    }
}

/// A device's stored credentials.
#[derive(Debug, Clone, Copy)]
pub struct DeviceCredentials {
    pub device_id: u128,
    pub public_key: [u8; 32],
    pub revoked: bool,
}

/// `x` clamped into the range of `i64`.
pub open spec fn clamp64(x: int) -> int {
    if x < i64::MIN { i64::MIN as int } else if x > i64::MAX { i64::MAX as int } else { x }
}

/// How far a request's timestamp is from server time, in milliseconds, saturating.
pub open spec fn skew_millis(server_now_millis: i64, timestamp_millis: i64) -> int {
    let d = clamp64(server_now_millis - timestamp_millis);
    if d == i64::MIN { i64::MAX as int } else if d < 0 { -d } else { d }
}

/// The widest skew accepted, in milliseconds, saturating.
pub open spec fn window_millis(max_skew_seconds: i64) -> int {
    clamp64(max_skew_seconds * 1000)
}

/// What verifying a request yields, check by check in order.
pub open spec fn verdict(request_payload: Seq<u8>, timestamp_millis: i64, credentials: DeviceCredentials, signature: Seq<u8>, server_now_millis: i64, max_skew_seconds: i64) -> Result<(), SignatureError> {
    if credentials.revoked {
        Err(SignatureError::Revoked { device_id: credentials.device_id })
    } else if skew_millis(server_now_millis, timestamp_millis) > window_millis(max_skew_seconds) {
        Err(SignatureError::TimestampOutOfWindow {
            skew_seconds: (skew_millis(server_now_millis, timestamp_millis) / 1000) as i64,
            allowed_seconds: max_skew_seconds,
        })
    } else if !ed25519_point(credentials.public_key@) {
        Err(SignatureError::MalformedPublicKey { device_id: credentials.device_id })
    } else if signature.len() != 64 {
        Err(SignatureError::MalformedSignature)
    } else if !ed25519_accepts(credentials.public_key@, request_payload, signature) {
        Err(SignatureError::Rejected { device_id: credentials.device_id })
    } else {
        Ok(())
    }
}

/// Verify a request's signature.
///
/// Revocation first, so a stolen till is refused without spending a verification on it; then
/// freshness, in both directions, since a till whose clock runs fast is refused as firmly as a
/// replay; then the cryptography.
pub fn verify_request(
    request: &SignedRequest<'_>,
    credentials: &DeviceCredentials,
    signature_bytes: &[u8],
    server_now_millis: i64,
    max_skew_seconds: i64,
) -> (r: Result<(), SignatureError>)
    ensures
        r == verdict(request.payload(), request.timestamp_millis, *credentials, signature_bytes@, server_now_millis, max_skew_seconds),
{
    if credentials.revoked {
        return Err(SignatureError::Revoked { device_id: credentials.device_id });
    }
    let difference: i128 = server_now_millis as i128 - request.timestamp_millis as i128;
    let clamped: i64 = if difference < i64::MIN as i128 {
        i64::MIN
    } else if difference > i64::MAX as i128 {
        i64::MAX
    } else {
        difference as i64
    };
    let skew: i64 = if clamped == i64::MIN { i64::MAX } else if clamped < 0 { -clamped } else { clamped };
    let wide: i128 = max_skew_seconds as i128 * 1000;
    let allowed: i64 = if wide < i64::MIN as i128 {
        i64::MIN
    } else if wide > i64::MAX as i128 {
        i64::MAX
    } else {
        wide as i64
    };
    if skew > allowed {
        return Err(SignatureError::TimestampOutOfWindow { skew_seconds: skew / 1000, allowed_seconds: max_skew_seconds });
    }
    if !decompresses(&credentials.public_key) {
        return Err(SignatureError::MalformedPublicKey { device_id: credentials.device_id });
    }
    if signature_bytes.len() != 64 {
        return Err(SignatureError::MalformedSignature);
    }
    let mut signature = [0u8; 64];
    let mut i: usize = 0;
    while i < 64
        invariant
            0 <= i <= 64,
            signature_bytes@.len() == 64,
            signature@.len() == 64,
            forall|j: int| 0 <= j < i ==> signature@[j] == signature_bytes@[j],
        decreases 64 - i,
    {
        signature[i] = signature_bytes[i];
        i += 1;
    }
    assert(signature@ =~= signature_bytes@);
    let payload = request.signing_payload();
    if !verify_strict(&credentials.public_key, payload.as_slice(), &signature) {
        return Err(SignatureError::Rejected { device_id: credentials.device_id });
    }
    Ok(())
}

/// Revocation is absolute: a revoked device is refused whatever it signs and whenever.
pub proof fn law_revocation_is_absolute(payload: Seq<u8>, timestamp_millis: i64, credentials: DeviceCredentials, signature: Seq<u8>, server_now_millis: i64, max_skew_seconds: i64)
    requires
        credentials.revoked,
    ensures
        verdict(payload, timestamp_millis, credentials, signature, server_now_millis, max_skew_seconds)
            == Err::<(), SignatureError>(SignatureError::Revoked { device_id: credentials.device_id }),
{
}

/// A request accepted is one that is fresh, signed by a key that is not weak, and whose
/// signature verifies over exactly its own payload.
pub proof fn law_an_accepted_request_is_fresh_and_signed(payload: Seq<u8>, timestamp_millis: i64, credentials: DeviceCredentials, signature: Seq<u8>, server_now_millis: i64, max_skew_seconds: i64)
    requires
        verdict(payload, timestamp_millis, credentials, signature, server_now_millis, max_skew_seconds) is Ok,
    ensures
        !credentials.revoked,
        skew_millis(server_now_millis, timestamp_millis) <= window_millis(max_skew_seconds),
        ed25519_accepts(credentials.public_key@, payload, signature),
        signature.len() == 64,
{
}

/// A stale or future-dated request is refused before any cryptography is consulted: its
/// verdict does not depend on the key or the signature.
pub proof fn law_a_stale_request_is_refused_before_any_crypto(payload: Seq<u8>, timestamp_millis: i64, credentials: DeviceCredentials, signature: Seq<u8>, other_payload: Seq<u8>, other_signature: Seq<u8>, server_now_millis: i64, max_skew_seconds: i64)
    requires
        !credentials.revoked,
        skew_millis(server_now_millis, timestamp_millis) > window_millis(max_skew_seconds),
    ensures
        verdict(payload, timestamp_millis, credentials, signature, server_now_millis, max_skew_seconds)
            == verdict(other_payload, timestamp_millis, credentials, other_signature, server_now_millis, max_skew_seconds),
        verdict(payload, timestamp_millis, credentials, signature, server_now_millis, max_skew_seconds)
            matches Err(SignatureError::TimestampOutOfWindow { .. }),
{
}

/// The method is normalised, so its case cannot split a signature: two methods that agree up to
/// ASCII case sign the same payload.
pub proof fn law_method_case_does_not_change_the_payload(method: Seq<u8>, other: Seq<u8>, path: Seq<u8>, device_id: u128, timestamp_millis: i64, body: Seq<u8>)
    requires
        upper_bytes(method) == upper_bytes(other),
    ensures
        payload_bytes(method, path, device_id, timestamp_millis, body) == payload_bytes(other, path, device_id, timestamp_millis, body),
{
}

} // verus!
