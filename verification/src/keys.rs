//! The till's own identity: its Ed25519 key, its enrollment, and the headers it signs every
//! request with.
//!
//! The keypair is generated on the till and the private half never leaves it. The server only ever
//! learns a public key, so a full server compromise still cannot forge this device's sales.

use vstd::prelude::*;
use crate::codec::{
    ascii_chars, base64url, base64url_decode, base64url_encode, decimal_chars, hex_encode, hex_text,
    i64_string, i64_value, lemma_decimal_reads_back, is_hex_of, lemma_hex_round_trip, uuid_chars, uuid_string, uuid_value,
};
use crate::device::{
    DeviceCredentials, SignedRequest, ed25519_accepts, ed25519_point, os_random, payload_bytes, verdict,
    skew_millis, window_millis,
};
use crate::routes::{EnrollRequest, EnrollResponse, header_texts_verdict};
use crate::text::{trim, trim_chars, trim_end_char, trim_end_matches};

verus! {

/// The public key of an Ed25519 secret key.
pub uninterp spec fn ed25519_public(secret: Seq<u8>) -> Seq<u8>;

/// The Ed25519 signature of a message under a secret key (deterministic, RFC 8032).
pub uninterp spec fn ed25519_signature(secret: Seq<u8>, message: Seq<u8>) -> Seq<u8>;

/// Whether the deterministic per-message nonce of a secret key's signature of `message` is a
/// multiple of the group order, so that the signature's `R` is the identity point. It happens for
/// about one message in 2²⁵², and strict verification refuses such a signature.
pub uninterp spec fn ed25519_nonce_vanishes(secret: Seq<u8>, message: Seq<u8>) -> bool;

/// `ed25519_dalek::SigningKey::from_bytes(secret).verifying_key().to_bytes()`: the public half,
/// which is the compressed encoding of a curve point.
#[verifier::external_body]
fn public_key_of(secret: &[u8; 32]) -> (r: [u8; 32])
    ensures
        r@ == ed25519_public(secret@),
        ed25519_point(r@),
{
    ed25519_dalek::SigningKey::from_bytes(secret).verifying_key().to_bytes()
}

/// `ed25519_dalek::Signer::sign` with the key `secret` makes: a signature that verifies, strictly,
/// under that key's public half — unless its nonce vanishes, when `verify_strict` refuses its
/// small-order `R`. (The public half is never of small order: the clamped scalar is no multiple
/// of the group order.)
#[verifier::external_body]
fn sign(secret: &[u8; 32], message: &[u8]) -> (r: [u8; 64])
    ensures
        r@ == ed25519_signature(secret@, message@),
        !ed25519_nonce_vanishes(secret@, message@) ==> ed25519_accepts(ed25519_public(secret@), message@, r@),
{
    ed25519_dalek::Signer::sign(&ed25519_dalek::SigningKey::from_bytes(secret), message).to_bytes()
}

/// Why enrolling this till, or using its credentials, failed.
#[derive(Debug, Clone, PartialEq, Eq)]
pub enum EnrollmentError {
    /// The operating system's random source failed.
    Entropy(String),
    /// The server could not be reached.
    Transport(String),
    /// Deliberately uninformative — the server does not say why, on purpose.
    Refused,
    MalformedReply,
    /// The credentials could not be stored.
    Storage(String),
    NotEnrolled,
}

/// What an enrollment failure says to the person at the till.
pub open spec fn enrollment_message(error: EnrollmentError) -> Seq<char> {
    match error {
        EnrollmentError::Entropy(reason) => "could not gather secure randomness: "@ + reason@,
        EnrollmentError::Transport(reason) => "could not reach the server: "@ + reason@,
        EnrollmentError::Refused => "the server refused this enrollment; check the token has not expired or been used"@,
        EnrollmentError::MalformedReply => "the server's reply was not understood"@,
        EnrollmentError::Storage(reason) => "could not store the device credentials: "@ + reason@,
        EnrollmentError::NotEnrolled => "this device is not enrolled"@,
    }
}

/// A fixed start followed by a reason.
fn with_reason(start: &str, reason: &String) -> (r: String)
    ensures
        r@ == start@ + reason@,
{
    let mut text = start.to_owned();
    text.append(reason.as_str());
    text
}

impl EnrollmentError {
    /// The failure as a sentence.
    pub fn message(&self) -> (r: String)
        ensures
            r@ == enrollment_message(*self),
    {
        match self {
            EnrollmentError::Entropy(reason) => with_reason("could not gather secure randomness: ", reason),
            EnrollmentError::Transport(reason) => with_reason("could not reach the server: ", reason),
            EnrollmentError::Refused => {
                "the server refused this enrollment; check the token has not expired or been used".to_owned()
            },
            EnrollmentError::MalformedReply => "the server's reply was not understood".to_owned(),
            EnrollmentError::Storage(reason) => with_reason("could not store the device credentials: ", reason),
            EnrollmentError::NotEnrolled => "this device is not enrolled".to_owned(),
        }
    }
}

/// Who this till is.
#[derive(Debug, Clone, Copy, PartialEq, Eq)]
pub struct DeviceIdentity {
    pub tenant_id: u128,
    pub outlet_id: u128,
    pub device_id: u128,
}

/// What a device keeps after enrolling.
#[derive(Debug, Clone)]
pub struct Credentials {
    pub identity: DeviceIdentity,
    /// Base64url Ed25519 signing key.
    secret_key: String,
}

impl Credentials {
    /// Who the credentials are for.
    pub closed spec fn identity_of(&self) -> DeviceIdentity {
        self.identity
    }

    /// The stored key text.
    pub closed spec fn secret_text(&self) -> Seq<char> {
        self.secret_key@
    }

    /// Credentials holding `secret`, encoded as they are stored.
    pub fn issue(identity: DeviceIdentity, secret: &[u8; 32]) -> (r: Credentials)
        ensures
            r.identity_of() == identity,
            r.secret_text() == base64url(secret@),
    {
        Credentials { identity, secret_key: base64url_encode(secret.as_slice()) }
    }

    /// Credentials as they were read back from storage.
    pub fn from_stored(identity: DeviceIdentity, secret_key: String) -> (r: Credentials)
        ensures
            r.identity_of() == identity,
            r.secret_text() == secret_key@,
    {
        Credentials { identity, secret_key }
    }

    /// The stored key, as text.
    pub fn secret_key(&self) -> (r: &str)
        ensures
            r@ == self.secret_text(),
    {
        self.secret_key.as_str()
    }

    /// The signing key: the 32 bytes the stored text is the base64url of, or
    /// [`EnrollmentError::MalformedReply`] when it is not such text.
    ///
    /// The key a till keeps is the key it reads back: for credentials issued for a secret, this is
    /// that secret.
    pub fn signing_key(&self) -> (r: Result<[u8; 32], EnrollmentError>)
        ensures
            forall|secret: Seq<u8>| secret.len() == 32 && #[trigger] base64url(secret) == self.secret_text()
                ==> (r matches Ok(key) && key@ == secret),
            match r {
                Ok(secret) => base64url(secret@) == self.secret_text(),
                Err(error) => {
                    &&& error == EnrollmentError::MalformedReply
                    &&& forall|secret: Seq<u8>| secret.len() == 32 ==> #[trigger] base64url(secret) != self.secret_text()
                },
            },
    {
        let bytes = match base64url_decode(self.secret_key.as_str()) {
            Some(bytes) => bytes,
            None => return Err(EnrollmentError::MalformedReply),
        };
        if bytes.len() != 32 {
            return Err(EnrollmentError::MalformedReply);
        }
        let mut secret = [0u8; 32];
        let mut i: usize = 0;
        while i < 32
            invariant
                0 <= i <= 32,
                bytes@.len() == 32,
                secret@.len() == 32,
                forall|j: int| 0 <= j < i ==> secret@[j] == bytes@[j],
            decreases 32 - i,
        {
            secret[i] = bytes[i];
            i += 1;
        }
        assert(secret@ =~= bytes@);
        Ok(secret)
    }
}

/// A fresh signing key from the operating system's random source.
///
/// Which bytes come back, and whether the source answers at all, is chance: the contract says
/// only that a failure is reported as `Entropy`.
pub fn new_secret() -> (r: Result<[u8; 32], EnrollmentError>)
    ensures
        r is Err ==> r->Err_0 is Entropy,
{
    let mut seed = [0u8; 32];
    match os_random(&mut seed) {
        Ok(()) => Ok(seed),
        Err(reason) => Err(EnrollmentError::Entropy(reason)),
    }
}

/// The public half of a secret key, as the server is sent it: base64url.
pub fn public_key_text(secret: &[u8; 32]) -> (r: String)
    ensures
        r@ == base64url(ed25519_public(secret@)),
{
    let public = public_key_of(secret);
    base64url_encode(public.as_slice())
}

/// The request that enrols this till: the token without surrounding whitespace, the public key,
/// and the label as typed.
pub fn enrollment_request(token: &str, secret: &[u8; 32], label: &str) -> (r: EnrollRequest)
    ensures
        r.token@ == trim_chars(token@),
        r.public_key@ == base64url(ed25519_public(secret@)),
        r.label@ == label@,
{
    EnrollRequest {
        token: trim(token).to_owned(),
        public_key: public_key_text(secret),
        label: label.to_owned(),
    }
}

/// The server's address without trailing slashes, so paths can be appended to it.
pub fn base_url(raw: &str) -> (r: String)
    ensures
        r@ == trim_end_char(raw@, '/'),
{
    trim_end_matches(raw, '/').to_owned()
}

/// Where a till enrols.
pub fn enroll_url(base: &str) -> (r: String)
    ensures
        r@ == trim_end_char(base@, '/') + crate::routes::ENROLL_PATH@,
{
    let mut url = base_url(base);
    url.append(crate::routes::ENROLL_PATH);
    url
}

/// What the server's answer to an enrollment leaves the till holding: credentials for the key it
/// generated, or why not.
pub fn enrollment_outcome(succeeded: bool, reply: Option<EnrollResponse>, secret: &[u8; 32]) -> (r: Result<Credentials, EnrollmentError>)
    ensures
        !succeeded ==> r == Err::<Credentials, EnrollmentError>(EnrollmentError::Refused),
        succeeded && reply is None ==> r == Err::<Credentials, EnrollmentError>(EnrollmentError::MalformedReply),
        succeeded && reply is Some ==> r is Ok,
        r matches Ok(credentials) ==> {
            &&& credentials.identity_of() == (DeviceIdentity {
                tenant_id: reply->0.tenant_id,
                outlet_id: reply->0.outlet_id,
                device_id: reply->0.device_id,
            })
            &&& credentials.secret_text() == base64url(secret@)
        },
{
    if !succeeded {
        return Err(EnrollmentError::Refused);
    }
    match reply {
        Some(reply) => Ok(Credentials::issue(
            DeviceIdentity { tenant_id: reply.tenant_id, outlet_id: reply.outlet_id, device_id: reply.device_id },
            secret,
        )),
        None => Err(EnrollmentError::MalformedReply),
    }
}

// ---------------------------------------------------------------------------------------------
// Signing requests
// ---------------------------------------------------------------------------------------------

/// The three headers that authenticate a request, as sent.
#[derive(Debug, Clone)]
pub struct RequestHeaders {
    pub device: String,
    pub timestamp: String,
    pub signature: String,
}

/// The credentials the server holds for a till that enrolled with `secret`'s public half.
pub open spec fn enrolled_as(credentials: DeviceCredentials, device_id: u128, secret: Seq<u8>) -> bool {
    &&& credentials.device_id == device_id
    &&& credentials.public_key@ == ed25519_public(secret)
    &&& !credentials.revoked
}

/// Sign a request and write its headers.
///
/// What the server reads back from these headers is exactly the device and timestamp signed, and
/// any server whose clock is within the window, holding this till's public key unrevoked, admits
/// the request: the till signs exactly the bytes the server verifies. (The one exception is a
/// payload whose signing nonce vanishes, about one in 2²⁵².)
pub fn sign_request(secret: &[u8; 32], request: &SignedRequest<'_>) -> (r: RequestHeaders)
    ensures
        r.device@ == uuid_chars(request.device_id),
        r.timestamp@ == decimal_chars(request.timestamp_millis as int),
        r.signature@ == ascii_chars(hex_text(ed25519_signature(secret@, request.payload()))),
        header_texts_verdict(None, r.device@, None, r.timestamp@, None, r.signature@)
            == Ok::<(u128, i64), crate::routes::AuthFailure>((request.device_id, request.timestamp_millis)),
        is_hex_of(r.signature@, ed25519_signature(secret@, request.payload())),
        !ed25519_nonce_vanishes(secret@, request.payload()) ==> forall|credentials: DeviceCredentials, server_now_millis: i64, max_skew_seconds: i64|
            enrolled_as(credentials, request.device_id, secret@)
                && skew_millis(server_now_millis, request.timestamp_millis) <= window_millis(max_skew_seconds)
                ==> #[trigger] verdict(
                    request.payload(),
                    request.timestamp_millis,
                    credentials,
                    ed25519_signature(secret@, request.payload()),
                    server_now_millis,
                    max_skew_seconds,
                ) is Ok,
{
    let payload = request.signing_payload();
    // The key the server holds for this till; deriving it shows it is a curve point.
    let _public = public_key_of(secret);
    let signature = sign(secret, payload.as_slice());
    let device = uuid_string(request.device_id);
    let timestamp = i64_string(request.timestamp_millis);
    let signature_hex = hex_encode(signature.as_slice());
    proof {
        lemma_decimal_reads_back(request.timestamp_millis as int);
        lemma_hex_round_trip(signature@);
        assert(signature@.len() == 64);
    }
    RequestHeaders { device, timestamp, signature: signature_hex }
}

} // verus!
