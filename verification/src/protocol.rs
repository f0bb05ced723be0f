//! The wire vocabulary shared by till and server: what an event carries, where a device's chain
//! ends, what a push and a pull look like, and why a push can be refused.

use vstd::prelude::*;

verus! {

broadcast use vstd::array::group_array_axioms;

/// Most events in one push.
///
/// Bounded so a till that has been offline for a week uploads in chunks rather than one request
/// that times out and retries forever.
pub const MAX_BATCH: usize = 500;

/// A 32-byte chain digest.
pub type Hash = [u8; 32];

/// Whether two digests are the same bytes.
pub fn same_hash(a: &Hash, b: &Hash) -> (r: bool)
    ensures
        r == (a@ == b@),
{
    let mut i: usize = 0;
    while i < 32
        invariant
            0 <= i <= 32,
            a@.len() == 32,
            b@.len() == 32,
            forall|j: int| 0 <= j < i ==> a@[j] == b@[j],
        decreases 32 - i,
    {
        if a[i] != b[i] {
            return false;
        }
        i += 1;
    }
    assert(a@ =~= b@);
    true
}

/// A sealed event, as the sync logic sees it.
///
/// Identifiers are the 128-bit values of the UUIDs they stand for. `payload` is the canonical JSON
/// exactly as it was hashed; nothing here re-encodes it.
#[derive(Debug, Clone, PartialEq, Eq)]
pub struct EventEnvelope {
    pub event_id: u128,
    pub tenant_id: u128,
    pub outlet_id: u128,
    pub device_id: u128,
    /// Position in the issuing device's own chain, starting at 1.
    pub device_seq: u64,
    /// Milliseconds since the Unix epoch.
    pub occurred_at: i64,
    pub kind: String,
    pub payload: String,
    pub prev_hash: Hash,
    pub hash: Hash,
}

/// Where a device's chain currently ends.
#[derive(Debug, Clone, Copy, PartialEq, Eq)]
pub struct ChainTip {
    pub device_seq: u64,
    pub hash: Hash,
}

/// Why a sync batch was refused. None of these is cured by sending the same bytes again.
#[derive(Debug, Clone, PartialEq, Eq)]
pub enum SyncError {
    /// The new part of the batch does not verify as a chain continuing the tip.
    Chain(String),
    /// Events are missing between the server's tip and the batch.
    Gap { tip: u64, batch_starts_at: u64 },
    /// Same sequence numbers, different history: a restored backup, or tampering.
    Forked { device_seq: u64, server_hash: Hash, device_hash: Hash },
    WrongDevice { expected: u128, found: u128 },
    BatchTooLarge { count: usize, limit: usize },
}

/// A till offering events to the server.
#[derive(Debug, Clone)]
pub struct PushRequest {
    pub device_id: u128,
    /// Contiguous and ascending.
    pub events: Vec<EventEnvelope>,
}

impl PushRequest {
    /// Refuses a batch larger than [`MAX_BATCH`].
    pub fn validate(&self) -> (r: Result<(), SyncError>)
        ensures
            self.events@.len() <= MAX_BATCH <==> r is Ok,
            r is Err ==> r == Err::<(), SyncError>(
                SyncError::BatchTooLarge { count: self.events@.len() as usize, limit: MAX_BATCH },
            ),
    {
        if self.events.len() > MAX_BATCH {
            return Err(SyncError::BatchTooLarge { count: self.events.len(), limit: MAX_BATCH });
        }
        Ok(())
    }
}

/// What the server did with a push.
#[derive(Debug, Clone)]
pub struct PushResponse {
    /// Events newly stored. Zero on a retry, which is success.
    pub accepted: usize,
    /// Events already held, skipped.
    pub skipped: usize,
    /// The server's view of the device's chain after this push.
    pub tip: ChainTip,
    /// Highest server sequence assigned.
    pub high_water: i64,
}

/// A till asking for everything it has not seen.
#[derive(Debug, Clone, Copy)]
pub struct PullRequest {
    pub device_id: u128,
    /// Everything strictly above this. Zero fetches from the beginning.
    pub cursor: i64,
    pub limit: usize,
}

/// Events from the outlet's other devices.
#[derive(Debug, Clone)]
pub struct PullResponse {
    pub events: Vec<EventEnvelope>,
    /// Where to resume.
    pub cursor: i64,
    /// Whether more is waiting.
    pub has_more: bool,
}

/// A device's position in the outlet's stream.
#[derive(Debug, Clone, Copy, PartialEq, Eq)]
pub struct SyncCursor {
    pub device_id: u128,
    pub server_seq: i64,
}

/// Why a push was refused, in a form the till can act on.
#[derive(Debug, Clone, Copy, PartialEq, Eq)]
pub enum SyncRejection {
    /// Device unknown or revoked.
    NotAuthorised,
    /// Signature, timestamp, or chain verification failed.
    Invalid,
    /// Local log disagrees with the server's history.
    Forked,
    /// Events are missing.
    Gap,
    /// Server-side problem. Retry with backoff.
    Unavailable,
}

/// The coarse rejection each refusal maps to.
pub open spec fn rejection_of(error: SyncError) -> SyncRejection {
    match error {
        SyncError::Gap { .. } => SyncRejection::Gap,
        SyncError::Forked { .. } => SyncRejection::Forked,
        _ => SyncRejection::Invalid,
    }
}

impl SyncRejection {
    /// Whether sending the same batch again could ever succeed.
    pub fn is_retryable(self) -> (r: bool)
        ensures
            r <==> self == SyncRejection::Unavailable,
    {
        match self {
            SyncRejection::Unavailable => true,
            _ => false,
        }
    }

    pub fn from_sync_error(error: &SyncError) -> (r: Self)
        ensures
            r == rejection_of(*error),
    {
        match error {
            SyncError::Gap { .. } => SyncRejection::Gap,
            SyncError::Forked { .. } => SyncRejection::Forked,
            SyncError::Chain(_) | SyncError::WrongDevice { .. } | SyncError::BatchTooLarge { .. } => {
                SyncRejection::Invalid
            },
        }
    }
}

} // verus!
