//! Sync ingest on the server: which device is pushing, whether its batch may be stored, and what
//! a page of pulled events looks like.
//!
//! The database work runs in one transaction per request in the application; these are the
//! decisions it makes between queries.

use vstd::prelude::*;
use crate::plan::{BatchStep, plan_batch, spec_plan_batch};
use crate::protocol::{ChainTip, EventEnvelope, PullResponse, SyncError, SyncRejection, rejection_of};

verus! {

/// A device as the server knows it.
#[derive(Debug, Clone, Copy)]
pub struct DeviceRecord {
    pub device_id: u128,
    pub tenant_id: u128,
    pub outlet_id: u128,
    pub public_key: [u8; 32],
    pub revoked: bool,
    pub tip: ChainTip,
}

#[derive(Debug, Clone, PartialEq, Eq)]
pub enum IngestError {
    /// The database failed; the text is its message.
    Database(String),
    UnknownDevice { device_id: u128 },
    Revoked { device_id: u128 },
    CorruptDevice { device_id: u128 },
    /// A stored event has a malformed hash.
    CorruptEvent,
    /// The device sent an event for a tenant or outlet it does not belong to.
    ScopeMismatch { device_id: u128, event_id: u128 },
    Rejected(SyncError),
}

/// The coarse reason handed back to the till for each failure.
pub open spec fn ingest_rejection(error: IngestError) -> SyncRejection {
    match error {
        IngestError::UnknownDevice { .. } | IngestError::Revoked { .. } => SyncRejection::NotAuthorised,
        IngestError::ScopeMismatch { .. } => SyncRejection::Invalid,
        IngestError::Database(_) | IngestError::CorruptDevice { .. } | IngestError::CorruptEvent => SyncRejection::Unavailable,
        IngestError::Rejected(error) => rejection_of(error),
    }
}

impl IngestError {
    /// Deliberately lossy: telling a client exactly why it failed helps an attacker more than a
    /// cashier.
    pub fn rejection(&self) -> (r: SyncRejection)
        ensures
            r == ingest_rejection(*self),
    {
        match self {
            IngestError::UnknownDevice { .. } | IngestError::Revoked { .. } => SyncRejection::NotAuthorised,
            IngestError::ScopeMismatch { .. } => SyncRejection::Invalid,
            IngestError::Database(_) | IngestError::CorruptDevice { .. } | IngestError::CorruptEvent => {
                SyncRejection::Unavailable
            },
            IngestError::Rejected(error) => SyncRejection::from_sync_error(error),
        }
    }
}

/// Copy 32 bytes out of a stored column, if it holds exactly 32.
pub fn hash_column(bytes: &Vec<u8>) -> (r: Option<[u8; 32]>)
    ensures
        r is Some <==> bytes@.len() == 32,
        r matches Some(array) ==> array@ == bytes@,
{
    if bytes.len() != 32 {
        return None;
    }
    let mut array = [0u8; 32];
    let mut i: usize = 0;
    while i < 32
        invariant
            0 <= i <= 32,
            bytes@.len() == 32,
            array@.len() == 32,
            forall|j: int| 0 <= j < i ==> array@[j] == bytes@[j],
        decreases 32 - i,
    {
        array[i] = bytes[i];
        i += 1;
    }
    assert(array@ =~= bytes@);
    Some(array)
}

/// Build a device record from its row: the key and the last hash must be 32 bytes and the last
/// sequence non-negative, or the row is corrupt.
pub fn device_from_row(
    device_id: u128,
    tenant_id: u128,
    outlet_id: u128,
    public_key: &Vec<u8>,
    revoked: bool,
    last_device_seq: i64,
    last_hash: &Vec<u8>,
) -> (r: Result<DeviceRecord, IngestError>)
    ensures
        r is Ok <==> public_key@.len() == 32 && last_hash@.len() == 32 && last_device_seq >= 0,
        r is Err ==> r == Err::<DeviceRecord, IngestError>(IngestError::CorruptDevice { device_id }),
        r matches Ok(device) ==> {
            &&& device.device_id == device_id
            &&& device.tenant_id == tenant_id
            &&& device.outlet_id == outlet_id
            &&& device.public_key@ == public_key@
            &&& device.revoked == revoked
            &&& device.tip.device_seq == last_device_seq
            &&& device.tip.hash@ == last_hash@
        },
{
    let key = match hash_column(public_key) {
        Some(key) => key,
        None => return Err(IngestError::CorruptDevice { device_id }),
    };
    let hash = match hash_column(last_hash) {
        Some(hash) => hash,
        None => return Err(IngestError::CorruptDevice { device_id }),
    };
    if last_device_seq < 0 {
        return Err(IngestError::CorruptDevice { device_id });
    }
    Ok(DeviceRecord {
        device_id,
        tenant_id,
        outlet_id,
        public_key: key,
        revoked,
        tip: ChainTip { device_seq: last_device_seq as u64, hash },
    })
}

/// Decide what may be done with a pushed batch before anything is written: a revoked device is
/// refused outright, otherwise the batch is planned against the device's stored tip.
pub fn admit_push(device: &DeviceRecord, events: &[EventEnvelope]) -> (r: Result<BatchStep, IngestError>)
    ensures
        device.revoked ==> r == Err::<BatchStep, IngestError>(IngestError::Revoked { device_id: device.device_id }),
        !device.revoked ==> match spec_plan_batch(events@, device.tip, device.device_id) {
            Ok(step) => r == Ok::<BatchStep, IngestError>(step),
            Err(error) => r == Err::<BatchStep, IngestError>(IngestError::Rejected(error)),
        },
{
    if device.revoked {
        return Err(IngestError::Revoked { device_id: device.device_id });
    }
    match plan_batch(events, device.tip, device.device_id) {
        Ok(step) => Ok(step),
        Err(error) => Err(IngestError::Rejected(error)),
    }
}

/// The first of `events[from..]` that names a tenant or outlet other than the device's own.
pub open spec fn first_out_of_scope(events: Seq<EventEnvelope>, from: int, device: DeviceRecord) -> Option<int>
    decreases events.len() - from,
{
    if from >= events.len() || from < 0 {
        None
    } else if events[from].tenant_id != device.tenant_id || events[from].outlet_id != device.outlet_id {
        Some(from)
    } else {
        first_out_of_scope(events, from + 1, device)
    }
}

/// A batch passes the scope check exactly when every event from `from` on names both the device's
/// tenant and the device's outlet; otherwise the check names the first event that does not, so
/// nothing is stored under another outlet, even one of the same tenant.
pub proof fn law_only_events_of_the_device_scope_pass(events: Seq<EventEnvelope>, from: int, device: DeviceRecord)
    requires
        0 <= from <= events.len(),
    ensures
        first_out_of_scope(events, from, device) is None
            <==> forall|i: int| #![trigger events[i]] from <= i < events.len()
                ==> events[i].tenant_id == device.tenant_id && events[i].outlet_id == device.outlet_id,
        first_out_of_scope(events, from, device) matches Some(i) ==> {
            &&& from <= i < events.len()
            &&& !(events[i].tenant_id == device.tenant_id && events[i].outlet_id == device.outlet_id)
            &&& forall|j: int| #![trigger events[j]] from <= j < i
                ==> events[j].tenant_id == device.tenant_id && events[j].outlet_id == device.outlet_id
        },
    decreases events.len() - from,
{
    if from < events.len() {
        law_only_events_of_the_device_scope_pass(events, from + 1, device);
        let first = events[from];
        if first.tenant_id == device.tenant_id && first.outlet_id == device.outlet_id {
            if first_out_of_scope(events, from, device) is None {
                assert forall|i: int| #![trigger events[i]] from <= i < events.len()
                    implies events[i].tenant_id == device.tenant_id && events[i].outlet_id == device.outlet_id by {
                    if i > from {
                        assert(from + 1 <= i < events.len());
                    }
                }
            }
        }
    }
}

/// Every event to be stored must belong to the device's own tenant and outlet: the device record
/// is the authority, not what an event claims.
pub fn check_scope(device: &DeviceRecord, events: &[EventEnvelope], from: usize) -> (r: Result<(), IngestError>)
    requires
        from <= events@.len(),
    ensures
        match first_out_of_scope(events@, from as int, *device) {
            None => r is Ok,
            Some(i) => r == Err::<(), IngestError>(IngestError::ScopeMismatch { device_id: device.device_id, event_id: events@[i].event_id }),
        },
        r is Ok <==> forall|i: int| #![trigger events@[i]] from <= i < events@.len()
            ==> events@[i].tenant_id == device.tenant_id && events@[i].outlet_id == device.outlet_id,
        r matches Err(error) ==> exists|i: int| #![trigger events@[i]] from <= i < events@.len()
            && !(events@[i].tenant_id == device.tenant_id && events@[i].outlet_id == device.outlet_id)
            && error == (IngestError::ScopeMismatch { device_id: device.device_id, event_id: events@[i].event_id }),
{
    proof {
        law_only_events_of_the_device_scope_pass(events@, from as int, *device);
    }
    let mut i = from;
    while i < events.len()
        invariant
            from <= i <= events@.len(),
            first_out_of_scope(events@, from as int, *device) == first_out_of_scope(events@, i as int, *device),
        decreases events@.len() - i,
    {
        let event = &events[i];
        if event.tenant_id != device.tenant_id || event.outlet_id != device.outlet_id {
            assert(!(events@[i as int].tenant_id == device.tenant_id && events@[i as int].outlet_id == device.outlet_id));
            return Err(IngestError::ScopeMismatch { device_id: device.device_id, event_id: event.event_id });
        }
        i += 1;
    }
    Ok(())
}

/// A device sequence as the database stores it: refused when it does not fit a signed column.
pub fn stored_sequence(device: &DeviceRecord, device_seq: u64) -> (r: Result<i64, IngestError>)
    ensures
        device_seq <= i64::MAX ==> r == Ok::<i64, IngestError>(device_seq as i64),
        device_seq > i64::MAX ==> r == Err::<i64, IngestError>(IngestError::CorruptDevice { device_id: device.device_id }),
{
    if device_seq > i64::MAX as u64 {
        Err(IngestError::CorruptDevice { device_id: device.device_id })
    } else {
        Ok(device_seq as i64)
    }
}

/// An event read back for a pull, with the position the server assigned it.
#[derive(Debug, Clone)]
pub struct PulledRow {
    pub event: EventEnvelope,
    pub server_seq: i64,
}

/// How many rows to fetch for a page of `limit`: one more, to learn whether more is waiting
/// without a second query.
pub fn fetch_size(limit: usize) -> (r: i64)
    ensures
        r == if limit as int + 1 > i64::MAX { i64::MAX as int } else { limit as int + 1 },
{
    if limit as u128 + 1 > i64::MAX as u128 { i64::MAX } else { (limit as u128 + 1) as i64 }
}

/// How many of `fetched` rows a page of `limit` delivers.
pub open spec fn delivered(fetched: nat, limit: usize) -> nat {
    if fetched < limit { fetched } else { limit as nat }
}

/// Where the next pull resumes after a page: the last row delivered, or where it started.
pub open spec fn page_cursor(rows: Seq<PulledRow>, cursor: i64, limit: usize) -> i64 {
    if delivered(rows.len(), limit) == 0 { cursor } else { rows[delivered(rows.len(), limit) - 1].server_seq }
}

/// Pulling drains in pages without losing or repeating an event: when the rows above the cursor
/// come in ascending server order, every row a page delivers is at or below the cursor it hands
/// back, and every row it holds back is above it, so the next page starts exactly where this one
/// stopped.
pub proof fn law_pages_neither_lose_nor_repeat(rows: Seq<PulledRow>, cursor: i64, limit: usize)
    requires
        forall|i: int, j: int| 0 <= i < j < rows.len() ==> rows[i].server_seq < rows[j].server_seq,
        forall|i: int| 0 <= i < rows.len() ==> rows[i].server_seq > cursor,
    ensures
        forall|i: int| 0 <= i < delivered(rows.len(), limit) ==> rows[i].server_seq <= page_cursor(rows, cursor, limit),
        forall|i: int| delivered(rows.len(), limit) <= i < rows.len() ==> rows[i].server_seq > page_cursor(rows, cursor, limit),
        page_cursor(rows, cursor, limit) >= cursor,
{
}

/// The page a pull returns from the rows fetched above `cursor`: at most `limit` events, in
/// order, with the cursor moved to the last one delivered, and whether more is waiting.
pub fn pull_page(rows: Vec<PulledRow>, cursor: i64, limit: usize) -> (r: PullResponse)
    ensures
        r.has_more == (rows@.len() > limit),
        r.events@.len() == delivered(rows@.len(), limit),
        forall|i: int| 0 <= i < r.events@.len() ==> r.events@[i] == rows@[i].event,
        r.cursor == page_cursor(rows@, cursor, limit),
{
    let has_more = rows.len() > limit;
    let mut rows = rows;
    let ghost fetched = rows@;
    rows.truncate(limit);
    let ghost kept = rows@;
    let mut reversed: Vec<PulledRow> = Vec::new();
    while rows.len() > 0
        invariant
            kept.len() == rows@.len() + reversed@.len(),
            forall|i: int| 0 <= i < rows@.len() ==> rows@[i] == kept[i],
            forall|i: int| 0 <= i < reversed@.len() ==> reversed@[i] == kept[kept.len() - 1 - i],
        decreases rows@.len(),
    {
        let row = rows.pop().unwrap();
        reversed.push(row);
    }
    let mut events: Vec<EventEnvelope> = Vec::new();
    let mut next = cursor;
    while reversed.len() > 0
        invariant
            kept.len() == reversed@.len() + events@.len(),
            forall|i: int| 0 <= i < reversed@.len() ==> reversed@[i] == kept[kept.len() - 1 - i],
            forall|i: int| 0 <= i < events@.len() ==> events@[i] == kept[i].event,
            next == if events@.len() == 0 { cursor } else { kept[events@.len() - 1].server_seq },
        decreases reversed@.len(),
    {
        let row = reversed.pop().unwrap();
        next = row.server_seq;
        events.push(row.event);
    }
    proof {
        assert(kept.len() == if fetched.len() < limit { fetched.len() } else { limit as nat });
        assert forall|i: int| 0 <= i < kept.len() implies kept[i] == fetched[i] by {}
    }
    PullResponse { events, cursor: next, has_more }
}

} // verus!
