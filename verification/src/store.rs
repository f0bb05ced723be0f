//! The till's local event log, as decisions: what may be appended, and what a stored row reads
//! back as.
//!
//! The log is a SQLite file in the application. Every event is written there first and only later
//! pushed; these are the checks it makes on the way in and on the way out. A gap or a repeat is
//! refused rather than stored, so the local log is never wrong in the first place.

use vstd::prelude::*;
use crate::codec::{
    check_json, decimal_chars, i64_string, u64_string, json_parses, parse_uuid, usize_string, uuid_chars, uuid_string,
    uuid_value,
};
use crate::ingest::hash_column;
use crate::protocol::{ChainTip, EventEnvelope};

verus! {

/// Why the local log refused an event or could not be read.
#[derive(Debug, Clone, PartialEq, Eq)]
pub enum StoreError {
    /// The database failed; the text is its message.
    Database(String),
    Corrupt { event_id: String, reason: String },
    Duplicate { event_id: u128 },
    SequenceBreak { tip: u64, found: u64 },
}

/// What a store error says to a person.
pub open spec fn store_message(error: StoreError) -> Seq<char> {
    match error {
        StoreError::Database(message) => "database error: "@ + message@,
        StoreError::Corrupt { event_id, reason } => "stored event "@ + event_id@ + " is corrupt: "@ + reason@,
        StoreError::Duplicate { event_id } => "event "@ + uuid_chars(event_id) + " is already stored"@,
        StoreError::SequenceBreak { tip, found } =>
            "cannot append sequence "@ + decimal_chars(found as int) + "; the chain is at "@ + decimal_chars(tip as int),
    }
}

impl StoreError {
    /// The error as a sentence.
    pub fn message(&self) -> (r: String)
        ensures
            r@ == store_message(*self),
    {
        match self {
            StoreError::Database(message) => {
                let mut text = "database error: ".to_owned();
                text.append(message.as_str());
                text
            },
            StoreError::Corrupt { event_id, reason } => {
                let mut text = "stored event ".to_owned();
                text.append(event_id.as_str());
                text.append(" is corrupt: ");
                text.append(reason.as_str());
                text
            },
            StoreError::Duplicate { event_id } => {
                let mut text = "event ".to_owned();
                let id = uuid_string(*event_id);
                text.append(id.as_str());
                text.append(" is already stored");
                text
            },
            StoreError::SequenceBreak { tip, found } => {
                let mut text = "cannot append sequence ".to_owned();
                let found_text = u64_string(*found);
                text.append(found_text.as_str());
                text.append("; the chain is at ");
                let tip_text = u64_string(*tip);
                text.append(tip_text.as_str());
                text
            },
        }
    }
}

/// The sequence the next event of a chain at `tip` must carry.
pub open spec fn next_in_chain(tip: u64) -> u64 {
    if tip == u64::MAX { u64::MAX } else { (tip + 1) as u64 }
}

/// Check an event against the tip of its device's chain before it is stored, and give the
/// sequence as the database stores it.
///
/// Only the event right after the tip is accepted: a gap or a repeat is refused.
pub fn check_append(tip: u64, event: &EventEnvelope) -> (r: Result<i64, StoreError>)
    ensures
        event.device_seq != next_in_chain(tip) ==> r == Err::<i64, StoreError>(StoreError::SequenceBreak { tip, found: event.device_seq }),
        event.device_seq == next_in_chain(tip) && event.device_seq <= i64::MAX ==> r == Ok::<i64, StoreError>(event.device_seq as i64),
        event.device_seq == next_in_chain(tip) && event.device_seq > i64::MAX ==> (r matches Err(StoreError::Corrupt { event_id, reason })
            && event_id@ == uuid_chars(event.event_id) && reason@ == "sequence exceeds i64"@),
{
    let expected = tip.saturating_add(1);
    if event.device_seq != expected {
        return Err(StoreError::SequenceBreak { tip, found: event.device_seq });
    }
    if event.device_seq > i64::MAX as u64 {
        return Err(StoreError::Corrupt {
            event_id: uuid_string(event.event_id),
            reason: "sequence exceeds i64".to_owned(),
        });
    }
    Ok(event.device_seq as i64)
}

/// Why a stored hash is unusable.
pub open spec fn hash_length_reason(length: nat) -> Seq<char> {
    "hash is "@ + decimal_chars(length as int) + " bytes, expected 32"@
}

/// Read a stored digest, refusing one that is not 32 bytes.
fn stored_hash(bytes: &Vec<u8>, event_id: &str) -> (r: Result<[u8; 32], StoreError>)
    ensures
        r is Ok <==> bytes@.len() == 32,
        r matches Ok(hash) ==> hash@ == bytes@,
        r matches Err(error) ==> (error matches StoreError::Corrupt { event_id: id, reason }
            && id@ == event_id@ && reason@ == hash_length_reason(bytes@.len())),
{
    match hash_column(bytes) {
        Some(hash) => Ok(hash),
        None => {
            let mut reason = "hash is ".to_owned();
            let length = usize_string(bytes.len());
            reason.append(length.as_str());
            reason.append(" bytes, expected 32");
            Err(StoreError::Corrupt { event_id: event_id.to_owned(), reason })
        },
    }
}

/// Why a stored sequence is unusable.
pub open spec fn negative_sequence_reason(sequence: i64) -> Seq<char> {
    "negative sequence "@ + decimal_chars(sequence as int)
}

/// Read a stored sequence, refusing a negative one.
fn stored_sequence(sequence: i64, event_id: &str) -> (r: Result<u64, StoreError>)
    ensures
        r is Ok <==> sequence >= 0,
        r matches Ok(value) ==> value == sequence,
        r matches Err(error) ==> (error matches StoreError::Corrupt { event_id: id, reason }
            && id@ == event_id@ && reason@ == negative_sequence_reason(sequence)),
{
    if sequence < 0 {
        let mut reason = "negative sequence ".to_owned();
        let text = i64_string(sequence);
        reason.append(text.as_str());
        return Err(StoreError::Corrupt { event_id: event_id.to_owned(), reason });
    }
    Ok(sequence as u64)
}

/// Where this device's chain ends, from the newest stored row of it: `None` when nothing is
/// stored yet and the chain is at its start.
pub fn tip_from_row(row: Option<(i64, Vec<u8>)>) -> (r: Result<Option<ChainTip>, StoreError>)
    ensures
        row is None ==> r == Ok::<Option<ChainTip>, StoreError>(None),
        row matches Some((sequence, hash)) ==> {
            &&& r is Ok <==> sequence >= 0 && hash@.len() == 32
            &&& r matches Ok(Some(tip)) ==> tip.device_seq == sequence && tip.hash@ == hash@
            &&& r matches Ok(found) ==> found is Some
            &&& sequence < 0 ==> (r matches Err(StoreError::Corrupt { event_id, reason })
                && event_id@ == "tip"@ && reason@ == negative_sequence_reason(sequence))
            &&& sequence >= 0 && hash@.len() != 32 ==> (r matches Err(StoreError::Corrupt { event_id, reason })
                && event_id@ == "tip"@ && reason@ == hash_length_reason(hash@.len()))
        },
{
    let (sequence, hash_bytes) = match row {
        Some(row) => row,
        None => return Ok(None),
    };
    let device_seq = match stored_sequence(sequence, "tip") {
        Ok(value) => value,
        Err(error) => return Err(error),
    };
    let hash = match stored_hash(&hash_bytes, "tip") {
        Ok(hash) => hash,
        Err(error) => return Err(error),
    };
    Ok(Some(ChainTip { device_seq, hash }))
}

/// One stored event, column by column as SQLite returns it.
#[derive(Debug, Clone)]
pub struct StoredRow {
    pub device_seq: i64,
    pub event_id: String,
    pub tenant_id: String,
    pub outlet_id: String,
    pub device_id: String,
    pub occurred_at: i64,
    pub kind: String,
    pub payload: String,
    pub prev_hash: Vec<u8>,
    pub hash: Vec<u8>,
}

/// Whether a stored row reads back as an event: every id a UUID, the sequence not negative, the
/// payload JSON, and both digests 32 bytes.
pub open spec fn row_is_sound(row: StoredRow) -> bool {
    &&& uuid_value(row.event_id@) is Some
    &&& uuid_value(row.tenant_id@) is Some
    &&& uuid_value(row.outlet_id@) is Some
    &&& uuid_value(row.device_id@) is Some
    &&& row.device_seq >= 0
    &&& json_parses(row.payload@)
    &&& row.prev_hash@.len() == 32
    &&& row.hash@.len() == 32
}

fn stored_id(text: &str, event_id: &str) -> (r: Result<u128, StoreError>)
    ensures
        r is Ok <==> uuid_value(text@) is Some,
        r matches Ok(id) ==> uuid_value(text@) == Some(id),
        r matches Err(error) ==> (error matches StoreError::Corrupt { event_id: id, .. } && id@ == event_id@),
{
    match parse_uuid(text) {
        Ok(id) => Ok(id),
        Err(reason) => Err(StoreError::Corrupt { event_id: event_id.to_owned(), reason }),
    }
}

/// Read a stored row back as the event it holds. A corrupt row is reported against its own id.
pub fn event_from_row(row: StoredRow) -> (r: Result<EventEnvelope, StoreError>)
    ensures
        r is Ok <==> row_is_sound(row),
        r matches Ok(event) ==> {
            &&& uuid_value(row.event_id@) == Some(event.event_id)
            &&& uuid_value(row.tenant_id@) == Some(event.tenant_id)
            &&& uuid_value(row.outlet_id@) == Some(event.outlet_id)
            &&& uuid_value(row.device_id@) == Some(event.device_id)
            &&& event.device_seq == row.device_seq
            &&& event.occurred_at == row.occurred_at
            &&& event.kind@ == row.kind@
            &&& event.payload@ == row.payload@
            &&& event.prev_hash@ == row.prev_hash@
            &&& event.hash@ == row.hash@
        },
        r matches Err(error) ==> (error matches StoreError::Corrupt { event_id, .. } && event_id@ == row.event_id@),
{
    let label = row.event_id.as_str();
    let event_id = match stored_id(label, label) {
        Ok(id) => id,
        Err(error) => return Err(error),
    };
    let tenant_id = match stored_id(row.tenant_id.as_str(), label) {
        Ok(id) => id,
        Err(error) => return Err(error),
    };
    let outlet_id = match stored_id(row.outlet_id.as_str(), label) {
        Ok(id) => id,
        Err(error) => return Err(error),
    };
    let device_id = match stored_id(row.device_id.as_str(), label) {
        Ok(id) => id,
        Err(error) => return Err(error),
    };
    let device_seq = match stored_sequence(row.device_seq, label) {
        Ok(value) => value,
        Err(error) => return Err(error),
    };
    match check_json(row.payload.as_str()) {
        Ok(()) => {},
        Err(reason) => return Err(StoreError::Corrupt { event_id: label.to_owned(), reason }),
    }
    let prev_hash = match stored_hash(&row.prev_hash, label) {
        Ok(hash) => hash,
        Err(error) => return Err(error),
    };
    let hash = match stored_hash(&row.hash, label) {
        Ok(hash) => hash,
        Err(error) => return Err(error),
    };
    Ok(EventEnvelope {
        event_id,
        tenant_id,
        outlet_id,
        device_id,
        device_seq,
        occurred_at: row.occurred_at,
        kind: row.kind,
        payload: row.payload,
        prev_hash,
        hash,
    })
}

/// The bound marking events synced up to `through_seq` compares stored sequences with: the
/// sequence itself, or the largest storable one when it does not fit.
pub fn synced_bound(through_seq: u64) -> (r: i64)
    ensures
        r == if through_seq <= i64::MAX { through_seq as i64 } else { i64::MAX },
{
    if through_seq <= i64::MAX as u64 { through_seq as i64 } else { i64::MAX }
}

/// How many events wait to be pushed, from the database's count; a count that cannot be one is
/// none.
pub fn pending_count(count: i64) -> (r: u64)
    ensures
        r == if count >= 0 { count as u64 } else { 0 },
{
    if count >= 0 { count as u64 } else { 0 }
}

} // verus!
