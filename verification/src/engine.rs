//! One sync round on the till: push what is outstanding, then pull what is new.
//!
//! Push first: a shop's own sales exist nowhere else, while a sibling's are already safe on the
//! server. The store and the transport are the application's; these are the decisions between
//! their calls.

use vstd::prelude::*;
use crate::codec::{decimal_chars, u64_string};
use crate::protocol::{EventEnvelope, MAX_BATCH, PushResponse, SyncRejection};

verus! {

/// Why a round failed.
#[derive(Debug, Clone, PartialEq, Eq)]
pub enum SyncClientError {
    /// The local store failed; the text is its message.
    Store(String),
    Refused(SyncRejection),
    /// The server's tip is behind what was just pushed: after a successful push, that means the
    /// local log was truncated, which no hash check alone can detect.
    TipMismatch { ours: u64, theirs: u64 },
}

/// The name a rejection is reported by.
pub open spec fn rejection_name(rejection: SyncRejection) -> Seq<char> {
    match rejection {
        SyncRejection::NotAuthorised => "NotAuthorised"@,
        SyncRejection::Invalid => "Invalid"@,
        SyncRejection::Forked => "Forked"@,
        SyncRejection::Gap => "Gap"@,
        SyncRejection::Unavailable => "Unavailable"@,
    }
}

/// Why a round failed, as a sentence for the status badge.
pub open spec fn client_error_message(error: SyncClientError) -> Seq<char> {
    match error {
        SyncClientError::Store(message) => "storage error: "@ + message@,
        SyncClientError::Refused(rejection) => "server refused the batch: "@ + rejection_name(rejection),
        SyncClientError::TipMismatch { ours, theirs } =>
            "local log disagrees with the server: ours ends at "@ + decimal_chars(ours as int) + ", server says "@
                + decimal_chars(theirs as int),
    }
}

impl SyncClientError {
    /// The failure as a sentence.
    pub fn message(&self) -> (r: String)
        ensures
            r@ == client_error_message(*self),
    {
        match self {
            SyncClientError::Store(message) => {
                let mut text = "storage error: ".to_owned();
                text.append(message.as_str());
                text
            },
            SyncClientError::Refused(rejection) => {
                let mut text = "server refused the batch: ".to_owned();
                let name = match rejection {
                    SyncRejection::NotAuthorised => "NotAuthorised",
                    SyncRejection::Invalid => "Invalid",
                    SyncRejection::Forked => "Forked",
                    SyncRejection::Gap => "Gap",
                    SyncRejection::Unavailable => "Unavailable",
                };
                text.append(name);
                text
            },
            SyncClientError::TipMismatch { ours, theirs } => {
                let mut text = "local log disagrees with the server: ours ends at ".to_owned();
                let ours_text = u64_string(*ours);
                text.append(ours_text.as_str());
                text.append(", server says ");
                let theirs_text = u64_string(*theirs);
                text.append(theirs_text.as_str());
                text
            },
        }
    }
}

/// What one sync round did.
#[derive(Debug, Clone, Copy, PartialEq, Eq, Default)]
pub struct SyncOutcome {
    pub pushed: usize,
    pub skipped: usize,
    pub pulled: usize,
    /// More is waiting: run again now rather than on the timer.
    pub more_pending: bool,
}

/// Events requested per pull.
pub const PULL_PAGE: usize = 200;

/// How many of the pending events one round pushes: one bounded batch, oldest first.
pub fn push_batch_len(pending: usize) -> (r: usize)
    ensures
        r == if pending < MAX_BATCH { pending } else { MAX_BATCH },
{
    if pending < MAX_BATCH { pending } else { MAX_BATCH }
}

/// What a push acknowledged: the sequence to mark synced through, and the round's outcome so far.
pub open spec fn push_verdict(sent_through: u64, response: PushResponse, pending: int, batch: int) -> Result<(u64, SyncOutcome), SyncClientError> {
    if response.tip.device_seq < sent_through {
        Err(SyncClientError::TipMismatch { ours: sent_through, theirs: response.tip.device_seq })
    } else {
        Ok((response.tip.device_seq, SyncOutcome {
            pushed: response.accepted,
            skipped: response.skipped,
            pulled: 0,
            more_pending: pending > batch,
        }))
    }
}

/// The sequence a sent batch reaches: its last event's, or our tip's when nothing was sent.
pub open spec fn sent_through(batch: Seq<EventEnvelope>, our_tip: u64) -> u64 {
    if batch.len() == 0 { our_tip } else { batch.last().device_seq }
}

/// Check the server's acknowledgement of a pushed batch.
///
/// Only what the server confirmed is marked synced: marking optimistically would drop events if
/// the server's transaction rolled back after replying.
pub fn review_push(batch: &[EventEnvelope], our_tip: u64, response: &PushResponse, pending: usize) -> (r: Result<(u64, SyncOutcome), SyncClientError>)
    ensures
        r == push_verdict(sent_through(batch@, our_tip), *response, pending as int, batch@.len() as int),
        r is Err <==> response.tip.device_seq < sent_through(batch@, our_tip),
        r matches Ok((through, outcome)) ==> {
            &&& through == response.tip.device_seq
            &&& outcome.pushed == response.accepted
            &&& outcome.skipped == response.skipped
            &&& outcome.pulled == 0
            &&& (outcome.more_pending <==> pending > batch@.len())
        },
{
    let through = if batch.len() == 0 { our_tip } else { batch[batch.len() - 1].device_seq };
    if response.tip.device_seq < through {
        return Err(SyncClientError::TipMismatch { ours: through, theirs: response.tip.device_seq });
    }
    Ok((response.tip.device_seq, SyncOutcome {
        pushed: response.accepted,
        skipped: response.skipped,
        pulled: 0,
        more_pending: pending > batch.len(),
    }))
}

/// The round's outcome once the pull has applied `pulled` events and reported `has_more`.
pub fn finish_round(pushed: SyncOutcome, pulled: usize, has_more: bool) -> (r: SyncOutcome)
    ensures
        r == (SyncOutcome { pulled, more_pending: pushed.more_pending || has_more, ..pushed }),
{
    SyncOutcome { pulled, more_pending: pushed.more_pending || has_more, ..pushed }
}

/// An acknowledged push marks synced exactly what the server's tip covers, reports the server's
/// own counts, and says more is waiting exactly when fewer events were sent than were pending, so
/// a round that sent one full batch of a longer backlog goes again at once.
pub proof fn law_an_acknowledged_push_reports_what_is_left(sent: u64, response: PushResponse, pending: int, batch: int)
    ensures
        push_verdict(sent, response, pending, batch) is Ok <==> response.tip.device_seq >= sent,
        push_verdict(sent, response, pending, batch) matches Ok((through, outcome)) ==> {
            &&& through == response.tip.device_seq
            &&& outcome.pushed == response.accepted
            &&& outcome.skipped == response.skipped
            &&& outcome.pulled == 0
            &&& (outcome.more_pending <==> pending > batch)
        },
        push_verdict(sent, response, pending, batch) matches Err(error)
            ==> error == (SyncClientError::TipMismatch { ours: sent, theirs: response.tip.device_seq }),
{
}

/// A server tip behind what was sent is always refused, however the rest of the reply reads.
pub proof fn law_a_server_tip_behind_ours_is_a_hard_error(batch: Seq<EventEnvelope>, our_tip: u64, response: PushResponse, pending: int)
    requires
        response.tip.device_seq < sent_through(batch, our_tip),
    ensures
        push_verdict(sent_through(batch, our_tip), response, pending, batch.len() as int) matches Err(SyncClientError::TipMismatch { .. }),
{
}

/// Nothing is marked synced beyond what the server confirmed holding.
pub proof fn law_only_confirmed_events_are_acked(batch: Seq<EventEnvelope>, our_tip: u64, response: PushResponse, pending: int)
    ensures
        push_verdict(sent_through(batch, our_tip), response, pending, batch.len() as int) matches Ok((through, _))
            ==> through == response.tip.device_seq && through >= sent_through(batch, our_tip),
{
}

} // verus!
