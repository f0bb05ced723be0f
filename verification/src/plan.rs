//! Deciding what the server does with a pushed batch.
//!
//! Three cases matter: a gap (refused, since sequences only move forward and a hole accepted now
//! can never be filled), a retry whose response was lost (accepted as a no-op, so a till can always
//! retry safely), and a partial retry (the overlap is checked against the stored tip by hash and
//! skipped; the rest is verified and inserted).
//!
//! Verifying the new events as a chain is the event crate's job. Planning therefore runs in two
//! steps: [`plan_batch`] makes every decision that needs no chain verification and says which
//! suffix remains to be verified, and [`settle_plan`] takes the outcome of that verification.

use vstd::prelude::*;
use crate::protocol::{ChainTip, EventEnvelope, SyncError, same_hash};

verus! {

/// What the server should do with a batch.
#[derive(Debug, Clone, Copy, PartialEq, Eq)]
pub struct BatchPlan {
    /// Leading events already stored: a retry. Checked against the tip, then skipped.
    pub already_stored: usize,
    /// Events to insert, starting at index `already_stored`.
    pub to_insert: usize,
    /// Where the chain will end once they are committed.
    pub resulting_tip: ChainTip,
}

impl BatchPlan {
    /// Nothing new: the whole batch was already accepted.
    pub fn is_noop(&self) -> (r: bool)
        ensures
            r == (self.to_insert == 0),
    {
        self.to_insert == 0
    }
}

/// The first step's verdict when nothing refused the batch.
#[derive(Debug, Clone, Copy, PartialEq, Eq)]
pub enum BatchStep {
    /// Decided without any chain verification: nothing new to insert.
    Planned(BatchPlan),
    /// Events from index `already_stored` on are new and must verify as a chain continuing the
    /// tip before they are accepted.
    VerifyFrom { already_stored: usize },
}

/// The sequence number a batch continuing `tip` starts at, saturating at the top.
pub open spec fn next_seq(tip: ChainTip) -> int {
    if tip.device_seq == u64::MAX { u64::MAX as int } else { tip.device_seq + 1 }
}

/// The index of the first event not issued by `device_id`, if any.
pub open spec fn first_foreign(events: Seq<EventEnvelope>, device_id: u128) -> Option<int>
    decreases events.len(),
{
    if events.len() == 0 {
        None
    } else {
        match first_foreign(events.drop_last(), device_id) {
            Some(i) => Some(i),
            None => if events.last().device_id != device_id {
                Some(events.len() - 1)
            } else {
                None
            },
        }
    }
}

/// How many leading events the server already holds.
pub open spec fn overlap(events: Seq<EventEnvelope>, tip: ChainTip) -> int {
    let ahead = next_seq(tip) - events[0].device_seq;
    let ahead = if ahead < 0 { 0 } else { ahead };
    if ahead < events.len() { ahead } else { events.len() as int }
}

/// The first step, as a function of its inputs.
pub open spec fn spec_plan_batch(events: Seq<EventEnvelope>, tip: ChainTip, device_id: u128) -> Result<BatchStep, SyncError> {
    if events.len() == 0 {
        Ok(BatchStep::Planned(BatchPlan { already_stored: 0, to_insert: 0, resulting_tip: tip }))
    } else if first_foreign(events, device_id) is Some {
        Err(SyncError::WrongDevice {
            expected: device_id,
            found: events[first_foreign(events, device_id)->0].device_id,
        })
    } else if events[0].device_seq > next_seq(tip) {
        Err(SyncError::Gap { tip: tip.device_seq, batch_starts_at: events[0].device_seq })
    } else {
        let k = overlap(events, tip);
        if k == events.len() {
            Ok(BatchStep::Planned(BatchPlan { already_stored: k as usize, to_insert: 0, resulting_tip: tip }))
        } else if k > 0 && events[k - 1].hash@ != tip.hash@ {
            Err(SyncError::Forked {
                device_seq: events[k - 1].device_seq,
                server_hash: tip.hash,
                device_hash: events[k - 1].hash,
            })
        } else {
            Ok(BatchStep::VerifyFrom { already_stored: k as usize })
        }
    }
}

/// The second step, as a function of its inputs.
pub open spec fn spec_settle_plan(len: int, already_stored: int, verified: Result<ChainTip, String>) -> Result<BatchPlan, SyncError> {
    match verified {
        Ok(resulting_tip) => Ok(BatchPlan {
            already_stored: already_stored as usize,
            to_insert: (len - already_stored) as usize,
            resulting_tip,
        }),
        Err(reason) => Err(SyncError::Chain(reason)),
    }
}

/// The whole decision for a batch, given what verifying its new suffix onto the tip reports.
pub open spec fn spec_plan(events: Seq<EventEnvelope>, tip: ChainTip, device_id: u128, verified: Result<ChainTip, String>) -> Result<BatchPlan, SyncError> {
    match spec_plan_batch(events, tip, device_id) {
        Ok(BatchStep::Planned(plan)) => Ok(plan),
        Ok(BatchStep::VerifyFrom { already_stored }) => spec_settle_plan(events.len() as int, already_stored as int, verified),
        Err(error) => Err(error),
    }
}

proof fn lemma_first_foreign(events: Seq<EventEnvelope>, device_id: u128)
    ensures
        first_foreign(events, device_id) is None <==> (forall|j: int| 0 <= j < events.len() ==> events[j].device_id == device_id),
        first_foreign(events, device_id) matches Some(i) ==> {
            &&& 0 <= i < events.len()
            &&& events[i].device_id != device_id
            &&& forall|j: int| 0 <= j < i ==> events[j].device_id == device_id
        },
    decreases events.len(),
{
    if events.len() > 0 {
        lemma_first_foreign(events.drop_last(), device_id);
        assert forall|j: int| 0 <= j < events.len() - 1 implies events.drop_last()[j] == events[j] by {}
        if first_foreign(events, device_id) is None {
            assert forall|j: int| 0 <= j < events.len() implies events[j].device_id == device_id by {
                if j < events.len() - 1 {
                    assert(events.drop_last()[j] == events[j]);
                }
            }
        }
    }
}

/// Decide how to apply `events` to a device whose chain ends at `tip`, as far as that can be
/// decided without verifying the new events as a chain.
pub fn plan_batch(events: &[EventEnvelope], tip: ChainTip, device_id: u128) -> (r: Result<BatchStep, SyncError>)
    ensures
        r == spec_plan_batch(events@, tip, device_id),
{
    if events.len() == 0 {
        return Ok(BatchStep::Planned(BatchPlan { already_stored: 0, to_insert: 0, resulting_tip: tip }));
    }
    proof {
        lemma_first_foreign(events@, device_id);
    }
    let mut i: usize = 0;
    while i < events.len()
        invariant
            0 <= i <= events@.len(),
            forall|j: int| 0 <= j < i ==> events@[j].device_id == device_id,
        decreases events@.len() - i,
    {
        if events[i].device_id != device_id {
            proof {
                lemma_first_foreign(events@, device_id);
                let f = first_foreign(events@, device_id)->0;
                assert(f == i as int);
            }
            return Err(SyncError::WrongDevice { expected: device_id, found: events[i].device_id });
        }
        i += 1;
    }
    let first = &events[0];
    let next = tip.device_seq.saturating_add(1);
    if first.device_seq > next {
        return Err(SyncError::Gap { tip: tip.device_seq, batch_starts_at: first.device_seq });
    }
    let ahead = next - first.device_seq;
    let already_stored: usize = if (ahead as u128) < (events.len() as u128) { ahead as usize } else { events.len() };
    if already_stored == events.len() {
        return Ok(BatchStep::Planned(BatchPlan { already_stored, to_insert: 0, resulting_tip: tip }));
    }
    if already_stored > 0 {
        let boundary = &events[already_stored - 1];
        if !same_hash(&boundary.hash, &tip.hash) {
            return Err(SyncError::Forked {
                device_seq: boundary.device_seq,
                server_hash: tip.hash,
                device_hash: boundary.hash,
            });
        }
    }
    Ok(BatchStep::VerifyFrom { already_stored })
}

/// Conclude a plan once the new suffix `events[already_stored..]` has been verified as a chain
/// continuing the tip; `verified` is what that verification reported.
pub fn settle_plan(events: &[EventEnvelope], already_stored: usize, verified: Result<ChainTip, String>) -> (r: Result<BatchPlan, SyncError>)
    requires
        already_stored <= events@.len(),
    ensures
        r == spec_settle_plan(events@.len() as int, already_stored as int, verified),
{
    match verified {
        Ok(resulting_tip) => Ok(BatchPlan {
            already_stored,
            to_insert: events.len() - already_stored,
            resulting_tip,
        }),
        Err(reason) => Err(SyncError::Chain(reason)),
    }
}


/// Every event of an accepted batch is either skipped as already stored or inserted, never both
/// and never neither.
pub proof fn law_every_event_is_accounted_for(events: Seq<EventEnvelope>, tip: ChainTip, device_id: u128, verified: Result<ChainTip, String>)
    requires
        events.len() <= usize::MAX,
    ensures
        spec_plan(events, tip, device_id, verified) matches Ok(plan)
            ==> plan.already_stored + plan.to_insert == events.len(),
{
}

/// Nothing new to insert means the chain does not move.
pub proof fn law_a_noop_keeps_the_tip(events: Seq<EventEnvelope>, tip: ChainTip, device_id: u128, verified: Result<ChainTip, String>)
    requires
        events.len() <= usize::MAX,
    ensures
        spec_plan(events, tip, device_id, verified) matches Ok(plan)
            ==> (plan.to_insert == 0 ==> plan.resulting_tip == tip),
{
}

/// Resending a batch the server already holds in full is a no-op, not an error, whatever the
/// events' hashes say: a till must always be able to retry after a lost response.
pub proof fn law_a_full_retry_is_a_noop(events: Seq<EventEnvelope>, tip: ChainTip, device_id: u128, verified: Result<ChainTip, String>)
    requires
        events.len() > 0,
        forall|j: int| 0 <= j < events.len() ==> events[j].device_id == device_id,
        events[0].device_seq <= next_seq(tip),
        next_seq(tip) - events[0].device_seq >= events.len(),
    ensures
        spec_plan(events, tip, device_id, verified)
            == Ok::<BatchPlan, SyncError>(BatchPlan { already_stored: events.len() as usize, to_insert: 0, resulting_tip: tip }),
{
    lemma_first_foreign(events, device_id);
}

/// A batch the server accepted is a no-op when it is sent again: the response to a push can be
/// lost, and the till must always be able to resend. This holds of a contiguous batch from one
/// device, when verifying its new events reports the chain ending at its last event.
pub proof fn law_an_accepted_batch_is_a_noop_when_resent(
    events: Seq<EventEnvelope>,
    tip: ChainTip,
    device_id: u128,
    verified: Result<ChainTip, String>,
    again: Result<ChainTip, String>,
)
    requires
        events.len() > 0,
        events.len() <= usize::MAX,
        forall|j: int| 0 <= j < events.len() ==> events[j].device_id == device_id,
        forall|j: int| 0 <= j < events.len() ==> #[trigger] events[j].device_seq == events[0].device_seq + j,
        events.last().device_seq < u64::MAX,
        verified matches Ok(reached) ==> reached.device_seq == events.last().device_seq,
        spec_plan(events, tip, device_id, verified) is Ok,
    ensures
        spec_plan(events, spec_plan(events, tip, device_id, verified)->Ok_0.resulting_tip, device_id, again)
            == Ok::<BatchPlan, SyncError>(BatchPlan {
                already_stored: events.len() as usize,
                to_insert: 0,
                resulting_tip: spec_plan(events, tip, device_id, verified)->Ok_0.resulting_tip,
            }),
{
    lemma_first_foreign(events, device_id);
    let last = events.len() - 1;
    assert(events[last].device_seq == events[0].device_seq + last);
    let plan = spec_plan(events, tip, device_id, verified)->Ok_0;
    if plan.to_insert > 0 {
        assert(plan.resulting_tip.device_seq == events.last().device_seq);
    } else {
        assert(overlap(events, tip) == events.len());
        assert(plan.resulting_tip == tip);
    }
}

/// A batch that starts beyond the tip is refused as a gap: a hole accepted now could never be
/// filled, since sequences only move forward.
pub proof fn law_a_gap_is_refused(events: Seq<EventEnvelope>, tip: ChainTip, device_id: u128, verified: Result<ChainTip, String>)
    requires
        events.len() > 0,
        forall|j: int| 0 <= j < events.len() ==> events[j].device_id == device_id,
        events[0].device_seq > next_seq(tip),
    ensures
        spec_plan(events, tip, device_id, verified)
            == Err::<BatchPlan, SyncError>(SyncError::Gap { tip: tip.device_seq, batch_starts_at: events[0].device_seq }),
{
    lemma_first_foreign(events, device_id);
}

/// A batch containing another device's event is refused, whatever else it holds.
pub proof fn law_another_devices_event_is_refused(events: Seq<EventEnvelope>, tip: ChainTip, device_id: u128, verified: Result<ChainTip, String>, i: int)
    requires
        0 <= i < events.len(),
        events[i].device_id != device_id,
    ensures
        spec_plan(events, tip, device_id, verified) matches Err(SyncError::WrongDevice { expected, found })
            && expected == device_id && found != device_id,
{
    lemma_first_foreign(events, device_id);
}

/// Replaying a different history over the same sequence numbers is a fork, not a retry: the last
/// overlapping event must hash to the stored tip.
pub proof fn law_a_fork_is_refused(events: Seq<EventEnvelope>, tip: ChainTip, device_id: u128, verified: Result<ChainTip, String>)
    requires
        forall|j: int| 0 <= j < events.len() ==> events[j].device_id == device_id,
        events.len() > 0,
        events[0].device_seq <= next_seq(tip),
        0 < overlap(events, tip) < events.len(),
        events[overlap(events, tip) - 1].hash@ != tip.hash@,
    ensures
        spec_plan(events, tip, device_id, verified) is Err,
        spec_plan(events, tip, device_id, verified) matches Err(SyncError::Forked { .. }),
{
    lemma_first_foreign(events, device_id);
}

/// A batch starting exactly one past the tip is entirely new, and is accepted exactly when its
/// events verify as a chain continuing the tip.
pub proof fn law_a_batch_at_the_tip_boundary_is_all_new(events: Seq<EventEnvelope>, tip: ChainTip, device_id: u128, verified: Result<ChainTip, String>)
    requires
        events.len() > 0,
        forall|j: int| 0 <= j < events.len() ==> events[j].device_id == device_id,
        tip.device_seq < u64::MAX,
        events[0].device_seq == tip.device_seq + 1,
    ensures
        verified matches Ok(resulting_tip) ==> spec_plan(events, tip, device_id, verified)
            == Ok::<BatchPlan, SyncError>(BatchPlan { already_stored: 0, to_insert: events.len() as usize, resulting_tip }),
        verified matches Err(reason) ==> spec_plan(events, tip, device_id, verified)
            == Err::<BatchPlan, SyncError>(SyncError::Chain(reason)),
{
    lemma_first_foreign(events, device_id);
}

} // verus!
