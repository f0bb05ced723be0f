//! The background sync loop's decisions, and the handle the UI reads its status from.
//!
//! The loop itself runs on its own thread in the application; after each round it asks
//! [`after_round`] what to show and what to do next.

use vstd::prelude::*;
use std::sync::Arc;
use std::sync::Mutex;
use std::sync::atomic::AtomicBool;
use crate::backoff::{Backoff, IDLE_NANOS, next_wait, after_failure};
use crate::engine::{SyncClientError, SyncOutcome, client_error_message};
use crate::protocol::SyncRejection;

verus! {

/// `std::sync::Mutex`, so the handle can hold the loop's status behind one.
#[verifier::external_type_specification]
#[verifier::external_body]
#[verifier::reject_recursive_types(T)]
pub struct ExMutex<T: ?Sized>(std::sync::Mutex<T>);

/// `std::sync::Mutex::new`: a fresh lock around `value`. Nothing is stated of what it holds; the
/// library only ever reads it back through `read_status`.
pub assume_specification<T>[ std::sync::Mutex::<T>::new ](value: T) -> std::sync::Mutex<T>;

/// What the UI shows about syncing.
#[derive(Debug, Clone, PartialEq, Eq)]
pub enum SyncStatus {
    /// Everything the till holds is on the server.
    UpToDate { unsynced: u64 },
    /// Trying, and failing. `attempts` drives how loudly the UI complains.
    Retrying { unsynced: u64, attempts: u32 },
    /// Stopped, and will not recover on its own: revoked, forked, or refused. Kept apart from
    /// `Retrying` because the two need opposite responses, "wait" and "call support".
    Stopped { reason: String },
}

/// What the loop does after a round.
#[derive(Debug, Clone, Copy, PartialEq, Eq)]
pub enum LoopAction {
    /// Go again at once: more is waiting.
    Again,
    /// Sleep this many nanoseconds, then go again.
    Sleep(u128),
    /// Stop for good.
    Stop,
}

/// Whether retrying could ever help. A fork or a revocation needs a person; retrying those
/// forever buries the real signal and tells the merchant sync is merely slow.
pub open spec fn terminal_failure(error: SyncClientError) -> bool {
    match error {
        SyncClientError::Refused(rejection) => rejection != SyncRejection::Unavailable,
        SyncClientError::TipMismatch { .. } => true,
        SyncClientError::Store(_) => false,
    }
}

pub fn is_terminal_failure(error: &SyncClientError) -> (r: bool)
    ensures
        r == terminal_failure(*error),
{
    match error {
        SyncClientError::Refused(rejection) => !rejection.is_retryable(),
        SyncClientError::TipMismatch { .. } => true,
        SyncClientError::Store(_) => false,
    }
}

/// Decide what to show and what to do after a round, given how many events are still pending.
///
/// Success resets the backoff and goes again at once if more is waiting, else idles. A failure
/// that retrying cannot cure stops the loop; any other backs off.
pub fn after_round(backoff: &mut Backoff, outcome: &Result<SyncOutcome, SyncClientError>, pending: u64) -> (r: (SyncStatus, LoopAction))
    ensures
        outcome matches Ok(result) ==> {
            &&& final(backoff)@.attempt == 0
            &&& final(backoff)@.seed == old(backoff)@.seed
            &&& r.0 == SyncStatus::UpToDate { unsynced: pending }
            &&& r.1 == if result.more_pending { LoopAction::Again } else { LoopAction::Sleep(IDLE_NANOS) }
        },
        outcome matches Err(error) ==> {
            if terminal_failure(*error) {
                &&& final(backoff)@ == old(backoff)@
                &&& r.0 is Stopped
                &&& r.0->reason@ == client_error_message(*error)
                &&& r.1 == LoopAction::Stop
            } else {
                &&& final(backoff)@ == after_failure(old(backoff)@)
                &&& r.0 == SyncStatus::Retrying { unsynced: pending, attempts: final(backoff)@.attempt }
                &&& r.1 == LoopAction::Sleep(next_wait(old(backoff)@) as u128)
            }
        },
{
    match outcome {
        Ok(result) => {
            backoff.reset();
            let action = if result.more_pending { LoopAction::Again } else { LoopAction::Sleep(IDLE_NANOS) };
            (SyncStatus::UpToDate { unsynced: pending }, action)
        },
        Err(error) => {
            if is_terminal_failure(error) {
                return (SyncStatus::Stopped { reason: error.message() }, LoopAction::Stop);
            }
            let delay = backoff.next_delay();
            (SyncStatus::Retrying { unsynced: pending, attempts: backoff.attempts() }, LoopAction::Sleep(delay))
        },
    }
}

/// A failure retrying cannot cure always stops the loop; any other keeps it trying.
pub proof fn law_only_curable_failures_are_retried(error: SyncClientError)
    ensures
        terminal_failure(error) <==> match error {
            SyncClientError::Refused(rejection) => rejection != SyncRejection::Unavailable,
            SyncClientError::TipMismatch { .. } => true,
            SyncClientError::Store(_) => false,
        },
        error == SyncClientError::Refused(SyncRejection::Unavailable) ==> !terminal_failure(error),
        error == SyncClientError::Refused(SyncRejection::NotAuthorised) ==> terminal_failure(error),
{
}

/// `std::sync::Mutex::lock` on the shared status, cloned out, or `None` when the lock is poisoned.
/// Nothing is stated of what it holds: the loop's thread writes it.
#[verifier::external_body]
fn read_status(status: &Arc<Mutex<SyncStatus>>) -> (r: Option<SyncStatus>) {
    match status.lock() {
        Ok(guard) => Some(guard.clone()),
        Err(_) => None,
    }
}

/// `std::sync::Mutex::lock` on the shared status, to replace it, unless the lock is poisoned.
#[verifier::external_body]
fn write_status(status: &Arc<Mutex<SyncStatus>>, next: SyncStatus) {
    if let Ok(mut guard) = status.lock() {
        *guard = next;
    }
}

/// The status shown when the sync thread can no longer be read.
pub fn panicked_status() -> (r: SyncStatus)
    ensures
        r matches SyncStatus::Stopped { reason } && reason@ == "sync thread panicked"@,
{
    SyncStatus::Stopped { reason: "sync thread panicked".to_owned() }
}

/// Handle on the running loop, shared between the loop and the UI.
#[derive(Debug, Clone)]
pub struct SyncHandle {
    status: Arc<Mutex<SyncStatus>>,
    running: Arc<AtomicBool>,
}

impl SyncHandle {
    /// A handle for a loop about to start: up to date with nothing pending, and running.
    ///
    /// The status and the flag live behind a lock and an atomic that other threads write, so no
    /// contract here states their contents; `status` and `is_running` read them at run time.
    pub fn new() -> (r: Self) {
        SyncHandle {
            status: Arc::new(Mutex::new(SyncStatus::UpToDate { unsynced: 0 })),
            running: Arc::new(AtomicBool::new(true)),
        }
    }

    /// Current status, for the UI badge; stopped if the loop's thread panicked.
    ///
    /// What it returns is whatever the loop last published through `set`, from another thread,
    /// and `set` accepts any status; so no contract states the result.
    pub fn status(&self) -> (r: SyncStatus) {
        match read_status(&self.status) {
            Some(status) => status,
            None => panicked_status(),
        }
    }

    /// Publish the loop's status.
    pub fn set(&self, next: SyncStatus) {
        write_status(&self.status, next);
    }

    /// Ask the loop to finish its current round and stop.
    pub fn stop(&self) {
        self.running.store(false, core::sync::atomic::Ordering::Relaxed);
    }

    /// Whether the loop should keep going: false once any clone of this handle has called `stop`.
    /// That read depends on another thread's write, so no contract states it.
    pub fn is_running(&self) -> (r: bool) {
        self.running.load(core::sync::atomic::Ordering::Relaxed)
    }
}

} // verus!
