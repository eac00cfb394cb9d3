//! The per-connection worker: a duration-bounded closed loop.
//!
//! A worker owns one request executor and runs `Idle -> Running -> Stopped`
//! with no retries and no pause. While running it repeatedly checks the
//! elapsed wall-clock time against its duration budget: under budget it
//! issues exactly one more request and records the outcome; at or over
//! budget it stops. A request already in flight when the budget is crossed
//! runs to completion, so the decision is taken between attempts only. The
//! caller drives the loop, supplying the elapsed time and performing the
//! blocking call; every decision in between is taken here.

use vstd::prelude::*;

use crate::http::StatusCodeCategory;
use crate::storage::Storage;

verus! {

/// The worker lifecycle: created `Idle`, runs its loop in `Running`, and
/// ends in `Stopped` once its duration budget is exhausted.
#[derive(Clone, Copy, Debug, PartialEq, Eq, Structural)]
pub enum WorkerState {
    Idle,
    Running,
    Stopped,
}

/// One worker's control state: its lifecycle position and its duration
/// budget in milliseconds.
pub struct Worker {
    pub state: WorkerState,
    pub duration_ms: u64,
}

impl Worker {
    /// A fresh worker with the given duration budget, not yet running.
    pub fn new(duration_ms: u64) -> (w: Worker)
        ensures
            w.state == WorkerState::Idle,
            w.duration_ms == duration_ms,
    {
        Worker { state: WorkerState::Idle, duration_ms }
    }

    /// Enter the running loop.
    pub fn start(&mut self)
        requires
            old(self).state == WorkerState::Idle,
        ensures
            final(self).state == WorkerState::Running,
            final(self).duration_ms == old(self).duration_ms,
    {
        self.state = WorkerState::Running;
    }

    /// The one stopping decision of a running worker, taken before every
    /// attempt: issue one more request exactly when the elapsed time is
    /// still under the duration budget, and otherwise stop for good. Once
    /// the budget is reached no further request is ever issued.
    pub fn step(&mut self, elapsed_ms: u64) -> (issue: bool)
        requires
            old(self).state == WorkerState::Running,
        ensures
            issue == (elapsed_ms < old(self).duration_ms),
            issue ==> *final(self) == *old(self),
            !issue ==> final(self).state == WorkerState::Stopped,
            final(self).duration_ms == old(self).duration_ms,
    {
        if elapsed_ms < self.duration_ms {
            true
        } else {
            self.state = WorkerState::Stopped;
            false
        }
    }

    /// Record the outcome of one finished attempt: the attempt's category
    /// is derived from the status code it produced (`Failed` when the
    /// transport produced none), and exactly one sample with the attempt's
    /// elapsed time lands in exactly that bucket.
    pub fn record_attempt(&self, storage: &mut Storage, status: Option<u16>, elapsed_ms: u64)
        requires
            self.state == WorkerState::Running,
        ensures
            final(storage).spec_bucket(StatusCodeCategory::spec_from_outcome(status))
                == old(storage).spec_bucket(StatusCodeCategory::spec_from_outcome(status)).push(
                elapsed_ms,
            ),
            forall|c: StatusCodeCategory|
                c != StatusCodeCategory::spec_from_outcome(status)
                    ==> #[trigger] final(storage).spec_bucket(c) == old(storage).spec_bucket(c),
            final(storage).spec_total_count() == old(storage).spec_total_count() + 1,
    {
        let category = StatusCodeCategory::from_outcome(status);
        storage.add_response_time(category, elapsed_ms);
    }
}

} // verus!
