//! Offload: expose blocking work run on a worker thread as a task.
//!
//! The scheduler thread must never run long blocking work itself, so such
//! work is handed to a worker pool and its eventual result is observed
//! through an `OffloadTask`. The task's first `advance` marks the work as
//! submitted and reports `Pending`; the driver that owns the worker pool
//! watches for that transition, runs the work elsewhere, and hands the
//! outcome back through `deliver`. Every later `advance` before delivery
//! is a pure wait — it changes nothing and reports `Pending` again — and
//! the first `advance` after delivery yields the outcome.

use vstd::prelude::*;
use crate::poll::PollResult;
use crate::task::Task;

verus! {

/// Why offloaded work produced no value.
#[derive(Clone, Copy, PartialEq, Eq, Structural, Debug)]
pub enum OffloadError {
    /// The worker pool was saturated and rejected the submission.
    Rejected,
    /// The work panicked on the worker thread; the panic is converted into
    /// a failure instead of crossing the thread boundary.
    WorkPanicked,
}

/// Lifecycle of one piece of offloaded work.
pub enum OffloadPhase<V> {
    /// Not yet advanced: the work has not been handed to the pool.
    Unsubmitted,
    /// Submitted; the worker has not delivered an outcome yet.
    Waiting,
    /// The worker delivered an outcome not yet observed by `advance`.
    Delivered(Result<V, OffloadError>),
    /// The outcome was observed: the task is terminal.
    Finished,
}

/// A task standing for blocking work that runs elsewhere.
pub struct OffloadTask<V> {
    pub phase: OffloadPhase<V>,
}

impl<V> OffloadTask<V> {
    /// A handle for work not yet submitted.
    pub fn new() -> (t: Self)
        ensures
            t.phase is Unsubmitted,
    {
        OffloadTask { phase: OffloadPhase::Unsubmitted }
    }

    /// True while the work still has to be handed to the worker pool; the
    /// driver polls this after each round to learn of a fresh submission.
    pub fn needs_submission(&self) -> (r: bool)
        ensures
            r == (self.phase is Waiting),
    {
        match self.phase {
            OffloadPhase::Waiting => true,
            _ => false,
        }
    }

    /// The driver hands back what became of the work: `Ok(value)` for a
    /// completed computation, `Err(Rejected)` when the pool refused the
    /// submission, `Err(WorkPanicked)` when the work panicked.
    pub fn deliver(&mut self, outcome: Result<V, OffloadError>)
        requires
            old(self).phase is Waiting,
        ensures
            final(self).phase == OffloadPhase::Delivered(outcome),
    {
        self.phase = OffloadPhase::Delivered(outcome);
    }

    /// One attempt to make progress. Submission, waiting and delivery are
    /// each observed exactly: a wait round changes nothing at all.
    pub fn poll_outcome(&mut self) -> (r: PollResult<V, OffloadError>)
        requires
            !(old(self).phase is Finished),
        ensures
            match old(self).phase {
                OffloadPhase::Unsubmitted => r is Pending && final(self).phase is Waiting,
                OffloadPhase::Waiting => r is Pending && *final(self) == *old(self),
                OffloadPhase::Delivered(outcome) => final(self).phase is Finished && match outcome {
                    Ok(v) => r == PollResult::<V, OffloadError>::Ready(v),
                    Err(e) => r == PollResult::<V, OffloadError>::Failed(e),
                },
                OffloadPhase::Finished => false,
            },
    {
        let mut ph = OffloadPhase::Finished;
        core::mem::swap(&mut ph, &mut self.phase);
        match ph {
            OffloadPhase::Unsubmitted => {
                self.phase = OffloadPhase::Waiting;
                PollResult::Pending
            },
            OffloadPhase::Waiting => {
                self.phase = OffloadPhase::Waiting;
                PollResult::Pending
            },
            OffloadPhase::Delivered(outcome) => match outcome {
                Ok(v) => PollResult::Ready(v),
                Err(e) => PollResult::Failed(e),
            },
            OffloadPhase::Finished => {
                proof {
                    assert(false);
                }
                PollResult::Pending
            },
        }
    }
}

impl<V> Task for OffloadTask<V> {
    type Item = V;
    type Error = OffloadError;

    open spec fn inv(&self) -> bool {
        true
    }

    open spec fn done(&self) -> bool {
        self.phase is Finished
    }

    open spec fn idle(&self) -> bool {
        self.phase is Waiting
    }

    open spec fn may_yield(&self, v: V) -> bool {
        match self.phase {
            OffloadPhase::Unsubmitted => true,
            OffloadPhase::Waiting => true,
            OffloadPhase::Delivered(outcome) => outcome == Result::<V, OffloadError>::Ok(v),
            OffloadPhase::Finished => false,
        }
    }

    open spec fn may_fail(&self, e: OffloadError) -> bool {
        match self.phase {
            OffloadPhase::Unsubmitted => true,
            OffloadPhase::Waiting => true,
            OffloadPhase::Delivered(outcome) => outcome == Result::<V, OffloadError>::Err(e),
            OffloadPhase::Finished => false,
        }
    }

    fn advance(&mut self) -> (r: PollResult<V, OffloadError>) {
        self.poll_outcome()
    }
}

} // verus!
