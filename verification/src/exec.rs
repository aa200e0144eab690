//! The executor: a ready queue of spawned root tasks driven round-robin.

use std::collections::VecDeque;
use vstd::prelude::*;
use crate::poll::PollResult;
use crate::task::Task;

verus! {

/// Owns the root tasks handed over by `spawn` and advances each of them in
/// turn. A task that reports `Pending` is re-queued; one that completes is
/// dropped — its result is observable only if some other task or caller
/// captured it, the executor itself reports no terminal values. The run
/// ends when no queued task can make progress any more.
pub struct Executor<T> {
    pub queue: VecDeque<T>,
}

impl<T: Task> Executor<T> {
    /// Every queued task is well-formed and still running.
    pub open spec fn inv(&self) -> bool {
        forall|i: int| 0 <= i < self.queue@.len()
            ==> (#[trigger] self.queue@[i]).inv() && !self.queue@[i].done()
    }

    /// An executor with an empty ready queue.
    pub fn new() -> (ex: Self)
        ensures
            ex.inv(),
            ex.queue@.len() == 0,
    {
        Executor { queue: VecDeque::new() }
    }

    /// Hand ownership of a root task to the executor; fire-and-forget.
    pub fn spawn(&mut self, t: T)
        requires
            old(self).inv(),
            t.inv(),
            !t.done(),
        ensures
            final(self).inv(),
            final(self).queue@ == old(self).queue@.push(t),
    {
        self.queue.push_back(t);
    }

    /// How many root tasks are still queued.
    pub fn task_count(&self) -> (n: usize)
        ensures
            n == self.queue@.len(),
    {
        self.queue.len()
    }

    /// One scheduling round: advances every currently queued task once.
    /// Tasks that report `Pending` are parked at the back of the queue;
    /// completed and failed tasks are dropped. Returns how many tasks
    /// reached a terminal outcome this round.
    pub fn run_round(&mut self) -> (completed: usize)
        requires
            old(self).inv(),
        ensures
            final(self).inv(),
            completed <= old(self).queue@.len(),
            final(self).queue@.len() == old(self).queue@.len() - completed,
    {
        let total = self.queue.len();
        let mut i: usize = 0;
        let mut completed: usize = 0;
        while i < total
            invariant
                self.inv(),
                i <= total,
                completed <= i,
                self.queue@.len() == total - completed,
            decreases total - i,
        {
            let front = self.queue.pop_front();
            match front {
                Some(mut t) => {
                    let r = t.advance();
                    if r.is_pending() {
                        self.queue.push_back(t);
                    } else {
                        completed = completed + 1;
                    }
                },
                None => {
                    proof {
                        assert(false);
                    }
                },
            }
            i = i + 1;
        }
        completed
    }

    /// Drive the queue round-robin until every task has completed or a
    /// whole round passes in which every remaining task merely waits, at
    /// which point progress can only come from an external wake. Returns
    /// how many tasks reached a terminal outcome.
    pub fn run_until_stalled(&mut self) -> (completed: usize)
        requires
            old(self).inv(),
        ensures
            final(self).inv(),
            completed <= old(self).queue@.len(),
            final(self).queue@.len() == old(self).queue@.len() - completed,
    {
        let orig: usize = self.queue.len();
        let mut completed: usize = 0;
        loop
            invariant
                self.inv(),
                orig == old(self).queue@.len(),
                completed <= orig,
                self.queue@.len() == orig - completed,
            decreases self.queue@.len(),
        {
            let c = self.run_round();
            completed = completed + c;
            if c == 0 {
                return completed;
            }
        }
    }
}

} // verus!
