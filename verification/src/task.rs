//! The task and stream contracts: what every steppable computation promises.

use vstd::prelude::*;
use crate::poll::PollResult;

verus! {

/// A steppable unit of possibly-not-yet-complete computation.
///
/// Each call to `advance` does a bounded amount of non-blocking work and
/// reports `Pending`, `Ready(value)` or `Failed(error)`. The contract
/// enforces the core polling discipline:
///
/// * a task may only be advanced while it is not `done`, so once `Ready` or
///   `Failed` has been returned no verified caller can advance it again;
/// * `done` becomes true exactly when a terminal outcome is returned;
/// * `may_yield` / `may_fail` describe the terminal outcomes the task may
///   still produce, and a `Pending` round can only narrow those sets: a
///   task that merely waits makes no spurious change to what it can return,
///   and whatever it finally yields was a permitted outcome at every
///   earlier point of its life;
/// * advancing an `idle` task — one parked on an external source that has
///   produced nothing — returns `Pending` again and changes nothing at
///   all: a wait round is idempotent.
pub trait Task: Sized {
    type Item;
    type Error;

    /// Well-formedness of the task's internal state.
    spec fn inv(&self) -> bool;

    /// True once the task has returned `Ready` or `Failed`.
    spec fn done(&self) -> bool;

    /// True when the task is only waiting: it is parked on an external
    /// source (a wake, a delivery, a freed slot) and nothing has arrived,
    /// so one more `advance` can observe nothing new.
    spec fn idle(&self) -> bool;

    /// Values the task can still yield.
    spec fn may_yield(&self, v: Self::Item) -> bool;

    /// Errors the task can still report.
    spec fn may_fail(&self, e: Self::Error) -> bool;

    /// One attempt to make progress without blocking.
    fn advance(&mut self) -> (r: PollResult<Self::Item, Self::Error>)
        requires
            old(self).inv(),
            !old(self).done(),
        ensures
            final(self).inv(),
            final(self).done() == !(r is Pending),
            (r matches PollResult::Ready(v) ==> old(self).may_yield(v)),
            (r matches PollResult::Failed(e) ==> old(self).may_fail(e)),
            (r is Pending ==> forall|v: Self::Item|
                #[trigger] final(self).may_yield(v) ==> old(self).may_yield(v)),
            (r is Pending ==> forall|e: Self::Error|
                #[trigger] final(self).may_fail(e) ==> old(self).may_fail(e)),
            (old(self).idle() ==> r is Pending && *final(self) == *old(self)),
    ;
}

/// A sequence of items produced step by step.
///
/// `advance_next` reports `Ready(Some(item))` for one produced element,
/// `Ready(None)` for exhaustion, `Pending` when no element is available
/// yet, and `Failed` for a terminal error. The contract records every
/// produced element, in order, in the abstract sequence `emitted`, and
/// enforces the stream discipline:
///
/// * once `None` has been returned the stream is `closed` and every later
///   call returns `None` again — no resurrection;
/// * a `Failed` stream is terminal and may not be advanced again;
/// * any outcome other than `Failed` can only narrow the set of errors the
///   stream may still fail with, so a failure that finally surfaces was
///   possible all along.
pub trait Stream: Sized {
    type Item;
    type Error;

    /// Well-formedness of the stream's internal state.
    spec fn inv(&self) -> bool;

    /// True once the stream has returned `Ready(None)`.
    spec fn closed(&self) -> bool;

    /// True once the stream has returned `Failed`.
    spec fn failed(&self) -> bool;

    /// True when the stream is only waiting: it is parked on an external
    /// source and nothing has arrived, so one more `advance_next` can
    /// observe nothing new.
    spec fn idle(&self) -> bool;

    /// The items produced so far, in production order.
    spec fn emitted(&self) -> Seq<Self::Item>;

    /// The errors this stream may still fail with.
    spec fn may_fail(&self, e: Self::Error) -> bool;

    /// One attempt to produce the next element without blocking.
    fn advance_next(&mut self) -> (r: PollResult<Option<Self::Item>, Self::Error>)
        requires
            old(self).inv(),
            !old(self).failed(),
        ensures
            final(self).inv(),
            match r {
                PollResult::Pending => {
                    &&& final(self).emitted() == old(self).emitted()
                    &&& final(self).closed() == old(self).closed()
                    &&& !final(self).failed()
                },
                PollResult::Ready(item) => match item {
                    Some(v) => {
                        &&& final(self).emitted() == old(self).emitted().push(v)
                        &&& !old(self).closed()
                        &&& !final(self).closed()
                        &&& !final(self).failed()
                    },
                    None => {
                        &&& final(self).emitted() == old(self).emitted()
                        &&& final(self).closed()
                        &&& !final(self).failed()
                    },
                },
                PollResult::Failed(e) => {
                    &&& final(self).emitted() == old(self).emitted()
                    &&& final(self).failed()
                    &&& old(self).may_fail(e)
                },
            },
            (old(self).closed() ==> r matches PollResult::Ready(None)),
            (!(r matches PollResult::Failed(_)) ==> forall|e: Self::Error|
                #[trigger] final(self).may_fail(e) ==> old(self).may_fail(e)),
            (old(self).idle() ==> r is Pending && *final(self) == *old(self)),
    ;
}

} // verus!
