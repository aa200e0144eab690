//! `TakeTask`: collect up to `n` items of a stream into a task.

use vstd::prelude::*;
use crate::poll::PollResult;
use crate::task::Stream;
use crate::task::Task;

verus! {

/// A task that repeatedly advances a stream and accumulates its items,
/// completing with the ordered sequence collected so far as soon as `want`
/// items have been gathered or the stream is exhausted — early exhaustion
/// is not an error, it yields the shorter sequence. A stream failure
/// short-circuits with no partial result.
pub struct TakeTask<S: Stream> {
    pub source: S,
    pub want: usize,
    pub got: Vec<S::Item>,
    pub base: Ghost<Seq<S::Item>>,
    pub finished: bool,
}

impl<S: Stream> TakeTask<S> {
    /// Start collecting the next `want` items of `source`.
    pub fn new(source: S, want: usize) -> (t: Self)
        requires
            source.inv(),
            !source.failed(),
            !source.closed(),
        ensures
            t.inv(),
            !t.done(),
            t.source == source,
            t.want == want,
            t.got@ == Seq::<S::Item>::empty(),
            t.base@ == source.emitted(),
    {
        let ghost base = source.emitted();
        TakeTask { source, want, got: Vec::new(), base: Ghost(base), finished: false }
    }

    /// One attempt to make progress: advances the source until it has a
    /// full collection, the source is exhausted, or the source cannot
    /// produce the next item without blocking.
    ///
    /// On `Ready(out)`, `out` is exactly what the source emitted past the
    /// starting point, in production order; it is the full `want` items
    /// unless the source closed early, in which case it is everything the
    /// source produced before closing.
    pub fn poll_take(&mut self) -> (r: PollResult<Vec<S::Item>, S::Error>)
        requires
            old(self).inv(),
            !old(self).done(),
        ensures
            final(self).inv(),
            final(self).done() == !(r is Pending),
            final(self).want == old(self).want,
            final(self).base == old(self).base,
            (old(self).got@.len() >= old(self).want ==> r matches PollResult::Ready(_)),
            ((old(self).got@.len() < old(self).want && old(self).source.idle())
                ==> r is Pending && *final(self) == *old(self)),
            match r {
                PollResult::Pending => {
                    &&& final(self).got@.len() < final(self).want
                    &&& old(self).got@.is_prefix_of(final(self).got@)
                    &&& !final(self).source.closed()
                    &&& (forall|e: S::Error| #[trigger] final(self).source.may_fail(e)
                        ==> old(self).source.may_fail(e))
                },
                PollResult::Ready(out) => {
                    &&& out@ == final(self).source.emitted().skip(old(self).base@.len() as int)
                    &&& old(self).got@.is_prefix_of(out@)
                    &&& out@.len() <= old(self).want
                    &&& (out@.len() == old(self).want || final(self).source.closed())
                },
                PollResult::Failed(e) => old(self).source.may_fail(e),
            },
    {
        loop
            invariant
                !self.finished,
                self.inv(),
                self.want == old(self).want,
                self.base == old(self).base,
                old(self).got@.is_prefix_of(self.got@),
                forall|e: S::Error| #[trigger] self.source.may_fail(e)
                    ==> old(self).source.may_fail(e),
                ((old(self).got@.len() < old(self).want && old(self).source.idle())
                    ==> *self == *old(self)),
            decreases self.want - self.got.len(),
        {
            if self.got.len() >= self.want {
                self.finished = true;
                let mut out: Vec<S::Item> = Vec::new();
                core::mem::swap(&mut out, &mut self.got);
                proof {
                    assert(out@ =~= self.source.emitted().skip(self.base@.len() as int));
                }
                return PollResult::Ready(out);
            }
            match self.source.advance_next() {
                PollResult::Pending => {
                    return PollResult::Pending;
                },
                PollResult::Ready(item) => match item {
                    Some(v) => {
                        self.got.push(v);
                        proof {
                            assert(self.source.emitted() =~= self.base@ + self.got@);
                        }
                    },
                    None => {
                        self.finished = true;
                        let mut out: Vec<S::Item> = Vec::new();
                        core::mem::swap(&mut out, &mut self.got);
                        proof {
                            assert(out@ =~= self.source.emitted().skip(
                                self.base@.len() as int));
                        }
                        return PollResult::Ready(out);
                    },
                },
                PollResult::Failed(e) => {
                    self.finished = true;
                    return PollResult::Failed(e);
                },
            }
        }
    }
}

impl<S: Stream> Task for TakeTask<S> {
    type Item = Vec<S::Item>;
    type Error = S::Error;

    /// Well-formedness: while running, `got` holds exactly what the source
    /// has emitted past the recorded starting point, and never more than
    /// `want` items.
    open spec fn inv(&self) -> bool {
        self.finished || {
            &&& self.source.inv()
            &&& !self.source.failed()
            &&& !self.source.closed()
            &&& self.source.emitted() == self.base@ + self.got@
            &&& self.got@.len() <= self.want
        }
    }

    open spec fn done(&self) -> bool {
        self.finished
    }

    open spec fn idle(&self) -> bool {
        self.got@.len() < self.want && self.source.idle()
    }

    open spec fn may_yield(&self, out: Vec<S::Item>) -> bool {
        self.got@.is_prefix_of(out@) && out@.len() <= self.want
    }

    open spec fn may_fail(&self, e: S::Error) -> bool {
        self.source.may_fail(e)
    }

    fn advance(&mut self) -> (r: PollResult<Vec<S::Item>, S::Error>) {
        let r = self.poll_take();
        proof {
            match &r {
                PollResult::Ready(out) => {
                    assert(old(self).got@.is_prefix_of(out@));
                },
                _ => {},
            }
        }
        r
    }
}

} // verus!
