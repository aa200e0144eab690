//! Combinator tasks: `MapTask` applies a function to a task's success value,
//! `AndThenTask` chains a second task built from the first one's value.

use vstd::prelude::*;
use crate::poll::PollResult;
use crate::task::Task;

verus! {

/// Advances an inner task; on `Ready(v)` yields `Ready(f(v))`, and
/// propagates `Pending` and `Failed` unchanged. The function is applied
/// to success values only: failures pass through untouched.
pub struct MapTask<T, F> {
    pub inner: T,
    pub f: F,
}

impl<T: Task, W, F: Fn(T::Item) -> W> MapTask<T, F> {
    /// Wrap `inner` so that its success value will be passed through `f`.
    pub fn new(inner: T, f: F) -> (t: Self)
        requires
            inner.inv(),
            !inner.done(),
            forall|v: T::Item| #[trigger] inner.may_yield(v) ==> call_requires(f, (v,)),
        ensures
            t.inv(),
            !t.done(),
            t.inner == inner,
            t.f == f,
    {
        MapTask { inner, f }
    }
}

impl<T: Task, W, F: Fn(T::Item) -> W> Task for MapTask<T, F> {
    type Item = W;
    type Error = T::Error;

    open spec fn inv(&self) -> bool {
        &&& self.inner.inv()
        &&& (!self.inner.done() ==> forall|v: T::Item|
            #[trigger] self.inner.may_yield(v) ==> call_requires(self.f, (v,)))
    }

    open spec fn done(&self) -> bool {
        self.inner.done()
    }

    open spec fn idle(&self) -> bool {
        self.inner.idle()
    }

    open spec fn may_yield(&self, w: W) -> bool {
        exists|v: T::Item| #[trigger] self.inner.may_yield(v) && call_ensures(self.f, (v,), w)
    }

    open spec fn may_fail(&self, e: T::Error) -> bool {
        self.inner.may_fail(e)
    }

    fn advance(&mut self) -> (r: PollResult<W, T::Error>) {
        match self.inner.advance() {
            PollResult::Pending => {
                proof {
                    assert forall|w: W| self.may_yield(w) implies old(self).may_yield(w) by {
                        let v = choose|v: T::Item|
                            #[trigger] self.inner.may_yield(v) && call_ensures(self.f, (v,), w);
                        assert(old(self).inner.may_yield(v));
                    }
                }
                PollResult::Pending
            },
            PollResult::Ready(v) => {
                let ghost v0 = v;
                let w = (self.f)(v);
                proof {
                    assert(old(self).inner.may_yield(v0) && call_ensures(self.f, (v0,), w));
                }
                PollResult::Ready(w)
            },
            PollResult::Failed(e) => PollResult::Failed(e),
        }
    }
}

/// Law: a mapped task can fail with exactly the failures of its inner
/// task — mapping neither adds, removes nor alters errors.
pub proof fn lemma_map_propagates_failure<T: Task, W, F: Fn(T::Item) -> W>(
    m: MapTask<T, F>,
    e: T::Error,
)
    ensures
        m.may_fail(e) <==> m.inner.may_fail(e),
{
}

/// Advances a first task; on `Ready(v)` builds a second task `f(v)` and
/// switches to advancing that task on subsequent calls, yielding its
/// result. A failure of either task short-circuits the chain unchanged.
pub struct AndThenTask<T1, T2, F> {
    pub first: T1,
    pub f: F,
    pub second: Option<T2>,
}

impl<T1: Task, T2, F> AndThenTask<T1, T2, F> where
    T2: Task<Error = T1::Error>,
    F: Fn(T1::Item) -> T2,
 {
    /// Wrap `first` so that its success value seeds a follow-up task.
    pub fn new(first: T1, f: F) -> (t: Self)
        requires
            first.inv(),
            !first.done(),
            forall|v: T1::Item| #[trigger] first.may_yield(v) ==> call_requires(f, (v,)),
            forall|v: T1::Item, t2: T2|
                first.may_yield(v) && #[trigger] call_ensures(f, (v,), t2) ==> t2.inv()
                    && !t2.done(),
        ensures
            t.inv(),
            !t.done(),
            t.first == first,
            t.f == f,
            t.second is None,
    {
        AndThenTask { first, f, second: None }
    }
}

impl<T1: Task, T2, F> Task for AndThenTask<T1, T2, F> where
    T2: Task<Error = T1::Error>,
    F: Fn(T1::Item) -> T2,
 {
    type Item = T2::Item;
    type Error = T1::Error;

    open spec fn inv(&self) -> bool {
        match self.second {
            None => {
                &&& self.first.inv()
                &&& (!self.first.done() ==> forall|v: T1::Item|
                    #[trigger] self.first.may_yield(v) ==> call_requires(self.f, (v,)))
                &&& (!self.first.done() ==> forall|v: T1::Item, t2: T2|
                    self.first.may_yield(v) && #[trigger] call_ensures(self.f, (v,), t2)
                        ==> t2.inv() && !t2.done())
            },
            Some(t2) => t2.inv(),
        }
    }

    open spec fn done(&self) -> bool {
        match self.second {
            None => self.first.done(),
            Some(t2) => t2.done(),
        }
    }

    open spec fn idle(&self) -> bool {
        match self.second {
            None => self.first.idle(),
            Some(t2) => t2.idle(),
        }
    }

    open spec fn may_yield(&self, w: T2::Item) -> bool {
        match self.second {
            None => exists|v: T1::Item, t2: T2|
                self.first.may_yield(v) && #[trigger] call_ensures(self.f, (v,), t2)
                    && t2.may_yield(w),
            Some(t2) => t2.may_yield(w),
        }
    }

    open spec fn may_fail(&self, e: T1::Error) -> bool {
        match self.second {
            None => self.first.may_fail(e) || exists|v: T1::Item, t2: T2|
                self.first.may_yield(v) && #[trigger] call_ensures(self.f, (v,), t2)
                    && t2.may_fail(e),
            Some(t2) => t2.may_fail(e),
        }
    }

    fn advance(&mut self) -> (r: PollResult<T2::Item, T1::Error>) {
        if self.second.is_some() {
            let mut t2 = self.second.take().unwrap();
            let r = t2.advance();
            self.second = Some(t2);
            r
        } else {
            match self.first.advance() {
                PollResult::Pending => {
                    proof {
                        assert forall|w: T2::Item| self.may_yield(w)
                            implies old(self).may_yield(w) by {
                            let (v, t2) = choose|v: T1::Item, t2: T2|
                                self.first.may_yield(v)
                                    && #[trigger] call_ensures(self.f, (v,), t2)
                                    && t2.may_yield(w);
                            assert(old(self).first.may_yield(v));
                        }
                        assert forall|e: T1::Error| self.may_fail(e)
                            implies old(self).may_fail(e) by {
                            if !self.first.may_fail(e) {
                                let (v, t2) = choose|v: T1::Item, t2: T2|
                                    self.first.may_yield(v)
                                        && #[trigger] call_ensures(self.f, (v,), t2)
                                        && t2.may_fail(e);
                                assert(old(self).first.may_yield(v));
                            }
                        }
                    }
                    PollResult::Pending
                },
                PollResult::Ready(v) => {
                    let ghost v0 = v;
                    let t2 = (self.f)(v);
                    proof {
                        assert(old(self).first.may_yield(v0)
                            && call_ensures(self.f, (v0,), t2));
                    }
                    self.second = Some(t2);
                    PollResult::Pending
                },
                PollResult::Failed(e) => PollResult::Failed(e),
            }
        }
    }
}

} // verus!
