//! `ZipStream`: pair two streams element by element.

use vstd::prelude::*;
use crate::poll::PollResult;
use crate::task::Stream;

verus! {

/// A stream that advances two child streams and yields a pair exactly when
/// both have a value available in the same round. If only one side is
/// ready, its value is cached and the round reports `Pending`; the cached
/// side is not re-polled until the other side catches up, so no value is
/// consumed twice or dropped. The zip ends as soon as either side ends,
/// and a failure of either side short-circuits it unchanged.
pub struct ZipStream<S1: Stream, S2: Stream<Error = S1::Error>> {
    pub left: S1,
    pub right: S2,
    pub lcache: Option<S1::Item>,
    pub rcache: Option<S2::Item>,
    pub pairs: Ghost<Seq<(S1::Item, S2::Item)>>,
    pub lbase: Ghost<Seq<S1::Item>>,
    pub rbase: Ghost<Seq<S2::Item>>,
    pub ended: bool,
    pub broken: bool,
}

impl<S1: Stream, S2: Stream<Error = S1::Error>> ZipStream<S1, S2> {
    /// The left-stream items this zip has consumed: one per pair yielded,
    /// plus a possibly cached value not yet paired.
    pub open spec fn left_taken(&self) -> Seq<S1::Item> {
        let firsts = Seq::new(self.pairs@.len(), |i: int| self.pairs@[i].0);
        match self.lcache {
            Some(x) => firsts.push(x),
            None => firsts,
        }
    }

    /// The right-stream items this zip has consumed, correspondingly.
    pub open spec fn right_taken(&self) -> Seq<S2::Item> {
        let seconds = Seq::new(self.pairs@.len(), |i: int| self.pairs@[i].1);
        match self.rcache {
            Some(y) => seconds.push(y),
            None => seconds,
        }
    }

    /// Start pairing the elements the two streams produce from here on.
    pub fn new(left: S1, right: S2) -> (z: Self)
        requires
            left.inv(),
            !left.failed(),
            !left.closed(),
            right.inv(),
            !right.failed(),
            !right.closed(),
        ensures
            z.inv(),
            !z.closed(),
            !z.failed(),
            z.emitted() == Seq::<(S1::Item, S2::Item)>::empty(),
            z.left == left,
            z.right == right,
            z.lbase@ == left.emitted(),
            z.rbase@ == right.emitted(),
    {
        let ghost lbase = left.emitted();
        let ghost rbase = right.emitted();
        let z = ZipStream {
            left,
            right,
            lcache: None,
            rcache: None,
            pairs: Ghost(Seq::empty()),
            lbase: Ghost(lbase),
            rbase: Ghost(rbase),
            ended: false,
            broken: false,
        };
        proof {
            assert(z.left.emitted() =~= z.lbase@ + z.left_taken());
            assert(z.right.emitted() =~= z.rbase@ + z.right_taken());
        }
        z
    }
}

impl<S1: Stream, S2: Stream<Error = S1::Error>> Stream for ZipStream<S1, S2> {
    type Item = (S1::Item, S2::Item);
    type Error = S1::Error;

    open spec fn inv(&self) -> bool {
        self.broken || {
            &&& self.left.inv()
            &&& self.right.inv()
            &&& !self.left.failed()
            &&& !self.right.failed()
            &&& self.left.emitted() == self.lbase@ + self.left_taken()
            &&& self.right.emitted() == self.rbase@ + self.right_taken()
            &&& !(self.lcache is Some && self.rcache is Some)
            &&& (!self.ended ==> !self.left.closed() && !self.right.closed())
            &&& (self.ended ==> self.left.closed() || self.right.closed())
            &&& (self.ended ==> self.lcache is None || self.rcache is None)
        }
    }

    open spec fn closed(&self) -> bool {
        self.ended
    }

    open spec fn failed(&self) -> bool {
        self.broken
    }

    open spec fn idle(&self) -> bool {
        &&& !self.ended
        &&& !self.broken
        &&& !(self.lcache is Some && self.rcache is Some)
        &&& (self.lcache is Some || self.left.idle())
        &&& (self.rcache is Some || self.right.idle())
    }

    open spec fn emitted(&self) -> Seq<(S1::Item, S2::Item)> {
        self.pairs@
    }

    open spec fn may_fail(&self, e: S1::Error) -> bool {
        !self.ended && (self.left.may_fail(e) || self.right.may_fail(e))
    }

    fn advance_next(&mut self) -> (r: PollResult<Option<(S1::Item, S2::Item)>, S1::Error>) {
        if self.ended {
            return PollResult::Ready(None);
        }
        if self.lcache.is_none() {
            match self.left.advance_next() {
                PollResult::Pending => {},
                PollResult::Ready(item) => match item {
                    Some(v) => {
                        self.lcache = Some(v);
                        proof {
                            assert(self.left.emitted() =~= self.lbase@ + self.left_taken());
                        }
                    },
                    None => {
                        self.ended = true;
                        return PollResult::Ready(None);
                    },
                },
                PollResult::Failed(e) => {
                    self.broken = true;
                    return PollResult::Failed(e);
                },
            }
        }
        if self.rcache.is_none() {
            match self.right.advance_next() {
                PollResult::Pending => {},
                PollResult::Ready(item) => match item {
                    Some(v) => {
                        self.rcache = Some(v);
                        proof {
                            assert(self.right.emitted() =~= self.rbase@ + self.right_taken());
                        }
                    },
                    None => {
                        self.ended = true;
                        return PollResult::Ready(None);
                    },
                },
                PollResult::Failed(e) => {
                    self.broken = true;
                    return PollResult::Failed(e);
                },
            }
        }
        if self.lcache.is_some() && self.rcache.is_some() {
            let x = self.lcache.take().unwrap();
            let y = self.rcache.take().unwrap();
            self.pairs = Ghost(self.pairs@.push((x, y)));
            proof {
                assert(self.left.emitted() =~= self.lbase@ + self.left_taken());
                assert(self.right.emitted() =~= self.rbase@ + self.right_taken());
            }
            PollResult::Ready(Some((x, y)))
        } else {
            proof {
                if old(self).idle() {
                    assert(*self == *old(self));
                }
            }
            PollResult::Pending
        }
    }
}

/// Law: every pair a zip has yielded is made of the two child items at the
/// same position — pair `i` is the `i`-th item consumed from the left
/// stream together with the `i`-th item consumed from the right one.
pub proof fn lemma_zip_pairs_in_order<S1: Stream, S2: Stream<Error = S1::Error>>(
    z: ZipStream<S1, S2>,
    i: int,
)
    requires
        z.inv(),
        !z.failed(),
        0 <= i < z.emitted().len(),
    ensures
        z.emitted()[i] == (z.left_taken()[i], z.right_taken()[i]),
        z.left.emitted()[z.lbase@.len() + i] == z.left_taken()[i],
        z.right.emitted()[z.rbase@.len() + i] == z.right_taken()[i],
{
}

/// Law: a zip that has ended yielded exactly as many pairs as the shorter
/// of the two consumed sides — `min` of the item counts the children
/// produced for it.
pub proof fn lemma_zip_closed_pair_count<S1: Stream, S2: Stream<Error = S1::Error>>(
    z: ZipStream<S1, S2>,
)
    requires
        z.inv(),
        !z.failed(),
        z.closed(),
    ensures
        z.emitted().len() == if z.left_taken().len() <= z.right_taken().len() {
            z.left_taken().len()
        } else {
            z.right_taken().len()
        },
{
}

} // verus!
