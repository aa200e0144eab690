//! Leaf tasks and streams driven by a fixed script of events.
//!
//! A script models an external source (a timer, a socket, a worker) whose
//! behaviour for one run is known: each `advance` consumes the next event,
//! a `Wait` event standing for a round in which the source was not ready.

use vstd::prelude::*;
use crate::poll::PollResult;
use crate::task::Stream;
use crate::task::Task;

verus! {

/// One scripted round of a task: not ready, complete with a value, or fail.
pub enum TaskEvent<V, E> {
    Wait,
    Finish(V),
    Fault(E),
}

/// The first terminal event of a task script, skipping `Wait` rounds.
pub open spec fn first_outcome<V, E>(s: Seq<TaskEvent<V, E>>) -> Option<TaskEvent<V, E>>
    decreases s.len(),
{
    if s.len() == 0 {
        None
    } else {
        match s[0] {
            TaskEvent::Wait => first_outcome(s.skip(1)),
            ev => Some(ev),
        }
    }
}

/// A task that replays a script of events, one per `advance`.
///
/// With the script exhausted and no terminal event reached, the task waits
/// forever: every further `advance` returns `Pending`.
pub struct ScriptedTask<V, E> {
    pub script: Vec<TaskEvent<V, E>>,
    pub finished: bool,
}

impl<V, E> ScriptedTask<V, E> {
    /// The events not yet consumed, next first.
    pub open spec fn remaining(&self) -> Seq<TaskEvent<V, E>> {
        self.script@
    }

    pub fn new(script: Vec<TaskEvent<V, E>>) -> (t: Self)
        ensures
            t.inv(),
            !t.done(),
            t.remaining() == script@,
    {
        ScriptedTask { script, finished: false }
    }

    /// Consume the next scripted round exactly: a leading `Wait` is used up
    /// and reports `Pending`, a leading `Finish` or `Fault` completes the
    /// task with precisely the scripted outcome, and an exhausted script
    /// changes nothing at all and reports `Pending`.
    pub fn poll_event(&mut self) -> (r: PollResult<V, E>)
        requires
            !old(self).finished,
        ensures
            final(self).finished == !(r is Pending),
            if old(self).script@.len() == 0 {
                r is Pending && *final(self) == *old(self)
            } else {
                match old(self).script@[0] {
                    TaskEvent::Wait => {
                        &&& r is Pending
                        &&& final(self).script@ == old(self).script@.skip(1)
                        &&& !final(self).finished
                    },
                    TaskEvent::Finish(v) => r == PollResult::<V, E>::Ready(v),
                    TaskEvent::Fault(e) => r == PollResult::<V, E>::Failed(e),
                }
            },
    {
        if self.script.len() > 0 {
            let ev = self.script.remove(0);
            proof {
                assert(self.script@ =~= old(self).script@.skip(1));
            }
            match ev {
                TaskEvent::Wait => PollResult::Pending,
                TaskEvent::Finish(v) => {
                    self.finished = true;
                    PollResult::Ready(v)
                },
                TaskEvent::Fault(e) => {
                    self.finished = true;
                    PollResult::Failed(e)
                },
            }
        } else {
            PollResult::Pending
        }
    }
}

impl<V, E> Task for ScriptedTask<V, E> {
    type Item = V;
    type Error = E;

    open spec fn inv(&self) -> bool {
        true
    }

    open spec fn done(&self) -> bool {
        self.finished
    }

    open spec fn idle(&self) -> bool {
        self.script@.len() == 0
    }

    open spec fn may_yield(&self, v: V) -> bool {
        first_outcome(self.script@) == Some(TaskEvent::<V, E>::Finish(v))
    }

    open spec fn may_fail(&self, e: E) -> bool {
        first_outcome(self.script@) == Some(TaskEvent::<V, E>::Fault(e))
    }

    fn advance(&mut self) -> (r: PollResult<V, E>) {
        let r = self.poll_event();
        proof {
            if old(self).script@.len() > 0 && old(self).script@[0] is Wait {
                assert(first_outcome(old(self).script@) == first_outcome(self.script@));
            }
        }
        r
    }
}

/// One scripted round of a stream: not ready, one item, exhaustion, or failure.
pub enum StreamEvent<V, E> {
    Wait,
    Item(V),
    End,
    Fault(E),
}

/// The first stopping event of a stream script, skipping `Wait` and `Item`.
pub open spec fn first_stop<V, E>(s: Seq<StreamEvent<V, E>>) -> Option<StreamEvent<V, E>>
    decreases s.len(),
{
    if s.len() == 0 {
        None
    } else {
        match s[0] {
            StreamEvent::Wait => first_stop(s.skip(1)),
            StreamEvent::Item(_) => first_stop(s.skip(1)),
            ev => Some(ev),
        }
    }
}

/// A stream that replays a script of events, one per `advance_next`.
///
/// An exhausted script counts as the end of the sequence, and once the end
/// has been reported every further `advance_next` reports it again.
pub struct ScriptedStream<V, E> {
    pub script: Vec<StreamEvent<V, E>>,
    pub produced: Ghost<Seq<V>>,
    pub ended: bool,
    pub broken: bool,
}

impl<V, E> ScriptedStream<V, E> {
    /// The events not yet consumed, next first.
    pub open spec fn remaining(&self) -> Seq<StreamEvent<V, E>> {
        self.script@
    }

    pub fn new(script: Vec<StreamEvent<V, E>>) -> (s: Self)
        ensures
            s.inv(),
            !s.closed(),
            !s.failed(),
            s.emitted() == Seq::<V>::empty(),
            s.remaining() == script@,
    {
        ScriptedStream { script, produced: Ghost(Seq::empty()), ended: false, broken: false }
    }

    /// Consume the next scripted round exactly: a leading `Wait` is used up
    /// and reports `Pending`, a leading `Item` is produced, a leading `End`
    /// or an exhausted script closes the stream, a leading `Fault` fails
    /// it, and a closed stream changes nothing and reports the end again.
    pub fn poll_event(&mut self) -> (r: PollResult<Option<V>, E>)
        requires
            !old(self).broken,
        ensures
            if old(self).ended {
                r == PollResult::<Option<V>, E>::Ready(None) && *final(self) == *old(self)
            } else if old(self).script@.len() == 0 {
                &&& r == PollResult::<Option<V>, E>::Ready(None)
                &&& *final(self) == (ScriptedStream { ended: true, ..*old(self) })
            } else {
                match old(self).script@[0] {
                    StreamEvent::Wait => {
                        &&& r is Pending
                        &&& final(self).script@ == old(self).script@.skip(1)
                        &&& final(self).produced == old(self).produced
                        &&& !final(self).ended
                        &&& !final(self).broken
                    },
                    StreamEvent::Item(v) => {
                        &&& r == PollResult::<Option<V>, E>::Ready(Some(v))
                        &&& final(self).script@ == old(self).script@.skip(1)
                        &&& final(self).produced@ == old(self).produced@.push(v)
                        &&& !final(self).ended
                        &&& !final(self).broken
                    },
                    StreamEvent::End => {
                        &&& r == PollResult::<Option<V>, E>::Ready(None)
                        &&& final(self).ended
                        &&& final(self).produced == old(self).produced
                        &&& !final(self).broken
                    },
                    StreamEvent::Fault(e) => {
                        &&& r == PollResult::<Option<V>, E>::Failed(e)
                        &&& final(self).broken
                        &&& final(self).produced == old(self).produced
                        &&& final(self).ended == old(self).ended
                    },
                }
            },
    {
        if self.ended {
            return PollResult::Ready(None);
        }
        if self.script.len() == 0 {
            self.ended = true;
            return PollResult::Ready(None);
        }
        let ev = self.script.remove(0);
        proof {
            assert(self.script@ =~= old(self).script@.skip(1));
        }
        match ev {
            StreamEvent::Wait => PollResult::Pending,
            StreamEvent::Item(v) => {
                self.produced = Ghost(self.produced@.push(v));
                PollResult::Ready(Some(v))
            },
            StreamEvent::End => {
                self.ended = true;
                PollResult::Ready(None)
            },
            StreamEvent::Fault(e) => {
                self.broken = true;
                PollResult::Failed(e)
            },
        }
    }
}

impl<V, E> Stream for ScriptedStream<V, E> {
    type Item = V;
    type Error = E;

    open spec fn inv(&self) -> bool {
        true
    }

    open spec fn closed(&self) -> bool {
        self.ended
    }

    open spec fn failed(&self) -> bool {
        self.broken
    }

    open spec fn idle(&self) -> bool {
        false
    }

    open spec fn emitted(&self) -> Seq<V> {
        self.produced@
    }

    open spec fn may_fail(&self, e: E) -> bool {
        !self.ended && first_stop(self.script@) == Some(StreamEvent::<V, E>::Fault(e))
    }

    fn advance_next(&mut self) -> (r: PollResult<Option<V>, E>) {
        let r = self.poll_event();
        proof {
            if !old(self).ended && old(self).script@.len() > 0
                && (old(self).script@[0] is Wait || old(self).script@[0] is Item) {
                assert(first_stop(old(self).script@) == first_stop(self.script@));
            }
        }
        r
    }
}

} // verus!
