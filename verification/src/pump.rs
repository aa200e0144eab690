//! `PumpTask`: a connect-then-send state-machine future.
//!
//! The pattern for a multi-phase operation without built-in suspension
//! syntax: an enum with one arm per phase, and an `advance` that inspects
//! the current phase, attempts progress, and moves forward — never
//! backward — looping within one call while synchronous progress is
//! possible. Here the phases are connecting (awaiting a task that yields
//! the transport channel), actively pushing a payload into that channel
//! under backpressure — started in the same call that the connection
//! arrives — and completed.

use vstd::prelude::*;
use crate::channel::BufferedChannel;
use crate::channel::SendAttempt;
use crate::poll::PollResult;
use crate::task::Stream;
use crate::task::Task;

verus! {

/// The phases of a connect-then-send operation.
pub enum PumpPhase<T, V> {
    /// Awaiting the connect task; the payload waits with it.
    Initiating(T, Vec<V>),
    /// Connected: pushing the remaining payload into the channel.
    Active(BufferedChannel<V>, Vec<V>),
    /// Terminal: the payload was delivered, or a failure ended the task.
    Completed,
}

/// What delivering `payload` over the channel `c` leaves behind: the same
/// channel with every payload value appended to its send log in order,
/// nothing consumed behind the receiver's back, and the pump's sender
/// handle given up again.
pub open spec fn delivered<V>(c: BufferedChannel<V>, payload: Seq<V>, out: BufferedChannel<V>)
    -> bool {
    &&& out.log@ == c.log@ + payload
    &&& out.taken == c.taken
    &&& out.senders == c.senders - 1
    &&& out.cap == c.cap
    &&& !out.ended
}

/// A task that first awaits a connection — any task yielding a buffered
/// channel with a live sender handle for the pump — and then transfers a
/// fixed payload into it, suspending whenever the channel is full. It
/// completes with the channel, whose send log then ends in exactly the
/// payload, and gives its sender handle up so the receiver can observe the
/// end of the stream once every other sender is gone too.
pub struct PumpTask<T, V> {
    pub phase: PumpPhase<T, V>,
}

impl<T, V> PumpTask<T, V> where T: Task<Item = BufferedChannel<V>> {
    /// Start a transfer of `payload` over the channel that `connect` will
    /// yield.
    pub fn new(connect: T, payload: Vec<V>) -> (t: Self)
        requires
            connect.inv(),
            !connect.done(),
            forall|c: BufferedChannel<V>| #[trigger] connect.may_yield(c) ==> c.inv()
                && c.senders >= 1,
        ensures
            t.inv(),
            !t.done(),
            t.phase == PumpPhase::<T, V>::Initiating(connect, payload),
    {
        PumpTask { phase: PumpPhase::Initiating(connect, payload) }
    }

    /// Push payload values into the channel, front first, while there is
    /// room. Returns whether the payload was emptied; if not, the buffer
    /// is full. The channel's log plus the remaining payload is preserved,
    /// and nothing else about the channel changes.
    fn push_while_room(ch: &mut BufferedChannel<V>, payload: &mut Vec<V>) -> (emptied: bool)
        requires
            old(ch).inv(),
            old(ch).senders >= 1,
        ensures
            final(ch).inv(),
            final(ch).log@ + final(payload)@ == old(ch).log@ + old(payload)@,
            final(ch).taken == old(ch).taken,
            final(ch).senders == old(ch).senders,
            final(ch).cap == old(ch).cap,
            final(ch).ended == old(ch).ended,
            emptied == (final(payload)@.len() == 0),
            !emptied ==> final(ch).buf@.len() == final(ch).cap,
            ((old(ch).buf@.len() == old(ch).cap && old(payload)@.len() > 0)
                ==> *final(ch) == *old(ch) && *final(payload) == *old(payload)),
    {
        loop
            invariant
                ch.inv(),
                ch.log@ + payload@ == old(ch).log@ + old(payload)@,
                ch.taken == old(ch).taken,
                ch.senders == old(ch).senders,
                ch.cap == old(ch).cap,
                ch.ended == old(ch).ended,
                old(ch).senders >= 1,
                ((old(ch).buf@.len() == old(ch).cap && old(payload)@.len() > 0)
                    ==> *ch == *old(ch) && *payload == *old(payload)),
            decreases payload@.len(),
        {
            if payload.len() == 0 {
                return true;
            }
            if ch.has_room() {
                let v = payload.remove(0);
                let a = ch.send(v);
                proof {
                    assert(a == SendAttempt::Accepted);
                    assert(ch.log@ + payload@ =~= old(ch).log@ + old(payload)@);
                }
            } else {
                return false;
            }
        }
    }

    /// One attempt to make progress, with the transfer pinned down. While
    /// connecting, the connect task decides the round. Once connected —
    /// in the same call that the connection arrives — the payload is
    /// pushed until it is gone or the channel is full: a `Pending` round
    /// can leave the task in the `Active` phase only with a full buffer
    /// and payload still to send, and completion yields the channel with
    /// the whole payload appended to its log.
    pub fn poll_transfer(&mut self) -> (r: PollResult<BufferedChannel<V>, T::Error>)
        requires
            old(self).inv(),
            !old(self).done(),
        ensures
            final(self).inv(),
            final(self).done() == !(r is Pending),
            (r matches PollResult::Ready(out) ==> old(self).may_yield(out)),
            (r matches PollResult::Failed(e) ==> old(self).may_fail(e)),
            (r is Pending ==> forall|out: BufferedChannel<V>|
                #[trigger] final(self).may_yield(out) ==> old(self).may_yield(out)),
            (r is Pending ==> forall|e: T::Error|
                #[trigger] final(self).may_fail(e) ==> old(self).may_fail(e)),
            (r is Pending ==> match final(self).phase {
                PumpPhase::Initiating(t2, pay2) => old(self).phase is Initiating,
                PumpPhase::Active(ch2, pay2) => ch2.buf@.len() == ch2.cap
                    && pay2@.len() > 0,
                PumpPhase::Completed => false,
            }),
            (old(self).idle() ==> r is Pending && *final(self) == *old(self)),
    {
        let mut ph = PumpPhase::Completed;
        core::mem::swap(&mut ph, &mut self.phase);
        match ph {
            PumpPhase::Initiating(mut t, payload) => {
                match t.advance() {
                    PollResult::Pending => {
                        self.phase = PumpPhase::Initiating(t, payload);
                        proof {
                            assert forall|out: BufferedChannel<V>| self.may_yield(out)
                                implies old(self).may_yield(out) by {
                                let c = choose|c: BufferedChannel<V>|
                                    #[trigger] t.may_yield(c) && delivered(c, payload@, out);
                            }
                        }
                        PollResult::Pending
                    },
                    PollResult::Ready(ch) => {
                        let mut ch = ch;
                        let mut payload = payload;
                        let ghost c0 = ch;
                        let ghost pay0 = payload;
                        if Self::push_while_room(&mut ch, &mut payload) {
                            ch.drop_sender();
                            proof {
                                assert(ch.log@ =~= c0.log@ + pay0@);
                                assert(delivered(c0, pay0@, ch));
                            }
                            PollResult::Ready(ch)
                        } else {
                            self.phase = PumpPhase::Active(ch, payload);
                            proof {
                                assert forall|out: BufferedChannel<V>| self.may_yield(out)
                                    implies old(self).may_yield(out) by {
                                    assert(out.log@ == ch.log@ + payload@);
                                    assert(out.log@ =~= c0.log@ + pay0@);
                                    assert(delivered(c0, pay0@, out));
                                }
                            }
                            PollResult::Pending
                        }
                    },
                    PollResult::Failed(e) => PollResult::Failed(e),
                }
            },
            PumpPhase::Active(mut ch, mut payload) => {
                let ghost ch0 = ch;
                let ghost pay0 = payload;
                if Self::push_while_room(&mut ch, &mut payload) {
                    ch.drop_sender();
                    proof {
                        assert(ch.log@ =~= ch0.log@ + pay0@);
                        assert(delivered(ch0, pay0@, ch));
                    }
                    PollResult::Ready(ch)
                } else {
                    self.phase = PumpPhase::Active(ch, payload);
                    proof {
                        assert forall|out: BufferedChannel<V>| self.may_yield(out)
                            implies old(self).may_yield(out) by {
                            assert(out.log@ == ch.log@ + payload@);
                            assert(out.log@ =~= ch0.log@ + pay0@);
                            assert(delivered(ch0, pay0@, out));
                        }
                    }
                    PollResult::Pending
                }
            },
            PumpPhase::Completed => {
                proof {
                    assert(false);
                }
                PollResult::Pending
            },
        }
    }
}

impl<T, V> Task for PumpTask<T, V> where T: Task<Item = BufferedChannel<V>> {
    type Item = BufferedChannel<V>;
    type Error = T::Error;

    open spec fn inv(&self) -> bool {
        match self.phase {
            PumpPhase::Initiating(t, payload) => {
                &&& t.inv()
                &&& !t.done()
                &&& forall|c: BufferedChannel<V>| #[trigger] t.may_yield(c) ==> c.inv()
                    && c.senders >= 1
            },
            PumpPhase::Active(ch, payload) => ch.inv() && ch.senders >= 1,
            PumpPhase::Completed => true,
        }
    }

    open spec fn done(&self) -> bool {
        self.phase is Completed
    }

    open spec fn idle(&self) -> bool {
        match self.phase {
            PumpPhase::Initiating(t, payload) => t.idle(),
            PumpPhase::Active(ch, payload) => payload@.len() > 0 && ch.buf@.len() == ch.cap,
            PumpPhase::Completed => false,
        }
    }

    open spec fn may_yield(&self, out: BufferedChannel<V>) -> bool {
        match self.phase {
            PumpPhase::Initiating(t, payload) => exists|c: BufferedChannel<V>|
                #[trigger] t.may_yield(c) && delivered(c, payload@, out),
            PumpPhase::Active(ch, payload) => delivered(ch, payload@, out),
            PumpPhase::Completed => false,
        }
    }

    open spec fn may_fail(&self, e: T::Error) -> bool {
        match self.phase {
            PumpPhase::Initiating(t, payload) => t.may_fail(e),
            _ => false,
        }
    }

    fn advance(&mut self) -> (r: PollResult<BufferedChannel<V>, T::Error>) {
        self.poll_transfer()
    }
}

} // verus!
