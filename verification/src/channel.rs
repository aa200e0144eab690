//! Channels: one-shot single-value handoff and bounded multi-value FIFO.

use std::collections::VecDeque;
use vstd::prelude::*;
use crate::poll::PollResult;
use crate::task::Stream;
use crate::task::Task;

verus! {

/// Failures of channel communication.
#[derive(Clone, Copy, PartialEq, Eq, Structural, Debug)]
pub enum ChannelError {
    /// A one-shot value was already sent on this channel.
    AlreadySent,
    /// The sending side went away before sending a value.
    SenderDropped,
}

/// The lifecycle of a one-shot channel.
pub enum OneShotState<V> {
    /// No value sent yet, sender still alive.
    Open,
    /// A value was sent and not yet consumed.
    Sent(V),
    /// The sender went away without sending.
    Dropped,
    /// The receiver has consumed its terminal outcome.
    Done,
}

/// A single-value, single-use handoff between one producer and one
/// consumer. The producer may send at most one value; a second send is
/// rejected. If the producer goes away without sending, the consumer
/// observes a distinguishable failure instead of waiting forever.
pub struct OneShotChannel<V> {
    pub state: OneShotState<V>,
}

impl<V> OneShotChannel<V> {
    /// A fresh channel: nothing sent, sender alive.
    pub fn new() -> (c: Self)
        ensures
            c.state is Open,
    {
        OneShotChannel { state: OneShotState::Open }
    }

    /// Non-blocking send of the single value. Succeeds exactly once: on an
    /// `Open` channel the value is stored; afterwards every further send
    /// is rejected with `AlreadySent`, and a send through a dropped sender
    /// reports `SenderDropped`.
    pub fn send(&mut self, v: V) -> (r: Result<(), ChannelError>)
        ensures
            match old(self).state {
                OneShotState::Open => r is Ok && final(self).state == OneShotState::Sent(v),
                OneShotState::Dropped => r == Result::<(), ChannelError>::Err(
                    ChannelError::SenderDropped,
                ) && *final(self) == *old(self),
                _ => r == Result::<(), ChannelError>::Err(ChannelError::AlreadySent)
                    && *final(self) == *old(self),
            },
    {
        match self.state {
            OneShotState::Open => {
                self.state = OneShotState::Sent(v);
                Ok(())
            },
            OneShotState::Dropped => Err(ChannelError::SenderDropped),
            _ => Err(ChannelError::AlreadySent),
        }
    }

    /// The sending side goes away. Without a value sent this makes the
    /// receiver fail instead of waiting forever; after a send it changes
    /// nothing, the stored value stays deliverable.
    pub fn drop_sender(&mut self)
        ensures
            match old(self).state {
                OneShotState::Open => final(self).state is Dropped,
                _ => *final(self) == *old(self),
            },
    {
        match self.state {
            OneShotState::Open => {
                self.state = OneShotState::Dropped;
            },
            _ => {},
        }
    }

    /// The receiver's poll: `Pending` while the sender is alive and silent,
    /// the sent value once there is one, and `Failed(SenderDropped)` if the
    /// sender went away without sending. The outcome can be consumed once.
    pub fn poll_receive(&mut self) -> (r: PollResult<V, ChannelError>)
        requires
            !(old(self).state is Done),
        ensures
            match old(self).state {
                OneShotState::Open => r is Pending && *final(self) == *old(self),
                OneShotState::Sent(v) => r == PollResult::<V, ChannelError>::Ready(v)
                    && final(self).state is Done,
                OneShotState::Dropped => r == PollResult::<V, ChannelError>::Failed(
                    ChannelError::SenderDropped,
                ) && final(self).state is Done,
                OneShotState::Done => false,
            },
    {
        let mut taken = OneShotState::Done;
        core::mem::swap(&mut taken, &mut self.state);
        match taken {
            OneShotState::Open => {
                self.state = OneShotState::Open;
                PollResult::Pending
            },
            OneShotState::Sent(v) => PollResult::Ready(v),
            OneShotState::Dropped => PollResult::Failed(ChannelError::SenderDropped),
            OneShotState::Done => {
                proof {
                    assert(false);
                }
                PollResult::Pending
            },
        }
    }
}

impl<V> Task for OneShotChannel<V> {
    type Item = V;
    type Error = ChannelError;

    open spec fn inv(&self) -> bool {
        true
    }

    open spec fn done(&self) -> bool {
        self.state is Done
    }

    open spec fn idle(&self) -> bool {
        self.state is Open
    }

    open spec fn may_yield(&self, v: V) -> bool {
        match self.state {
            OneShotState::Open => true,
            OneShotState::Sent(v0) => v == v0,
            _ => false,
        }
    }

    open spec fn may_fail(&self, e: ChannelError) -> bool {
        match self.state {
            OneShotState::Open => e == ChannelError::SenderDropped,
            OneShotState::Dropped => e == ChannelError::SenderDropped,
            _ => false,
        }
    }

    fn advance(&mut self) -> (r: PollResult<V, ChannelError>) {
        self.poll_receive()
    }
}

/// Whether a bounded send was accepted or must be retried after a receive.
#[derive(Clone, Copy, PartialEq, Eq, Structural, Debug)]
pub enum SendAttempt {
    /// The value was enqueued.
    Accepted,
    /// The buffer is full: the sending task should suspend and retry once
    /// a receive has freed a slot.
    MustWait,
}

/// A bounded multi-producer FIFO channel. Sends are accepted exactly while
/// the buffer holds fewer than `cap` values — backpressure suspends the
/// sender otherwise — and the receiver sees the values strictly in send
/// order. The stream ends only once every sender handle is gone and the
/// buffer is drained.
pub struct BufferedChannel<V> {
    pub buf: VecDeque<V>,
    pub cap: usize,
    pub senders: usize,
    pub log: Ghost<Seq<V>>,
    pub taken: Ghost<int>,
    pub ended: bool,
}

impl<V> BufferedChannel<V> {
    /// A fresh channel of capacity `cap`, with one live sender handle.
    pub fn new(cap: usize) -> (c: Self)
        ensures
            c.inv(),
            !c.closed(),
            !c.failed(),
            c.emitted() == Seq::<V>::empty(),
            c.cap == cap,
            c.senders == 1,
            c.log@ == Seq::<V>::empty(),
    {
        let c = BufferedChannel {
            buf: VecDeque::new(),
            cap,
            senders: 1,
            log: Ghost(Seq::empty()),
            taken: Ghost(0),
            ended: false,
        };
        proof {
            assert(c.buf@ =~= c.log@.skip(c.taken@));
            assert(c.emitted() =~= Seq::<V>::empty());
        }
        c
    }

    /// One more sender handle shares the channel.
    pub fn clone_sender(&mut self)
        requires
            old(self).inv(),
            old(self).senders >= 1,
            old(self).senders < usize::MAX,
        ensures
            final(self).inv(),
            *final(self) == (BufferedChannel { senders: (old(self).senders + 1) as usize, ..*old(self) }),
    {
        self.senders = self.senders + 1;
    }

    /// One sender handle goes away. Once none is left and the buffer is
    /// drained, the receiver observes the end of the stream.
    pub fn drop_sender(&mut self)
        requires
            old(self).inv(),
            old(self).senders >= 1,
        ensures
            final(self).inv(),
            *final(self) == (BufferedChannel { senders: (old(self).senders - 1) as usize, ..*old(self) }),
    {
        self.senders = self.senders - 1;
    }

    /// Non-blocking bounded send: accepted if and only if the buffer holds
    /// fewer than `cap` values; on `MustWait` nothing changes and the
    /// sending task should suspend until a receive frees a slot.
    pub fn send(&mut self, v: V) -> (r: SendAttempt)
        requires
            old(self).inv(),
            old(self).senders >= 1,
        ensures
            final(self).inv(),
            if old(self).buf@.len() < old(self).cap {
                &&& r == SendAttempt::Accepted
                &&& *final(self) == (BufferedChannel {
                    buf: final(self).buf,
                    log: Ghost(old(self).log@.push(v)),
                    ..*old(self)
                })
                &&& final(self).buf@ == old(self).buf@.push(v)
            } else {
                r == SendAttempt::MustWait && *final(self) == *old(self)
            },
    {
        if self.buf.len() < self.cap {
            self.buf.push_back(v);
            self.log = Ghost(self.log@.push(v));
            proof {
                assert(self.buf@ =~= self.log@.skip(self.taken@));
            }
            SendAttempt::Accepted
        } else {
            SendAttempt::MustWait
        }
    }

    /// Whether the buffer has a free slot, so that the next send will be
    /// accepted rather than backpressured.
    pub fn has_room(&self) -> (r: bool)
        ensures
            r == (self.buf@.len() < self.cap),
    {
        self.buf.len() < self.cap
    }

    /// The receiver's poll: the oldest buffered value if there is one —
    /// values come out strictly in send order — `Ready(None)` exactly when
    /// every sender handle is gone and the buffer is drained, and
    /// `Pending` when the buffer is empty but a sender is still alive.
    pub fn poll_next(&mut self) -> (r: PollResult<Option<V>, ChannelError>)
        requires
            old(self).inv(),
        ensures
            final(self).inv(),
            match r {
                PollResult::Pending => {
                    &&& old(self).buf@.len() == 0
                    &&& old(self).senders >= 1
                    &&& *final(self) == *old(self)
                },
                PollResult::Ready(item) => match item {
                    Some(v) => {
                        &&& old(self).buf@.len() > 0
                        &&& v == old(self).log@[old(self).taken@]
                        &&& *final(self) == (BufferedChannel {
                            buf: final(self).buf,
                            taken: Ghost(old(self).taken@ + 1),
                            ..*old(self)
                        })
                        &&& final(self).buf@ == old(self).buf@.skip(1)
                    },
                    None => {
                        &&& old(self).buf@.len() == 0
                        &&& old(self).senders == 0
                        &&& *final(self) == (BufferedChannel { ended: true, ..*old(self) })
                    },
                },
                PollResult::Failed(_) => false,
            },
    {
        if self.buf.len() == 0 {
            if self.senders == 0 {
                self.ended = true;
                PollResult::Ready(None)
            } else {
                PollResult::Pending
            }
        } else {
            let item = self.buf.pop_front();
            match item {
                Some(v) => {
                    self.taken = Ghost(self.taken@ + 1);
                    proof {
                        assert(self.buf@ =~= self.log@.skip(self.taken@));
                    }
                    PollResult::Ready(Some(v))
                },
                None => {
                    proof {
                        assert(false);
                    }
                    PollResult::Pending
                },
            }
        }
    }
}

impl<V> Stream for BufferedChannel<V> {
    type Item = V;
    type Error = ChannelError;

    open spec fn inv(&self) -> bool {
        &&& self.buf@ == self.log@.skip(self.taken@)
        &&& 0 <= self.taken@ <= self.log@.len()
        &&& self.buf@.len() <= self.cap
        &&& (self.ended ==> self.senders == 0 && self.buf@.len() == 0)
    }

    open spec fn closed(&self) -> bool {
        self.ended
    }

    open spec fn failed(&self) -> bool {
        false
    }

    open spec fn idle(&self) -> bool {
        !self.ended && self.buf@.len() == 0 && self.senders >= 1
    }

    open spec fn emitted(&self) -> Seq<V> {
        self.log@.take(self.taken@)
    }

    open spec fn may_fail(&self, e: ChannelError) -> bool {
        false
    }

    fn advance_next(&mut self) -> (r: PollResult<Option<V>, ChannelError>) {
        let r = self.poll_next();
        proof {
            match &r {
                PollResult::Ready(Some(v)) => {
                    assert(self.emitted() =~= old(self).emitted().push(*v));
                },
                _ => {},
            }
        }
        r
    }
}

} // verus!
