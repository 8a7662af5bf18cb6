//! The bounded queue that carries inbound messages from every session to the
//! dispatcher.

use crate::session::PeerId;
use std::collections::VecDeque;
use vstd::prelude::*;

verus! {

/// A message together with the peer that sent it.
pub struct Envelope<M> {
    pub peer: PeerId,
    pub message: M,
}

/// The queue after an envelope was offered: with room left the envelope stands
/// behind all others, without room the queue is as before.
pub open spec fn sent<M>(queue: Seq<Envelope<M>>, capacity: nat, envelope: Envelope<M>) -> Seq<
    Envelope<M>,
> {
    if queue.len() < capacity {
        queue.push(envelope)
    } else {
        queue
    }
}

/// The queue after the consumer took the oldest envelope, if there was one.
pub open spec fn drained<M>(queue: Seq<Envelope<M>>) -> Seq<Envelope<M>> {
    if queue.len() > 0 {
        queue.drop_first()
    } else {
        queue
    }
}

/// A first-in, first-out queue of envelopes that never grows beyond the
/// capacity it was made with.
///
/// A full channel takes nothing: the envelope is handed back to the producer,
/// which has to wait for the consumer and offer it again.
pub struct Channel<M> {
    queue: VecDeque<Envelope<M>>,
    capacity: usize,
}

impl<M> View for Channel<M> {
    type V = Seq<Envelope<M>>;

    /// The queued envelopes, oldest first.
    closed spec fn view(&self) -> Seq<Envelope<M>> {
        self.queue@
    }
}

impl<M> Channel<M> {
    /// The largest number of envelopes the channel holds.
    pub closed spec fn spec_capacity(&self) -> usize {
        self.capacity
    }

    /// The channel holds no more than its capacity.
    pub open spec fn wf(&self) -> bool {
        self@.len() <= self.spec_capacity()
    }

    /// Whether a producer has to wait.
    pub open spec fn spec_is_full(&self) -> bool {
        self@.len() >= self.spec_capacity()
    }

    /// An empty channel for at most `capacity` envelopes.
    pub fn new(capacity: usize) -> (channel: Channel<M>)
        ensures
            channel.wf(),
            channel@ == Seq::<Envelope<M>>::empty(),
            channel.spec_capacity() == capacity,
    {
        Channel { queue: VecDeque::new(), capacity }
    }

    #[verifier::when_used_as_spec(spec_capacity)]
    pub fn capacity(&self) -> (capacity: usize)
        ensures
            capacity == self.spec_capacity(),
    {
        self.capacity
    }

    /// The number of queued envelopes.
    pub fn len(&self) -> (len: usize)
        ensures
            len == self@.len(),
    {
        self.queue.len()
    }

    pub fn is_empty(&self) -> (empty: bool)
        ensures
            empty == (self@.len() == 0),
    {
        self.queue.len() == 0
    }

    #[verifier::when_used_as_spec(spec_is_full)]
    pub fn is_full(&self) -> (full: bool)
        ensures
            full == self.spec_is_full(),
    {
        self.queue.len() >= self.capacity
    }

    /// Offers an envelope to the channel.
    ///
    /// With room left the envelope is queued behind all others.  A full
    /// channel stays as it is and the envelope comes back in `Err`.
    pub fn try_send(&mut self, envelope: Envelope<M>) -> (outcome: Result<(), Envelope<M>>)
        requires
            old(self).wf(),
        ensures
            final(self).wf(),
            final(self).spec_capacity() == old(self).spec_capacity(),
            final(self)@ == sent(old(self)@, old(self).spec_capacity() as nat, envelope),
            outcome == if old(self).spec_is_full() {
                Err::<(), Envelope<M>>(envelope)
            } else {
                Ok(())
            },
    {
        if self.queue.len() >= self.capacity {
            Err(envelope)
        } else {
            self.queue.push_back(envelope);
            Ok(())
        }
    }

    /// Takes the oldest envelope out of the channel, if there is one.
    pub fn recv(&mut self) -> (envelope: Option<Envelope<M>>)
        requires
            old(self).wf(),
        ensures
            final(self).wf(),
            final(self).spec_capacity() == old(self).spec_capacity(),
            final(self)@ == drained(old(self)@),
            envelope == if old(self)@.len() > 0 {
                Some(old(self)@.first())
            } else {
                None
            },
    {
        self.queue.pop_front()
    }
}

/// What is done to a channel: a producer offers an envelope, or the consumer
/// asks for one.
pub enum Operation<M> {
    Send(Envelope<M>),
    Recv,
}

/// What has become of the envelopes that were offered to a channel.
pub struct History<M> {
    /// The envelopes that wait in the channel, oldest first.
    pub queue: Seq<Envelope<M>>,
    /// The envelopes that the channel took in, in the order it took them.
    pub accepted: Seq<Envelope<M>>,
    /// The envelopes that the consumer got, in the order it got them.
    pub delivered: Seq<Envelope<M>>,
}

/// The history of a channel that was empty at first, after the operations.
pub open spec fn history<M>(capacity: nat, operations: Seq<Operation<M>>) -> History<M>
    decreases operations.len(),
{
    if operations.len() == 0 {
        History { queue: Seq::empty(), accepted: Seq::empty(), delivered: Seq::empty() }
    } else {
        let before = history(capacity, operations.drop_last());
        match operations.last() {
            Operation::Send(envelope) => History {
                queue: sent(before.queue, capacity, envelope),
                accepted: if before.queue.len() < capacity {
                    before.accepted.push(envelope)
                } else {
                    before.accepted
                },
                delivered: before.delivered,
            },
            Operation::Recv => History {
                queue: drained(before.queue),
                accepted: before.accepted,
                delivered: if before.queue.len() > 0 {
                    before.delivered.push(before.queue.first())
                } else {
                    before.delivered
                },
            },
        }
    }
}

/// Whatever is done to a channel, it never holds more than its capacity, and
/// no envelope it took in is lost or overtaken: the envelopes delivered,
/// followed by those that wait, are the envelopes taken in, in their order.
pub proof fn lemma_nothing_lost<M>(capacity: nat, operations: Seq<Operation<M>>)
    ensures
        history(capacity, operations).queue.len() <= capacity,
        history(capacity, operations).delivered + history(capacity, operations).queue == history(
            capacity,
            operations,
        ).accepted,
    decreases operations.len(),
{
    if operations.len() > 0 {
        lemma_nothing_lost(capacity, operations.drop_last());
    }
}

/// A producer that found the channel full is let in once the consumer has
/// taken one envelope out: the queue is then one short of its capacity, and
/// still holds, in their order, all envelopes but the one taken.
pub proof fn lemma_recv_makes_room<M>(full: Channel<M>, drained: Channel<M>)
    requires
        full.wf(),
        full.spec_is_full(),
        full.spec_capacity() > 0,
        drained@ == full@.drop_first(),
        drained.spec_capacity() == full.spec_capacity(),
    ensures
        drained.wf(),
        !drained.spec_is_full(),
        drained@.len() + 1 == drained.spec_capacity(),
        forall|i: int| 0 <= i < drained@.len() ==> drained@[i] == full@[i + 1],
{
}

} // verus!
