//! The dispatcher: the one consumer of the channel, which hands every
//! envelope to every registered listener.
//!
//! The listeners themselves run outside: the dispatcher says to whom an
//! envelope goes and in which order, and takes back what each listener made
//! of it.

use crate::channel::{Channel, Envelope};
use crate::session::PeerId;
use vstd::prelude::*;

verus! {

/// Names a registered listener.
pub type ListenerId = u64;

/// What a listener says when it could not handle a message.
pub struct ListenerError {
    pub detail: String,
}

/// The record of one failed handling.
pub struct Failure {
    pub listener: ListenerId,
    /// The sender of the message that was not handled.
    pub peer: PeerId,
    pub error: ListenerError,
}

/// An envelope on its way through the listeners.
///
/// It goes to the listeners of its route one after the other.  Those before
/// the position `served` have had it, the one at `served` is next.
pub struct Dispatch<M> {
    envelope: Envelope<M>,
    listeners: Vec<ListenerId>,
    served: usize,
}

impl<M> Dispatch<M> {
    pub closed spec fn envelope(&self) -> Envelope<M> {
        self.envelope
    }

    /// The listeners that get the envelope, first to last.
    pub closed spec fn route(&self) -> Seq<ListenerId> {
        self.listeners@
    }

    /// The number of listeners that have had the envelope.
    pub closed spec fn served(&self) -> nat {
        self.served as nat
    }

    pub open spec fn wf(&self) -> bool {
        self.served() <= self.route().len()
    }

    /// The listener whose turn it is.
    pub open spec fn spec_next_listener(&self) -> Option<ListenerId> {
        if self.served() < self.route().len() {
            Some(self.route()[self.served() as int])
        } else {
            None
        }
    }

    /// The envelope to hand to the listeners.
    pub fn message(&self) -> (envelope: &Envelope<M>)
        ensures
            *envelope == self.envelope(),
    {
        &self.envelope
    }

    /// The listener to hand the envelope to next, or `None` once all have
    /// had it.
    #[verifier::when_used_as_spec(spec_next_listener)]
    pub fn next_listener(&self) -> (next: Option<ListenerId>)
        requires
            self.wf(),
        ensures
            next == self.spec_next_listener(),
    {
        if self.served < self.listeners.len() {
            Some(self.listeners[self.served])
        } else {
            None
        }
    }

    /// The number of listeners that have not had the envelope yet.
    pub fn remaining(&self) -> (left: usize)
        requires
            self.wf(),
        ensures
            left == self.route().len() - self.served(),
    {
        self.listeners.len() - self.served
    }
}

/// The registered listeners and the failures they reported.
pub struct Dispatcher {
    listeners: Vec<ListenerId>,
    failures: Vec<Failure>,
}

impl Dispatcher {
    /// The registrations, oldest first.  A listener registered twice occurs
    /// twice.
    pub closed spec fn listeners(&self) -> Seq<ListenerId> {
        self.listeners@
    }

    /// The failures reported and not yet taken, oldest first.
    pub closed spec fn failures(&self) -> Seq<Failure> {
        self.failures@
    }

    /// A dispatcher without listeners.
    pub fn new() -> (dispatcher: Dispatcher)
        ensures
            dispatcher.listeners() == Seq::<ListenerId>::empty(),
            dispatcher.failures() == Seq::<Failure>::empty(),
    {
        Dispatcher { listeners: Vec::new(), failures: Vec::new() }
    }

    /// Registers a listener behind those registered before.
    pub fn add_listener(&mut self, listener: ListenerId)
        ensures
            final(self).listeners() == old(self).listeners().push(listener),
            final(self).failures() == old(self).failures(),
    {
        self.listeners.push(listener);
    }

    /// The listeners in the order in which each envelope is handed to them:
    /// the order of registration.
    pub fn route(&self) -> (route: Vec<ListenerId>)
        ensures
            route@ == self.listeners(),
    {
        let mut route: Vec<ListenerId> = Vec::new();
        let mut i: usize = 0;
        while i < self.listeners.len()
            invariant
                i <= self.listeners.len(),
                route@ == self.listeners@.take(i as int),
            decreases self.listeners.len() - i,
        {
            route.push(self.listeners[i]);
            i += 1;
        }
        route
    }

    /// Takes the oldest envelope out of the channel and puts it on its way.
    ///
    /// Envelopes leave in the order they arrived and none is skipped.  The
    /// route of each is the registrations in their order, and no listener
    /// has had it yet.
    pub fn dispatch<M>(&self, channel: &mut Channel<M>) -> (next: Option<Dispatch<M>>)
        requires
            old(channel).wf(),
        ensures
            final(channel).wf(),
            final(channel).spec_capacity() == old(channel).spec_capacity(),
            old(channel)@.len() == 0 ==> next is None && final(channel)@ == old(channel)@,
            old(channel)@.len() > 0 ==> {
                &&& next matches Some(dispatch)
                &&& dispatch.wf()
                &&& dispatch.envelope() == old(channel)@.first()
                &&& dispatch.route() == self.listeners()
                &&& dispatch.served() == 0
                &&& final(channel)@ == old(channel)@.drop_first()
            },
    {
        match channel.recv() {
            Some(envelope) => Some(Dispatch { envelope, listeners: self.route(), served: 0 }),
            None => None,
        }
    }

    /// Takes back what the listener whose turn it was made of the envelope,
    /// and passes the turn on.
    ///
    /// The commands of a listener that succeeded are returned to be carried
    /// out.  A failure is recorded and yields no command.  Either way the
    /// turn passes to the next listener of the route, and the registrations
    /// stay as they are.  Once every listener has had the envelope there is
    /// nothing to take back, and nothing changes.
    pub fn settle<M, C>(
        &mut self,
        dispatch: &mut Dispatch<M>,
        outcome: Result<Vec<C>, ListenerError>,
    ) -> (commands: Vec<C>)
        requires
            old(dispatch).wf(),
        ensures
            final(dispatch).wf(),
            final(dispatch).envelope() == old(dispatch).envelope(),
            final(dispatch).route() == old(dispatch).route(),
            final(self).listeners() == old(self).listeners(),
            match old(dispatch).spec_next_listener() {
                Some(listener) => {
                    &&& final(dispatch).served() == old(dispatch).served() + 1
                    &&& match outcome {
                        Ok(issued) => {
                            &&& commands == issued
                            &&& final(self).failures() == old(self).failures()
                        },
                        Err(error) => {
                            &&& commands@ == Seq::<C>::empty()
                            &&& final(self).failures() == old(self).failures().push(
                                Failure { listener, peer: old(dispatch).envelope().peer, error },
                            )
                        },
                    }
                },
                None => {
                    &&& final(dispatch).served() == old(dispatch).served()
                    &&& commands@ == Seq::<C>::empty()
                    &&& final(self).failures() == old(self).failures()
                },
            },
    {
        if dispatch.served >= dispatch.listeners.len() {
            return Vec::new();
        }
        let listener = dispatch.listeners[dispatch.served];
        dispatch.served = dispatch.served + 1;
        match outcome {
            Ok(issued) => issued,
            Err(error) => {
                self.failures.push(Failure { listener, peer: dispatch.envelope.peer, error });
                Vec::new()
            },
        }
    }

    /// The number of failures reported and not yet taken.
    pub fn failure_count(&self) -> (count: usize)
        ensures
            count == self.failures().len(),
    {
        self.failures.len()
    }

    /// Hands out the recorded failures, oldest first, and clears the record.
    pub fn take_failures(&mut self) -> (report: Vec<Failure>)
        ensures
            report@ == old(self).failures(),
            final(self).failures() == Seq::<Failure>::empty(),
            final(self).listeners() == old(self).listeners(),
    {
        let mut report: Vec<Failure> = Vec::new();
        std::mem::swap(&mut report, &mut self.failures);
        report
    }
}

/// Every envelope reaches every registered listener exactly once, in the
/// order of registration, whatever the listeners before made of it: after
/// `turns` outcomes were taken back the listeners that have had the envelope
/// are the first `turns` registrations, and once all outcomes are in they are
/// the registrations themselves.
pub proof fn lemma_every_listener_in_turn<M>(
    dispatcher: Dispatcher,
    fresh: Dispatch<M>,
    later: Dispatch<M>,
    turns: nat,
)
    requires
        fresh.route() == dispatcher.listeners(),
        fresh.served() == 0,
        later.route() == fresh.route(),
        later.served() == turns,
        later.wf(),
    ensures
        later.route().take(turns as int) == dispatcher.listeners().take(turns as int),
        forall|i: int| 0 <= i < turns ==> later.route()[i] == dispatcher.listeners()[i],
        turns < dispatcher.listeners().len() ==> later.spec_next_listener() == Some(
            dispatcher.listeners()[turns as int],
        ),
        turns == dispatcher.listeners().len() ==> later.spec_next_listener() is None
            && later.route().take(turns as int) == dispatcher.listeners(),
{
    assert(dispatcher.listeners().take(dispatcher.listeners().len() as int)
        =~= dispatcher.listeners());
}

} // verus!
