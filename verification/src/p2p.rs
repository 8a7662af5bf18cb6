//! The connection manager: the table of connected peers, the sessions that
//! are still being set up, and the commands that act on them.

use crate::address::PeerAddress;
use crate::channel::{Channel, Envelope};
use crate::error::Error;
use crate::session::{
    negotiate, negotiated_version, next_state, Direction, P2PConfig, PeerId, PeerSource,
    SessionEvent, SessionState, VersionInfo,
};
use crate::services::has_services;
use std::collections::HashMap;
use vstd::prelude::*;
use vstd::std_specs::hash::*;

verus! {

/// A connected peer and what it announced in its handshake.
pub struct Peer {
    pub address: PeerAddress,
    pub direction: Direction,
    /// The protocol version spoken with the peer.
    pub version: u32,
    pub services: u64,
    pub user_agent: String,
    pub nonce: u64,
}

/// A session that is not yet through its handshake.
pub struct Pending {
    pub address: PeerAddress,
    pub direction: Direction,
    /// Whether the transport stands and the peer's handshake is awaited.
    pub handshaking: bool,
}

/// What became of a message that a session read from its peer.
pub enum Inbound<M> {
    /// It waits in the channel for the dispatcher.
    Queued,
    /// The channel is full: the reader has to wait and offer the envelope again.
    Blocked(Envelope<M>),
    /// The session is not ready, so the message goes nowhere.
    Ignored(M),
}

/// A command to the connection manager.
pub enum P2PControl<M> {
    /// Listen for inbound connections on an address.
    Bind(PeerAddress),
    /// Set up a session.
    AddPeer(PeerSource),
    /// Send a message to a connected peer.
    Send(PeerId, M),
    /// Tear a session down.
    Disconnect(PeerId),
}

/// What the transport has to do after a command.
pub enum ControlOutcome<M> {
    /// Open a listening endpoint on the address.
    Listen(PeerAddress),
    /// A session was set up under the id; an outgoing one is to be dialled.
    Opened(PeerId, PeerSource),
    /// Write the envelope's message to its peer.
    Transmit(Envelope<M>),
    /// Close whatever connection the peer had.
    Closed(PeerId),
}

/// Whether a peer with this handshake may be in the connection table.
pub open spec fn admissible(config: P2PConfig, needed: u64, peer: Peer) -> bool {
    &&& peer.nonce != config.nonce
    &&& config.min_protocol_version <= peer.version <= config.max_protocol_version
    &&& has_services(peer.services, needed)
}

/// Owns every session of the node.
pub struct ConnectionManager {
    config: P2PConfig,
    needed_services: u64,
    listening: Vec<PeerAddress>,
    pending: HashMap<u64, Pending>,
    peers: HashMap<u64, Peer>,
    next_id: u64,
}

impl ConnectionManager {
    pub closed spec fn config(&self) -> P2PConfig {
        self.config
    }

    /// The services asked of every peer.
    pub closed spec fn needed_services(&self) -> u64 {
        self.needed_services
    }

    /// The addresses the node listens on, in the order they were bound.
    pub closed spec fn listening(&self) -> Seq<PeerAddress> {
        self.listening@
    }

    /// The sessions that are connecting or in their handshake.
    pub closed spec fn pending(&self) -> Map<PeerId, Pending> {
        self.pending@
    }

    /// The connection table: the peers whose handshake was accepted.
    pub closed spec fn table(&self) -> Map<PeerId, Peer> {
        self.peers@
    }

    /// The number of peer ids handed out so far; the next session gets this id.
    pub closed spec fn allocated(&self) -> nat {
        self.next_id as nat
    }

    /// Whether no id is left for a new session.
    pub open spec fn exhausted(&self) -> bool {
        self.allocated() >= u64::MAX
    }

    /// A session has one stage at a time, its id was handed out by this
    /// manager, and every peer in the table passed the handshake rules.
    pub open spec fn wf(&self) -> bool {
        &&& self.table().dom().finite()
        &&& self.pending().dom().finite()
        &&& forall|id: PeerId| self.table().contains_key(id) ==> !self.pending().contains_key(id)
        &&& forall|id: PeerId|
            self.table().contains_key(id) || self.pending().contains_key(id) ==> id
                < self.allocated()
        &&& forall|id: PeerId| #[trigger]
            self.table().contains_key(id) ==> admissible(
                self.config(),
                self.needed_services(),
                self.table()[id],
            )
    }

    /// The stage of the session with this id.
    pub open spec fn state_of(&self, id: PeerId) -> SessionState {
        if self.table().contains_key(id) {
            SessionState::Ready
        } else if self.pending().contains_key(id) {
            if self.pending()[id].handshaking {
                SessionState::Handshaking
            } else {
                SessionState::Connecting
            }
        } else {
            SessionState::Disconnected
        }
    }

    /// Whether the manager holds just what `before` held.
    pub open spec fn same_as(&self, before: ConnectionManager) -> bool {
        &&& self.config() == before.config()
        &&& self.needed_services() == before.needed_services()
        &&& self.listening() == before.listening()
        &&& self.pending() == before.pending()
        &&& self.table() == before.table()
        &&& self.allocated() == before.allocated()
    }

    /// Whether the manager holds what `before` held and one session more,
    /// set up from `source` under the next id.
    pub open spec fn opened(&self, before: ConnectionManager, source: PeerSource) -> bool {
        &&& self.config() == before.config()
        &&& self.needed_services() == before.needed_services()
        &&& self.listening() == before.listening()
        &&& self.table() == before.table()
        &&& self.allocated() == before.allocated() + 1
        &&& self.pending() == before.pending().insert(
            before.allocated() as PeerId,
            Pending {
                address: source.address(),
                direction: source.direction(),
                handshaking: false,
            },
        )
    }

    /// A manager without sessions.
    pub fn new(config: P2PConfig, needed_services: u64) -> (manager: ConnectionManager)
        ensures
            manager.wf(),
            manager.config() == config,
            manager.needed_services() == needed_services,
            manager.listening() == Seq::<PeerAddress>::empty(),
            manager.pending() == Map::<PeerId, Pending>::empty(),
            manager.table() == Map::<PeerId, Peer>::empty(),
            manager.allocated() == 0,
    {
        ConnectionManager::with_first_id(config, needed_services, 0)
    }

    /// A manager without sessions whose first session gets the id
    /// `first_id`, as after `first_id` earlier sessions.
    pub fn with_first_id(config: P2PConfig, needed_services: u64, first_id: PeerId) -> (manager:
        ConnectionManager)
        ensures
            manager.wf(),
            manager.config() == config,
            manager.needed_services() == needed_services,
            manager.listening() == Seq::<PeerAddress>::empty(),
            manager.pending() == Map::<PeerId, Pending>::empty(),
            manager.table() == Map::<PeerId, Peer>::empty(),
            manager.allocated() == first_id,
    {
        ConnectionManager {
            config,
            needed_services,
            listening: Vec::new(),
            pending: HashMap::new(),
            peers: HashMap::new(),
            next_id: first_id,
        }
    }

    /// What the node announces and asks for.
    pub fn configuration(&self) -> (config: &P2PConfig)
        ensures
            *config == self.config(),
    {
        &self.config
    }

    /// The services asked of every peer.
    pub fn required_services(&self) -> (needed: u64)
        ensures
            needed == self.needed_services(),
    {
        self.needed_services
    }

    /// The addresses the node listens on, in the order they were bound.
    pub fn listening_addresses(&self) -> (listening: &Vec<PeerAddress>)
        ensures
            listening@ == self.listening(),
    {
        &self.listening
    }

    /// The number of connected peers.
    pub fn connected_peer_count(&self) -> (count: usize)
        ensures
            count == self.table().len(),
    {
        broadcast use group_hash_axioms;

        self.peers.len()
    }

    /// The stage of a session.
    pub fn state(&self, peer: PeerId) -> (state: SessionState)
        ensures
            state == self.state_of(peer),
    {
        broadcast use group_hash_axioms;

        if self.peers.contains_key(&peer) {
            SessionState::Ready
        } else {
            match self.pending.get(&peer) {
                Some(session) => if session.handshaking {
                    SessionState::Handshaking
                } else {
                    SessionState::Connecting
                },
                None => SessionState::Disconnected,
            }
        }
    }

    /// Looks a connected peer up.
    pub fn peer(&self, peer: PeerId) -> (found: Option<&Peer>)
        ensures
            found == if self.table().contains_key(peer) {
                Some(&self.table()[peer])
            } else {
                None
            },
    {
        broadcast use group_hash_axioms;

        self.peers.get(&peer)
    }

    /// What this node announces in its own handshake.
    pub fn local_version(&self) -> (version: VersionInfo)
        ensures
            version == (VersionInfo {
                version: self.config().max_protocol_version,
                services: self.config().services,
                user_agent: self.config().user_agent,
                nonce: self.config().nonce,
            }),
    {
        VersionInfo {
            version: self.config.max_protocol_version,
            services: self.config.services,
            user_agent: self.config.user_agent.clone(),
            nonce: self.config.nonce,
        }
    }

    /// Records an address to listen on.
    pub fn bind(&mut self, address: PeerAddress)
        requires
            old(self).wf(),
        ensures
            final(self).wf(),
            final(self).listening() == old(self).listening().push(address),
            final(self).config() == old(self).config(),
            final(self).needed_services() == old(self).needed_services(),
            final(self).pending() == old(self).pending(),
            final(self).table() == old(self).table(),
            final(self).allocated() == old(self).allocated(),
    {
        self.listening.push(address);
    }

    /// The number of sessions that can still be set up.
    pub fn free_ids(&self) -> (free: u64)
        ensures
            free == u64::MAX - self.allocated(),
    {
        u64::MAX - self.next_id
    }

    /// Sets a session up in the stage `Connecting` and returns its id.
    ///
    /// Fails only when the ids are used up.  Sessions are not compared by
    /// address: adding an address twice gives two sessions.
    pub fn add_peer(&mut self, source: PeerSource) -> (added: Result<PeerId, Error>)
        requires
            old(self).wf(),
        ensures
            final(self).wf(),
            added is Err <==> old(self).exhausted(),
            match added {
                Ok(id) => id == old(self).allocated() && final(self).opened(*old(self), source),
                Err(error) => error == Error::ResourceExhausted && final(self).same_as(*old(self)),
            },
    {
        broadcast use group_hash_axioms;

        if self.next_id == u64::MAX {
            return Err(Error::ResourceExhausted);
        }
        let id = self.next_id;
        self.next_id = id + 1;
        self.pending.insert(
            id,
            Pending {
                address: source.address(),
                direction: source.direction(),
                handshaking: false,
            },
        );
        Ok(id)
    }

    /// Moves a session on by one event and returns its new stage.
    ///
    /// A session that ends is removed from the manager.  A session reaches the
    /// connection table only through a handshake that `rejection` lets pass.
    pub fn handle(&mut self, peer: PeerId, event: SessionEvent) -> (state: SessionState)
        requires
            old(self).wf(),
        ensures
            final(self).wf(),
            final(self).config() == old(self).config(),
            final(self).needed_services() == old(self).needed_services(),
            final(self).listening() == old(self).listening(),
            final(self).allocated() == old(self).allocated(),
            state == next_state(
                old(self).state_of(peer),
                event,
                old(self).config(),
                old(self).needed_services(),
            ),
            final(self).state_of(peer) == state,
            final(self).table().remove(peer) == old(self).table().remove(peer),
            final(self).pending().remove(peer) == old(self).pending().remove(peer),
            state == SessionState::Handshaking ==> final(self).pending()[peer] == (Pending {
                handshaking: true,
                ..old(self).pending()[peer]
            }),
            state == SessionState::Ready ==> (event matches SessionEvent::Version(remote)
                && final(self).table()[peer] == (Peer {
                address: old(self).pending()[peer].address,
                direction: old(self).pending()[peer].direction,
                version: negotiated_version(old(self).config(), remote),
                services: remote.services,
                user_agent: remote.user_agent,
                nonce: remote.nonce,
            })),
    {
        broadcast use group_hash_axioms;

        let waiting = self.pending.remove(&peer);
        self.peers.remove(&peer);
        match waiting {
            Some(session) => match event {
                SessionEvent::Connected => {
                    if session.handshaking {
                        SessionState::Disconnected
                    } else {
                        self.pending.insert(
                            peer,
                            Pending {
                                address: session.address,
                                direction: session.direction,
                                handshaking: true,
                            },
                        );
                        SessionState::Handshaking
                    }
                },
                SessionEvent::Version(remote) => {
                    if session.handshaking {
                        match negotiate(&self.config, self.needed_services, &remote) {
                            Ok(version) => {
                                self.peers.insert(
                                    peer,
                                    Peer {
                                        address: session.address,
                                        direction: session.direction,
                                        version,
                                        services: remote.services,
                                        user_agent: remote.user_agent,
                                        nonce: remote.nonce,
                                    },
                                );
                                SessionState::Ready
                            },
                            Err(_) => SessionState::Disconnected,
                        }
                    } else {
                        SessionState::Disconnected
                    }
                },
                SessionEvent::Failed => SessionState::Disconnected,
            },
            None => SessionState::Disconnected,
        }
    }

    /// Tears a session down, whatever its stage.  Doing so again changes
    /// nothing.
    pub fn disconnect(&mut self, peer: PeerId)
        requires
            old(self).wf(),
        ensures
            final(self).wf(),
            final(self).config() == old(self).config(),
            final(self).needed_services() == old(self).needed_services(),
            final(self).listening() == old(self).listening(),
            final(self).allocated() == old(self).allocated(),
            final(self).table() == old(self).table().remove(peer),
            final(self).pending() == old(self).pending().remove(peer),
            final(self).state_of(peer) == SessionState::Disconnected,
            old(self).state_of(peer) == SessionState::Disconnected ==> final(self).same_as(
                *old(self),
            ),
    {
        broadcast use group_hash_axioms;

        self.pending.remove(&peer);
        self.peers.remove(&peer);
        proof {
            if old(self).state_of(peer) == SessionState::Disconnected {
                assert(old(self).table().remove(peer) =~= old(self).table());
                assert(old(self).pending().remove(peer) =~= old(self).pending());
            }
        }
    }

    /// Addresses a message to a connected peer.
    ///
    /// Returns the envelope for the transport to write out, or `PeerNotFound`
    /// where the peer is not in the connection table.
    pub fn send<M>(&self, peer: PeerId, message: M) -> (outgoing: Result<Envelope<M>, Error>)
        ensures
            outgoing == if self.table().contains_key(peer) {
                Ok::<Envelope<M>, Error>(Envelope { peer, message })
            } else {
                Err(Error::PeerNotFound)
            },
    {
        broadcast use group_hash_axioms;

        if self.peers.contains_key(&peer) {
            Ok(Envelope { peer, message })
        } else {
            Err(Error::PeerNotFound)
        }
    }

    /// Passes a message that a session read on to the dispatch channel.
    ///
    /// Only a ready session's messages are passed on.  Nothing is dropped for
    /// want of room: from a full channel the envelope comes back.
    pub fn receive<M>(&self, peer: PeerId, message: M, channel: &mut Channel<M>) -> (inbound:
        Inbound<M>)
        requires
            old(channel).wf(),
        ensures
            final(channel).wf(),
            final(channel).spec_capacity() == old(channel).spec_capacity(),
            !self.table().contains_key(peer) ==> inbound == Inbound::Ignored(message)
                && final(channel)@ == old(channel)@,
            self.table().contains_key(peer) && !old(channel).spec_is_full() ==> inbound
                == Inbound::<M>::Queued && final(channel)@ == old(channel)@.push(
                Envelope { peer, message },
            ),
            self.table().contains_key(peer) && old(channel).spec_is_full() ==> inbound
                == Inbound::Blocked(Envelope { peer, message }) && final(channel)@ == old(
                channel,
            )@,
    {
        broadcast use group_hash_axioms;

        if self.peers.contains_key(&peer) {
            match channel.try_send(Envelope { peer, message }) {
                Ok(()) => Inbound::Queued,
                Err(envelope) => Inbound::Blocked(envelope),
            }
        } else {
            Inbound::Ignored(message)
        }
    }

    /// What a command makes of the manager `before`, and what it leaves for
    /// the transport to do.
    ///
    /// `Bind` records the address.  `AddPeer` sets a session up under the
    /// next id, or fails for want of ids.  `Send` addresses the message to a
    /// connected peer, or fails where the peer is not in the table.
    /// `Disconnect` removes the session, if there is one.  A command that
    /// fails changes nothing.
    pub open spec fn controlled<M>(
        &self,
        before: ConnectionManager,
        command: P2PControl<M>,
        outcome: Result<ControlOutcome<M>, Error>,
    ) -> bool {
        match command {
            P2PControl::Bind(address) => {
                &&& outcome == Ok::<ControlOutcome<M>, Error>(ControlOutcome::Listen(address))
                &&& self.listening() == before.listening().push(address)
                &&& self.config() == before.config()
                &&& self.needed_services() == before.needed_services()
                &&& self.pending() == before.pending()
                &&& self.table() == before.table()
                &&& self.allocated() == before.allocated()
            },
            P2PControl::AddPeer(source) => if before.exhausted() {
                &&& outcome == Err::<ControlOutcome<M>, Error>(Error::ResourceExhausted)
                &&& self.same_as(before)
            } else {
                &&& outcome == Ok::<ControlOutcome<M>, Error>(
                    ControlOutcome::Opened(before.allocated() as PeerId, source),
                )
                &&& self.opened(before, source)
            },
            P2PControl::Send(peer, message) => {
                &&& self.same_as(before)
                &&& outcome == if before.table().contains_key(peer) {
                    Ok::<ControlOutcome<M>, Error>(
                        ControlOutcome::Transmit(Envelope { peer, message }),
                    )
                } else {
                    Err(Error::PeerNotFound)
                }
            },
            P2PControl::Disconnect(peer) => {
                &&& outcome == Ok::<ControlOutcome<M>, Error>(ControlOutcome::Closed(peer))
                &&& self.config() == before.config()
                &&& self.needed_services() == before.needed_services()
                &&& self.listening() == before.listening()
                &&& self.allocated() == before.allocated()
                &&& self.table() == before.table().remove(peer)
                &&& self.pending() == before.pending().remove(peer)
            },
        }
    }

    /// Carries out a command and returns what is left for the transport to
    /// do.
    pub fn control<M>(&mut self, command: P2PControl<M>) -> (outcome: Result<
        ControlOutcome<M>,
        Error,
    >)
        requires
            old(self).wf(),
        ensures
            final(self).wf(),
            final(self).controlled(*old(self), command, outcome),
    {
        match command {
            P2PControl::Bind(address) => {
                self.bind(address);
                Ok(ControlOutcome::Listen(address))
            },
            P2PControl::AddPeer(source) => match self.add_peer(source) {
                Ok(id) => Ok(ControlOutcome::Opened(id, source)),
                Err(error) => Err(error),
            },
            P2PControl::Send(peer, message) => match self.send(peer, message) {
                Ok(envelope) => Ok(ControlOutcome::Transmit(envelope)),
                Err(error) => Err(error),
            },
            P2PControl::Disconnect(peer) => {
                self.disconnect(peer);
                Ok(ControlOutcome::Closed(peer))
            },
        }
    }
}

/// No peer in the connection table has the node's own nonce: the node is
/// never connected to itself.
pub proof fn lemma_table_excludes_self(manager: ConnectionManager, id: PeerId)
    requires
        manager.wf(),
        manager.table().contains_key(id),
    ensures
        manager.table()[id].nonce != manager.config().nonce,
        manager.state_of(id) == SessionState::Ready,
{
}

} // verus!
