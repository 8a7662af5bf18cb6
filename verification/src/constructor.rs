//! Assembles the parts of the stack and starts it.

use crate::address::PeerAddress;
use crate::channel::{Channel, Envelope};
use crate::command::Command;
use crate::dispatcher::{Dispatcher, Failure, ListenerId};
use crate::entropy::random_u64;
use crate::error::Error;
use crate::keep_connected::{Dial, KeepConnected};
use crate::p2p::{ConnectionManager, ControlOutcome, Peer, Pending};
use crate::services::no_services;
use crate::session::{Direction, P2PConfig, PeerId, PeerSource};
use crate::timeout::{
    deadline_after, distinct_keys, due, remaining, requests, Armed, ExpiryAction, PendingRequest,
    RequestKey, TimeoutRegistry,
};
use bitcoin::network::constants::Network;
use bitcoin::network::message::NetworkMessage;
use vstd::prelude::*;

verus! {

/// `NetworkMessage` of the `bitcoin` crate: a decoded message of the
/// peer-to-peer protocol.  It is opaque here: the stack carries it from a
/// session to the listeners and never looks inside.
#[verifier::external_type_specification]
#[verifier::external_body]
pub struct ExNetworkMessage(NetworkMessage);

/// The capacity of the channel between the sessions and the dispatcher.
pub const BACK_PRESSURE: usize = 10;

/// The newest protocol version the node speaks.
pub const MAX_PROTOCOL_VERSION: u32 = 70001;

/// The oldest protocol version the node accepts of a peer.
pub const MIN_PROTOCOL_VERSION: u32 = 70001;

/// What the node calls itself in its handshake.
pub const USER_AGENT: &'static str = "/Murmel:0.1.0/";

/// The listener that downloads block headers; it is registered first.
pub const HEADER_DOWNLOAD: ListenerId = 0;

/// The listener that answers and sends pings; it is registered second.
pub const PING: ListenerId = 1;

/// Where the chain database is kept.
pub enum Storage {
    /// In a file at this path.
    Persistent(String),
    /// In memory, for the life of the process.
    Memory,
}

/// The chain database to open.
pub struct ChainDB {
    pub storage: Storage,
    pub network: Network,
}

/// Whether an expiry action tears the peer's session down.
pub open spec fn disconnects(action: ExpiryAction) -> bool {
    action is Disconnect || action is DisconnectAndRetry
}

/// The peers that the overdue requests `fired` have disconnected.
pub open spec fn dropped_by(fired: Seq<PendingRequest>) -> Set<PeerId> {
    Set::new(
        |peer: PeerId|
            exists|i: int|
                0 <= i < fired.len() && (#[trigger] fired[i]).peer == peer && disconnects(
                    fired[i].action,
                ),
    )
}

/// The sessions `before` and one more for each of `addresses`, under the ids
/// from `first` on, each outbound and about to connect.
pub open spec fn dialled(
    before: Map<PeerId, Pending>,
    first: nat,
    addresses: Seq<PeerAddress>,
) -> Map<PeerId, Pending> {
    Map::new(
        |id: PeerId| before.contains_key(id) || first <= id < first + addresses.len(),
        |id: PeerId|
            if first <= id < first + addresses.len() {
                Pending {
                    address: addresses[id - first],
                    direction: Direction::Outbound,
                    handshaking: false,
                }
            } else {
                before[id]
            },
    )
}

/// The connections to attempt for `addresses`, in their order, under the ids
/// from `first` on.
pub open spec fn dials(first: nat, addresses: Seq<PeerAddress>) -> Seq<Dial> {
    Seq::new(
        addresses.len(),
        |i: int| Dial { peer: (first + i) as PeerId, address: addresses[i] },
    )
}

/// The complete stack.
pub struct Constructor {
    pub p2p: ConnectionManager,
    pub channel: Channel<NetworkMessage>,
    pub dispatcher: Dispatcher,
    pub timeout: TimeoutRegistry,
    /// The connectivity maintainer, once the stack runs.
    pub keep_connected: Option<KeepConnected>,
}

impl Constructor {
    /// Every part of the stack is well-formed.
    pub open spec fn wf(&self) -> bool {
        &&& self.p2p.wf()
        &&& self.channel.wf()
        &&& self.timeout.wf()
        &&& self.keep_connected matches Some(maintainer) ==> maintainer.wf()
    }

    /// Whether this is the stack as it is assembled for `network`, the
    /// listening addresses `listen` and the node's `nonce`: nothing queued,
    /// nothing pending, no session, the header download registered before the
    /// ping, and the maintainer not yet started.
    pub open spec fn assembled(
        &self,
        network: Network,
        listen: Seq<PeerAddress>,
        nonce: u64,
    ) -> bool {
        &&& self.wf()
        &&& self.p2p.config().network == network
        &&& self.p2p.config().nonce == nonce
        &&& self.p2p.config().max_protocol_version == MAX_PROTOCOL_VERSION
        &&& self.p2p.config().min_protocol_version == MIN_PROTOCOL_VERSION
        &&& self.p2p.config().user_agent@ == USER_AGENT@
        &&& self.p2p.config().services == 0
        &&& self.p2p.config().height == 0
        &&& self.p2p.config().server == (listen.len() > 0)
        &&& self.p2p.needed_services() == 0
        &&& self.p2p.listening() == listen
        &&& self.p2p.pending() == Map::<PeerId, Pending>::empty()
        &&& self.p2p.table() == Map::<PeerId, Peer>::empty()
        &&& self.p2p.allocated() == 0
        &&& self.channel@ == Seq::<Envelope<NetworkMessage>>::empty()
        &&& self.channel.spec_capacity() == BACK_PRESSURE
        &&& self.dispatcher.listeners() == seq![HEADER_DOWNLOAD, PING]
        &&& self.dispatcher.failures() == Seq::<Failure>::empty()
        &&& self.timeout@ == Map::<RequestKey, Armed>::empty()
        &&& self.keep_connected is None
    }

    /// Says which chain database to open: the one in the file at `path`, or
    /// one in memory where no path is given.
    pub fn open_db(path: Option<&str>, network: Network, _birth: u64) -> (db: ChainDB)
        ensures
            db.network == network,
            match path {
                Some(file) => db.storage matches Storage::Persistent(name) && name@ == file@,
                None => db.storage is Memory,
            },
    {
        let storage = match path {
            Some(file) => Storage::Persistent(file.to_owned()),
            None => Storage::Memory,
        };
        ChainDB { storage, network }
    }

    /// Assembles the stack around a given nonce.
    ///
    /// The node is a server exactly if it has an address to listen on, and
    /// every such address is bound, in the order given.
    pub fn with_nonce(network: Network, listen: Vec<PeerAddress>, nonce: u64) -> (stack:
        Constructor)
        ensures
            stack.assembled(network, listen@, nonce),
    {
        let config = P2PConfig {
            network,
            nonce,
            max_protocol_version: MAX_PROTOCOL_VERSION,
            min_protocol_version: MIN_PROTOCOL_VERSION,
            user_agent: USER_AGENT.to_owned(),
            services: no_services(),
            height: 0,
            server: listen.len() > 0,
        };
        let mut p2p = ConnectionManager::new(config, no_services());
        let channel = Channel::new(BACK_PRESSURE);
        let timeout = TimeoutRegistry::new();
        let mut dispatcher = Dispatcher::new();
        dispatcher.add_listener(HEADER_DOWNLOAD);
        dispatcher.add_listener(PING);
        let ghost fresh = p2p;
        let mut i: usize = 0;
        while i < listen.len()
            invariant
                i <= listen.len(),
                p2p.wf(),
                p2p.config() == fresh.config(),
                p2p.needed_services() == fresh.needed_services(),
                p2p.pending() == fresh.pending(),
                p2p.table() == fresh.table(),
                p2p.allocated() == fresh.allocated(),
                p2p.listening() == listen@.take(i as int),
            decreases listen.len() - i,
        {
            p2p.bind(listen[i]);
            i += 1;
        }
        proof {
            assert(listen@.take(i as int) =~= listen@);
            assert(dispatcher.listeners() =~= seq![HEADER_DOWNLOAD, PING]);
        }
        Constructor { p2p, channel, dispatcher, timeout, keep_connected: None }
    }

    /// Assembles the stack around a random nonce.
    ///
    /// Whatever nonce is drawn, the stack is the one that `with_nonce` makes
    /// of it.
    pub fn new(network: Network, listen: Vec<PeerAddress>) -> (made: Result<Constructor, Error>)
        ensures
            made matches Ok(stack) && exists|nonce: u64| stack.assembled(network, listen@, nonce),
    {
        let nonce = random_u64();
        Ok(Constructor::with_nonce(network, listen, nonce))
    }

    /// Starts the stack: sets up an outbound session for each of `peers`, in
    /// their order, and starts the connectivity maintainer over the
    /// discovered addresses `seeds` with the target `min_connections`.
    ///
    /// Returns the connections to attempt.  Where the ids do not suffice for
    /// all of `peers`, nothing is started and nothing changes.
    pub fn run(
        &mut self,
        peers: Vec<PeerAddress>,
        seeds: Vec<PeerAddress>,
        min_connections: usize,
    ) -> (started: Result<Vec<Dial>, Error>)
        requires
            old(self).wf(),
        ensures
            final(self).wf(),
            final(self).channel == old(self).channel,
            final(self).dispatcher == old(self).dispatcher,
            final(self).timeout == old(self).timeout,
            final(self).p2p.config() == old(self).p2p.config(),
            final(self).p2p.needed_services() == old(self).p2p.needed_services(),
            final(self).p2p.listening() == old(self).p2p.listening(),
            final(self).p2p.table() == old(self).p2p.table(),
            started is Err <==> old(self).p2p.allocated() + peers@.len() > u64::MAX,
            match started {
                Ok(attempts) => {
                    &&& attempts@ == dials(old(self).p2p.allocated(), peers@)
                    &&& final(self).p2p.allocated() == old(self).p2p.allocated() + peers@.len()
                    &&& final(self).p2p.pending() == dialled(
                        old(self).p2p.pending(),
                        old(self).p2p.allocated(),
                        peers@,
                    )
                    &&& final(self).keep_connected matches Some(maintainer)
                    &&& maintainer.known() == seeds@
                    &&& maintainer.tried() == Set::<PeerAddress>::empty()
                    &&& maintainer.target() == min_connections
                },
                Err(error) => {
                    &&& error == Error::ResourceExhausted
                    &&& final(self).p2p.same_as(old(self).p2p)
                    &&& final(self).keep_connected == old(self).keep_connected
                },
            },
    {
        if peers.len() as u64 > self.p2p.free_ids() {
            return Err(Error::ResourceExhausted);
        }
        let ghost before = self.p2p;
        let ghost first = self.p2p.allocated();
        let mut attempts: Vec<Dial> = Vec::new();
        let mut i: usize = 0;
        while i < peers.len()
            invariant
                i <= peers.len(),
                before.wf(),
                first == before.allocated(),
                first + peers@.len() <= u64::MAX,
                self.p2p.wf(),
                self.channel == old(self).channel,
                self.dispatcher == old(self).dispatcher,
                self.timeout == old(self).timeout,
                self.keep_connected == old(self).keep_connected,
                self.p2p.config() == before.config(),
                self.p2p.needed_services() == before.needed_services(),
                self.p2p.listening() == before.listening(),
                self.p2p.table() == before.table(),
                self.p2p.allocated() == first + i,
                self.p2p.pending() == dialled(before.pending(), first, peers@.take(i as int)),
                attempts@ == dials(first, peers@.take(i as int)),
            decreases peers.len() - i,
        {
            let address = peers[i];
            match self.p2p.add_peer(PeerSource::Outgoing(address)) {
                Ok(peer) => {
                    attempts.push(Dial { peer, address });
                },
                // The ids were counted before the first session was set up.
                Err(_) => {},
            }
            i += 1;
        }
        self.keep_connected = Some(KeepConnected::new(seeds, min_connections));
        Ok(attempts)
    }

    /// One tick of the connectivity maintainer.
    ///
    /// Before the stack runs there is no maintainer, and nothing happens.
    /// Else the tick is one of those that `KeepConnected::ticked` describes,
    /// for some number drawn at random: at most one connection is initiated,
    /// and it is returned to be dialled.
    pub fn tick(&mut self) -> (dial: Option<Dial>)
        requires
            old(self).wf(),
        ensures
            final(self).wf(),
            final(self).channel == old(self).channel,
            final(self).dispatcher == old(self).dispatcher,
            final(self).timeout == old(self).timeout,
            match old(self).keep_connected {
                None => dial is None && *final(self) == *old(self),
                Some(before) => {
                    &&& final(self).keep_connected matches Some(after)
                    &&& exists|draw: u32|
                        KeepConnected::ticked(
                            before,
                            old(self).p2p,
                            draw,
                            after,
                            final(self).p2p,
                            dial,
                        )
                },
            },
    {
        match &mut self.keep_connected {
            Some(maintainer) => maintainer.poll(&mut self.p2p),
            None => None,
        }
    }

    /// Carries out a command of a listener at the time `now`.
    ///
    /// A command to the connection manager is passed on to it, and what is
    /// left for the transport to do is returned.  Arming and disarming act on
    /// the timeout registry and leave nothing to do.
    pub fn execute(&mut self, command: Command<NetworkMessage>, now: u64) -> (outcome: Result<
        Option<ControlOutcome<NetworkMessage>>,
        Error,
    >)
        requires
            old(self).wf(),
        ensures
            final(self).wf(),
            final(self).channel == old(self).channel,
            final(self).dispatcher == old(self).dispatcher,
            final(self).keep_connected == old(self).keep_connected,
            match command {
                Command::Control(control) => {
                    &&& final(self).timeout == old(self).timeout
                    &&& match outcome {
                        Ok(Some(todo)) => final(self).p2p.controlled(
                            old(self).p2p,
                            control,
                            Ok(todo),
                        ),
                        Ok(None) => false,
                        Err(error) => final(self).p2p.controlled(
                            old(self).p2p,
                            control,
                            Err(error),
                        ),
                    }
                },
                Command::Arm { peer, kind, duration, action } => {
                    &&& outcome == Ok::<Option<ControlOutcome<NetworkMessage>>, Error>(None)
                    &&& final(self).p2p == old(self).p2p
                    &&& final(self).timeout@ == old(self).timeout@.insert(
                        (peer, kind),
                        Armed { deadline: deadline_after(now, duration), action },
                    )
                },
                Command::Disarm { peer, kind } => {
                    &&& outcome == Ok::<Option<ControlOutcome<NetworkMessage>>, Error>(None)
                    &&& final(self).p2p == old(self).p2p
                    &&& final(self).timeout@ == old(self).timeout@.remove((peer, kind))
                },
            },
    {
        match command {
            Command::Control(control) => match self.p2p.control(control) {
                Ok(todo) => Ok(Some(todo)),
                Err(error) => Err(error),
            },
            Command::Arm { peer, kind, duration, action } => {
                self.timeout.arm(peer, kind, now, duration, action);
                Ok(None)
            },
            Command::Disarm { peer, kind } => {
                self.timeout.disarm(peer, kind);
                Ok(None)
            },
        }
    }

    /// Sweeps the timeout registry at the time `now` and disconnects the
    /// peers whose overdue requests ask for it.
    ///
    /// Returns the overdue requests, each once, for the transport to close
    /// the connections and for the listeners that are to retry.
    pub fn sweep(&mut self, now: u64) -> (fired: Vec<PendingRequest>)
        requires
            old(self).wf(),
        ensures
            final(self).wf(),
            final(self).channel == old(self).channel,
            final(self).dispatcher == old(self).dispatcher,
            final(self).keep_connected == old(self).keep_connected,
            final(self).timeout@ == remaining(old(self).timeout@, now),
            distinct_keys(fired@),
            requests(fired@) == due(old(self).timeout@, now),
            final(self).p2p.config() == old(self).p2p.config(),
            final(self).p2p.needed_services() == old(self).p2p.needed_services(),
            final(self).p2p.listening() == old(self).p2p.listening(),
            final(self).p2p.allocated() == old(self).p2p.allocated(),
            final(self).p2p.table() == old(self).p2p.table().remove_keys(dropped_by(fired@)),
            final(self).p2p.pending() == old(self).p2p.pending().remove_keys(dropped_by(fired@)),
    {
        let fired = self.timeout.sweep(now);
        let ghost before = self.p2p;
        let mut i: usize = 0;
        while i < fired.len()
            invariant
                i <= fired.len(),
                self.p2p.wf(),
                self.channel == old(self).channel,
                self.dispatcher == old(self).dispatcher,
                self.keep_connected == old(self).keep_connected,
                self.timeout.wf(),
                self.timeout@ == remaining(old(self).timeout@, now),
                self.p2p.config() == before.config(),
                self.p2p.needed_services() == before.needed_services(),
                self.p2p.listening() == before.listening(),
                self.p2p.allocated() == before.allocated(),
                self.p2p.table() == before.table().remove_keys(
                    dropped_by(fired@.take(i as int)),
                ),
                self.p2p.pending() == before.pending().remove_keys(
                    dropped_by(fired@.take(i as int)),
                ),
            decreases fired.len() - i,
        {
            let request = fired[i];
            let ghost shorter = fired@.take(i as int);
            let ghost longer = fired@.take(i + 1);
            proof {
                assert forall|peer: PeerId| dropped_by(longer).contains(peer) <==> dropped_by(
                    shorter,
                ).contains(peer) || (peer == request.peer && disconnects(request.action)) by {
                    if peer == request.peer && disconnects(request.action) {
                        assert(longer[i as int] == request);
                    }
                }
            }
            match request.action {
                ExpiryAction::Disconnect => {
                    self.p2p.disconnect(request.peer);
                },
                ExpiryAction::DisconnectAndRetry(_) => {
                    self.p2p.disconnect(request.peer);
                },
                ExpiryAction::Retry(_) => {},
            }
            i += 1;
        }
        proof {
            assert(fired@.take(i as int) =~= fired@);
        }
        fired
    }
}

} // verus!
