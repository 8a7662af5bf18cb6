//! The life of one peer session, from dial or accept to teardown.

use crate::address::PeerAddress;
use crate::services::{has_services, offers};
use bitcoin::network::constants::Network;
use vstd::prelude::*;

verus! {

/// `Network` of the `bitcoin` crate: the network that a node takes part in.
/// It is opaque here: the stack only passes it on.
#[verifier::external_type_specification]
#[verifier::external_body]
pub struct ExNetwork(Network);

/// Identifies a session for as long as the stack lives.
pub type PeerId = u64;

/// What the node announces of itself, and what it asks of its peers.
pub struct P2PConfig {
    pub network: Network,
    /// Sent in every handshake; a peer that sends it back is this node.
    pub nonce: u64,
    pub max_protocol_version: u32,
    pub min_protocol_version: u32,
    pub user_agent: String,
    /// The service bits that the node announces.
    pub services: u64,
    pub height: u32,
    /// Whether inbound connections are accepted.
    pub server: bool,
}

/// Who opened the connection.
#[derive(Clone, Copy, Debug, PartialEq, Eq, Structural)]
pub enum Direction {
    Inbound,
    Outbound,
}

/// Where a new session comes from.
#[derive(Clone, Copy, Debug, PartialEq, Eq, Structural)]
pub enum PeerSource {
    /// An address to dial.
    Outgoing(PeerAddress),
    /// The remote address of a connection that was accepted.
    Incoming(PeerAddress),
}

impl PeerSource {
    pub open spec fn spec_address(self) -> PeerAddress {
        match self {
            PeerSource::Outgoing(address) => address,
            PeerSource::Incoming(address) => address,
        }
    }

    pub open spec fn spec_direction(self) -> Direction {
        match self {
            PeerSource::Outgoing(_) => Direction::Outbound,
            PeerSource::Incoming(_) => Direction::Inbound,
        }
    }

    #[verifier::when_used_as_spec(spec_address)]
    pub fn address(self) -> (address: PeerAddress)
        ensures
            address == self.spec_address(),
    {
        match self {
            PeerSource::Outgoing(address) => address,
            PeerSource::Incoming(address) => address,
        }
    }

    #[verifier::when_used_as_spec(spec_direction)]
    pub fn direction(self) -> (direction: Direction)
        ensures
            direction == self.spec_direction(),
    {
        match self {
            PeerSource::Outgoing(_) => Direction::Outbound,
            PeerSource::Incoming(_) => Direction::Inbound,
        }
    }
}

/// The stages of a session.
#[derive(Clone, Copy, Debug, PartialEq, Eq, Structural)]
pub enum SessionState {
    /// Dialled or accepted; the transport is not yet established.
    Connecting,
    /// The transport stands; the peer's handshake is awaited.
    Handshaking,
    /// The handshake was accepted; messages flow.
    Ready,
    /// Torn down, or never set up.
    Disconnected,
}

/// What a peer announces of itself in its handshake.
pub struct VersionInfo {
    pub version: u32,
    pub services: u64,
    pub user_agent: String,
    pub nonce: u64,
}

/// What happens to a session.
pub enum SessionEvent {
    /// The transport was established.
    Connected,
    /// The peer's handshake arrived.
    Version(VersionInfo),
    /// The transport failed or the peer broke the protocol.
    Failed,
}

/// Why a handshake is turned down.
#[derive(Clone, Copy, Debug, PartialEq, Eq, Structural)]
pub enum Rejection {
    /// The peer sent this node's own nonce: the node has dialled itself.
    SelfConnection,
    /// The protocol version that the two ends have in common is older than
    /// the configured minimum.
    ObsoleteVersion,
    /// The peer lacks a service that is asked of every peer.
    MissingServices,
}

/// The protocol version spoken with a peer: the older of the two ends'.
pub open spec fn negotiated_version(config: P2PConfig, remote: VersionInfo) -> u32 {
    if remote.version < config.max_protocol_version {
        remote.version
    } else {
        config.max_protocol_version
    }
}

/// The first reason, if any, to turn a handshake down.
pub open spec fn rejection(config: P2PConfig, needed: u64, remote: VersionInfo) -> Option<
    Rejection,
> {
    if remote.nonce == config.nonce {
        Some(Rejection::SelfConnection)
    } else if negotiated_version(config, remote) < config.min_protocol_version {
        Some(Rejection::ObsoleteVersion)
    } else if !has_services(remote.services, needed) {
        Some(Rejection::MissingServices)
    } else {
        None
    }
}

/// The stage that follows `state` on `event`.
///
/// Only two steps lead forward; any other event ends the session.
pub open spec fn next_state(
    state: SessionState,
    event: SessionEvent,
    config: P2PConfig,
    needed: u64,
) -> SessionState {
    match (state, event) {
        (SessionState::Connecting, SessionEvent::Connected) => SessionState::Handshaking,
        (SessionState::Handshaking, SessionEvent::Version(remote)) => {
            if rejection(config, needed, remote) is None {
                SessionState::Ready
            } else {
                SessionState::Disconnected
            }
        },
        _ => SessionState::Disconnected,
    }
}

/// A session whose peer sends the node's own nonce ends there, whatever
/// stage it was in and whatever else the handshake says.
pub proof fn lemma_own_nonce_ends_session(
    state: SessionState,
    remote: VersionInfo,
    config: P2PConfig,
    needed: u64,
)
    requires
        remote.nonce == config.nonce,
    ensures
        rejection(config, needed, remote) == Some(Rejection::SelfConnection),
        next_state(state, SessionEvent::Version(remote), config, needed)
            == SessionState::Disconnected,
{
}

/// Judges a peer's handshake: the protocol version to speak, or the reason
/// to tear the session down.
pub fn negotiate(config: &P2PConfig, needed: u64, remote: &VersionInfo) -> (verdict: Result<
    u32,
    Rejection,
>)
    ensures
        verdict == match rejection(*config, needed, *remote) {
            Some(reason) => Err::<u32, Rejection>(reason),
            None => Ok(negotiated_version(*config, *remote)),
        },
{
    let version = if remote.version < config.max_protocol_version {
        remote.version
    } else {
        config.max_protocol_version
    };
    if remote.nonce == config.nonce {
        Err(Rejection::SelfConnection)
    } else if version < config.min_protocol_version {
        Err(Rejection::ObsoleteVersion)
    } else if !offers(remote.services, needed) {
        Err(Rejection::MissingServices)
    } else {
        Ok(version)
    }
}

} // verus!
