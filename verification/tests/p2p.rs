use bitcoin::network::constants::Network;
use murmel::address::PeerAddress;
use murmel::channel::Channel;
use murmel::error::Error;
use murmel::p2p::{ConnectionManager, ControlOutcome, Inbound, P2PControl};
use murmel::session::{
    negotiate, Direction, P2PConfig, PeerSource, Rejection, SessionEvent, SessionState,
    VersionInfo,
};

const OWN_NONCE: u64 = 0x1234_5678_9abc_def0;

fn config() -> P2PConfig {
    P2PConfig {
        network: Network::Bitcoin,
        nonce: OWN_NONCE,
        max_protocol_version: 70015,
        min_protocol_version: 70001,
        user_agent: "/test:1.0/".to_string(),
        services: 0,
        height: 0,
        server: true,
    }
}

fn address(last: u32) -> PeerAddress {
    PeerAddress::V4 { host: 0x0a00_0000 + last, port: 8333 }
}

fn remote(version: u32, services: u64, nonce: u64) -> VersionInfo {
    VersionInfo { version, services, user_agent: "/remote:0.1/".to_string(), nonce }
}

fn connect(manager: &mut ConnectionManager, last: u32) -> u64 {
    let id = manager.add_peer(PeerSource::Outgoing(address(last))).unwrap();
    assert_eq!(manager.handle(id, SessionEvent::Connected), SessionState::Handshaking);
    let version = remote(70012, 1, 1_000 + u64::from(last));
    assert_eq!(manager.handle(id, SessionEvent::Version(version)), SessionState::Ready);
    id
}

#[test]
fn negotiate_takes_the_older_version() {
    assert_eq!(negotiate(&config(), 0, &remote(70012, 0, 1)), Ok(70012));
    assert_eq!(negotiate(&config(), 0, &remote(70015, 0, 1)), Ok(70015));
    assert_eq!(negotiate(&config(), 0, &remote(70016, 0, 1)), Ok(70015));
    assert_eq!(negotiate(&config(), 0, &remote(70001, 0, 1)), Ok(70001));
}

#[test]
fn negotiate_rejects_own_nonce() {
    assert_eq!(
        negotiate(&config(), 0, &remote(70015, 0, OWN_NONCE)),
        Err(Rejection::SelfConnection)
    );
    // The nonce is judged before anything else.
    assert_eq!(
        negotiate(&config(), 8, &remote(1, 0, OWN_NONCE)),
        Err(Rejection::SelfConnection)
    );
}

#[test]
fn negotiate_rejects_obsolete_version() {
    assert_eq!(negotiate(&config(), 0, &remote(70000, 0, 1)), Err(Rejection::ObsoleteVersion));
    assert_eq!(negotiate(&config(), 8, &remote(60002, 0, 1)), Err(Rejection::ObsoleteVersion));
}

#[test]
fn negotiate_asks_for_every_needed_service() {
    assert_eq!(negotiate(&config(), 0b0100, &remote(70015, 0b0101, 1)), Ok(70015));
    assert_eq!(negotiate(&config(), 0b0101, &remote(70015, 0b0101, 1)), Ok(70015));
    assert_eq!(
        negotiate(&config(), 0b0010, &remote(70015, 0b0101, 1)),
        Err(Rejection::MissingServices)
    );
    assert_eq!(
        negotiate(&config(), 0b0111, &remote(70015, 0b0101, 1)),
        Err(Rejection::MissingServices)
    );
    assert_eq!(negotiate(&config(), 0, &remote(70015, 0, 1)), Ok(70015));
    assert_eq!(negotiate(&config(), 1, &remote(70015, 0, 1)), Err(Rejection::MissingServices));
    // Asking for bit 0 of a peer that offers bit 0 and asking for what it
    // offers are different questions from handing either mask back.
    assert_eq!(negotiate(&config(), 2, &remote(70015, 1, 1)), Err(Rejection::MissingServices));
    assert_eq!(negotiate(&config(), u64::MAX, &remote(70015, u64::MAX, 1)), Ok(70015));
}

#[test]
fn new_manager_has_no_sessions() {
    let manager = ConnectionManager::new(config(), 0);
    assert_eq!(manager.connected_peer_count(), 0);
    assert_eq!(manager.state(0), SessionState::Disconnected);
    assert!(manager.peer(0).is_none());
    assert!(manager.listening_addresses().is_empty());
    assert_eq!(manager.required_services(), 0);
    assert_eq!(manager.configuration().nonce, OWN_NONCE);
    assert_eq!(manager.configuration().max_protocol_version, 70015);
    assert_eq!(manager.configuration().min_protocol_version, 70001);
    assert_eq!(manager.free_ids(), u64::MAX);
}

#[test]
fn nobody_is_accepted_when_the_minimum_is_above_the_maximum() {
    let mut odd = config();
    odd.min_protocol_version = 80000;
    assert_eq!(negotiate(&odd, 0, &remote(80000, 0, 1)), Err(Rejection::ObsoleteVersion));
    assert_eq!(negotiate(&odd, 0, &remote(90000, 0, 1)), Err(Rejection::ObsoleteVersion));
    assert_eq!(negotiate(&odd, 0, &remote(70015, 0, 1)), Err(Rejection::ObsoleteVersion));

    let mut manager = ConnectionManager::new(odd, 0);
    assert_eq!(manager.configuration().min_protocol_version, 80000);
    assert_eq!(manager.configuration().max_protocol_version, 70015);
    let id = manager.add_peer(PeerSource::Outgoing(address(1))).unwrap();
    manager.handle(id, SessionEvent::Connected);
    assert_eq!(
        manager.handle(id, SessionEvent::Version(remote(80000, 0, 1))),
        SessionState::Disconnected
    );
    assert_eq!(manager.connected_peer_count(), 0);
}

#[test]
fn session_goes_through_its_stages() {
    let mut manager = ConnectionManager::new(config(), 0);
    let id = manager.add_peer(PeerSource::Outgoing(address(1))).unwrap();
    assert_eq!(id, 0);
    assert_eq!(manager.state(id), SessionState::Connecting);
    assert_eq!(manager.connected_peer_count(), 0);

    assert_eq!(manager.handle(id, SessionEvent::Connected), SessionState::Handshaking);
    assert_eq!(manager.state(id), SessionState::Handshaking);
    assert_eq!(manager.connected_peer_count(), 0);
    assert!(manager.peer(id).is_none());

    let state = manager.handle(id, SessionEvent::Version(remote(70012, 9, 42)));
    assert_eq!(state, SessionState::Ready);
    assert_eq!(manager.state(id), SessionState::Ready);
    assert_eq!(manager.connected_peer_count(), 1);

    let peer = manager.peer(id).unwrap();
    assert_eq!(peer.address, address(1));
    assert_eq!(peer.direction, Direction::Outbound);
    assert_eq!(peer.version, 70012);
    assert_eq!(peer.services, 9);
    assert_eq!(peer.user_agent, "/remote:0.1/");
    assert_eq!(peer.nonce, 42);
}

#[test]
fn accepted_connection_is_inbound() {
    let mut manager = ConnectionManager::new(config(), 0);
    let id = manager.add_peer(PeerSource::Incoming(address(7))).unwrap();
    manager.handle(id, SessionEvent::Connected);
    manager.handle(id, SessionEvent::Version(remote(70015, 0, 5)));
    let peer = manager.peer(id).unwrap();
    assert_eq!(peer.direction, Direction::Inbound);
    assert_eq!(peer.address, address(7));
    assert_eq!(PeerSource::Incoming(address(7)).direction(), Direction::Inbound);
    assert_eq!(PeerSource::Outgoing(address(7)).direction(), Direction::Outbound);
    assert_eq!(PeerSource::Incoming(address(7)).address(), address(7));
}

#[test]
fn ids_are_handed_out_in_sequence() {
    let mut manager = ConnectionManager::new(config(), 0);
    assert_eq!(manager.add_peer(PeerSource::Outgoing(address(1))), Ok(0));
    assert_eq!(manager.add_peer(PeerSource::Outgoing(address(1))), Ok(1));
    assert_eq!(manager.add_peer(PeerSource::Incoming(address(2))), Ok(2));
    manager.disconnect(1);
    assert_eq!(manager.add_peer(PeerSource::Outgoing(address(3))), Ok(3));
    assert_eq!(manager.free_ids(), u64::MAX - 4);
}

#[test]
fn add_peer_fails_when_ids_are_used_up() {
    let mut manager = ConnectionManager::with_first_id(config(), 0, u64::MAX - 1);
    assert_eq!(manager.free_ids(), 1);
    assert_eq!(manager.add_peer(PeerSource::Outgoing(address(1))), Ok(u64::MAX - 1));
    assert_eq!(manager.free_ids(), 0);
    assert_eq!(
        manager.add_peer(PeerSource::Outgoing(address(2))),
        Err(Error::ResourceExhausted)
    );
    assert_eq!(manager.state(u64::MAX - 1), SessionState::Connecting);
    assert_eq!(manager.state(u64::MAX), SessionState::Disconnected);
    let command: P2PControl<u32> = P2PControl::AddPeer(PeerSource::Outgoing(address(3)));
    assert!(matches!(manager.control(command), Err(Error::ResourceExhausted)));
}

#[test]
fn self_connection_never_enters_the_table() {
    let mut manager = ConnectionManager::new(config(), 0);
    let other = connect(&mut manager, 1);
    let itself = manager.add_peer(PeerSource::Outgoing(address(2))).unwrap();
    manager.handle(itself, SessionEvent::Connected);
    let echoed = manager.local_version();
    assert_eq!(echoed.nonce, OWN_NONCE);
    assert_eq!(echoed.version, 70015);
    assert_eq!(echoed.user_agent, "/test:1.0/");

    let state = manager.handle(itself, SessionEvent::Version(echoed));
    assert_eq!(state, SessionState::Disconnected);
    assert_eq!(manager.state(itself), SessionState::Disconnected);
    assert!(manager.peer(itself).is_none());
    assert_eq!(manager.connected_peer_count(), 1);
    assert_eq!(manager.state(other), SessionState::Ready);
    assert!(matches!(manager.send(itself, 1u32), Err(Error::PeerNotFound)));
}

#[test]
fn rejected_handshake_ends_the_session() {
    let mut manager = ConnectionManager::new(config(), 0b10);
    let old = manager.add_peer(PeerSource::Outgoing(address(1))).unwrap();
    manager.handle(old, SessionEvent::Connected);
    assert_eq!(
        manager.handle(old, SessionEvent::Version(remote(60000, 0b10, 1))),
        SessionState::Disconnected
    );
    let bare = manager.add_peer(PeerSource::Outgoing(address(2))).unwrap();
    manager.handle(bare, SessionEvent::Connected);
    assert_eq!(
        manager.handle(bare, SessionEvent::Version(remote(70015, 0b01, 1))),
        SessionState::Disconnected
    );
    let good = manager.add_peer(PeerSource::Outgoing(address(3))).unwrap();
    manager.handle(good, SessionEvent::Connected);
    assert_eq!(
        manager.handle(good, SessionEvent::Version(remote(70015, 0b11, 1))),
        SessionState::Ready
    );
    assert_eq!(manager.connected_peer_count(), 1);
    assert_eq!(manager.state(old), SessionState::Disconnected);
    assert_eq!(manager.state(bare), SessionState::Disconnected);
}

#[test]
fn failure_ends_a_session_at_any_stage() {
    let mut manager = ConnectionManager::new(config(), 0);
    let connecting = manager.add_peer(PeerSource::Outgoing(address(1))).unwrap();
    assert_eq!(manager.handle(connecting, SessionEvent::Failed), SessionState::Disconnected);
    assert_eq!(manager.state(connecting), SessionState::Disconnected);

    let handshaking = manager.add_peer(PeerSource::Outgoing(address(2))).unwrap();
    manager.handle(handshaking, SessionEvent::Connected);
    assert_eq!(manager.handle(handshaking, SessionEvent::Failed), SessionState::Disconnected);
    assert_eq!(manager.state(handshaking), SessionState::Disconnected);

    let ready = connect(&mut manager, 3);
    assert_eq!(manager.connected_peer_count(), 1);
    assert_eq!(manager.handle(ready, SessionEvent::Failed), SessionState::Disconnected);
    assert_eq!(manager.state(ready), SessionState::Disconnected);
    assert_eq!(manager.connected_peer_count(), 0);

    assert_eq!(manager.handle(77, SessionEvent::Failed), SessionState::Disconnected);
    assert_eq!(manager.handle(77, SessionEvent::Connected), SessionState::Disconnected);
}

#[test]
fn event_out_of_turn_ends_the_session() {
    let mut manager = ConnectionManager::new(config(), 0);
    let early = manager.add_peer(PeerSource::Outgoing(address(1))).unwrap();
    assert_eq!(
        manager.handle(early, SessionEvent::Version(remote(70015, 0, 1))),
        SessionState::Disconnected
    );
    assert_eq!(manager.state(early), SessionState::Disconnected);

    let twice = manager.add_peer(PeerSource::Outgoing(address(2))).unwrap();
    manager.handle(twice, SessionEvent::Connected);
    assert_eq!(manager.handle(twice, SessionEvent::Connected), SessionState::Disconnected);

    let ready = connect(&mut manager, 3);
    assert_eq!(
        manager.handle(ready, SessionEvent::Version(remote(70015, 0, 2))),
        SessionState::Disconnected
    );
    assert_eq!(manager.connected_peer_count(), 0);

    let again = connect(&mut manager, 4);
    assert_eq!(manager.handle(again, SessionEvent::Connected), SessionState::Disconnected);
    assert_eq!(manager.connected_peer_count(), 0);
}

#[test]
fn send_needs_a_connected_peer() {
    let mut manager = ConnectionManager::new(config(), 0);
    assert!(matches!(manager.send(0, 5u32), Err(Error::PeerNotFound)));
    let pending = manager.add_peer(PeerSource::Outgoing(address(1))).unwrap();
    assert!(matches!(manager.send(pending, 5u32), Err(Error::PeerNotFound)));
    manager.handle(pending, SessionEvent::Connected);
    assert!(matches!(manager.send(pending, 5u32), Err(Error::PeerNotFound)));

    let ready = connect(&mut manager, 2);
    let envelope = manager.send(ready, 5u32).unwrap();
    assert_eq!((envelope.peer, envelope.message), (ready, 5));

    manager.disconnect(ready);
    assert!(matches!(manager.send(ready, 5u32), Err(Error::PeerNotFound)));
}

#[test]
fn disconnect_twice_is_disconnect_once() {
    let mut manager = ConnectionManager::new(config(), 0);
    let first = connect(&mut manager, 1);
    let second = connect(&mut manager, 2);
    let pending = manager.add_peer(PeerSource::Outgoing(address(3))).unwrap();
    manager.disconnect(first);
    assert_eq!(manager.connected_peer_count(), 1);
    assert_eq!(manager.state(first), SessionState::Disconnected);
    manager.disconnect(first);
    assert_eq!(manager.connected_peer_count(), 1);
    assert_eq!(manager.state(second), SessionState::Ready);
    manager.disconnect(pending);
    manager.disconnect(pending);
    assert_eq!(manager.state(pending), SessionState::Disconnected);
    manager.disconnect(999);
    assert_eq!(manager.connected_peer_count(), 1);
}

#[test]
fn receive_forwards_only_from_ready_sessions() {
    let mut manager = ConnectionManager::new(config(), 0);
    let mut channel: Channel<u32> = Channel::new(10);
    let pending = manager.add_peer(PeerSource::Outgoing(address(1))).unwrap();
    assert!(matches!(manager.receive(pending, 1, &mut channel), Inbound::Ignored(1)));
    manager.handle(pending, SessionEvent::Connected);
    assert!(matches!(manager.receive(pending, 2, &mut channel), Inbound::Ignored(2)));
    assert!(matches!(manager.receive(55, 3, &mut channel), Inbound::Ignored(3)));
    assert_eq!(channel.len(), 0);

    let ready = connect(&mut manager, 2);
    assert!(matches!(manager.receive(ready, 4, &mut channel), Inbound::Queued));
    assert!(matches!(manager.receive(ready, 5, &mut channel), Inbound::Queued));
    assert_eq!(channel.len(), 2);
    let first = channel.recv().unwrap();
    assert_eq!((first.peer, first.message), (ready, 4));
    let second = channel.recv().unwrap();
    assert_eq!((second.peer, second.message), (ready, 5));
}

#[test]
fn receive_hands_the_envelope_back_when_the_channel_is_full() {
    let mut manager = ConnectionManager::new(config(), 0);
    let mut channel: Channel<u32> = Channel::new(2);
    let ready = connect(&mut manager, 1);
    assert!(matches!(manager.receive(ready, 1, &mut channel), Inbound::Queued));
    assert!(matches!(manager.receive(ready, 2, &mut channel), Inbound::Queued));
    let blocked = match manager.receive(ready, 3, &mut channel) {
        Inbound::Blocked(envelope) => envelope,
        _ => panic!("a full channel took a message"),
    };
    assert_eq!((blocked.peer, blocked.message), (ready, 3));
    assert_eq!(channel.len(), 2);
    assert_eq!(channel.recv().unwrap().message, 1);
    assert!(channel.try_send(blocked).is_ok());
    assert_eq!(channel.recv().unwrap().message, 2);
    assert_eq!(channel.recv().unwrap().message, 3);
}

#[test]
fn bind_records_addresses_in_order() {
    let mut manager = ConnectionManager::new(config(), 0);
    manager.bind(address(9));
    manager.bind(address(8));
    assert_eq!(manager.listening_addresses(), &vec![address(9), address(8)]);
}

#[test]
fn control_carries_out_each_command() {
    let mut manager = ConnectionManager::new(config(), 0);

    let bind: P2PControl<u32> = P2PControl::Bind(address(1));
    match manager.control(bind) {
        Ok(ControlOutcome::Listen(bound)) => assert_eq!(bound, address(1)),
        _ => panic!("bind was not carried out"),
    }
    assert_eq!(manager.listening_addresses(), &vec![address(1)]);

    let add: P2PControl<u32> = P2PControl::AddPeer(PeerSource::Outgoing(address(2)));
    let id = match manager.control(add) {
        Ok(ControlOutcome::Opened(id, source)) => {
            assert_eq!(source, PeerSource::Outgoing(address(2)));
            id
        }
        _ => panic!("the session was not set up"),
    };
    assert_eq!(manager.state(id), SessionState::Connecting);

    assert!(matches!(manager.control(P2PControl::Send(id, 6u32)), Err(Error::PeerNotFound)));
    manager.handle(id, SessionEvent::Connected);
    manager.handle(id, SessionEvent::Version(remote(70015, 0, 3)));
    match manager.control(P2PControl::Send(id, 6u32)) {
        Ok(ControlOutcome::Transmit(envelope)) => {
            assert_eq!((envelope.peer, envelope.message), (id, 6));
        }
        _ => panic!("the message was not addressed"),
    }

    let disconnect: P2PControl<u32> = P2PControl::Disconnect(id);
    assert!(matches!(
        manager.control(disconnect),
        Ok(ControlOutcome::Closed(closed)) if closed == id
    ));
    assert_eq!(manager.state(id), SessionState::Disconnected);
    let again: P2PControl<u32> = P2PControl::Disconnect(id);
    assert!(matches!(manager.control(again), Ok(ControlOutcome::Closed(closed)) if closed == id));
    assert_eq!(manager.connected_peer_count(), 0);
}

#[test]
fn addresses_differ_by_every_field() {
    let v4 = PeerAddress::V4 { host: 0x7f00_0001, port: 8333 };
    assert_eq!(v4, PeerAddress::V4 { host: 0x7f00_0001, port: 8333 });
    assert_ne!(v4, PeerAddress::V4 { host: 0x7f00_0001, port: 8334 });
    assert_ne!(v4, PeerAddress::V4 { host: 0x7f00_0002, port: 8333 });
    let mapped = PeerAddress::V6 {
        host: 0x0000_0000_0000_0000_0000_ffff_7f00_0001,
        port: 8333,
        flowinfo: 0,
        scope_id: 0,
    };
    assert_ne!(v4, mapped);
    assert_ne!(
        mapped,
        PeerAddress::V6 {
            host: 0x0000_0000_0000_0000_0000_ffff_7f00_0001,
            port: 8333,
            flowinfo: 0,
            scope_id: 1,
        }
    );
    assert!(murmel::address::contains_address(&vec![v4, mapped], mapped));
    assert!(!murmel::address::contains_address(&vec![v4], mapped));
    assert!(!murmel::address::contains_address(&Vec::new(), v4));
}

fn model_step(state: SessionState, event: u64) -> SessionState {
    match (state, event) {
        (SessionState::Connecting, 0) => SessionState::Handshaking,
        (SessionState::Handshaking, 1) => SessionState::Ready,
        _ => SessionState::Disconnected,
    }
}

#[test]
fn manager_agrees_with_a_table_of_stages() {
    let mut manager = ConnectionManager::new(config(), 0b1);
    let mut model: Vec<SessionState> = Vec::new();
    let mut seed: u64 = 0x9e37_79b9_7f4a_7c15;

    for _ in 0..3_000 {
        seed = seed.wrapping_mul(6_364_136_223_846_793_005).wrapping_add(1_442_695_040_888_963_407);
        let choice = (seed >> 40) % 8;
        if choice == 0 || model.is_empty() {
            let id = manager.add_peer(PeerSource::Outgoing(address(1))).unwrap();
            assert_eq!(id, model.len() as u64);
            model.push(SessionState::Connecting);
        } else {
            let id = (seed >> 20) % (model.len() as u64 + 1);
            let before = model.get(id as usize).copied().unwrap_or(SessionState::Disconnected);
            // 0: connected, 1: a handshake that passes, 2..=4: handshakes
            // that do not, 5: failure, 6: disconnect.
            let event = choice - 1;
            let after = match event {
                0 => manager.handle(id, SessionEvent::Connected),
                1 => manager.handle(id, SessionEvent::Version(remote(70010, 0b11, 5))),
                2 => manager.handle(id, SessionEvent::Version(remote(70010, 0b11, OWN_NONCE))),
                3 => manager.handle(id, SessionEvent::Version(remote(70000, 0b11, 5))),
                4 => manager.handle(id, SessionEvent::Version(remote(70010, 0b10, 5))),
                5 => manager.handle(id, SessionEvent::Failed),
                _ => {
                    manager.disconnect(id);
                    SessionState::Disconnected
                }
            };
            assert_eq!(after, model_step(before, event));
            if let Some(stage) = model.get_mut(id as usize) {
                *stage = after;
            }
        }
        let ready = model.iter().filter(|stage| **stage == SessionState::Ready).count();
        assert_eq!(manager.connected_peer_count(), ready);
        for (id, stage) in model.iter().enumerate() {
            assert_eq!(manager.state(id as u64), *stage);
            assert_eq!(manager.peer(id as u64).is_some(), *stage == SessionState::Ready);
            if let Some(peer) = manager.peer(id as u64) {
                assert_ne!(peer.nonce, OWN_NONCE);
                assert_eq!(peer.version, 70010);
            }
        }
        assert_eq!(manager.state(model.len() as u64), SessionState::Disconnected);
    }
    assert!(model.len() > 100);
}
