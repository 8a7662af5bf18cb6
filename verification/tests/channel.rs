use murmel::channel::{Channel, Envelope};
use std::collections::VecDeque;

fn envelope(peer: u64, message: u32) -> Envelope<u32> {
    Envelope { peer, message }
}

#[test]
fn channel_starts_empty() {
    let channel: Channel<u32> = Channel::new(10);
    assert_eq!(channel.len(), 0);
    assert_eq!(channel.capacity(), 10);
    assert!(channel.is_empty());
    assert!(!channel.is_full());
}

#[test]
fn channel_hands_envelopes_out_in_arrival_order() {
    let mut channel: Channel<u32> = Channel::new(4);
    assert!(channel.try_send(envelope(7, 100)).is_ok());
    assert!(channel.try_send(envelope(3, 200)).is_ok());
    assert!(channel.try_send(envelope(7, 300)).is_ok());
    let first = channel.recv().unwrap();
    assert_eq!((first.peer, first.message), (7, 100));
    let second = channel.recv().unwrap();
    assert_eq!((second.peer, second.message), (3, 200));
    let third = channel.recv().unwrap();
    assert_eq!((third.peer, third.message), (7, 300));
    assert!(channel.recv().is_none());
}

#[test]
fn eleventh_send_waits_for_the_consumer() {
    let mut channel: Channel<u32> = Channel::new(10);
    for i in 0..10u32 {
        assert!(channel.try_send(envelope(1, i)).is_ok());
    }
    assert_eq!(channel.len(), 10);
    assert!(channel.is_full());

    let blocked = match channel.try_send(envelope(1, 10)) {
        Ok(()) => panic!("a full channel took an envelope"),
        Err(back) => back,
    };
    assert_eq!((blocked.peer, blocked.message), (1, 10));
    assert_eq!(channel.len(), 10);

    let drained = channel.recv().unwrap();
    assert_eq!(drained.message, 0);
    assert_eq!(channel.len(), 9);

    assert!(channel.try_send(blocked).is_ok());
    assert_eq!(channel.len(), 10);

    for i in 1..=10u32 {
        assert_eq!(channel.recv().unwrap().message, i);
    }
    assert!(channel.is_empty());
}

#[test]
fn channel_never_exceeds_its_capacity() {
    let mut channel: Channel<u32> = Channel::new(3);
    let mut refused = 0;
    for i in 0..50u32 {
        if channel.try_send(envelope(2, i)).is_err() {
            refused += 1;
        }
        assert!(channel.len() <= channel.capacity());
        if i % 5 == 4 {
            assert!(channel.recv().is_some());
        }
    }
    assert!(refused > 0);
    assert!(channel.len() <= 3);
}

#[test]
fn channel_without_capacity_takes_nothing() {
    let mut channel: Channel<u32> = Channel::new(0);
    assert!(channel.is_full());
    let back = channel.try_send(envelope(5, 9)).unwrap_err();
    assert_eq!((back.peer, back.message), (5, 9));
    assert_eq!(channel.len(), 0);
    assert!(channel.recv().is_none());
}

#[test]
fn recv_leaves_an_empty_channel_empty() {
    let mut channel: Channel<u32> = Channel::new(2);
    assert!(channel.recv().is_none());
    assert_eq!(channel.len(), 0);
    assert_eq!(channel.capacity(), 2);
}

#[test]
fn channel_agrees_with_a_bounded_queue() {
    let mut channel: Channel<u32> = Channel::new(7);
    let mut model: VecDeque<(u64, u32)> = VecDeque::new();
    let mut accepted: Vec<u32> = Vec::new();
    let mut delivered: Vec<u32> = Vec::new();
    let mut seed: u32 = 12_345;

    for message in 0..5_000u32 {
        seed = seed.wrapping_mul(1_664_525).wrapping_add(1_013_904_223);
        let peer = u64::from(seed >> 28);
        if (seed >> 16) % 5 < 3 {
            match channel.try_send(envelope(peer, message)) {
                Ok(()) => {
                    assert!(model.len() < 7);
                    model.push_back((peer, message));
                    accepted.push(message);
                }
                Err(back) => {
                    assert_eq!(model.len(), 7);
                    assert_eq!((back.peer, back.message), (peer, message));
                }
            }
        } else {
            match channel.recv() {
                Some(got) => {
                    assert_eq!(Some((got.peer, got.message)), model.pop_front());
                    delivered.push(got.message);
                }
                None => assert!(model.is_empty()),
            }
        }
        assert_eq!(channel.len(), model.len());
        assert_eq!(channel.is_full(), model.len() == 7);
        assert_eq!(channel.is_empty(), model.is_empty());
    }

    // Nothing was lost or overtaken: what was delivered and what still waits
    // is what was taken in, in that order.
    while let Some(got) = channel.recv() {
        delivered.push(got.message);
    }
    assert_eq!(delivered, accepted);
    assert!(accepted.len() > 1_000);
}
