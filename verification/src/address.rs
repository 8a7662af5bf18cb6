//! Network addresses of peers, held as plain integers.

use vstd::prelude::*;

verus! {

/// The socket address of a peer.
///
/// An IPv4 host is the big-endian integer of its four octets, an IPv6 host the
/// big-endian integer of its sixteen octets.  Two addresses are the same peer
/// only if every field agrees, so an IPv4 address and its IPv6 mapping differ.
#[allow(inconsistent_fields)]
#[derive(Clone, Copy, Debug, PartialEq, Eq, Hash, Structural)]
pub enum PeerAddress {
    V4 { host: u32, port: u16 },
    V6 { host: u128, port: u16, flowinfo: u32, scope_id: u32 },
}

/// Whether `address` occurs in `list`.
pub fn contains_address(list: &Vec<PeerAddress>, address: PeerAddress) -> (found: bool)
    ensures
        found == list@.contains(address),
{
    let mut i: usize = 0;
    while i < list.len()
        invariant
            i <= list.len(),
            forall|j: int| 0 <= j < i ==> list@[j] != address,
        decreases list.len() - i,
    {
        if list[i] == address {
            return true;
        }
        i += 1;
    }
    false
}

} // verus!
