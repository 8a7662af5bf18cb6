//! The connectivity maintainer: on every tick it decides whether one more
//! outbound connection is to be attempted, and to which address.

use crate::address::{contains_address, PeerAddress};
use crate::entropy::random_u32;
use crate::p2p::{ConnectionManager, Pending};
use crate::session::{Direction, PeerId, PeerSource};
use vstd::prelude::*;

verus! {

/// The addresses of `known` that are not in `tried`, in the order of `known`.
pub open spec fn untried(known: Seq<PeerAddress>, tried: Set<PeerAddress>) -> Seq<PeerAddress> {
    known.filter(|a: PeerAddress| !tried.contains(a))
}

/// The address that a tick selects: none while the node has enough peers or
/// no candidate is left, else the candidate at position `draw` modulo the
/// number of candidates.
pub open spec fn selection(
    known: Seq<PeerAddress>,
    tried: Set<PeerAddress>,
    target: nat,
    connected: nat,
    draw: nat,
) -> Option<PeerAddress> {
    let eligible = untried(known, tried);
    if connected < target && eligible.len() > 0 {
        Some(eligible[(draw % eligible.len()) as int])
    } else {
        None
    }
}

/// An outbound connection to attempt: the session that was set up for it and
/// the address to dial.
#[derive(Clone, Copy, Debug, PartialEq, Eq, Structural)]
pub struct Dial {
    pub peer: PeerId,
    pub address: PeerAddress,
}

/// Keeps the node connected to at least a minimum number of peers.
///
/// The addresses tried so far are remembered for the maintainer's whole life:
/// an address is attempted at most once, and once every discovered address has
/// been tried no further connection is initiated.
pub struct KeepConnected {
    dns: Vec<PeerAddress>,
    earlier: Vec<PeerAddress>,
    min_connections: usize,
}

impl KeepConnected {
    /// The discovered addresses, in the order they were supplied.
    pub closed spec fn known(&self) -> Seq<PeerAddress> {
        self.dns@
    }

    /// The addresses that were already selected.
    pub closed spec fn tried(&self) -> Set<PeerAddress> {
        self.earlier@.to_set()
    }

    /// The minimum number of connected peers to maintain.
    pub closed spec fn target(&self) -> nat {
        self.min_connections as nat
    }

    /// No address is recorded twice as tried, and only discovered ones are.
    pub closed spec fn wf(&self) -> bool {
        &&& self.earlier@.no_duplicates()
        &&& forall|i: int|
            0 <= i < self.earlier@.len() ==> self.dns@.contains(#[trigger] self.earlier@[i])
    }

    /// The candidates for the next connection attempt.
    pub open spec fn eligible(&self) -> Seq<PeerAddress> {
        untried(self.known(), self.tried())
    }

    /// A maintainer over the discovered addresses `dns` that has tried none.
    pub fn new(dns: Vec<PeerAddress>, min_connections: usize) -> (maintainer: KeepConnected)
        ensures
            maintainer.wf(),
            maintainer.known() == dns@,
            maintainer.tried() == Set::<PeerAddress>::empty(),
            maintainer.target() == min_connections,
    {
        let maintainer = KeepConnected { dns, earlier: Vec::new(), min_connections };
        maintainer
    }

    /// The discovered addresses.
    pub fn known_addresses(&self) -> (known: &Vec<PeerAddress>)
        ensures
            known@ == self.known(),
    {
        &self.dns
    }

    /// The addresses selected so far, each once.
    pub fn tried_addresses(&self) -> (tried: &Vec<PeerAddress>)
        requires
            self.wf(),
        ensures
            tried@.no_duplicates(),
            tried@.to_set() == self.tried(),
    {
        &self.earlier
    }

    /// The minimum number of connected peers to maintain.
    pub fn min_connections(&self) -> (target: usize)
        ensures
            target == self.target(),
    {
        self.min_connections
    }

    /// The candidates, as a vector.
    pub fn eligible_addresses(&self) -> (eligible: Vec<PeerAddress>)
        ensures
            eligible@ == self.eligible(),
    {
        let mut eligible: Vec<PeerAddress> = Vec::new();
        let ghost tried = self.tried();
        let mut i: usize = 0;
        while i < self.dns.len()
            invariant
                i <= self.dns.len(),
                tried == self.tried(),
                eligible@ == untried(self.dns@.take(i as int), tried),
            decreases self.dns.len() - i,
        {
            let address = self.dns[i];
            let seen = contains_address(&self.earlier, address);
            proof {
                broadcast use Seq::lemma_filter_push;

                assert(self.dns@.take(i + 1) =~= self.dns@.take(i as int).push(address));
            }
            if !seen {
                eligible.push(address);
            }
            i += 1;
        }
        proof {
            assert(self.dns@.take(i as int) =~= self.dns@);
        }
        eligible
    }

    /// One tick of the maintainer, given the number of connected peers and a
    /// number `draw` that picks among the candidates.
    ///
    /// Returns the address to dial, if any, and records it as tried.
    pub fn select(&mut self, connected: usize, draw: u32) -> (dial: Option<PeerAddress>)
        requires
            old(self).wf(),
        ensures
            final(self).wf(),
            final(self).known() == old(self).known(),
            final(self).target() == old(self).target(),
            dial == selection(
                old(self).known(),
                old(self).tried(),
                old(self).target(),
                connected as nat,
                draw as nat,
            ),
            final(self).tried() == match dial {
                Some(address) => old(self).tried().insert(address),
                None => old(self).tried(),
            },
            dial matches Some(address) ==> old(self).known().contains(address) && !old(
                self,
            ).tried().contains(address),
    {
        if connected >= self.min_connections {
            return None;
        }
        let eligible = self.eligible_addresses();
        if eligible.len() == 0 {
            return None;
        }
        let index: usize = (draw as usize) % eligible.len();
        let choice = eligible[index];
        proof {
            lemma_untried_members(self.known(), self.tried(), index as int);
            old(self).earlier@.lemma_push_to_set_commute(choice);
        }
        self.earlier.push(choice);
        Some(choice)
    }

    /// What one tick with the number `draw` makes of a maintainer and a
    /// connection manager: the address that `selection` gives is recorded as
    /// tried and, unless the manager is out of ids, a session is set up for
    /// it.  At most one connection is initiated.
    pub open spec fn ticked(
        before: KeepConnected,
        p2p_before: ConnectionManager,
        draw: u32,
        after: KeepConnected,
        p2p_after: ConnectionManager,
        dial: Option<Dial>,
    ) -> bool {
        let choice = selection(
            before.known(),
            before.tried(),
            before.target(),
            p2p_before.table().len(),
            draw as nat,
        );
        &&& after.known() == before.known()
        &&& after.target() == before.target()
        &&& match choice {
            None => {
                &&& after.tried() == before.tried()
                &&& dial is None
                &&& p2p_after.same_as(p2p_before)
            },
            Some(address) => {
                &&& after.tried() == before.tried().insert(address)
                &&& if p2p_before.exhausted() {
                    dial is None && p2p_after.same_as(p2p_before)
                } else {
                    &&& dial == Some(Dial { peer: p2p_before.allocated() as PeerId, address })
                    &&& p2p_after.opened(p2p_before, PeerSource::Outgoing(address))
                }
            },
        }
    }

    /// One tick, with the number that picks among the candidates given.
    ///
    /// Compares the number of connected peers with the target, selects an
    /// untried address where the node is short of peers, and sets a session
    /// up for it.  A session that cannot be set up is not reported: the
    /// address stays tried and a later tick takes another.
    pub fn poll_with(&mut self, p2p: &mut ConnectionManager, draw: u32) -> (dial: Option<Dial>)
        requires
            old(self).wf(),
            old(p2p).wf(),
        ensures
            final(self).wf(),
            final(p2p).wf(),
            KeepConnected::ticked(*old(self), *old(p2p), draw, *final(self), *final(p2p), dial),
    {
        let connected = p2p.connected_peer_count();
        match self.select(connected, draw) {
            Some(address) => match p2p.add_peer(PeerSource::Outgoing(address)) {
                Ok(peer) => Some(Dial { peer, address }),
                Err(_) => None,
            },
            None => None,
        }
    }

    /// One tick, with a random pick among the candidates.
    ///
    /// Whatever number is drawn, the tick is the one that `poll_with` makes
    /// with that number.
    pub fn poll(&mut self, p2p: &mut ConnectionManager) -> (dial: Option<Dial>)
        requires
            old(self).wf(),
            old(p2p).wf(),
        ensures
            final(self).wf(),
            final(p2p).wf(),
            exists|draw: u32|
                KeepConnected::ticked(
                    *old(self),
                    *old(p2p),
                    draw,
                    *final(self),
                    *final(p2p),
                    dial,
                ),
    {
        let draw = random_u32();
        self.poll_with(p2p, draw)
    }
}

/// Every candidate is a discovered address that has not been tried.
pub proof fn lemma_untried_members(known: Seq<PeerAddress>, tried: Set<PeerAddress>, i: int)
    requires
        0 <= i < untried(known, tried).len(),
    ensures
        known.contains(untried(known, tried)[i]),
        !tried.contains(untried(known, tried)[i]),
{
    let pred = |a: PeerAddress| !tried.contains(a);
    known.lemma_filter_pred(pred, i);
    known.lemma_filter_contains_rev(pred, known.filter(pred)[i]);
}

/// The tried addresses never outgrow the discovered ones: each is one of
/// them.
pub proof fn lemma_tried_are_known(maintainer: KeepConnected, address: PeerAddress)
    requires
        maintainer.wf(),
        maintainer.tried().contains(address),
    ensures
        maintainer.known().contains(address),
        maintainer.tried().finite(),
{
    broadcast use vstd::seq_lib::seq_to_set_is_finite;
}

/// A tick never selects an address that was tried before, and only selects
/// a discovered one.
pub proof fn lemma_selection_is_untried(
    known: Seq<PeerAddress>,
    tried: Set<PeerAddress>,
    target: nat,
    connected: nat,
    draw: nat,
)
    ensures
        match selection(known, tried, target, connected, draw) {
            Some(address) => known.contains(address) && !tried.contains(address),
            None => connected >= target || untried(known, tried).len() == 0,
        },
{
    let eligible = untried(known, tried);
    if connected < target && eligible.len() > 0 {
        lemma_untried_members(known, tried, (draw % eligible.len()) as int);
    }
}

/// A tick selects an address exactly when the node is short of peers and
/// some discovered address has not been tried.
pub proof fn lemma_selection_is_owed(
    known: Seq<PeerAddress>,
    tried: Set<PeerAddress>,
    target: nat,
    connected: nat,
    draw: nat,
)
    ensures
        selection(known, tried, target, connected, draw) is Some <==> connected < target && exists|
            i: int,
        |
            0 <= i < known.len() && !tried.contains(#[trigger] known[i]),
{
    let pred = |a: PeerAddress| !tried.contains(a);
    let eligible = untried(known, tried);
    if eligible.len() > 0 {
        lemma_untried_members(known, tried, 0);
    }
    if exists|i: int| 0 <= i < known.len() && !tried.contains(#[trigger] known[i]) {
        let i = choose|i: int| 0 <= i < known.len() && !tried.contains(#[trigger] known[i]);
        known.lemma_filter_contains(pred, i);
    }
}

/// A tick initiates at most one connection: it sets up at most one session,
/// the one it returns, and records at most one address as tried.
pub proof fn lemma_tick_dials_at_most_once(
    before: KeepConnected,
    p2p_before: ConnectionManager,
    draw: u32,
    after: KeepConnected,
    p2p_after: ConnectionManager,
    dial: Option<Dial>,
)
    requires
        KeepConnected::ticked(before, p2p_before, draw, after, p2p_after, dial),
    ensures
        p2p_after.allocated() == p2p_before.allocated() + (if dial is Some {
            1nat
        } else {
            0nat
        }),
        p2p_after.table() == p2p_before.table(),
        dial is None ==> p2p_after.pending() == p2p_before.pending(),
        dial matches Some(attempt) ==> {
            &&& p2p_after.pending() == p2p_before.pending().insert(
                attempt.peer,
                Pending {
                    address: attempt.address,
                    direction: Direction::Outbound,
                    handshaking: false,
                },
            )
            &&& before.known().contains(attempt.address)
            &&& !before.tried().contains(attempt.address)
            &&& after.tried() == before.tried().insert(attempt.address)
        },
{
    lemma_selection_is_untried(
        before.known(),
        before.tried(),
        before.target(),
        p2p_before.table().len(),
        draw as nat,
    );
}

} // verus!
