//! The timeout registry: deadlines of requests that await an answer, and the
//! sweep that finds the overdue ones.

use crate::dispatcher::ListenerId;
use crate::session::PeerId;
use vstd::prelude::*;

verus! {

/// The kind of answer a request waits for.
#[derive(Clone, Copy, Debug, PartialEq, Eq, Hash, Structural)]
pub enum RequestKind {
    Headers,
    Pong,
}

/// What is to happen when a request is overdue.
#[derive(Clone, Copy, Debug, PartialEq, Eq, Structural)]
pub enum ExpiryAction {
    /// Disconnect the peer that did not answer.
    Disconnect,
    /// Tell the listener to ask another peer.
    Retry(ListenerId),
    /// Both of the above.
    DisconnectAndRetry(ListenerId),
}

/// A request that awaits its answer.
#[derive(Clone, Copy, Debug, PartialEq, Eq, Structural)]
pub struct PendingRequest {
    pub peer: PeerId,
    pub kind: RequestKind,
    /// The request is overdue once the clock reads later than this.
    pub deadline: u64,
    pub action: ExpiryAction,
}

/// A peer has at most one pending request of each kind.
pub type RequestKey = (PeerId, RequestKind);

/// The deadline and the expiry action of a pending request.
pub struct Armed {
    pub deadline: u64,
    pub action: ExpiryAction,
}

/// The key under which a request is held.
pub open spec fn key_of(request: PendingRequest) -> RequestKey {
    (request.peer, request.kind)
}

/// What the registry holds of a request under its key.
pub open spec fn armed_of(request: PendingRequest) -> Armed {
    Armed { deadline: request.deadline, action: request.action }
}

/// No two requests of the list have the same key.
pub open spec fn distinct_keys(list: Seq<PendingRequest>) -> bool {
    forall|i: int, j: int|
        0 <= i < list.len() && 0 <= j < list.len() && i != j ==> key_of(list[i]) != key_of(list[j])
}

/// Whether some request of the list has this key.
pub open spec fn has_key(list: Seq<PendingRequest>, key: RequestKey) -> bool {
    exists|i: int| 0 <= i < list.len() && key_of(#[trigger] list[i]) == key
}

/// The position of a request with this key.
pub open spec fn slot(list: Seq<PendingRequest>, key: RequestKey) -> int {
    choose|i: int| 0 <= i < list.len() && key_of(#[trigger] list[i]) == key
}

/// A list of requests with distinct keys, as a map from key to deadline and
/// action.
pub open spec fn requests(list: Seq<PendingRequest>) -> Map<RequestKey, Armed> {
    Map::new(
        |key: RequestKey| has_key(list, key),
        |key: RequestKey| armed_of(list[slot(list, key)]),
    )
}

/// A deadline has passed once the clock reads later than it.
pub open spec fn is_due(armed: Armed, now: u64) -> bool {
    armed.deadline < now
}

/// The requests of `pending` that are overdue at `now`.
pub open spec fn due(pending: Map<RequestKey, Armed>, now: u64) -> Map<RequestKey, Armed> {
    pending.restrict(
        Set::new(|key: RequestKey| pending.contains_key(key) && is_due(pending[key], now)),
    )
}

/// The requests of `pending` that are not overdue at `now`.
pub open spec fn remaining(pending: Map<RequestKey, Armed>, now: u64) -> Map<RequestKey, Armed> {
    pending.restrict(
        Set::new(|key: RequestKey| pending.contains_key(key) && !is_due(pending[key], now)),
    )
}

/// The deadline of a request made at `now` that may take `duration`: their
/// sum, or the latest time there is where the sum is beyond it.
pub open spec fn deadline_after(now: u64, duration: u64) -> u64 {
    if now + duration > u64::MAX {
        u64::MAX
    } else {
        (now + duration) as u64
    }
}

/// In a list with distinct keys each request is found under its own key.
pub proof fn lemma_requests_at(list: Seq<PendingRequest>, i: int)
    requires
        distinct_keys(list),
        0 <= i < list.len(),
    ensures
        requests(list).contains_key(key_of(list[i])),
        requests(list)[key_of(list[i])] == armed_of(list[i]),
{
}

/// Appending a request under a key that is not held adds it to the map.
proof fn lemma_requests_push(list: Seq<PendingRequest>, request: PendingRequest)
    requires
        distinct_keys(list),
        !requests(list).contains_key(key_of(request)),
    ensures
        distinct_keys(list.push(request)),
        requests(list.push(request)) == requests(list).insert(key_of(request), armed_of(request)),
{
    let longer = list.push(request);
    let expected = requests(list).insert(key_of(request), armed_of(request));
    assert forall|key: RequestKey| expected.contains_key(key) implies requests(longer).contains_key(
        key,
    ) by {
        if key == key_of(request) {
            lemma_requests_at(longer, list.len() as int);
        } else {
            let i = slot(list, key);
            lemma_requests_at(longer, i);
        }
    }
}

/// Replacing a request by one of the same key overwrites what the key holds.
proof fn lemma_requests_update(list: Seq<PendingRequest>, i: int, request: PendingRequest)
    requires
        distinct_keys(list),
        0 <= i < list.len(),
        key_of(request) == key_of(list[i]),
    ensures
        distinct_keys(list.update(i, request)),
        requests(list.update(i, request)) == requests(list).insert(
            key_of(request),
            armed_of(request),
        ),
{
    let changed = list.update(i, request);
    let expected = requests(list).insert(key_of(request), armed_of(request));
    assert forall|key: RequestKey| expected.contains_key(key) implies requests(
        changed,
    ).contains_key(key) by {
        if key == key_of(request) {
            lemma_requests_at(changed, i);
        } else {
            let j = slot(list, key);
            lemma_requests_at(changed, j);
        }
    }
}

/// Taking a request out of the list takes its key out of the map.
proof fn lemma_requests_remove(list: Seq<PendingRequest>, i: int)
    requires
        distinct_keys(list),
        0 <= i < list.len(),
    ensures
        distinct_keys(list.remove(i)),
        requests(list.remove(i)) == requests(list).remove(key_of(list[i])),
{
    let shorter = list.remove(i);
    let expected = requests(list).remove(key_of(list[i]));
    assert forall|key: RequestKey| expected.contains_key(key) implies requests(
        shorter,
    ).contains_key(key) by {
        let j0 = slot(list, key);
        let j = if j0 < i { j0 } else { j0 - 1 };
        assert(shorter[j] == list[j0]);
    }
}

/// The requests before a position have distinct keys, and none has the key
/// of the request at the position.
proof fn lemma_requests_prefix(list: Seq<PendingRequest>, n: int)
    requires
        distinct_keys(list),
        0 <= n < list.len(),
    ensures
        distinct_keys(list.take(n)),
        !requests(list.take(n)).contains_key(key_of(list[n])),
        list.take(n + 1) == list.take(n).push(list[n]),
{
}

/// The pending requests of all peers.
pub struct TimeoutRegistry {
    entries: Vec<PendingRequest>,
}

impl View for TimeoutRegistry {
    type V = Map<RequestKey, Armed>;

    /// The pending requests by key.
    closed spec fn view(&self) -> Map<RequestKey, Armed> {
        requests(self.entries@)
    }
}

impl TimeoutRegistry {
    /// Every key is held once.
    pub closed spec fn wf(&self) -> bool {
        distinct_keys(self.entries@)
    }

    /// A registry without requests.
    pub fn new() -> (registry: TimeoutRegistry)
        ensures
            registry.wf(),
            registry@ == Map::<RequestKey, Armed>::empty(),
    {
        let registry = TimeoutRegistry { entries: Vec::new() };
        registry
    }

    /// The number of pending requests.
    pub fn len(&self) -> (len: usize)
        requires
            self.wf(),
        ensures
            len == self@.len(),
    {
        proof {
            lemma_requests_len(self.entries@);
        }
        self.entries.len()
    }

    fn find(&self, peer: PeerId, kind: RequestKind) -> (found: Option<usize>)
        requires
            self.wf(),
        ensures
            match found {
                Some(i) => i < self.entries@.len() && key_of(self.entries@[i as int]) == (
                    peer,
                    kind,
                ),
                None => !self@.contains_key((peer, kind)),
            },
    {
        let mut i: usize = 0;
        while i < self.entries.len()
            invariant
                i <= self.entries.len(),
                forall|j: int| 0 <= j < i ==> key_of(#[trigger] self.entries@[j]) != (peer, kind),
            decreases self.entries.len() - i,
        {
            if self.entries[i].peer == peer && self.entries[i].kind == kind {
                return Some(i);
            }
            i += 1;
        }
        None
    }

    /// The deadline of a pending request, if the key is armed.
    pub fn deadline(&self, peer: PeerId, kind: RequestKind) -> (deadline: Option<u64>)
        requires
            self.wf(),
        ensures
            deadline == if self@.contains_key((peer, kind)) {
                Some(self@[(peer, kind)].deadline)
            } else {
                None
            },
    {
        match self.find(peer, kind) {
            Some(i) => {
                proof {
                    lemma_requests_at(self.entries@, i as int);
                }
                Some(self.entries[i].deadline)
            },
            None => None,
        }
    }

    /// Records that `peer` owes an answer of `kind` within `duration` from
    /// `now`.  A request already pending under the key is replaced: its
    /// deadline and action no longer count.
    pub fn arm(
        &mut self,
        peer: PeerId,
        kind: RequestKind,
        now: u64,
        duration: u64,
        action: ExpiryAction,
    )
        requires
            old(self).wf(),
        ensures
            final(self).wf(),
            final(self)@ == old(self)@.insert(
                (peer, kind),
                Armed { deadline: deadline_after(now, duration), action },
            ),
    {
        let deadline = if duration > u64::MAX - now {
            u64::MAX
        } else {
            now + duration
        };
        let request = PendingRequest { peer, kind, deadline, action };
        match self.find(peer, kind) {
            Some(i) => {
                proof {
                    lemma_requests_update(self.entries@, i as int, request);
                }
                self.entries.set(i, request);
            },
            None => {
                proof {
                    lemma_requests_push(self.entries@, request);
                }
                self.entries.push(request);
            },
        }
    }

    /// Forgets the request pending under the key, as on its answer.  Returns
    /// whether there was one.
    pub fn disarm(&mut self, peer: PeerId, kind: RequestKind) -> (was_armed: bool)
        requires
            old(self).wf(),
        ensures
            final(self).wf(),
            was_armed == old(self)@.contains_key((peer, kind)),
            final(self)@ == old(self)@.remove((peer, kind)),
    {
        match self.find(peer, kind) {
            Some(i) => {
                proof {
                    lemma_requests_remove(self.entries@, i as int);
                }
                self.entries.remove(i);
                true
            },
            None => false,
        }
    }

    /// Takes every request that is overdue at `now` out of the registry and
    /// returns them, each once.  The others stay as they are.
    pub fn sweep(&mut self, now: u64) -> (fired: Vec<PendingRequest>)
        requires
            old(self).wf(),
        ensures
            final(self).wf(),
            final(self)@ == remaining(old(self)@, now),
            distinct_keys(fired@),
            requests(fired@) == due(old(self)@, now),
    {
        let mut kept: Vec<PendingRequest> = Vec::new();
        let mut fired: Vec<PendingRequest> = Vec::new();
        let mut i: usize = 0;
        while i < self.entries.len()
            invariant
                i <= self.entries.len(),
                distinct_keys(self.entries@),
                distinct_keys(kept@),
                distinct_keys(fired@),
                requests(kept@) == remaining(requests(self.entries@.take(i as int)), now),
                requests(fired@) == due(requests(self.entries@.take(i as int)), now),
            decreases self.entries.len() - i,
        {
            let request = self.entries[i];
            proof {
                let seen = self.entries@.take(i as int);
                lemma_requests_prefix(self.entries@, i as int);
                lemma_requests_push(seen, request);
                let before = requests(seen);
                let after = requests(seen.push(request));
                if request.deadline < now {
                    lemma_requests_push(fired@, request);
                    assert(due(after, now) =~= due(before, now).insert(
                        key_of(request),
                        armed_of(request),
                    ));
                } else {
                    lemma_requests_push(kept@, request);
                    assert(remaining(after, now) =~= remaining(before, now).insert(
                        key_of(request),
                        armed_of(request),
                    ));
                }
            }
            if request.deadline < now {
                fired.push(request);
            } else {
                kept.push(request);
            }
            i += 1;
        }
        proof {
            assert(self.entries@.take(i as int) =~= self.entries@);
        }
        self.entries = kept;
        fired
    }
}

/// A list with distinct keys has as many requests as its map has keys.
proof fn lemma_requests_len(list: Seq<PendingRequest>)
    requires
        distinct_keys(list),
    ensures
        requests(list).dom().finite(),
        requests(list).len() == list.len(),
    decreases list.len(),
{
    if list.len() == 0 {
        assert(requests(list) =~= Map::<RequestKey, Armed>::empty());
    } else {
        let n = list.len() - 1;
        lemma_requests_prefix(list, n);
        lemma_requests_len(list.take(n));
        lemma_requests_push(list.take(n), list[n]);
        assert(list.take(n + 1) =~= list);
    }
}

/// A request fires at most once: what a sweep returns is gone from the
/// registry, so no later sweep returns it unless it is armed anew.
pub proof fn lemma_fires_at_most_once(
    pending: Map<RequestKey, Armed>,
    now: u64,
    later: u64,
    key: RequestKey,
)
    requires
        due(pending, now).contains_key(key),
    ensures
        !remaining(pending, now).contains_key(key),
        !due(remaining(pending, now), later).contains_key(key),
{
}

/// Arming a key anew cancels its previous deadline: the registry is as if the
/// first request had never been armed, and a sweep before the new deadline
/// leaves the key alone even where the old deadline has passed.
pub proof fn lemma_rearm_cancels(
    pending: Map<RequestKey, Armed>,
    key: RequestKey,
    first: Armed,
    second: Armed,
    now: u64,
)
    ensures
        pending.insert(key, first).insert(key, second) == pending.insert(key, second),
        !is_due(second, now) ==> !due(
            pending.insert(key, first).insert(key, second),
            now,
        ).contains_key(key),
        !is_due(second, now) ==> remaining(
            pending.insert(key, first).insert(key, second),
            now,
        ).contains_key(key),
{
}

} // verus!
