//! The peers of connectionless services: which proxy serves which pair of ports,
//! and how recently.

use crate::collections::keys_of;
use crate::ids::{low, low_half};
use std::collections::HashMap;
use vstd::prelude::*;

verus! {

/// Number of peers that one host port serves before the least recently used peer
/// makes room for a new one.
pub const MAX_DGRAM_PEERS_PER_PORT: usize = 256;

/// What is kept of a peer.
#[derive(Clone, Copy, Debug, PartialEq, Eq, Structural)]
pub struct DgramPeerEntry {
    /// The proxy that serves the peer.
    pub id: u64,
    /// When the peer was last active.
    pub last_used: u64,
}

/// The peers, by guest port (upper half of the key) and host port (lower half).
pub type PeerMap = Map<u64, DgramPeerEntry>;

/// The peers that the host port serves.
pub open spec fn on_port(peers: PeerMap, host_port: u32) -> Set<u64> {
    peers.dom().filter(|key: u64| low_half(key) == host_port)
}

/// The peers that another proxy than `id` serves.
pub open spec fn without_id(peers: PeerMap, id: u64) -> PeerMap {
    peers.restrict(peers.dom().filter(|key: u64| peers[key].id != id))
}

/// Those of `keys` that the proxy `id` serves.
spec fn served_among(peers: PeerMap, keys: Seq<u64>, id: u64) -> Set<u64> {
    keys.to_set().filter(|key: u64| peers[key].id == id)
}

/// Whether `key` is a peer that the host port serves, and none that it serves was
/// active longer ago.
pub open spec fn is_oldest(peers: PeerMap, host_port: u32, key: u64) -> bool {
    &&& on_port(peers, host_port).contains(key)
    &&& forall|other: u64| #[trigger]
        on_port(peers, host_port).contains(other) ==> peers[key].last_used
            <= peers[other].last_used
}

/// Whether `after` is what an eviction on the host port may leave of `before`, with
/// `id` the proxy that lost its peers, if any.
pub open spec fn evicts(
    before: PeerMap,
    host_port: u32,
    after: PeerMap,
    id: Option<u64>,
) -> bool {
    if on_port(before, host_port).len() < MAX_DGRAM_PEERS_PER_PORT {
        id is None && after == before
    } else {
        &&& id matches Some(id)
        &&& after == without_id(before, id)
        &&& exists|key: u64| #[trigger]
            is_oldest(before, host_port, key) && before[key].id == id
    }
}

/// The table of peers.
pub struct DgramPeers {
    entries: HashMap<u64, DgramPeerEntry>,
}

impl View for DgramPeers {
    type V = PeerMap;

    closed spec fn view(&self) -> PeerMap {
        self.entries@
    }
}

impl DgramPeers {
    /// A table without peers.
    pub fn new() -> (peers: DgramPeers)
        ensures
            peers@ == PeerMap::empty(),
    {
        DgramPeers { entries: HashMap::new() }
    }

    /// The entry of the peer `key`.
    pub fn get(&self, key: u64) -> (entry: Option<DgramPeerEntry>)
        ensures
            entry == self@.get(key),
    {
        match self.entries.get(&key) {
            Some(entry) => Some(*entry),
            None => None,
        }
    }

    /// Sets the entry of the peer `key`.
    pub fn insert(&mut self, key: u64, entry: DgramPeerEntry)
        ensures
            final(self)@ == old(self)@.insert(key, entry),
    {
        self.entries.insert(key, entry);
    }

    /// Forgets the peer `key`.
    pub fn remove(&mut self, key: u64)
        ensures
            final(self)@ == old(self)@.remove(key),
    {
        self.entries.remove(&key);
    }

    /// Forgets every peer.
    pub fn clear(&mut self)
        ensures
            final(self)@ == PeerMap::empty(),
    {
        self.entries.clear();
    }

    /// The keys of the peers that the host port serves, each once.
    pub fn keys_on(&self, host_port: u32) -> (found: Vec<u64>)
        ensures
            found@.no_duplicates(),
            found@.to_set() == on_port(self@, host_port),
            found@.len() == on_port(self@, host_port).len(),
    {
        let keys: Vec<u64> = keys_of(&self.entries);
        let mut found: Vec<u64> = Vec::new();
        for i in 0..keys.len()
            invariant
                keys@.no_duplicates(),
                keys@.to_set() == self@.dom(),
                found@.no_duplicates(),
                forall|k: u64| #[trigger]
                    found@.contains(k) <==> keys@.take(i as int).contains(k) && low_half(k)
                        == host_port,
        {
            let key: u64 = keys[i];
            let ghost before = found@;
            assert(keys@.take(i + 1) =~= keys@.take(i as int).push(key));
            if low(key) == host_port {
                found.push(key);
                assert(!before.contains(key));
            }
            assert forall|k: u64| #[trigger] found@.contains(k) <==> keys@.take(
                i + 1,
            ).contains(k) && low_half(k) == host_port by {
                vstd::seq_lib::lemma_seq_contains_after_push(before, key, k);
                vstd::seq_lib::lemma_seq_contains_after_push(keys@.take(i as int), key, k);
            }
        }
        assert(keys@.take(keys@.len() as int) =~= keys@);
        proof {
            found@.unique_seq_to_set();
        }
        found
    }

    /// Forgets every peer that the proxy `id` serves.
    pub fn remove_id(&mut self, id: u64)
        ensures
            final(self)@ == without_id(old(self)@, id),
    {
        let keys: Vec<u64> = keys_of(&self.entries);
        let ghost before = self@;
        for i in 0..keys.len()
            invariant
                keys@.no_duplicates(),
                keys@.to_set() == before.dom(),
                self@ =~= before.remove_keys(served_among(before, keys@.take(i as int), id)),
        {
            let key: u64 = keys[i];
            match self.get(key) {
                Some(entry) => if entry.id == id {
                    self.remove(key);
                },
                None => {},
            }
            assert forall|k: u64| #[trigger] keys@.take(i + 1).contains(k) == (keys@.take(
                i as int,
            ).contains(k) || k == key) by {
                assert(keys@.take(i + 1) =~= keys@.take(i as int).push(key));
                vstd::seq_lib::lemma_seq_contains_after_push(keys@.take(i as int), key, k);
            }
        }
        assert(keys@.take(keys@.len() as int) =~= keys@);
    }

    /// Makes room for a new peer of the host port, if it serves too many: forgets
    /// the peer that was active longest ago, and gives the proxy that served it.
    pub fn evict_oldest(&mut self, host_port: u32) -> (id: Option<u64>)
        ensures
            evicts(old(self)@, host_port, final(self)@, id),
    {
        let keys: Vec<u64> = self.keys_on(host_port);
        if keys.len() < MAX_DGRAM_PEERS_PER_PORT {
            return None;
        }
        let mut oldest: u64 = keys[0];
        for i in 1..keys.len()
            invariant
                keys@.to_set() == on_port(self@, host_port),
                forall|j: int|
                    0 <= j < keys@.len() ==> keys@.to_set().contains(#[trigger] keys@[j]),
                keys@.to_set().contains(oldest),
                forall|j: int|
                    0 <= j < i ==> self@[oldest].last_used <= self@[#[trigger] keys@[j]].last_used,
        {
            let key: u64 = keys[i];
            match (self.get(key), self.get(oldest)) {
                (Some(entry), Some(least)) => if entry.last_used < least.last_used {
                    oldest = key;
                },
                _ => {},
            }
        }
        assert(is_oldest(self@, host_port, oldest));
        match self.get(oldest) {
            Some(entry) => {
                self.remove_id(entry.id);
                Some(entry.id)
            },
            None => None,
        }
    }
}

/// Whether no host port serves more peers than it may.
pub open spec fn within_limit(peers: PeerMap) -> bool {
    &&& peers.dom().finite()
    &&& forall|host_port: u32|
        #[trigger] on_port(peers, host_port).len() <= MAX_DGRAM_PEERS_PER_PORT
}

/// Where the limit holds, an eviction makes room for one more peer of the host port
/// and keeps the limit of every port.
pub proof fn eviction_makes_room(before: PeerMap, host_port: u32, after: PeerMap, id: Option<u64>)
    requires
        within_limit(before),
        evicts(before, host_port, after, id),
    ensures
        within_limit(after),
        on_port(after, host_port).len() < MAX_DGRAM_PEERS_PER_PORT,
{
    vstd::set_lib::lemma_len_subset(after.dom(), before.dom());
    assert forall|port: u32|
        #[trigger] on_port(after, port).len() <= on_port(before, port).len() && on_port(
            after,
            port,
        ).subset_of(on_port(before, port)) by {
        vstd::set_lib::lemma_len_subset(on_port(after, port), on_port(before, port));
    }
    if id is Some {
        let key = choose|key: u64| #[trigger]
            is_oldest(before, host_port, key) && before[key].id == id->0;
        let rest = on_port(before, host_port).remove(key);
        vstd::set_lib::lemma_len_subset(on_port(after, host_port), rest);
    }
}

/// A port with room keeps within the limit when a peer is added, and so do the
/// other ports.
pub proof fn insertion_keeps_limit(peers: PeerMap, key: u64, entry: DgramPeerEntry)
    requires
        within_limit(peers),
        on_port(peers, low_half(key)).len() < MAX_DGRAM_PEERS_PER_PORT,
    ensures
        within_limit(peers.insert(key, entry)),
{
    let after = peers.insert(key, entry);
    assert forall|port: u32|
        #[trigger] on_port(after, port).len() <= MAX_DGRAM_PEERS_PER_PORT by {
        if port == low_half(key) {
            assert(on_port(after, port) =~= on_port(peers, port).insert(key));
        } else {
            assert(on_port(after, port) =~= on_port(peers, port));
        }
    }
}

/// A host port serves the peers whose key ends in it. A proxy's peers are those whose entry
/// names it.
pub proof fn peers_are_found_by_port_and_proxy(peers: PeerMap, host_port: u32, id: u64, key: u64)
    ensures
        MAX_DGRAM_PEERS_PER_PORT == 256,
        on_port(peers, host_port).contains(key) <==> peers.contains_key(key) && key % 4294967296
            == host_port,
        without_id(peers, id).contains_key(key) <==> peers.contains_key(key) && peers[key].id
            != id,
        without_id(peers, id).contains_key(key) ==> without_id(peers, id)[key] == peers[key],
        is_oldest(peers, host_port, key) <==> {
            &&& peers.contains_key(key) && key % 4294967296 == host_port
            &&& forall|other: u64|
                (#[trigger] peers.contains_key(other)) && other % 4294967296 == host_port
                    ==> peers[key].last_used <= peers[other].last_used
        },
{
    assert(on_port(peers, host_port).contains(key) <==> peers.contains_key(key) && low_half(key)
        == host_port);
    if forall|other: u64|
        (#[trigger] peers.contains_key(other)) && other % 4294967296 == host_port
            ==> peers[key].last_used <= peers[other].last_used {
        assert forall|other: u64| #[trigger] on_port(peers, host_port).contains(other) implies
            peers[key].last_used <= peers[other].last_used by {
            assert(peers.contains_key(other));
        }
    }
    if is_oldest(peers, host_port, key) {
        assert forall|other: u64|
            (#[trigger] peers.contains_key(other)) && other % 4294967296 == host_port implies
            peers[key].last_used <= peers[other].last_used by {
            assert(on_port(peers, host_port).contains(other));
        }
    }
}

/// Nothing is evicted on a port with fewer than 256 peers. On others a proxy goes that
/// serves one of the port's peers that were active longest ago, and takes all its peers
/// with it and no others.
pub proof fn evictions_take_the_longest_idle(
    before: PeerMap,
    host_port: u32,
    after: PeerMap,
    id: Option<u64>,
)
    requires
        evicts(before, host_port, after, id),
    ensures
        id is Some <==> on_port(before, host_port).len() >= 256,
        id is None ==> after == before,
        id is Some ==> {
            &&& exists|key: u64|
                {
                    &&& #[trigger] before.contains_key(key)
                    &&& key % 4294967296 == host_port
                    &&& before[key].id == id->0
                    &&& forall|other: u64|
                        (#[trigger] before.contains_key(other)) && other % 4294967296 == host_port
                            ==> before[key].last_used <= before[other].last_used
                }
            &&& forall|key: u64| #[trigger]
                after.contains_key(key) <==> before.contains_key(key) && before[key].id != id->0
            &&& forall|key: u64| #[trigger] after.contains_key(key) ==> after[key] == before[key]
        },
{
    if id is Some {
        let key = choose|key: u64| #[trigger]
            is_oldest(before, host_port, key) && before[key].id == id->0;
        peers_are_found_by_port_and_proxy(before, host_port, id->0, key);
    }
}

/// The table does with one peer what it is asked to, and leaves the others alone.
pub proof fn peers_are_changed_one_by_one(key: u64, entry: DgramPeerEntry, port: u32, id: u64)
    ensures
        forall|t: DgramPeers| #[trigger]
            call_ensures(DgramPeers::new, (), t) ==> t@ == PeerMap::empty(),
        forall|t: &DgramPeers, found: Option<DgramPeerEntry>| #[trigger]
            call_ensures(DgramPeers::get, (t, key), found) ==> {
                &&& found is Some <==> t@.contains_key(key)
                &&& found is Some ==> found->0 == t@[key]
            },
        forall|t: &mut DgramPeers, done: ()| #[trigger]
            call_ensures(DgramPeers::insert, (t, key, entry), done) ==> final(t)@ == t@.insert(
                key,
                entry,
            ),
        forall|t: &mut DgramPeers, done: ()| #[trigger]
            call_ensures(DgramPeers::remove, (t, key), done) ==> final(t)@ == t@.remove(key),
        forall|t: &mut DgramPeers, done: ()| #[trigger]
            call_ensures(DgramPeers::clear, (t,), done) ==> final(t)@ == PeerMap::empty(),
        forall|t: &DgramPeers, found: Vec<u64>| #[trigger]
            call_ensures(DgramPeers::keys_on, (t, port), found) ==> found@.no_duplicates()
                && found@.to_set() == on_port(t@, port) && found@.len() == on_port(t@, port).len(),
        forall|t: &mut DgramPeers, done: ()| #[trigger]
            call_ensures(DgramPeers::remove_id, (t, id), done) ==> final(t)@ == without_id(t@, id),
        forall|t: &mut DgramPeers, gone: Option<u64>| #[trigger]
            call_ensures(DgramPeers::evict_oldest, (t, port), gone) ==> evicts(
                t@,
                port,
                final(t)@,
                gone,
            ),
{
}

} // verus!
