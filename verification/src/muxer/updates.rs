//! What follows when a proxy has done some work, and how proxies come and go.

use crate::collections::members_of;
use crate::muxer::{MuxerView, VsockMuxer};
use crate::peers::{evictions_take_the_longest_idle, evicts, on_port, without_id, PeerMap};
use crate::proxy::{ProxyRemoval, ProxyUpdate};
use vstd::prelude::*;

verus! {

/// A change of the events that are waited for.
#[derive(Clone, Copy, Debug, PartialEq, Eq)]
pub struct Polling {
    /// Descriptor to wait for no longer.
    pub unwatch: i32,
    /// What to wait for then, if anything: token, descriptor, events.
    pub watch: Option<(u64, i32, u32)>,
}

/// What the host side is to do for a proxy, in this order.
#[derive(Clone, Copy, Debug, PartialEq, Eq)]
pub struct UpdateEffects {
    /// Change the events that are waited for.
    pub polling: Option<Polling>,
    /// Stop waiting for the proxy's events and drop it.
    pub retire: bool,
    /// Have the proxy removed later, see [`VsockMuxer::defer_removal`].
    pub defer: bool,
    /// Signal the guest.
    pub signal: bool,
}

/// The change that makes `fd` waited for with `events` under the token `id`.
pub open spec fn polling_of(id: u64, fd: i32, events: u32) -> Polling {
    Polling {
        unwatch: fd,
        watch: if events == 0 {
            None
        } else {
            Some((id, fd, events))
        },
    }
}

/// The state without the proxy `id` and the peers that it serves.
pub open spec fn removed(s: MuxerView, id: u64) -> MuxerView {
    MuxerView { proxies: s.proxies.remove(id), peers: without_id(s.peers, id), ..s }
}

/// The state after an update of the proxy `id`, and what to do then.
pub open spec fn updated(s: MuxerView, id: u64, update: ProxyUpdate) -> (MuxerView, UpdateEffects) {
    let immediate = update.remove_proxy == ProxyRemoval::Immediate;
    (
        if immediate {
            removed(s, id)
        } else {
            s
        },
        UpdateEffects {
            polling: match update.polling {
                Some((token, fd, events)) => Some(polling_of(token, fd, events)),
                None => None,
            },
            retire: immediate && s.proxies.contains(id),
            defer: update.remove_proxy == ProxyRemoval::Deferred && s.reaper is Some,
            signal: update.signal_queue && s.interrupt,
        },
    )
}

/// Whether `after` is what an eviction on the host port may leave of the state, and
/// `retired` the proxy that is to go for it.
pub open spec fn evicted(
    before: MuxerView,
    host_port: u32,
    after: MuxerView,
    retired: Option<u64>,
) -> bool {
    exists|peers: PeerMap, id: Option<u64>| #[trigger]
        evicts(before.peers, host_port, peers, id) && match id {
            Some(id) => {
                &&& after == (MuxerView { peers, proxies: before.proxies.remove(id), ..before })
                &&& retired == (if before.proxies.contains(id) {
                    Some(id)
                } else {
                    None
                })
            },
            None => after == before && retired is None,
        }
}

/// The state after the proxy `id` was to be handed over for removal, if there is a
/// channel for that, and was if `sent`.
pub open spec fn handed_over(s: MuxerView, id: u64, sent: bool) -> MuxerView {
    MuxerView {
        reaper: match s.reaper {
            Some(end) => Some(end.hand(id, sent)),
            None => None,
        },
        ..s
    }
}

impl VsockMuxer {
    /// The change that makes `fd` waited for with `events`, if any, under `id`.
    pub fn update_polling(id: u64, fd: i32, events: u32) -> (polling: Polling)
        ensures
            polling == polling_of(id, fd, events),
    {
        let watch: Option<(u64, i32, u32)> = if events == 0 {
            None
        } else {
            Some((id, fd, events))
        };
        Polling { unwatch: fd, watch }
    }

    /// Takes the update that the proxy `id` gave, and says what to do.
    pub fn process_proxy_update(&mut self, id: u64, update: ProxyUpdate) -> (effects: UpdateEffects)
        ensures
            (final(self)@, effects) == updated(old(self)@, id, update),
    {
        let polling: Option<Polling> = match update.polling {
            Some((token, fd, events)) => Some(VsockMuxer::update_polling(token, fd, events)),
            None => None,
        };
        let mut retire: bool = false;
        let mut defer: bool = false;
        match update.remove_proxy {
            ProxyRemoval::Keep => {},
            ProxyRemoval::Immediate => {
                retire = self.remove_proxy(id);
            },
            ProxyRemoval::Deferred => {
                defer = self.reaper_sender.is_some();
            },
        }
        UpdateEffects { polling, retire, defer, signal: update.signal_queue && self.interrupt }
    }

    /// Forgets the proxy `id` and the peers that it serves. Gives whether there was
    /// one, which the host side then stops waiting for and drops.
    pub fn remove_proxy(&mut self, id: u64) -> (retire: bool)
        ensures
            final(self)@ == removed(old(self)@, id),
            retire == old(self)@.proxies.contains(id),
    {
        let retire: bool = self.proxies.remove(&id);
        self.peers.remove_id(id);
        retire
    }

    /// Has the proxy `id` removed later: hands it over to the thread for that. Where
    /// that thread is gone, the proxy is forgotten at once; gives whether the host side
    /// is to drop it.
    pub fn defer_removal(&mut self, id: u64) -> (drop: bool)
        ensures
            match old(self)@.reaper {
                Some(_) => {
                    &&& final(self)@.reaper is Some
                    &&& (final(self)@, drop) == ({
                        let sent = final(self)@.reaper->0.last_sent();
                        deferral(handed_over(old(self)@, id, sent), id, !sent)
                    })
                },
                None => final(self)@ == old(self)@ && !drop,
            },
    {
        let mut failed: bool = false;
        match &mut self.reaper_sender {
            Some(end) => {
                let sent: bool = end.hand_over(id);
                failed = !sent;
            },
            None => {},
        }
        assert(self@ =~= handed_over(old(self)@, id, !failed));
        self.finish_deferral(id, failed)
    }

    /// Takes how deferring the removal of the proxy `id` went.
    pub fn finish_deferral(&mut self, id: u64, failed: bool) -> (drop: bool)
        ensures
            (final(self)@, drop) == deferral(old(self)@, id, failed),
    {
        if failed {
            self.proxies.remove(&id)
        } else {
            false
        }
    }

    /// Takes the news that the proxy `id` exists.
    pub fn proxy_created(&mut self, id: u64)
        ensures
            final(self)@ == (MuxerView {
                proxies: old(self)@.proxies.insert(id),
                ..old(self)@
            }),
    {
        self.proxies.insert(id);
    }

    /// Makes room for a new peer of the host port. Gives the proxy that the host side
    /// is to stop waiting for and to drop, if any.
    pub fn evict_oldest_dgram_peer(&mut self, host_port: u32) -> (retired: Option<u64>)
        ensures
            evicted(old(self)@, host_port, final(self)@, retired),
    {
        let id: Option<u64> = self.peers.evict_oldest(host_port);
        assert(evicts(old(self)@.peers, host_port, self@.peers, id));
        match id {
            Some(id) => {
                let existed: bool = self.proxies.remove(&id);
                if existed {
                    Some(id)
                } else {
                    None
                }
            },
            None => None,
        }
    }

    /// The proxies to have another go at their work.
    pub fn kick_backends(&self) -> (ids: Vec<u64>)
        ensures
            ids@.no_duplicates(),
            ids@.to_set() == self@.proxies,
    {
        members_of(&self.proxies)
    }
}

/// The state after an attempt to defer the removal of the proxy `id`, and whether
/// the proxy is to be dropped at once.
pub open spec fn deferral(s: MuxerView, id: u64, failed: bool) -> (MuxerView, bool) {
    if failed {
        (MuxerView { proxies: s.proxies.remove(id), ..s }, s.proxies.contains(id))
    } else {
        (s, false)
    }
}

/// A proxy that is removed is gone with every peer that it served, and nothing else
/// goes with it.
pub proof fn removal_is_complete(s: MuxerView, id: u64, other: u64, key: u64)
    requires
        other != id,
    ensures
        !removed(s, id).proxies.contains(id),
        removed(s, id).proxies.contains(other) == s.proxies.contains(other),
        removed(s, id).peers.contains_key(key) == (s.peers.contains_key(key) && s.peers[key].id
            != id),
        removed(s, id).peers.contains_key(key) ==> removed(s, id).peers[key] == s.peers[key],
{
}

/// A proxy that asks for events is waited for with exactly those, under the token and with
/// the descriptor that it named; what was waited for before is given up first. One that
/// asks for no events is waited for no longer, and one that asks for nothing is left as it
/// is.
pub proof fn proxies_are_waited_for_as_they_ask(id: u64, update: ProxyUpdate)
    ensures
        forall|m: &mut VsockMuxer, effects: UpdateEffects| #[trigger]
            call_ensures(VsockMuxer::process_proxy_update, (m, id, update), effects) ==> match (
                update.polling,
                effects.polling,
            ) {
                (Some((token, fd, events)), Some(polling)) => {
                    &&& polling.unwatch == fd
                    &&& events == 0 ==> polling.watch is None
                    &&& events != 0 ==> polling.watch == Some((token, fd, events))
                },
                (None, None) => true,
                _ => false,
            },
        forall|token: u64, fd: i32, events: u32, polling: Polling| #[trigger]
            call_ensures(VsockMuxer::update_polling, (token, fd, events), polling) ==> {
                &&& polling.unwatch == fd
                &&& events == 0 ==> polling.watch is None
                &&& events != 0 ==> polling.watch == Some((token, fd, events))
            },
{
}

/// The same, of an update as a value.
pub proof fn updates_ask_for_events(
    s: MuxerView,
    id: u64,
    update: ProxyUpdate,
    token: u64,
    fd: i32,
    events: u32,
)
    requires
        update.polling == Some((token, fd, events)),
    ensures
        updated(s, id, update).1.polling is Some,
        (updated(s, id, update).1.polling->0).unwatch == fd,
        events == 0 ==> (updated(s, id, update).1.polling->0).watch is None,
        events != 0 ==> (updated(s, id, update).1.polling->0).watch == Some((token, fd, events)),
{
}

/// A proxy that asks to go at once is forgotten with the peers that it serves, and dropped
/// if it was there. One that asks to go later is handed over for that if there is a
/// channel, and stays until then. The guest is signalled if the proxy asks for it and the
/// guest can be. Nothing else of the state changes.
pub proof fn proxies_go_and_signal_as_they_ask(id: u64, update: ProxyUpdate)
    ensures
        forall|m: &mut VsockMuxer, effects: UpdateEffects| #[trigger]
            call_ensures(VsockMuxer::process_proxy_update, (m, id, update), effects) ==> {
                let at_once = update.remove_proxy == ProxyRemoval::Immediate;
                &&& effects.retire == (at_once && m@.proxies.contains(id))
                &&& effects.defer == (update.remove_proxy == ProxyRemoval::Deferred
                    && m@.reaper is Some)
                &&& effects.signal == (update.signal_queue && m@.interrupt)
                &&& final(m)@.proxies == if at_once {
                    m@.proxies.remove(id)
                } else {
                    m@.proxies
                }
                &&& final(m)@ == (MuxerView {
                    proxies: final(m)@.proxies,
                    peers: final(m)@.peers,
                    ..m@
                })
                &&& !at_once ==> final(m)@.peers == m@.peers
                &&& at_once ==> forall|key: u64| #[trigger]
                    final(m)@.peers.contains_key(key) <==> m@.peers.contains_key(key)
                        && m@.peers[key].id != id
                &&& at_once ==> forall|key: u64| #[trigger]
                    final(m)@.peers.contains_key(key) ==> final(m)@.peers[key] == m@.peers[key]
            },
        forall|m: &mut VsockMuxer, retire: bool| #[trigger]
            call_ensures(VsockMuxer::remove_proxy, (m, id), retire) ==> retire
                == m@.proxies.contains(id) && final(m)@ == removed(m@, id),
{
}

/// A proxy whose removal is deferred stays if there was someone to take it. Else it is gone
/// at once, and dropped if it was there. What was tried is recorded.
pub proof fn deferred_removals_are_handed_over_or_done(id: u64, failed: bool)
    ensures
        forall|m: &mut VsockMuxer, drop: bool| #[trigger]
            call_ensures(VsockMuxer::defer_removal, (m, id), drop) ==> match m@.reaper {
                Some(end) => {
                    let after = final(m)@;
                    let sent = after.reaper->0.handed.last().1;
                    &&& after.reaper is Some
                    &&& after.reaper->0.channel == end.channel
                    &&& after.reaper->0.handed == end.handed.push((id, sent))
                    &&& sent ==> after.proxies == m@.proxies && !drop
                    &&& !sent ==> after.proxies == m@.proxies.remove(id) && drop
                        == m@.proxies.contains(id)
                    &&& after == (MuxerView { proxies: after.proxies, reaper: after.reaper, ..m@ })
                },
                None => final(m)@ == m@ && !drop,
            },
        forall|m: &mut VsockMuxer, drop: bool| #[trigger]
            call_ensures(VsockMuxer::finish_deferral, (m, id, failed), drop) ==> {
                &&& drop == (failed && m@.proxies.contains(id))
                &&& failed ==> final(m)@ == (MuxerView { proxies: m@.proxies.remove(id), ..m@ })
                &&& !failed ==> final(m)@ == m@
            },
{
}

/// A proxy that was made is there, with all the others. All that are there have another go.
pub proof fn made_proxies_are_there(id: u64)
    ensures
        forall|m: &mut VsockMuxer, done: ()| #[trigger]
            call_ensures(VsockMuxer::proxy_created, (m, id), done) ==> final(m)@ == (MuxerView {
                proxies: m@.proxies.insert(id),
                ..m@
            }),
        forall|m: &VsockMuxer, ids: Vec<u64>| #[trigger]
            call_ensures(VsockMuxer::kick_backends, (m,), ids) ==> ids@.no_duplicates() && forall|
                other: u64,
            | #[trigger]
                ids@.contains(other) <==> m@.proxies.contains(other),
{
    assert forall|m: &VsockMuxer, ids: Vec<u64>, other: u64| #[trigger]
        call_ensures(VsockMuxer::kick_backends, (m,), ids) implies #[trigger] ids@.contains(other)
        <==> m@.proxies.contains(other) by {
        assert(ids@.to_set().contains(other) == ids@.contains(other));
    }
}

/// Making room on a port with fewer than 256 peers changes nothing. Else a proxy goes, with
/// all its peers, that serves one of the port's peers that were active longest ago; it is
/// to be dropped if it was there. All other proxies and peers stay.
pub proof fn room_is_made_by_the_longest_idle(
    before: MuxerView,
    host_port: u32,
    after: MuxerView,
    retired: Option<u64>,
)
    requires
        evicted(before, host_port, after, retired),
    ensures
        on_port(before.peers, host_port).len() < 256 ==> after == before && retired is None,
        on_port(before.peers, host_port).len() >= 256 ==> exists|key: u64|
            {
                let id = before.peers[key].id;
                &&& #[trigger] before.peers.contains_key(key)
                &&& key % 4294967296 == host_port
                &&& forall|other: u64|
                    (#[trigger] before.peers.contains_key(other)) && other % 4294967296 == host_port
                        ==> before.peers[key].last_used <= before.peers[other].last_used
                &&& after == (MuxerView {
                    peers: after.peers,
                    proxies: before.proxies.remove(id),
                    ..before
                })
                &&& forall|other: u64| #[trigger]
                    after.peers.contains_key(other) <==> before.peers.contains_key(other)
                        && before.peers[other].id != id
                &&& forall|other: u64| #[trigger]
                    after.peers.contains_key(other) ==> after.peers[other] == before.peers[other]
                &&& retired == if before.proxies.contains(id) {
                    Some(id)
                } else {
                    None
                }
            },
{
    let (peers, id): (PeerMap, Option<u64>) = choose|peers: PeerMap, id: Option<u64>| #[trigger]
        evicts(before.peers, host_port, peers, id) && match id {
            Some(id) => {
                &&& after == (MuxerView { peers, proxies: before.proxies.remove(id), ..before })
                &&& retired == (if before.proxies.contains(id) {
                    Some(id)
                } else {
                    None
                })
            },
            None => after == before && retired is None,
        };
    evictions_take_the_longest_idle(before.peers, host_port, peers, id);
}

} // verus!
