//! Datagram packets of the guest: messages to datagram services, and the control
//! packets and messages of redirected sockets.

use crate::byte_order::{le16, le32, le64};
use crate::defs::{
    HostOs, TSI_ACCEPT, TSI_CONNECT, TSI_GETNAME, TSI_LISTEN, TSI_PROXY_CREATE, TSI_PROXY_PORT,
    TSI_PROXY_RELEASE, TSI_SENDTO_ADDR, TSI_SENDTO_DATA, VSOCK_HOST_CID, VSOCK_OP_RW,
};
use crate::guest_copy::GuestCopy;
use crate::ids::{
    dgram_id, dgram_id_of, dgram_ids_are_own, halves_are_kept, join, join_halves, low_half,
};
use crate::muxer::control::{
    accept_out, call_if_there, connect_out, connections_go_to_the_named_address, create_step,
    getname_out, listen_out, release_step, sendto_addr_step, sendto_data_step, tsi_id,
};
use crate::muxer::lifecycle::{
    activation_next, quiesce_next, quiesced, ActivationView, Quiesce,
};
use crate::muxer::stream::{is_ours, same_setup, stream_out};
use crate::muxer::updates::{evicted, removed, room_is_made_by_the_longest_idle, updated};
use crate::muxer::{MuxerView, VsockMuxer};
use crate::packet::{PacketHead, PacketView, VsockPacket};
use crate::peers::{
    eviction_makes_room, evicts, insertion_keeps_limit, on_port, within_limit, DgramPeerEntry,
    PeerMap, MAX_DGRAM_PEERS_PER_PORT,
};
use crate::proxy::{
    CallView, ProxyCall, ProxyRemoval, ProxyUpdate, Step, StepView, TsiFlags, VsockDatagramPeer,
    EVENT_IN,
};
use crate::tsi::{
    accept_in, addressed_in, getname_in, ipv4_requests_hold_their_address, listen_in,
    proxy_create_in, release_in, TsiAcceptReq, TsiGetnameReq, TsiProxyCreate, TsiReleaseReq,
};
use vstd::prelude::*;

verus! {

/// What the host side is to do for a datagram packet, in this order.
#[derive(Debug)]
pub struct DgramStep {
    /// A proxy to stop waiting for and to drop.
    pub retired: Option<u64>,
    /// What to do next.
    pub step: Step,
}

/// The number after `n`, with zero after the last.
pub open spec fn next_number(n: u64) -> u64 {
    if n == u64::MAX {
        0
    } else {
        (n + 1) as u64
    }
}

/// The key of the peer that sends `head`.
pub open spec fn peer_key(head: PacketHead) -> u64 {
    join_halves(head.src_port, head.dst_port)
}

/// Whether the peer that sends `head` is known and served by a proxy that exists.
pub open spec fn is_served(s: MuxerView, head: PacketHead) -> bool {
    s.peers.contains_key(peer_key(head)) && s.proxies.contains(s.peers[peer_key(head)].id)
}

/// The state after a message of a known peer: it was just active.
pub open spec fn touched(s: MuxerView, head: PacketHead) -> MuxerView {
    MuxerView {
        next_dgram_activity: next_number(s.next_dgram_activity),
        peers: s.peers.insert(
            peer_key(head),
            DgramPeerEntry {
                id: s.peers[peer_key(head)].id,
                last_used: s.next_dgram_activity,
            },
        ),
        ..s
    }
}

/// The state after a message of a peer that no proxy serves: what was known of it is
/// forgotten.
pub open spec fn forgotten(s: MuxerView, head: PacketHead) -> MuxerView {
    MuxerView {
        next_dgram_activity: next_number(s.next_dgram_activity),
        peers: s.peers.remove(peer_key(head)),
        ..s
    }
}

/// What to do once there is room for a new peer.
pub open spec fn open_peer_step(s: MuxerView, head: PacketHead) -> StepView {
    if s.attached {
        StepView::OpenPeer {
            service: s.dgram_routes[head.dst_port],
            peer: VsockDatagramPeer {
                guest_cid: s.cid,
                guest_port: head.src_port,
                host_port: head.dst_port,
            },
            activity: s.next_dgram_activity,
        }
    } else {
        StepView::Done
    }
}

/// Whether a message to a datagram service may turn `s` into `after`, with `out` to
/// do. A peer that a proxy serves has its message sent; for another one room is made
/// and the service is asked.
pub open spec fn custom_dgram_out(
    s: MuxerView,
    head: PacketHead,
    after: MuxerView,
    out: DgramStep,
) -> bool {
    if !s.dgram_routes.contains_key(head.dst_port) {
        &&& after == s
        &&& out.retired is None
        &&& out.step@ == StepView::Done
    } else if is_served(s, head) {
        &&& after == touched(s, head)
        &&& out.retired is None
        &&& out.step@ == (StepView::Call {
            id: s.peers[peer_key(head)].id,
            call: CallView::SendMsg,
        })
    } else {
        &&& evicted(forgotten(s, head), head.dst_port, after, out.retired)
        &&& out.step@ == open_peer_step(s, head)
    }
}

/// The outcome once a service has given a peer: the proxy that is to serve it gets the
/// next number.
pub open spec fn peer_opened_out(s: MuxerView) -> (MuxerView, u64) {
    (
        MuxerView { next_dgram_proxy_id: next_number(s.next_dgram_proxy_id), ..s },
        dgram_id_of(s.next_dgram_proxy_id),
    )
}

/// The outcome once a service has given a peer that the proxy `id` is to serve, with
/// the descriptor `fd`.
pub open spec fn peer_built_out(s: MuxerView, id: u64, fd: i32) -> (MuxerView, StepView) {
    if fd < 0 {
        (s, StepView::Done)
    } else {
        (
            MuxerView { proxies: s.proxies.insert(id), ..s },
            StepView::Watch { id, fd, events: EVENT_IN },
        )
    }
}

/// The outcome once it is known whether the new peer can be waited for.
pub open spec fn peer_watched_out(
    s: MuxerView,
    peer: VsockDatagramPeer,
    activity: u64,
    id: u64,
    watched: bool,
) -> (MuxerView, StepView) {
    if watched {
        (
            MuxerView {
                peers: s.peers.insert(
                    join_halves(peer.guest_port, peer.host_port),
                    DgramPeerEntry { id, last_used: activity },
                ),
                ..s
            },
            call_if_there(s, id, CallView::SendMsg),
        )
    } else {
        (MuxerView { proxies: s.proxies.remove(id), ..s }, StepView::Done)
    }
}

/// Whether a control packet or a message of a redirected socket may turn `s` into
/// `after`, with `step` to do.
pub open spec fn tsi_out(
    s: MuxerView,
    pkt: PacketView,
    head: PacketHead,
    after: MuxerView,
    step: StepView,
) -> bool {
    let port = head.dst_port;
    let tsi = s.tsi_flags.enabled();
    if port == TSI_PROXY_CREATE && tsi {
        &&& after == s
        &&& exists|req: Option<TsiProxyCreate>|
            pkt.reads_proxy_create(req) && step == #[trigger] create_step(s, head, req)
    } else if port == TSI_CONNECT && tsi {
        exists|req: Option<(u32, Seq<u8>)>|
            pkt.reads_addressed(s.host, req) && (after, step) == #[trigger] connect_out(s, head, req)
    } else if port == TSI_GETNAME && tsi {
        exists|req: Option<TsiGetnameReq>|
            pkt.reads_getname(req) && (after, step) == #[trigger] getname_out(s, head, req)
    } else if port == TSI_SENDTO_ADDR && tsi {
        &&& after == s
        &&& exists|req: Option<(u32, Seq<u8>)>|
            pkt.reads_addressed(s.host, req) && step == #[trigger] sendto_addr_step(s, req)
    } else if port == TSI_SENDTO_DATA && tsi {
        &&& after == s
        &&& step == sendto_data_step(s, head)
    } else if port == TSI_LISTEN && tsi {
        exists|req: Option<(u32, u32, i32, Seq<u8>)>|
            pkt.reads_listen(s.host, req) && (after, step) == #[trigger] listen_out(s, head, req)
    } else if port == TSI_ACCEPT && tsi {
        exists|req: Option<TsiAcceptReq>|
            pkt.reads_accept(req) && (after, step) == #[trigger] accept_out(s, head, req)
    } else if port == TSI_PROXY_RELEASE && tsi {
        &&& after == s
        &&& exists|req: Option<TsiReleaseReq>|
            pkt.reads_release(req) && step == #[trigger] release_step(s, req)
    } else {
        &&& after == s
        &&& step == if head.op == VSOCK_OP_RW {
            call_if_there(s, tsi_id(head.src_port), CallView::SendMsg)
        } else {
            StepView::Done
        }
    }
}

/// Whether a datagram packet of the guest may turn `s` into `after`, with `out` to
/// do.
pub open spec fn dgram_out(
    s: MuxerView,
    pkt: PacketView,
    head: PacketHead,
    after: MuxerView,
    out: DgramStep,
) -> bool {
    if !is_ours(s, head) || (s.dgram_routes.contains_key(head.dst_port) && head.op
        != VSOCK_OP_RW) {
        &&& after == s
        &&& out.retired is None
        &&& out.step@ == StepView::Done
    } else if s.dgram_routes.contains_key(head.dst_port) {
        custom_dgram_out(s, head, after, out)
    } else {
        &&& out.retired is None
        &&& tsi_out(s, pkt, head, after, out.step@)
    }
}

impl VsockMuxer {
    /// The service that the host port leads to, if any.
    fn dgram_service(&self, port: u32) -> (service: Option<u64>)
        ensures
            service == self@.dgram_routes.get(port),
    {
        match &self.custom_dgram_port_map {
            Some(routes) => match routes.get(&port) {
                Some(service) => Some(*service),
                None => None,
            },
            None => None,
        }
    }

    /// Takes a message to a datagram service.
    pub fn process_custom_dgram(&mut self, head: &PacketHead) -> (out: DgramStep)
        ensures
            custom_dgram_out(old(self)@, *head, final(self)@, out),
    {
        let port: u32 = head.dst_port;
        let service: u64 = match self.dgram_service(port) {
            Some(service) => service,
            None => return DgramStep { retired: None, step: Step::Done },
        };
        let key: u64 = join(head.src_port, port);
        let activity: u64 = self.next_dgram_activity;
        self.next_dgram_activity = activity.wrapping_add(1);
        match self.peers.get(key) {
            Some(entry) => {
                if self.proxies.contains(&entry.id) {
                    self.peers.insert(key, DgramPeerEntry { id: entry.id, last_used: activity });
                    let step = Step::Call { id: entry.id, call: ProxyCall::SendMsg };
                    return DgramStep { retired: None, step };
                }
                self.peers.remove(key);
            },
            None => {},
        }
        assert(self@ =~= forgotten(old(self)@, *head));
        let retired: Option<u64> = self.evict_oldest_dgram_peer(port);
        if !self.attached {
            return DgramStep { retired, step: Step::Done };
        }
        let peer = VsockDatagramPeer {
            guest_cid: self.cid,
            guest_port: head.src_port,
            host_port: port,
        };
        DgramStep { retired, step: Step::OpenPeer { service, peer, activity } }
    }

    /// Takes the news that a service has given a peer. Gives the identifier of the
    /// proxy that is to serve it.
    pub fn peer_opened(&mut self) -> (id: u64)
        ensures
            (final(self)@, id) == peer_opened_out(old(self)@),
    {
        let n: u64 = self.next_dgram_proxy_id;
        self.next_dgram_proxy_id = n.wrapping_add(1);
        dgram_id(n)
    }

    /// Takes the descriptor of the proxy `id` for a new peer. The proxy is there
    /// before its events are waited for: a service can reply at once, and the event
    /// would find no proxy.
    pub fn peer_built(&mut self, id: u64, fd: i32) -> (step: Step)
        ensures
            (final(self)@, step@) == peer_built_out(old(self)@, id, fd),
    {
        if fd < 0 {
            return Step::Done;
        }
        self.proxies.insert(id);
        Step::Watch { id, fd, events: EVENT_IN }
    }

    /// Takes whether the events of the proxy `id` for a new peer can be waited for.
    pub fn peer_watched(
        &mut self,
        peer: VsockDatagramPeer,
        activity: u64,
        id: u64,
        watched: bool,
    ) -> (step: Step)
        ensures
            (final(self)@, step@) == peer_watched_out(old(self)@, peer, activity, id, watched),
    {
        if !watched {
            self.proxies.remove(&id);
            return Step::Done;
        }
        let key: u64 = join(peer.guest_port, peer.host_port);
        self.peers.insert(key, DgramPeerEntry { id, last_used: activity });
        if self.proxies.contains(&id) {
            Step::Call { id, call: ProxyCall::SendMsg }
        } else {
            Step::Done
        }
    }

    /// Takes a message of a redirected socket.
    pub fn process_dgram_rw(&self, head: &PacketHead) -> (step: Step)
        ensures
            step@ == call_if_there(self@, tsi_id(head.src_port), CallView::SendMsg),
    {
        let id: u64 = join(head.src_port, TSI_PROXY_PORT);
        if self.proxies.contains(&id) {
            Step::Call { id, call: ProxyCall::SendMsg }
        } else {
            Step::Done
        }
    }

    /// Takes a control packet or a message of a redirected socket.
    fn process_tsi(&mut self, pkt: &VsockPacket, head: &PacketHead) -> (step: Step)
        ensures
            tsi_out(old(self)@, pkt@, *head, final(self)@, step@),
    {
        if self.tsi_flags.tsi_enabled() {
            match head.dst_port {
                TSI_PROXY_CREATE => return self.process_proxy_create(pkt, head),
                TSI_CONNECT => return self.process_connect(pkt, head),
                TSI_GETNAME => return self.process_getname(pkt, head),
                TSI_SENDTO_ADDR => return self.process_sendto_addr(pkt),
                TSI_SENDTO_DATA => return self.process_sendto_data(head),
                TSI_LISTEN => return self.process_listen_request(pkt, head),
                TSI_ACCEPT => return self.process_accept_request(pkt, head),
                TSI_PROXY_RELEASE => return self.process_proxy_release(pkt),
                _ => {},
            }
        }
        if head.op == VSOCK_OP_RW {
            self.process_dgram_rw(head)
        } else {
            Step::Done
        }
    }

    /// Takes a datagram packet of the guest. One that claims another sender than the
    /// configured guest, or does not go to the host, is dropped.
    pub fn send_dgram_pkt(&mut self, pkt: &VsockPacket) -> (out: DgramStep)
        ensures
            exists|head: PacketHead| #[trigger]
                pkt@.heads(head) && dgram_out(old(self)@, pkt@, head, final(self)@, out),
    {
        let head = pkt.head();
        self.take_dgram_pkt(pkt, &head)
    }

    /// Takes a datagram packet of the guest with this header.
    pub fn take_dgram_pkt(&mut self, pkt: &VsockPacket, head: &PacketHead) -> (out: DgramStep)
        ensures
            dgram_out(old(self)@, pkt@, *head, final(self)@, out),
    {
        if !self.accepts(head) {
            return DgramStep { retired: None, step: Step::Done };
        }
        if self.dgram_service(head.dst_port).is_some() {
            if head.op == VSOCK_OP_RW {
                return self.process_custom_dgram(head);
            }
            return DgramStep { retired: None, step: Step::Done };
        }
        let step = self.process_tsi(pkt, head);
        DgramStep { retired: None, step }
    }
}

/// A datagram packet that claims another sender than the configured guest, or does
/// not go to the host, changes nothing and reaches no one.
pub proof fn foreign_dgram_packets_are_dropped(
    s: MuxerView,
    pkt: PacketView,
    head: PacketHead,
    after: MuxerView,
    out: DgramStep,
)
    requires
        head.src_cid != s.cid || head.dst_cid != VSOCK_HOST_CID,
        dgram_out(s, pkt, head, after, out),
    ensures
        after == s,
        out.retired is None,
        out.step@ == StepView::Done,
{
}

/// Whether `states` are those that datagram packets of the guest may lead through,
/// one after another, with `outs` to do.
pub open spec fn dgram_run(
    pkts: Seq<PacketView>,
    heads: Seq<PacketHead>,
    states: Seq<MuxerView>,
    outs: Seq<DgramStep>,
) -> bool {
    &&& heads.len() == pkts.len()
    &&& states.len() == pkts.len() + 1
    &&& outs.len() == pkts.len()
    &&& forall|i: int|
        0 <= i < heads.len() ==> dgram_out(
            states[i],
            pkts[i],
            #[trigger] heads[i],
            states[i + 1],
            outs[i],
        )
}

/// Any number of foreign datagram packets changes nothing and reaches no one.
pub proof fn foreign_dgram_sequences_are_dropped(
    pkts: Seq<PacketView>,
    heads: Seq<PacketHead>,
    states: Seq<MuxerView>,
    outs: Seq<DgramStep>,
    n: int,
)
    requires
        dgram_run(pkts, heads, states, outs),
        forall|i: int| 0 <= i < heads.len() ==> !is_ours(states[0], #[trigger] heads[i]),
        0 <= n <= heads.len(),
    ensures
        states[n] == states[0],
        n > 0 ==> outs[n - 1].retired is None && outs[n - 1].step@ == StepView::Done,
    decreases n,
{
    if n > 0 {
        foreign_dgram_sequences_are_dropped(pkts, heads, states, outs, n - 1);
        assert(!is_ours(states[0], heads[n - 1]));
    }
}

/// Datagram services are told the configured identity of the guest, and the ports
/// that the packet's header had when it was taken; so are redirected sockets.
pub proof fn dgram_identity_is_configured(
    s: MuxerView,
    pkt: PacketView,
    head: PacketHead,
    after: MuxerView,
    out: DgramStep,
)
    requires
        dgram_out(s, pkt, head, after, out),
    ensures
        match out.step@ {
            StepView::OpenPeer { service, peer, activity } => {
                &&& is_ours(s, head)
                &&& s.dgram_routes.contains_key(head.dst_port)
                &&& service == s.dgram_routes[head.dst_port]
                &&& peer.guest_cid == s.cid
                &&& peer.guest_port == head.src_port
                &&& peer.host_port == head.dst_port
            },
            StepView::CreateStream { guest_cid, .. } => is_ours(s, head) && guest_cid == s.cid,
            StepView::CreateDgram { guest_cid, .. } => is_ours(s, head) && guest_cid == s.cid,
            _ => true,
        },
{
}

/// A datagram packet leaves the setup of the device alone.
pub proof fn dgram_packets_keep_setup(
    s: MuxerView,
    pkt: PacketView,
    head: PacketHead,
    after: MuxerView,
    out: DgramStep,
)
    requires
        dgram_out(s, pkt, head, after, out),
    ensures
        same_setup(after, s),
{
}

/// The peers of every port stay within the limit when a message brings a new peer,
/// from the message to the end of opening the peer.
pub proof fn peer_limit_is_kept(
    s: MuxerView,
    head: PacketHead,
    after: MuxerView,
    out: DgramStep,
    id: u64,
    watched: bool,
)
    requires
        within_limit(s.peers),
        custom_dgram_out(s, head, after, out),
    ensures
        within_limit(after.peers),
        match out.step@ {
            StepView::OpenPeer { peer, activity, .. } => within_limit(
                peer_watched_out(after, peer, activity, id, watched).0.peers,
            ),
            _ => true,
        },
{
    let port = head.dst_port;
    let key = peer_key(head);
    halves_are_kept(head.src_port, port);
    if s.dgram_routes.contains_key(port) {
        if is_served(s, head) {
            lemma_same_keys_keep_limit(s.peers, touched(s, head).peers);
        } else {
            let base = forgotten(s, head);
            lemma_fewer_keys_keep_limit(s.peers, base.peers);
            let (peers, gone): (PeerMap, Option<u64>) = choose|peers: PeerMap, gone: Option<u64>|
             #[trigger]
                evicts(base.peers, port, peers, gone) && match gone {
                    Some(gone) => {
                        &&& after == (MuxerView {
                            peers,
                            proxies: base.proxies.remove(gone),
                            ..base
                        })
                        &&& out.retired == (if base.proxies.contains(gone) {
                            Some(gone)
                        } else {
                            None
                        })
                    },
                    None => after == base && out.retired is None,
                };
            eviction_makes_room(base.peers, port, peers, gone);
            insertion_keeps_limit(
                peers,
                key,
                DgramPeerEntry { id, last_used: s.next_dgram_activity },
            );
        }
    }
}

proof fn lemma_same_keys_keep_limit(before: PeerMap, after: PeerMap)
    requires
        within_limit(before),
        after.dom() =~= before.dom(),
    ensures
        within_limit(after),
{
    assert forall|port: u32|
        #[trigger] on_port(after, port).len() <= MAX_DGRAM_PEERS_PER_PORT by {
        assert(on_port(after, port) =~= on_port(before, port));
    }
}

proof fn lemma_fewer_keys_keep_limit(before: PeerMap, after: PeerMap)
    requires
        within_limit(before),
        after.dom().subset_of(before.dom()),
    ensures
        within_limit(after),
{
    vstd::set_lib::lemma_len_subset(after.dom(), before.dom());
    assert forall|port: u32|
        #[trigger] on_port(after, port).len() <= MAX_DGRAM_PEERS_PER_PORT by {
        vstd::set_lib::lemma_len_subset(on_port(after, port), on_port(before, port));
    }
}

/// Whether every peer is served by a datagram proxy.
pub open spec fn dgram_proxies_serve(peers: PeerMap) -> bool {
    forall|key: u64| #[trigger] peers.contains_key(key) ==> low_half(peers[key].id) == 0
}

/// Whether every peer was last active before the next message.
pub open spec fn active_before(peers: PeerMap, next: u64) -> bool {
    forall|key: u64| #[trigger] peers.contains_key(key) ==> peers[key].last_used < next
}

/// Whether the peer `key` was active later than every other.
pub open spec fn is_most_recent(peers: PeerMap, key: u64) -> bool {
    &&& peers.contains_key(key)
    &&& forall|other: u64| #[trigger]
        peers.contains_key(other) && other != key ==> peers[other].last_used
            < peers[key].last_used
}

/// What holds of the peers of every device: no port serves too many, datagram proxies
/// serve them, and none was active later than now.
pub open spec fn peers_in_order(s: MuxerView) -> bool {
    &&& within_limit(s.peers)
    &&& dgram_proxies_serve(s.peers)
    &&& active_before(s.peers, s.next_dgram_activity)
}

/// The peers are in order when the device is made, at rest, and after a proxy was
/// removed.
pub proof fn peers_start_in_order(
    host: HostOs,
    cid: u64,
    host_port_map: Option<Map<u16, u16>>,
    unix_routes: Map<u32, (Seq<u8>, bool)>,
    stream_routes: Map<u32, u64>,
    dgram_routes: Map<u32, u64>,
    tsi_flags: TsiFlags,
    s: MuxerView,
    id: u64,
)
    ensures
        peers_in_order(
            MuxerView::fresh(
                host,
                cid,
                host_port_map,
                unix_routes,
                stream_routes,
                dgram_routes,
                tsi_flags,
            ),
        ),
        peers_in_order(quiesced(s)),
        peers_in_order(s) ==> peers_in_order(removed(s, id)),
{
    let empty = PeerMap::empty();
    assert forall|port: u32|
        #[trigger] on_port(empty, port).len() <= MAX_DGRAM_PEERS_PER_PORT by {
        assert(on_port(empty, port) =~= Set::empty());
    }
    if peers_in_order(s) {
        lemma_fewer_keys_keep_limit(s.peers, removed(s, id).peers);
    }
}

/// The peers stay in order when a datagram packet comes, until the messages can no
/// longer be numbered.
pub proof fn dgram_packets_keep_order(
    s: MuxerView,
    pkt: PacketView,
    head: PacketHead,
    after: MuxerView,
    out: DgramStep,
)
    requires
        peers_in_order(s),
        s.next_dgram_activity < u64::MAX,
        dgram_out(s, pkt, head, after, out),
    ensures
        peers_in_order(after),
        s.next_dgram_activity <= after.next_dgram_activity,
{
    if is_ours(s, head) && head.op == VSOCK_OP_RW && s.dgram_routes.contains_key(head.dst_port) {
        peer_limit_is_kept(s, head, after, out, 0, false);
    }
}

/// A new peer leaves the others in order, and is in order itself: a datagram proxy
/// serves it, and it was active at the message that brought it.
pub proof fn new_peers_are_in_order(
    s: MuxerView,
    peer: VsockDatagramPeer,
    activity: u64,
    n: u64,
    watched: bool,
)
    requires
        dgram_proxies_serve(s.peers),
        active_before(s.peers, s.next_dgram_activity),
        activity < s.next_dgram_activity,
    ensures
        ({
            let after = peer_watched_out(s, peer, activity, dgram_id_of(n), watched).0;
            dgram_proxies_serve(after.peers) && active_before(
                after.peers,
                after.next_dgram_activity,
            )
        }),
{
    halves_are_kept(low_half(n), 0);
}

/// A message of a peer that a proxy serves reaches that proxy alone. No peer goes and
/// none comes, the peer keeps its proxy and is the most recently active one; unless the
/// answer removes the proxy at once, that stays so.
pub proof fn known_peers_are_reused(
    s: MuxerView,
    pkt: PacketView,
    head: PacketHead,
    after: MuxerView,
    out: DgramStep,
    update: ProxyUpdate,
)
    requires
        active_before(s.peers, s.next_dgram_activity),
        s.next_dgram_activity < u64::MAX,
        is_ours(s, head),
        head.op == VSOCK_OP_RW,
        s.dgram_routes.contains_key(head.dst_port),
        is_served(s, head),
        dgram_out(s, pkt, head, after, out),
        update.remove_proxy != ProxyRemoval::Immediate,
    ensures
        ({
            let key = peer_key(head);
            let id = s.peers[key].id;
            &&& out.retired is None
            &&& out.step@ == (StepView::Call { id, call: CallView::SendMsg })
            &&& after.proxies == s.proxies
            &&& after.peers.dom() == s.peers.dom()
            &&& after.peers[key].id == id
            &&& is_most_recent(after.peers, key)
            &&& updated(after, id, update).0 == after
        }),
{
    assert(after.peers.dom() =~= s.peers.dom());
}

/// A message of an unknown peer, whose service takes the peer with a descriptor that can
/// be waited for, leads to one new proxy. Its identifier is not zero, ends in zero and
/// was no earlier datagram proxy's, as long as the number of proxies fits in 32 bits. The
/// proxy is there before its events are waited for, serves the peer, which is the most
/// recently active one, and gets the message. The peers stay in order.
pub proof fn unknown_peers_get_a_proxy(
    s: MuxerView,
    pkt: PacketView,
    head: PacketHead,
    after: MuxerView,
    out: DgramStep,
    fd: i32,
    earlier: u64,
)
    requires
        peers_in_order(s),
        s.next_dgram_activity < u64::MAX,
        earlier < s.next_dgram_proxy_id < 0x1_0000_0000,
        s.attached,
        is_ours(s, head),
        head.op == VSOCK_OP_RW,
        s.dgram_routes.contains_key(head.dst_port),
        !s.peers.contains_key(peer_key(head)),
        dgram_out(s, pkt, head, after, out),
        fd >= 0,
    ensures
        out.step@ == open_peer_step(s, head),
        out.step@ is OpenPeer,
        ({
            let key = peer_key(head);
            let peer = out.step@->peer;
            let activity = s.next_dgram_activity;
            let (opened, id) = peer_opened_out(after);
            let (built, watch) = peer_built_out(opened, id, fd);
            let (served, call) = peer_watched_out(built, peer, activity, id, true);
            &&& id != 0
            &&& low_half(id) == 0
            &&& earlier > 0 ==> id != dgram_id_of(earlier)
            &&& built.proxies == after.proxies.insert(id)
            &&& watch == (StepView::Watch { id, fd, events: EVENT_IN })
            &&& served.proxies == built.proxies
            &&& served.peers == after.peers.insert(key, DgramPeerEntry { id, last_used: activity })
            &&& is_most_recent(served.peers, key)
            &&& call == (StepView::Call { id, call: CallView::SendMsg })
            &&& peers_in_order(served)
        }),
{
    let n = s.next_dgram_proxy_id;
    halves_are_kept(low_half(n), 0);
    if earlier > 0 {
        dgram_ids_are_own(earlier, n);
    }
    let id = dgram_id_of(n);
    peer_limit_is_kept(s, head, after, out, id, true);
    dgram_packets_keep_order(s, pkt, head, after, out);
    assert(active_before(after.peers, s.next_dgram_activity));
}

/// Only opening a peer takes a number for a datagram proxy: other packets, updates,
/// activation and rest leave the next number alone.
pub proof fn openings_alone_take_numbers(
    s: MuxerView,
    pkt: PacketView,
    head: PacketHead,
    after: MuxerView,
    out: DgramStep,
    id: u64,
    update: ProxyUpdate,
    peer: VsockDatagramPeer,
    activity: u64,
    fd: i32,
    watched: bool,
    a: ActivationView,
    channel: int,
    q: Quiesce,
    ok: bool,
)
    ensures
        dgram_out(s, pkt, head, after, out) ==> after.next_dgram_proxy_id == s.next_dgram_proxy_id,
        stream_out(s, head).0.next_dgram_proxy_id == s.next_dgram_proxy_id,
        updated(s, id, update).0.next_dgram_proxy_id == s.next_dgram_proxy_id,
        peer_built_out(s, id, fd).0.next_dgram_proxy_id == s.next_dgram_proxy_id,
        peer_watched_out(s, peer, activity, id, watched).0.next_dgram_proxy_id
            == s.next_dgram_proxy_id,
        activation_next(s, a, channel).0.next_dgram_proxy_id == s.next_dgram_proxy_id,
        quiesce_next(s, q, ok).0.next_dgram_proxy_id == s.next_dgram_proxy_id,
{
}

/// A datagram packet costs no other proxy than a datagram proxy its place: streams
/// and host listeners, whose identifiers end in a port, stay.
pub proof fn dgram_packets_keep_streams(
    s: MuxerView,
    pkt: PacketView,
    head: PacketHead,
    after: MuxerView,
    out: DgramStep,
    id: u64,
)
    requires
        dgram_proxies_serve(s.peers),
        dgram_out(s, pkt, head, after, out),
        low_half(id) != 0,
        s.proxies.contains(id),
    ensures
        after.proxies.contains(id),
        out.retired != Some(id),
        dgram_proxies_serve(after.peers),
{
}

/// A datagram peer is known by the guest's port in the upper half of its key and by the
/// host's in the lower. Numbers count up by one, and start again at zero.
pub proof fn peers_are_known_by_both_ports(head: PacketHead, n: u64)
    ensures
        peer_key(head) == 4294967296 * head.src_port + head.dst_port,
        n < u64::MAX ==> next_number(n) == n + 1,
        next_number(u64::MAX) == 0,
{
}

/// A message to a port without a datagram service goes nowhere.
pub proof fn messages_need_a_service(
    s: MuxerView,
    head: PacketHead,
    after: MuxerView,
    out: DgramStep,
)
    requires
        custom_dgram_out(s, head, after, out),
        !s.dgram_routes.contains_key(head.dst_port),
    ensures
        after == s,
        out.retired is None,
        out.step is Done,
{
}

/// A message of a peer whose proxy exists goes to that proxy. The peer keeps the proxy, and
/// was active at this message. Nothing else changes but the number of the next message.
pub proof fn messages_go_to_the_proxy_of_their_peer(
    s: MuxerView,
    head: PacketHead,
    after: MuxerView,
    out: DgramStep,
)
    requires
        custom_dgram_out(s, head, after, out),
        s.dgram_routes.contains_key(head.dst_port),
        s.peers.contains_key((4294967296 * head.src_port + head.dst_port) as u64),
        s.proxies.contains(
            s.peers[(4294967296 * head.src_port + head.dst_port) as u64].id,
        ),
    ensures
        ({
            let key = (4294967296 * head.src_port + head.dst_port) as u64;
            let id = s.peers[key].id;
            let now = s.next_dgram_activity;
            &&& out.retired is None
            &&& out.step matches Step::Call { id: asked, call: ProxyCall::SendMsg }
            &&& asked == id
            &&& after == (MuxerView {
                peers: s.peers.insert(key, DgramPeerEntry { id, last_used: now }),
                next_dgram_activity: after.next_dgram_activity,
                ..s
            })
            &&& now < u64::MAX ==> after.next_dgram_activity == now + 1
        }),
{
}

/// A message of a peer without a proxy has the service of its port asked for the peer, with
/// the identity of the guest, if guest memory is there. What was known of the peer is
/// forgotten, and on a port with 256 other peers one that was active longest ago makes room.
pub proof fn new_peers_are_asked_of_their_service(
    s: MuxerView,
    head: PacketHead,
    after: MuxerView,
    out: DgramStep,
)
    requires
        custom_dgram_out(s, head, after, out),
        s.dgram_routes.contains_key(head.dst_port),
        ({
            let key = (4294967296 * head.src_port + head.dst_port) as u64;
            !s.peers.contains_key(key) || !s.proxies.contains(s.peers[key].id)
        }),
    ensures
        !s.attached ==> out.step is Done,
        s.attached ==> {
            &&& out.step matches Step::OpenPeer { service, peer, activity }
            &&& service == s.dgram_routes[head.dst_port]
            &&& peer.guest_cid == s.cid
            &&& peer.guest_port == head.src_port
            &&& peer.host_port == head.dst_port
            &&& activity == s.next_dgram_activity
        },
        ({
            let key = (4294967296 * head.src_port + head.dst_port) as u64;
            let known = s.peers.remove(key);
            let full = on_port(known, head.dst_port).len() >= 256;
            &&& after == (MuxerView {
                peers: after.peers,
                proxies: after.proxies,
                next_dgram_activity: after.next_dgram_activity,
                ..s
            })
            &&& s.next_dgram_activity < u64::MAX ==> after.next_dgram_activity
                == s.next_dgram_activity + 1
            &&& !full ==> after.peers == known && after.proxies == s.proxies && out.retired is None
            &&& full ==> exists|gone: u64|
                {
                    let id = known[gone].id;
                    &&& #[trigger] known.contains_key(gone)
                    &&& gone % 4294967296 == head.dst_port
                    &&& forall|other: u64|
                        (#[trigger] known.contains_key(other)) && other % 4294967296
                            == head.dst_port ==> known[gone].last_used <= known[other].last_used
                    &&& after.proxies == s.proxies.remove(id)
                    &&& forall|other: u64| #[trigger]
                        after.peers.contains_key(other) <==> known.contains_key(other)
                            && known[other].id != id
                    &&& forall|other: u64| #[trigger]
                        after.peers.contains_key(other) ==> after.peers[other] == known[other]
                    &&& out.retired == if s.proxies.contains(id) {
                        Some(id)
                    } else {
                        None
                    }
                }
        }),
{
    let base = forgotten(s, head);
    room_is_made_by_the_longest_idle(base, head.dst_port, after, out.retired);
    if on_port(base.peers, head.dst_port).len() >= 256 {
        let gone = choose|key: u64|
            {
                let id = base.peers[key].id;
                &&& #[trigger] base.peers.contains_key(key)
                &&& key % 4294967296 == head.dst_port
                &&& forall|other: u64|
                    (#[trigger] base.peers.contains_key(other)) && other % 4294967296
                        == head.dst_port ==> base.peers[key].last_used
                        <= base.peers[other].last_used
                &&& after == (MuxerView {
                    peers: after.peers,
                    proxies: base.proxies.remove(id),
                    ..base
                })
                &&& forall|other: u64| #[trigger]
                    after.peers.contains_key(other) <==> base.peers.contains_key(other)
                        && base.peers[other].id != id
                &&& forall|other: u64| #[trigger]
                    after.peers.contains_key(other) ==> after.peers[other] == base.peers[other]
                &&& out.retired == if base.proxies.contains(id) {
                    Some(id)
                } else {
                    None
                }
            };
        assert(s.peers.remove(peer_key(head)).contains_key(gone));
    }
}

/// A peer that its service gave gets a proxy with the next number. The proxy is there before
/// its events are waited for, which are those of reading; one without a descriptor is not.
/// Once they are, the proxy serves the peer, which was active at its message, and gets the
/// message. If they cannot be, the proxy is gone again.
pub proof fn given_peers_get_their_proxy(
    s: MuxerView,
    peer: VsockDatagramPeer,
    activity: u64,
    id: u64,
    fd: i32,
)
    ensures
        peer_opened_out(s).1 == 4294967296 * (s.next_dgram_proxy_id % 4294967296),
        peer_opened_out(s).0 == (MuxerView {
            next_dgram_proxy_id: peer_opened_out(s).0.next_dgram_proxy_id,
            ..s
        }),
        s.next_dgram_proxy_id < u64::MAX ==> peer_opened_out(s).0.next_dgram_proxy_id
            == s.next_dgram_proxy_id + 1,
        fd < 0 ==> peer_built_out(s, id, fd) == (s, StepView::Done),
        fd >= 0 ==> peer_built_out(s, id, fd) == (
            MuxerView { proxies: s.proxies.insert(id), ..s },
            StepView::Watch { id, fd, events: 1 },
        ),
        peer_watched_out(s, peer, activity, id, false) == (
            MuxerView { proxies: s.proxies.remove(id), ..s },
            StepView::Done,
        ),
        peer_watched_out(s, peer, activity, id, true) == (
            MuxerView {
                peers: s.peers.insert(
                    (4294967296 * peer.guest_port + peer.host_port) as u64,
                    DgramPeerEntry { id, last_used: activity },
                ),
                ..s
            },
            if s.proxies.contains(id) {
                StepView::Call { id, call: CallView::SendMsg }
            } else {
                StepView::Done
            },
        ),
        forall|m: &mut VsockMuxer, opened: u64| #[trigger]
            call_ensures(VsockMuxer::peer_opened, (m,), opened) ==> (final(m)@, opened)
                == peer_opened_out(m@),
        forall|m: &mut VsockMuxer, step: Step| #[trigger]
            call_ensures(VsockMuxer::peer_built, (m, id, fd), step) ==> (final(m)@, step@)
                == peer_built_out(m@, id, fd),
        forall|m: &mut VsockMuxer, watched: bool, step: Step| #[trigger]
            call_ensures(VsockMuxer::peer_watched, (m, peer, activity, id, watched), step) ==> (
                final(m)@,
                step@,
            ) == peer_watched_out(m@, peer, activity, id, watched),
{
}

/// A packet to a port of a datagram service goes to that service, if it carries data and is
/// from the configured guest to the host; else it goes nowhere. A control port in use by
/// a service is no control port.
pub proof fn services_take_data_alone(
    s: MuxerView,
    pkt: PacketView,
    head: PacketHead,
    after: MuxerView,
    out: DgramStep,
)
    requires
        s.dgram_routes.contains_key(head.dst_port),
    ensures
        head.src_cid == s.cid && head.dst_cid == 2 && head.op == 5 ==> (dgram_out(
            s,
            pkt,
            head,
            after,
            out,
        ) <==> custom_dgram_out(s, head, after, out)),
        head.src_cid != s.cid || head.dst_cid != 2 || head.op != 5 ==> (dgram_out(
            s,
            pkt,
            head,
            after,
            out,
        ) <==> after == s && out.retired is None && out.step@ == StepView::Done),
{
}

/// A message of a redirected socket goes to the socket that sends it: any packet with data
/// that is to no control port, or to any port where no sockets are redirected. Without the
/// socket nothing happens, and nothing happens on packets without data.
pub proof fn socket_messages_go_to_their_socket(
    s: MuxerView,
    pkt: PacketView,
    head: PacketHead,
    after: MuxerView,
    out: DgramStep,
)
    requires
        dgram_out(s, pkt, head, after, out),
        head.src_cid == s.cid,
        head.dst_cid == 2,
        !s.dgram_routes.contains_key(head.dst_port),
        !(1024 <= head.dst_port <= 1031) || !s.tsi_flags.hijack_inet && !s.tsi_flags.hijack_unix,
    ensures
        after == s,
        out.retired is None,
        ({
            let id = (4294967296 * head.src_port + 620) as u64;
            if head.op == 5 && s.proxies.contains(id) {
                &&& out.step matches Step::Call { id: asked, call: ProxyCall::SendMsg }
                &&& asked == id
            } else {
                out.step is Done
            }
        }),
{
}

/// A control packet is carried out as the request that its port stands for, on the request
/// in a copy of its payload. Where the payload is not all there nothing happens.
pub proof fn control_ports_stand_for_requests(
    s: MuxerView,
    pkt: PacketView,
    head: PacketHead,
    after: MuxerView,
    out: DgramStep,
)
    requires
        dgram_out(s, pkt, head, after, out),
        pkt.slot is None,
        head.src_cid == s.cid,
        head.dst_cid == 2,
        !s.dgram_routes.contains_key(head.dst_port),
        s.tsi_flags.hijack_inet || s.tsi_flags.hijack_unix,
        1024 <= head.dst_port <= 1031,
    ensures
        out.retired is None,
        head.dst_port == 1028 ==> after == s && out.step@ == sendto_data_step(s, head),
        head.dst_port != 1028 && pkt.payload_len() is None ==> after == s && out.step@
            == StepView::Done,
        pkt.payload_len() is Some && head.dst_port != 1028 ==> exists|copy: GuestCopy|
            {
                let p = copy@;
                &&& #[trigger] pkt.copied(copy)
                &&& head.dst_port == 1024 ==> (after, out.step@) == (
                    s,
                    create_step(s, head, proxy_create_in(p)),
                )
                &&& head.dst_port == 1025 ==> (after, out.step@) == connect_out(
                    s,
                    head,
                    addressed_in(p, s.host),
                )
                &&& head.dst_port == 1026 ==> (after, out.step@) == getname_out(
                    s,
                    head,
                    getname_in(p),
                )
                &&& head.dst_port == 1027 ==> (after, out.step@) == (
                    s,
                    sendto_addr_step(s, addressed_in(p, s.host)),
                )
                &&& head.dst_port == 1029 ==> (after, out.step@) == listen_out(
                    s,
                    head,
                    listen_in(p, s.host),
                )
                &&& head.dst_port == 1030 ==> (after, out.step@) == accept_out(
                    s,
                    head,
                    accept_in(p),
                )
                &&& head.dst_port == 1031 ==> (after, out.step@) == (
                    s,
                    release_step(s, release_in(p)),
                )
            },
{
}

/// A datagram packet of the guest is taken by what stands in its header and its payload.
pub proof fn dgram_packets_are_taken_by_their_header(pkt: &VsockPacket, head: &PacketHead)
    requires
        pkt@.slot is None,
    ensures
        forall|m: &mut VsockMuxer, out: DgramStep| #[trigger]
            call_ensures(VsockMuxer::send_dgram_pkt, (m, pkt), out) ==> dgram_out(
                m@,
                pkt@,
                PacketHead {
                    src_cid: le64(pkt@.header, 0) as u64,
                    dst_cid: le64(pkt@.header, 8) as u64,
                    src_port: le32(pkt@.header, 16) as u32,
                    dst_port: le32(pkt@.header, 20) as u32,
                    op: le16(pkt@.header, 30) as u16,
                },
                final(m)@,
                out,
            ),
        forall|m: &mut VsockMuxer, out: DgramStep| #[trigger]
            call_ensures(VsockMuxer::take_dgram_pkt, (m, pkt, head), out) ==> dgram_out(
                m@,
                pkt@,
                *head,
                final(m)@,
                out,
            ),
        forall|m: &mut VsockMuxer, out: DgramStep| #[trigger]
            call_ensures(VsockMuxer::process_custom_dgram, (m, head), out) ==> custom_dgram_out(
                m@,
                *head,
                final(m)@,
                out,
            ),
        forall|m: &VsockMuxer, step: Step| #[trigger]
            call_ensures(VsockMuxer::process_dgram_rw, (m, head), step) ==> {
                let id = (4294967296 * head.src_port + 620) as u64;
                step@ == if m@.proxies.contains(id) {
                    StepView::Call { id, call: CallView::SendMsg }
                } else {
                    StepView::Done
                }
            },
{
}

/// A packet to the connect port has the named socket connect to the address that stands in
/// its payload. If the copy that was taken of the payload holds a socket with a proxy and
/// an IPv4 address, that proxy is asked to connect, and the address and the port that it is
/// given are those bytes of the copy.
pub proof fn connect_packets_name_the_address(pkt: &VsockPacket)
    requires
        pkt@.slot is None,
        pkt@.payload_len() is Some,
        le32(pkt@.header, 20) == 1025,
    ensures
        forall|m: &mut VsockMuxer, out: DgramStep| #[trigger]
            call_ensures(VsockMuxer::send_dgram_pkt, (m, pkt), out) && le64(pkt@.header, 0)
                == m@.cid && le64(pkt@.header, 8) == 2 && (m@.tsi_flags.hijack_inet
                || m@.tsi_flags.hijack_unix) && !m@.dgram_routes.contains_key(1025)
                ==> exists|copy: GuestCopy|
                {
                    let p = copy@;
                    let port = p[0] + 256 * p[1] + 65536 * p[2] + 16777216 * p[3];
                    let id = (4294967296 * port + 620) as u64;
                    &&& #[trigger] pkt@.copied(copy)
                    &&& (final(m)@, out.step@) == connect_out(
                        m@,
                        pkt@.head(),
                        addressed_in(p, m@.host),
                    )
                    &&& p.len() >= 24 && p.subrange(4, 10) == seq![16u8, 0, 0, 0, 2, 0]
                        && m@.proxies.contains(id) ==> {
                        &&& final(m)@ == m@
                        &&& out.retired is None
                        &&& out.step matches Step::Call { id: asked, call: ProxyCall::Connect(to) }
                        &&& asked == id
                        &&& to.peer_port == port
                        &&& to.addr@.len() == 16
                        &&& to.addr@.subrange(0, 8) == p.subrange(8, 16)
                    }
                },
{
    assert forall|m: &mut VsockMuxer, out: DgramStep| #[trigger]
        call_ensures(VsockMuxer::send_dgram_pkt, (m, pkt), out) && le64(pkt@.header, 0) == m@.cid
            && le64(pkt@.header, 8) == 2 && (m@.tsi_flags.hijack_inet || m@.tsi_flags.hijack_unix)
            && !m@.dgram_routes.contains_key(1025) implies exists|copy: GuestCopy|
        {
            let p = copy@;
            let port = p[0] + 256 * p[1] + 65536 * p[2] + 16777216 * p[3];
            let id = (4294967296 * port + 620) as u64;
            &&& #[trigger] pkt@.copied(copy)
            &&& (final(m)@, out.step@) == connect_out(m@, pkt@.head(), addressed_in(p, m@.host))
            &&& p.len() >= 24 && p.subrange(4, 10) == seq![16u8, 0, 0, 0, 2, 0]
                && m@.proxies.contains(id) ==> {
                &&& final(m)@ == m@
                &&& out.retired is None
                &&& out.step matches Step::Call { id: asked, call: ProxyCall::Connect(to) }
                &&& asked == id
                &&& to.peer_port == port
                &&& to.addr@.len() == 16
                &&& to.addr@.subrange(0, 8) == p.subrange(8, 16)
            }
        } by {
        let s = m@;
        let head = pkt@.head();
        dgram_packets_are_taken_by_their_header(pkt, &head);
        control_ports_stand_for_requests(s, pkt@, head, final(m)@, out);
        let copy = choose|copy: GuestCopy| #[trigger]
            pkt@.copied(copy) && (final(m)@, out.step@) == connect_out(
                s,
                head,
                addressed_in(copy@, s.host),
            );
        let p = copy@;
        if p.len() >= 24 && p.subrange(4, 10) == seq![16u8, 0, 0, 0, 2, 0] {
            ipv4_requests_hold_their_address(p, s.host);
            let (port, addr) = addressed_in(p, s.host)->0;
            connections_go_to_the_named_address(s, head, port, addr);
        }
    }
}

} // verus!
