//! Stream packets of the guest. What happens to one depends on its header alone, which is
//! read once: the `head` of the functions here.

use crate::byte_order::{le16, le32, le64};
use crate::defs::{
    TSI_PROXY_PORT, VSOCK_HOST_CID, VSOCK_OP_CREDIT_UPDATE, VSOCK_OP_REQUEST, VSOCK_OP_RESPONSE,
    VSOCK_OP_RST, VSOCK_OP_RW, VSOCK_OP_SHUTDOWN,
};
use crate::ids::{join, join_halves};
use crate::muxer::control::tsi_id;
use crate::muxer::delivery::pushed;
use crate::muxer::updates::{updated, UpdateEffects};
use crate::muxer::{MuxerView, VsockMuxer};
use crate::packet::{PacketHead, VsockPacket};
use crate::proxy::{
    CallView, ProxyCall, ProxyRemoval, ProxyUpdate, Step, StepView, VsockConnectRequest, EVENT_IN,
    EVENT_OUT,
};
use crate::rxq::{MuxerRx, RxView};
use vstd::prelude::*;
use vstd::slice::slice_to_vec;

verus! {

/// How a new connection to a service or a Unix socket answers the request for it.
#[derive(Clone, Copy, Debug, PartialEq, Eq, Structural)]
pub enum ConnectAnswer {
    /// It is established: confirm it.
    Confirm,
    /// It is being established: note the request, to confirm it later.
    Prepare,
}

/// What follows the answer to a connection request of the host.
#[derive(Clone, Copy, Debug, PartialEq, Eq)]
pub struct ResponseEffects {
    /// A listening proxy that is to hand the connection to a waiting accept.
    pub enqueue_accept: Option<u64>,
    /// What to do for the proxy then.
    pub effects: UpdateEffects,
}

/// The proxy that carries the stream of `head`.
pub open spec fn stream_id(head: PacketHead) -> u64 {
    join_halves(head.src_port, head.dst_port)
}

/// The answer that ends the stream of `head`.
pub open spec fn stream_reset(head: PacketHead) -> RxView {
    RxView::Reset { local_port: head.dst_port, peer_port: head.src_port }
}

/// Whether `head` is from the guest that the device was configured for, and goes to
/// the host.
pub open spec fn is_ours(s: MuxerView, head: PacketHead) -> bool {
    head.src_cid == s.cid && head.dst_cid == VSOCK_HOST_CID
}

/// The step that asks the proxy of the stream of `head`, if there is one.
pub open spec fn stream_call(s: MuxerView, head: PacketHead, call: CallView) -> StepView {
    if s.proxies.contains(stream_id(head)) {
        StepView::Call { id: stream_id(head), call }
    } else {
        StepView::Done
    }
}

/// The outcome of a connection request. A connection that exists already is
/// confirmed; else a service or a Unix socket with the port is asked, and a port
/// where the host is to connect refuses.
pub open spec fn request_out(s: MuxerView, head: PacketHead) -> (MuxerView, StepView) {
    let id = stream_id(head);
    let port = head.dst_port;
    if s.proxies.contains(id) {
        (s, StepView::Call { id, call: CallView::ConfirmConnect })
    } else if !s.attached {
        (s, StepView::Done)
    } else if s.stream_routes.contains_key(port) {
        (
            s,
            StepView::Connect {
                id,
                service: s.stream_routes[port],
                request: VsockConnectRequest {
                    guest_cid: s.cid,
                    guest_port: head.src_port,
                    host_port: port,
                },
            },
        )
    } else if s.unix_routes.contains_key(port) {
        if s.unix_routes[port].1 {
            pushed(s, stream_reset(head))
        } else {
            (
                s,
                StepView::ConnectUnix {
                    id,
                    guest_cid: s.cid,
                    local_port: port,
                    peer_port: head.src_port,
                    path: s.unix_routes[port].0,
                },
            )
        }
    } else {
        (s, StepView::Done)
    }
}

/// The outcome once a service has given a connection with the descriptor `fd`.
pub open spec fn connected_out(s: MuxerView, head: PacketHead, connecting: bool, fd: i32) -> (
    MuxerView,
    StepView,
) {
    let id = stream_id(head);
    if fd < 0 {
        pushed(s, stream_reset(head))
    } else {
        (
            MuxerView { proxies: s.proxies.insert(id), ..s },
            StepView::Watch {
                id,
                fd,
                events: if connecting {
                    (EVENT_IN + EVENT_OUT) as u32
                } else {
                    EVENT_IN
                },
            },
        )
    }
}

/// The outcome once it is known whether the new connection can be waited for.
pub open spec fn watched_out(s: MuxerView, head: PacketHead, connecting: bool, watched: bool) -> (
    MuxerView,
    StepView,
) {
    let id = stream_id(head);
    if !watched {
        pushed(MuxerView { proxies: s.proxies.remove(id), ..s }, stream_reset(head))
    } else if !connecting && s.proxies.contains(id) {
        (s, StepView::Tell { id, call: CallView::ConfirmConnect })
    } else {
        (s, StepView::Done)
    }
}

/// The outcome of data on a stream.
pub open spec fn stream_rw_out(s: MuxerView, head: PacketHead) -> (MuxerView, StepView) {
    if s.proxies.contains(stream_id(head)) {
        (s, StepView::Call { id: stream_id(head), call: CallView::SendMsg })
    } else {
        pushed(s, stream_reset(head))
    }
}

/// The outcome of the end of sending on a stream.
pub open spec fn shutdown_step(s: MuxerView, head: PacketHead) -> StepView {
    if s.proxies.contains(stream_id(head)) {
        StepView::Tell { id: stream_id(head), call: CallView::Shutdown }
    } else {
        StepView::Done
    }
}

/// The outcome of a stream packet of the guest.
pub open spec fn stream_out(s: MuxerView, head: PacketHead) -> (MuxerView, StepView) {
    if !is_ours(s, head) {
        (s, StepView::Done)
    } else if head.op == VSOCK_OP_REQUEST {
        request_out(s, head)
    } else if head.op == VSOCK_OP_RESPONSE {
        (s, stream_call(s, head, CallView::OpResponse))
    } else if head.op == VSOCK_OP_SHUTDOWN {
        (s, shutdown_step(s, head))
    } else if head.op == VSOCK_OP_CREDIT_UPDATE {
        (s, stream_call(s, head, CallView::UpdatePeerCredit))
    } else if head.op == VSOCK_OP_RW {
        stream_rw_out(s, head)
    } else if head.op == VSOCK_OP_RST {
        (s, stream_call(s, head, CallView::Release))
    } else {
        (s, StepView::Done)
    }
}

impl VsockMuxer {
    /// Whether `head` is from the configured guest and goes to the host.
    pub(crate) fn accepts(&self, head: &PacketHead) -> (ours: bool)
        ensures
            ours == is_ours(self@, *head),
    {
        head.src_cid == self.cid && head.dst_cid == VSOCK_HOST_CID
    }

    /// The proxy that carries the stream of `head`, if there is one.
    fn stream_proxy(&self, head: &PacketHead) -> (id: Option<u64>)
        ensures
            id == (if self@.proxies.contains(stream_id(*head)) {
                Some(stream_id(*head))
            } else {
                None
            }),
    {
        let id: u64 = join(head.src_port, head.dst_port);
        if self.proxies.contains(&id) {
            Some(id)
        } else {
            None
        }
    }

    /// Ends the stream of `head`.
    fn reset(&mut self, head: &PacketHead) -> (step: Step)
        ensures
            (final(self)@, step@) == pushed(old(self)@, stream_reset(*head)),
    {
        self.push_packet(
            MuxerRx::Reset { local_port: head.dst_port, peer_port: head.src_port },
        )
    }

    /// Takes a connection request of the guest.
    pub fn process_op_request(&mut self, head: &PacketHead) -> (step: Step)
        ensures
            (final(self)@, step@) == request_out(old(self)@, *head),
    {
        match self.stream_proxy(head) {
            Some(id) => return Step::Call { id, call: ProxyCall::ConfirmConnect },
            None => {},
        }
        if !self.attached {
            return Step::Done;
        }
        let id: u64 = join(head.src_port, head.dst_port);
        let port: u32 = head.dst_port;
        match &self.custom_port_map {
            Some(routes) => match routes.get(&port) {
                Some(service) => return Step::Connect {
                    id,
                    service: *service,
                    request: VsockConnectRequest {
                        guest_cid: self.cid,
                        guest_port: head.src_port,
                        host_port: port,
                    },
                },
                None => {},
            },
            None => {},
        }
        let mut refuse: bool = false;
        match &self.unix_ipc_port_map {
            Some(routes) => match routes.get(&port) {
                Some(route) => if route.1 {
                    refuse = true;
                } else {
                    return Step::ConnectUnix {
                        id,
                        guest_cid: self.cid,
                        local_port: port,
                        peer_port: head.src_port,
                        path: slice_to_vec(route.0.as_slice()),
                    };
                },
                None => {},
            },
            None => {},
        }
        if refuse {
            return self.reset(head);
        }
        Step::Done
    }

    /// Takes the news that no connection could be had for the request `head`: no
    /// notifier, a refusal of the service, a failed connection to a Unix socket, or a
    /// proxy that could not be made.
    pub fn connect_failed(&mut self, head: &PacketHead) -> (step: Step)
        ensures
            (final(self)@, step@) == pushed(old(self)@, stream_reset(*head)),
    {
        self.reset(head)
    }

    /// Takes a connection that a service gave for the request `head`: whether it is
    /// still being established, and its descriptor. The proxy is there before its
    /// events are waited for, so that none is lost.
    pub fn service_connected(&mut self, head: &PacketHead, connecting: bool, fd: i32) -> (step:
        Step)
        ensures
            (final(self)@, step@) == connected_out(old(self)@, *head, connecting, fd),
    {
        if fd < 0 {
            return self.reset(head);
        }
        let id: u64 = join(head.src_port, head.dst_port);
        self.proxies.insert(id);
        let events: u32 = if connecting {
            EVENT_IN + EVENT_OUT
        } else {
            EVENT_IN
        };
        Step::Watch { id, fd, events }
    }

    /// Takes whether the events of the connection for the request `head` can be waited
    /// for.
    pub fn service_watched(&mut self, head: &PacketHead, connecting: bool, watched: bool) -> (step:
        Step)
        ensures
            (final(self)@, step@) == watched_out(old(self)@, *head, connecting, watched),
    {
        if !watched {
            let id: u64 = join(head.src_port, head.dst_port);
            self.proxies.remove(&id);
            return self.reset(head);
        }
        match self.stream_proxy(head) {
            Some(id) if !connecting => Step::Tell { id, call: ProxyCall::ConfirmConnect },
            _ => Step::Done,
        }
    }

    /// How a new connection to a service or a Unix socket answers the request for it.
    /// One to a service that is established is confirmed last, see
    /// [`VsockMuxer::service_watched`].
    pub fn connect_answer(connected: bool) -> (answer: ConnectAnswer)
        ensures
            answer == (if connected {
                ConnectAnswer::Confirm
            } else {
                ConnectAnswer::Prepare
            }),
    {
        if connected {
            ConnectAnswer::Confirm
        } else {
            ConnectAnswer::Prepare
        }
    }

    /// Takes a connection to a Unix socket for the request `head`, once it has
    /// answered, with the update that it gave.
    pub fn unix_connected(&mut self, head: &PacketHead, update: ProxyUpdate) -> (effects:
        UpdateEffects)
        ensures
            (final(self)@, effects) == updated(
                MuxerView {
                    proxies: old(self)@.proxies.insert(stream_id(*head)),
                    ..old(self)@
                },
                stream_id(*head),
                update,
            ),
    {
        let id: u64 = join(head.src_port, head.dst_port);
        self.proxy_created(id);
        self.process_proxy_update(id, update)
    }

    /// Takes the guest's answer to a connection request of the host.
    pub fn process_op_response(&self, head: &PacketHead) -> (step: Step)
        ensures
            step@ == stream_call(self@, *head, CallView::OpResponse),
    {
        match self.stream_proxy(head) {
            Some(id) => Step::Call { id, call: ProxyCall::OpResponse },
            None => Step::Done,
        }
    }

    /// Takes the update that the proxy `id` gave for the guest's answer. A listening
    /// proxy that waits for the connection, and is still there, gets it.
    pub fn process_response_update(&mut self, id: u64, update: ProxyUpdate) -> (out:
        ResponseEffects)
        ensures
            (final(self)@, out.effects) == updated(old(self)@, id, update),
            out.enqueue_accept == match update.push_accept {
                Some((_, parent)) => if old(self)@.proxies.contains(parent) {
                    Some(parent)
                } else {
                    None
                },
                None => None,
            },
    {
        let enqueue_accept: Option<u64> = match update.push_accept {
            Some((_, parent)) => if self.proxies.contains(&parent) {
                Some(parent)
            } else {
                None
            },
            None => None,
        };
        let effects = self.process_proxy_update(id, update);
        ResponseEffects { enqueue_accept, effects }
    }

    /// Takes the end of sending of the guest.
    pub fn process_op_shutdown(&self, head: &PacketHead) -> (step: Step)
        ensures
            step@ == shutdown_step(self@, *head),
    {
        match self.stream_proxy(head) {
            Some(id) => Step::Tell { id, call: ProxyCall::Shutdown },
            None => Step::Done,
        }
    }

    /// Takes the receive buffer state of the guest.
    pub fn process_op_credit_update(&self, head: &PacketHead) -> (step: Step)
        ensures
            step@ == stream_call(self@, *head, CallView::UpdatePeerCredit),
    {
        match self.stream_proxy(head) {
            Some(id) => Step::Call { id, call: ProxyCall::UpdatePeerCredit },
            None => Step::Done,
        }
    }

    /// Takes data of the guest. A stream that does not exist is reset.
    pub fn process_stream_rw(&mut self, head: &PacketHead) -> (step: Step)
        ensures
            (final(self)@, step@) == stream_rw_out(old(self)@, *head),
    {
        match self.stream_proxy(head) {
            Some(id) => Step::Call { id, call: ProxyCall::SendMsg },
            None => self.reset(head),
        }
    }

    /// Takes the end of a stream.
    pub fn process_stream_rst(&self, head: &PacketHead) -> (step: Step)
        ensures
            step@ == stream_call(self@, *head, CallView::Release),
    {
        match self.stream_proxy(head) {
            Some(id) => Step::Call { id, call: ProxyCall::Release },
            None => Step::Done,
        }
    }

    /// Takes a stream packet of the guest. One that claims another sender than the
    /// configured guest, or does not go to the host, is dropped.
    pub fn send_stream_pkt(&mut self, pkt: &VsockPacket) -> (step: Step)
        ensures
            exists|head: PacketHead| #[trigger]
                pkt@.heads(head) && (final(self)@, step@) == stream_out(old(self)@, head),
    {
        let head = pkt.head();
        self.take_stream_pkt(&head)
    }

    /// Takes a stream packet of the guest with this header.
    pub fn take_stream_pkt(&mut self, head: &PacketHead) -> (step: Step)
        ensures
            (final(self)@, step@) == stream_out(old(self)@, *head),
    {
        if !self.accepts(head) {
            return Step::Done;
        }
        match head.op {
            VSOCK_OP_REQUEST => self.process_op_request(head),
            VSOCK_OP_RESPONSE => self.process_op_response(head),
            VSOCK_OP_SHUTDOWN => self.process_op_shutdown(head),
            VSOCK_OP_CREDIT_UPDATE => self.process_op_credit_update(head),
            VSOCK_OP_RW => self.process_stream_rw(head),
            VSOCK_OP_RST => self.process_stream_rst(head),
            _ => Step::Done,
        }
    }
}

/// Whether two states differ at most in proxies, peers, counters and what waits for
/// the guest.
pub open spec fn same_setup(a: MuxerView, b: MuxerView) -> bool {
    a == (MuxerView {
        proxies: a.proxies,
        peers: a.peers,
        next_dgram_proxy_id: a.next_dgram_proxy_id,
        next_dgram_activity: a.next_dgram_activity,
        rxq: a.rxq,
        ..b
    })
}

/// A stream packet that claims another sender than the configured guest, or does not
/// go to the host, changes nothing and reaches no one.
pub proof fn foreign_stream_packets_are_dropped(s: MuxerView, head: PacketHead)
    requires
        head.src_cid != s.cid || head.dst_cid != VSOCK_HOST_CID,
    ensures
        stream_out(s, head) == (s, StepView::Done),
{
}

/// The state after stream packets of the guest, one after another.
pub open spec fn stream_run(s: MuxerView, heads: Seq<PacketHead>) -> MuxerView
    decreases heads.len(),
{
    if heads.len() == 0 {
        s
    } else {
        stream_out(stream_run(s, heads.drop_last()), heads.last()).0
    }
}

/// Any number of foreign stream packets changes nothing, so that the next packet of
/// the guest is taken as if they had never come.
pub proof fn foreign_stream_sequences_are_dropped(s: MuxerView, heads: Seq<PacketHead>)
    requires
        forall|i: int| 0 <= i < heads.len() ==> !is_ours(s, #[trigger] heads[i]),
    ensures
        stream_run(s, heads) == s,
    decreases heads.len(),
{
    if heads.len() > 0 {
        foreign_stream_sequences_are_dropped(s, heads.drop_last());
    }
}

/// Services and Unix sockets are told the configured identity of the guest, and the
/// ports that the packet's header had when it was taken.
pub proof fn stream_identity_is_configured(s: MuxerView, head: PacketHead)
    ensures
        match stream_out(s, head).1 {
            StepView::Connect { id, service, request } => {
                &&& is_ours(s, head)
                &&& id == stream_id(head)
                &&& s.stream_routes.contains_key(head.dst_port)
                &&& service == s.stream_routes[head.dst_port]
                &&& request.guest_cid == s.cid
                &&& request.guest_port == head.src_port
                &&& request.host_port == head.dst_port
            },
            StepView::ConnectUnix { id, guest_cid, local_port, peer_port, path } => {
                &&& is_ours(s, head)
                &&& id == stream_id(head)
                &&& guest_cid == s.cid
                &&& local_port == head.dst_port
                &&& peer_port == head.src_port
                &&& s.unix_routes.contains_key(head.dst_port)
                &&& s.unix_routes[head.dst_port] == (path, false)
            },
            _ => true,
        },
{
}

/// A stream packet by itself neither makes nor removes a proxy, and leaves the setup
/// of the device alone; at most an answer waits for the guest.
pub proof fn stream_packets_keep_proxies(s: MuxerView, head: PacketHead)
    ensures
        stream_out(s, head).0 == s || stream_out(s, head).0 == (MuxerView {
            rxq: s.rxq.push(stream_reset(head)),
            ..s
        }),
{
}

/// A stream packet under the ports of a host listener leaves the listener's proxy there
/// and asks it at most; so does the proxy's answer, if that is to keep it.
pub proof fn stream_packets_keep_listeners(
    s: MuxerView,
    head: PacketHead,
    port: u32,
    update: ProxyUpdate,
)
    requires
        s.proxies.contains(tsi_id(port)),
        head.src_port == port,
        head.dst_port == TSI_PROXY_PORT,
        update.remove_proxy == ProxyRemoval::Keep,
    ensures
        stream_out(s, head).0 == s,
        match stream_out(s, head).1 {
            StepView::Done => true,
            StepView::Call { id, .. } => id == tsi_id(port),
            StepView::Tell { id, .. } => id == tsi_id(port),
            _ => false,
        },
        updated(s, tsi_id(port), update).0 == s,
        !updated(s, tsi_id(port), update).1.retire,
        !updated(s, tsi_id(port), update).1.defer,
{
}

/// A connection that cannot be waited for is gone again: all that is left of it is
/// the answer that refuses it.
pub proof fn refused_connections_leave_no_proxy(
    s: MuxerView,
    head: PacketHead,
    connecting: bool,
    fd: i32,
)
    requires
        !s.proxies.contains(stream_id(head)),
        fd >= 0,
    ensures
        watched_out(connected_out(s, head, connecting, fd).0, head, connecting, false) == pushed(
            s,
            stream_reset(head),
        ),
{
}

/// Data of the configured guest for the host goes to the proxy that the ports name, for
/// every pair of ports. Where there is no such proxy the guest is told that the stream has
/// ended.
pub proof fn stream_data_reaches_its_proxy(s: MuxerView, head: PacketHead)
    requires
        head.src_cid == s.cid,
        head.dst_cid == 2,
        head.op == 5,
    ensures
        ({
            let id = (4294967296 * head.src_port + head.dst_port) as u64;
            stream_out(s, head) == if s.proxies.contains(id) {
                (s, StepView::Call { id, call: CallView::SendMsg })
            } else {
                pushed(
                    s,
                    RxView::Reset { local_port: head.dst_port, peer_port: head.src_port },
                )
            }
        }),
        forall|m: &mut VsockMuxer, step: Step| #[trigger]
            call_ensures(VsockMuxer::process_stream_rw, (m, &head), step) && m@.proxies.contains(
                (4294967296 * head.src_port + head.dst_port) as u64,
            ) ==> {
                &&& final(m)@ == m@
                &&& step matches Step::Call { id, call: ProxyCall::SendMsg }
                &&& id == 4294967296 * head.src_port + head.dst_port
            },
{
}

/// The other packets of a stream go to the proxy that the ports name too, each as what it
/// is: an answer, the end of sending, the receive buffer state, the end of the stream.
/// Where there is no such proxy, and on operations that are none of these, nothing happens.
pub proof fn stream_control_reaches_its_proxy(s: MuxerView, head: PacketHead)
    requires
        head.src_cid == s.cid,
        head.dst_cid == 2,
        head.op != 1,
        head.op != 5,
    ensures
        ({
            let id = (4294967296 * head.src_port + head.dst_port) as u64;
            let there = s.proxies.contains(id);
            &&& there && head.op == 2 ==> stream_out(s, head) == (
                s,
                StepView::Call { id, call: CallView::OpResponse },
            )
            &&& there && head.op == 3 ==> stream_out(s, head) == (
                s,
                StepView::Call { id, call: CallView::Release },
            )
            &&& there && head.op == 4 ==> stream_out(s, head) == (
                s,
                StepView::Tell { id, call: CallView::Shutdown },
            )
            &&& there && head.op == 6 ==> stream_out(s, head) == (
                s,
                StepView::Call { id, call: CallView::UpdatePeerCredit },
            )
            &&& !there || head.op == 0 || head.op > 6 ==> stream_out(s, head) == (
                s,
                StepView::Done,
            )
        }),
{
}

/// A request for a connection that exists is confirmed. Else the stream service of the port
/// is asked, with the identity of the guest; without one, the Unix socket of the port is
/// connected to, or the request refused if it is the host that connects there. Other ports
/// give no answer, and neither does any without guest memory.
pub proof fn connections_go_to_the_service_of_their_port(s: MuxerView, head: PacketHead)
    requires
        head.src_cid == s.cid,
        head.dst_cid == 2,
        head.op == 1,
    ensures
        ({
            let id = (4294967296 * head.src_port + head.dst_port) as u64;
            let port = head.dst_port;
            stream_out(s, head) == if s.proxies.contains(id) {
                (s, StepView::Call { id, call: CallView::ConfirmConnect })
            } else if !s.attached {
                (s, StepView::Done)
            } else if s.stream_routes.contains_key(port) {
                (
                    s,
                    StepView::Connect {
                        id,
                        service: s.stream_routes[port],
                        request: VsockConnectRequest {
                            guest_cid: s.cid,
                            guest_port: head.src_port,
                            host_port: port,
                        },
                    },
                )
            } else if s.unix_routes.contains_key(port) && !s.unix_routes[port].1 {
                (
                    s,
                    StepView::ConnectUnix {
                        id,
                        guest_cid: s.cid,
                        local_port: port,
                        peer_port: head.src_port,
                        path: s.unix_routes[port].0,
                    },
                )
            } else if s.unix_routes.contains_key(port) {
                pushed(s, RxView::Reset { local_port: port, peer_port: head.src_port })
            } else {
                (s, StepView::Done)
            }
        }),
{
}

/// A stream packet of the guest is taken by what stands in its header, and by nothing else.
pub proof fn stream_packets_are_taken_by_their_header(pkt: &VsockPacket, head: &PacketHead)
    requires
        pkt@.slot is None,
    ensures
        forall|m: &mut VsockMuxer, step: Step| #[trigger]
            call_ensures(VsockMuxer::send_stream_pkt, (m, pkt), step) ==> (final(m)@, step@)
                == stream_out(
                m@,
                PacketHead {
                    src_cid: le64(pkt@.header, 0) as u64,
                    dst_cid: le64(pkt@.header, 8) as u64,
                    src_port: le32(pkt@.header, 16) as u32,
                    dst_port: le32(pkt@.header, 20) as u32,
                    op: le16(pkt@.header, 30) as u16,
                },
            ),
        forall|m: &mut VsockMuxer, step: Step| #[trigger]
            call_ensures(VsockMuxer::take_stream_pkt, (m, head), step) ==> (final(m)@, step@)
                == stream_out(m@, *head),
{
}

/// A connection that a service gave is there before its events are waited for: with those of
/// reading, and of writing too while it is being established. One without a descriptor is
/// refused.
pub proof fn given_connections_are_waited_for(
    s: MuxerView,
    head: PacketHead,
    connecting: bool,
    fd: i32,
)
    ensures
        ({
            let id = (4294967296 * head.src_port + head.dst_port) as u64;
            let refusal = RxView::Reset { local_port: head.dst_port, peer_port: head.src_port };
            connected_out(s, head, connecting, fd) == if fd < 0 {
                pushed(s, refusal)
            } else {
                (
                    MuxerView { proxies: s.proxies.insert(id), ..s },
                    StepView::Watch {
                        id,
                        fd,
                        events: if connecting {
                            5
                        } else {
                            1
                        },
                    },
                )
            }
        }),
        forall|m: &mut VsockMuxer, step: Step| #[trigger]
            call_ensures(VsockMuxer::service_connected, (m, &head, connecting, fd), step) ==> (
                final(m)@,
                step@,
            ) == connected_out(m@, head, connecting, fd),
{
}

/// Once its events are waited for, a connection that is established is confirmed, and one
/// that is not yet stays. One that cannot be waited for is gone again and refused, and so
/// is one that could not be had.
pub proof fn watched_connections_are_confirmed(
    s: MuxerView,
    head: PacketHead,
    connecting: bool,
    watched: bool,
)
    ensures
        ({
            let id = (4294967296 * head.src_port + head.dst_port) as u64;
            let refusal = RxView::Reset { local_port: head.dst_port, peer_port: head.src_port };
            watched_out(s, head, connecting, watched) == if !watched {
                pushed(MuxerView { proxies: s.proxies.remove(id), ..s }, refusal)
            } else if !connecting && s.proxies.contains(id) {
                (s, StepView::Tell { id, call: CallView::ConfirmConnect })
            } else {
                (s, StepView::Done)
            }
        }),
        forall|m: &mut VsockMuxer, step: Step| #[trigger]
            call_ensures(VsockMuxer::service_watched, (m, &head, connecting, watched), step) ==> (
                final(m)@,
                step@,
            ) == watched_out(m@, head, connecting, watched),
        forall|m: &mut VsockMuxer, step: Step| #[trigger]
            call_ensures(VsockMuxer::connect_failed, (m, &head), step) ==> (final(m)@, step@)
                == pushed(
                m@,
                RxView::Reset { local_port: head.dst_port, peer_port: head.src_port },
            ),
        forall|answer: ConnectAnswer| #[trigger]
            call_ensures(VsockMuxer::connect_answer, (true,), answer) ==> answer is Confirm,
        forall|answer: ConnectAnswer| #[trigger]
            call_ensures(VsockMuxer::connect_answer, (false,), answer) ==> answer is Prepare,
{
}

/// A connection to a Unix socket is there, and then its update is followed. The update of an
/// answer is followed too, and the connection goes to the listening proxy that waits for it,
/// if that is still there.
pub proof fn connected_proxies_are_followed(head: &PacketHead, id: u64, update: ProxyUpdate)
    ensures
        forall|m: &mut VsockMuxer, effects: UpdateEffects| #[trigger]
            call_ensures(VsockMuxer::unix_connected, (m, head, update), effects) ==> {
                let new = (4294967296 * head.src_port + head.dst_port) as u64;
                (final(m)@, effects) == updated(
                    MuxerView { proxies: m@.proxies.insert(new), ..m@ },
                    new,
                    update,
                )
            },
        forall|m: &mut VsockMuxer, out: ResponseEffects| #[trigger]
            call_ensures(VsockMuxer::process_response_update, (m, id, update), out) ==> {
                &&& (final(m)@, out.effects) == updated(m@, id, update)
                &&& out.enqueue_accept is Some <==> update.push_accept is Some
                    && m@.proxies.contains((update.push_accept->0).1)
                &&& out.enqueue_accept is Some ==> out.enqueue_accept->0 == (
                update.push_accept->0).1
            },
{
}

} // verus!
