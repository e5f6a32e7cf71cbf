//! Control packets of redirected sockets. Each comes as a request in the payload of
//! a packet; what the payload turned out to hold is the `req` of the functions here, and
//! what was read of the packet's header is the `head`.

use crate::defs::{
    HostOs, EINVAL, EPERM, LINUX_AF_INET, LINUX_AF_UNIX, SOCK_DGRAM, SOCK_STREAM, TSI_PROXY_PORT,
};
use crate::guest_copy::GuestCopy;
use crate::ids::{join, join_halves};
use crate::muxer::delivery::pushed;
use crate::muxer::{MuxerView, VsockMuxer};
use crate::packet::{PacketHead, VsockPacket};
use crate::proxy::{CallView, ProxyCall, Step, StepView, TsiFlags};
use crate::rxq::{MuxerRx, RxView};
use crate::tsi::{
    accept_in, addressed_in, getname_in, ipv4_requests_hold_their_address, listen_in,
    proxy_create_in, release_in, unspecified, unspecified_addr, TsiAcceptReq, TsiConnectReq,
    TsiGetnameReq, TsiGetnameRsp, TsiListenReq, TsiProxyCreate, TsiReleaseReq, TsiSendtoAddr,
};
use crate::views::option_view;
use vstd::prelude::*;

verus! {

/// The proxy of the redirected socket that the guest knows by `peer_port`.
pub open spec fn tsi_id(peer_port: u32) -> u64 {
    join_halves(peer_port, TSI_PROXY_PORT)
}

/// Whether sockets of the family, by the host's number, may be redirected. Families other
/// than Unix and internet are left to the host.
pub open spec fn may_redirect(flags: TsiFlags, family: u16, host: HostOs) -> bool {
    &&& family == LINUX_AF_UNIX ==> flags.hijack_unix
    &&& family == LINUX_AF_INET || family == host.inet6_number() ==> flags.hijack_inet
}

/// What to do on a request for a new socket. Ports of host listeners are not the
/// guest's to take.
pub open spec fn create_step(
    s: MuxerView,
    head: PacketHead,
    req: Option<TsiProxyCreate>,
) -> StepView {
    match req {
        Some(req) => if s.host_listeners.contains(req.peer_port) || !s.attached || !may_redirect(
            s.tsi_flags,
            req.family,
            s.host,
        ) {
            StepView::Done
        } else if req._type == SOCK_STREAM {
            StepView::CreateStream {
                id: tsi_id(req.peer_port),
                guest_cid: s.cid,
                family: req.family,
                local_port: TSI_PROXY_PORT,
                peer_port: req.peer_port,
                control_port: head.src_port,
            }
        } else if req._type == SOCK_DGRAM {
            StepView::CreateDgram {
                id: tsi_id(req.peer_port),
                guest_cid: s.cid,
                family: req.family,
                peer_port: req.peer_port,
            }
        } else {
            StepView::Done
        },
        None => StepView::Done,
    }
}

/// The outcome of a request to a proxy: the call, or `refusal` if there is no such
/// proxy.
pub open spec fn call_or_refuse(s: MuxerView, id: u64, call: CallView, refusal: RxView) -> (
    MuxerView,
    StepView,
) {
    if s.proxies.contains(id) {
        (s, StepView::Call { id, call })
    } else {
        pushed(s, refusal)
    }
}

/// The outcome of a request to connect a socket.
pub open spec fn connect_out(s: MuxerView, head: PacketHead, req: Option<(u32, Seq<u8>)>) -> (
    MuxerView,
    StepView,
) {
    match req {
        Some(req) => call_or_refuse(
            s,
            tsi_id(req.0),
            CallView::Connect(req),
            RxView::ConnResponse {
                local_port: head.dst_port,
                peer_port: head.src_port,
                result: (-s.host.econnrefused_number()) as i32,
            },
        ),
        None => (s, StepView::Done),
    }
}

/// The outcome of a request for an address of a socket.
pub open spec fn getname_out(s: MuxerView, head: PacketHead, req: Option<TsiGetnameReq>) -> (
    MuxerView,
    StepView,
) {
    match req {
        Some(req) => {
            let id = join_halves(req.peer_port, req.local_port);
            if s.proxies.contains(id) {
                (s, StepView::Tell { id, call: CallView::GetPeerName })
            } else {
                pushed(
                    s,
                    RxView::GetnameResponse {
                        local_port: head.dst_port,
                        peer_port: head.src_port,
                        data: ((-EINVAL) as i32, 0, unspecified_addr()),
                    },
                )
            }
        },
        None => (s, StepView::Done),
    }
}

/// What to do on a request that is passed to the socket's proxy, if there is one.
pub open spec fn call_if_there(s: MuxerView, id: u64, call: CallView) -> StepView {
    if s.proxies.contains(id) {
        StepView::Call { id, call }
    } else {
        StepView::Done
    }
}

/// What to do on a request to send datagrams to an address.
pub open spec fn sendto_addr_step(s: MuxerView, req: Option<(u32, Seq<u8>)>) -> StepView {
    match req {
        Some(req) => call_if_there(s, tsi_id(req.0), CallView::SendtoAddr(req)),
        None => StepView::Done,
    }
}

/// What to do with a datagram for the address that was set.
pub open spec fn sendto_data_step(s: MuxerView, head: PacketHead) -> StepView {
    if s.proxies.contains(tsi_id(head.src_port)) {
        StepView::Tell { id: tsi_id(head.src_port), call: CallView::SendtoData }
    } else {
        StepView::Done
    }
}

/// The outcome of a request to listen on a socket.
pub open spec fn listen_out(
    s: MuxerView,
    head: PacketHead,
    req: Option<(u32, u32, i32, Seq<u8>)>,
) -> (MuxerView, StepView) {
    match req {
        Some(req) => call_or_refuse(
            s,
            tsi_id(req.0),
            CallView::Listen(req),
            RxView::ListenResponse {
                local_port: head.dst_port,
                peer_port: head.src_port,
                result: (-EPERM) as i32,
            },
        ),
        None => (s, StepView::Done),
    }
}

/// The outcome of a request to accept a connection.
pub open spec fn accept_out(s: MuxerView, head: PacketHead, req: Option<TsiAcceptReq>) -> (
    MuxerView,
    StepView,
) {
    match req {
        Some(req) => call_or_refuse(
            s,
            tsi_id(req.peer_port),
            CallView::Accept(req),
            RxView::AcceptResponse {
                local_port: head.dst_port,
                peer_port: head.src_port,
                result: (-EINVAL) as i32,
            },
        ),
        None => (s, StepView::Done),
    }
}

/// What to do on a request to release a socket.
pub open spec fn release_step(s: MuxerView, req: Option<TsiReleaseReq>) -> StepView {
    match req {
        Some(req) => call_if_there(
            s,
            join_halves(req.peer_port, req.local_port),
            CallView::Release,
        ),
        None => StepView::Done,
    }
}

impl VsockMuxer {
    /// Takes the request for a new socket that `pkt` holds.
    pub fn process_proxy_create(&self, pkt: &VsockPacket, head: &PacketHead) -> (step: Step)
        ensures
            exists|req: Option<TsiProxyCreate>|
                pkt@.reads_proxy_create(req) && step@ == #[trigger] create_step(self@, *head, req),
    {
        self.create_proxy(head, pkt.read_proxy_create())
    }

    /// Takes a request for a new socket.
    pub fn create_proxy(&self, head: &PacketHead, req: Option<TsiProxyCreate>) -> (step: Step)
        ensures
            step@ == create_step(self@, *head, req),
    {
        let req = match req {
            Some(req) => req,
            None => return Step::Done,
        };
        if self.host_listeners.contains(&req.peer_port) {
            // Host listeners belong to the device, not to the guest.
            return Step::Done;
        }
        if !self.attached {
            return Step::Done;
        }
        let id: u64 = join(req.peer_port, TSI_PROXY_PORT);
        if req.family == LINUX_AF_UNIX && !self.tsi_flags.hijack_unix {
            return Step::Done;
        }
        if (req.family == LINUX_AF_INET || req.family == self.host.inet6())
            && !self.tsi_flags.hijack_inet {
            return Step::Done;
        }
        match req._type {
            SOCK_STREAM => Step::CreateStream {
                id,
                guest_cid: self.cid,
                family: req.family,
                local_port: TSI_PROXY_PORT,
                peer_port: req.peer_port,
                control_port: head.src_port,
            },
            SOCK_DGRAM => Step::CreateDgram {
                id,
                guest_cid: self.cid,
                family: req.family,
                peer_port: req.peer_port,
            },
            _ => Step::Done,
        }
    }

    /// Takes the request to connect a socket that `pkt` holds.
    pub fn process_connect(&mut self, pkt: &VsockPacket, head: &PacketHead) -> (step: Step)
        ensures
            exists|req: Option<(u32, Seq<u8>)>|
                pkt@.reads_addressed(old(self)@.host, req) && (final(self)@, step@) == #[trigger] connect_out(
                    old(self)@,
                    *head,
                    req,
                ),
    {
        let req = pkt.read_connect_req(self.host);
        self.connect_proxy(head, req)
    }

    /// Takes a request to connect a socket.
    pub fn connect_proxy(&mut self, head: &PacketHead, req: Option<TsiConnectReq>) -> (step: Step)
        ensures
            (final(self)@, step@) == connect_out(old(self)@, *head, option_view(req)),
    {
        let req = match req {
            Some(req) => req,
            None => return Step::Done,
        };
        let id: u64 = join(req.peer_port, TSI_PROXY_PORT);
        if self.proxies.contains(&id) {
            Step::Call { id, call: ProxyCall::Connect(req) }
        } else {
            self.push_packet(
                MuxerRx::ConnResponse {
                    local_port: head.dst_port,
                    peer_port: head.src_port,
                    result: -self.host.econnrefused(),
                },
            )
        }
    }

    /// Takes the request for an address of a socket that `pkt` holds.
    pub fn process_getname(&mut self, pkt: &VsockPacket, head: &PacketHead) -> (step: Step)
        ensures
            exists|req: Option<TsiGetnameReq>|
                pkt@.reads_getname(req) && (final(self)@, step@) == #[trigger] getname_out(
                    old(self)@,
                    *head,
                    req,
                ),
    {
        let req = pkt.read_getname_req();
        self.name_proxy(head, req)
    }

    /// Takes a request for an address of a socket.
    pub fn name_proxy(&mut self, head: &PacketHead, req: Option<TsiGetnameReq>) -> (step: Step)
        ensures
            (final(self)@, step@) == getname_out(old(self)@, *head, req),
    {
        let req = match req {
            Some(req) => req,
            None => return Step::Done,
        };
        let id: u64 = join(req.peer_port, req.local_port);
        if self.proxies.contains(&id) {
            Step::Tell { id, call: ProxyCall::GetPeerName }
        } else {
            self.push_packet(
                MuxerRx::GetnameResponse {
                    local_port: head.dst_port,
                    peer_port: head.src_port,
                    data: TsiGetnameRsp { result: -EINVAL, addr_len: 0, addr: unspecified() },
                },
            )
        }
    }

    /// Takes the request to send datagrams to an address that `pkt` holds.
    pub fn process_sendto_addr(&self, pkt: &VsockPacket) -> (step: Step)
        ensures
            exists|req: Option<(u32, Seq<u8>)>|
                pkt@.reads_addressed(self@.host, req) && step@ == #[trigger] sendto_addr_step(self@, req),
    {
        self.address_proxy(pkt.read_sendto_addr(self.host))
    }

    /// Takes a request to send datagrams to an address.
    pub fn address_proxy(&self, req: Option<TsiSendtoAddr>) -> (step: Step)
        ensures
            step@ == sendto_addr_step(self@, option_view(req)),
    {
        let req = match req {
            Some(req) => req,
            None => return Step::Done,
        };
        let id: u64 = join(req.peer_port, TSI_PROXY_PORT);
        if self.proxies.contains(&id) {
            Step::Call { id, call: ProxyCall::SendtoAddr(req) }
        } else {
            Step::Done
        }
    }

    /// Takes a datagram for the address that was set.
    pub fn process_sendto_data(&self, head: &PacketHead) -> (step: Step)
        ensures
            step@ == sendto_data_step(self@, *head),
    {
        let id: u64 = join(head.src_port, TSI_PROXY_PORT);
        if self.proxies.contains(&id) {
            Step::Tell { id, call: ProxyCall::SendtoData }
        } else {
            Step::Done
        }
    }

    /// Takes the request to listen on a socket that `pkt` holds.
    pub fn process_listen_request(&mut self, pkt: &VsockPacket, head: &PacketHead) -> (step: Step)
        ensures
            exists|req: Option<(u32, u32, i32, Seq<u8>)>|
                pkt@.reads_listen(old(self)@.host, req) && (final(self)@, step@) == #[trigger] listen_out(
                    old(self)@,
                    *head,
                    req,
                ),
    {
        let req = pkt.read_listen_req(self.host);
        self.listen_proxy(head, req)
    }

    /// Takes a request to listen on a socket.
    pub fn listen_proxy(&mut self, head: &PacketHead, req: Option<TsiListenReq>) -> (step: Step)
        ensures
            (final(self)@, step@) == listen_out(old(self)@, *head, option_view(req)),
    {
        let req = match req {
            Some(req) => req,
            None => return Step::Done,
        };
        let id: u64 = join(req.peer_port, TSI_PROXY_PORT);
        if self.proxies.contains(&id) {
            Step::Call { id, call: ProxyCall::Listen(req) }
        } else {
            self.push_packet(
                MuxerRx::ListenResponse {
                    local_port: head.dst_port,
                    peer_port: head.src_port,
                    result: -EPERM,
                },
            )
        }
    }

    /// Takes the request to accept a connection that `pkt` holds.
    pub fn process_accept_request(&mut self, pkt: &VsockPacket, head: &PacketHead) -> (step: Step)
        ensures
            exists|req: Option<TsiAcceptReq>|
                pkt@.reads_accept(req) && (final(self)@, step@) == #[trigger] accept_out(
                    old(self)@,
                    *head,
                    req,
                ),
    {
        let req = pkt.read_accept_req();
        self.accept_proxy(head, req)
    }

    /// Takes a request to accept a connection.
    pub fn accept_proxy(&mut self, head: &PacketHead, req: Option<TsiAcceptReq>) -> (step: Step)
        ensures
            (final(self)@, step@) == accept_out(old(self)@, *head, req),
    {
        let req = match req {
            Some(req) => req,
            None => return Step::Done,
        };
        let id: u64 = join(req.peer_port, TSI_PROXY_PORT);
        if self.proxies.contains(&id) {
            Step::Call { id, call: ProxyCall::Accept(req) }
        } else {
            self.push_packet(
                MuxerRx::AcceptResponse {
                    local_port: head.dst_port,
                    peer_port: head.src_port,
                    result: -EINVAL,
                },
            )
        }
    }

    /// Takes the request to release a socket that `pkt` holds.
    pub fn process_proxy_release(&self, pkt: &VsockPacket) -> (step: Step)
        ensures
            exists|req: Option<TsiReleaseReq>|
                pkt@.reads_release(req) && step@ == #[trigger] release_step(self@, req),
    {
        self.release_proxy(pkt.read_release_req())
    }

    /// Takes a request to release a socket.
    pub fn release_proxy(&self, req: Option<TsiReleaseReq>) -> (step: Step)
        ensures
            step@ == release_step(self@, req),
    {
        let req = match req {
            Some(req) => req,
            None => return Step::Done,
        };
        let id: u64 = join(req.peer_port, req.local_port);
        if self.proxies.contains(&id) {
            Step::Call { id, call: ProxyCall::Release }
        } else {
            Step::Done
        }
    }
}

/// A request for a new socket never makes one in place of a host listener, whatever
/// it asks for.
pub proof fn host_listeners_are_kept(s: MuxerView, head: PacketHead, req: TsiProxyCreate)
    requires
        s.host_listeners.contains(req.peer_port),
    ensures
        create_step(s, head, Some(req)) == StepView::Done,
{
}

/// A redirected socket is known by the guest's port in the upper half of its identifier,
/// and by 620 in the lower.
pub proof fn sockets_are_known_by_their_port(peer_port: u32)
    ensures
        tsi_id(peer_port) == 4294967296 * peer_port + 620,
{
}

/// A new socket is made if its port is no host listener's, guest memory is there and
/// sockets of its family are redirected: the flag for Unix sockets decides on Unix, that
/// for internet sockets on IPv4 and IPv6, and other families are left to the host. It is
/// made with what the request names, for the configured guest.
pub proof fn sockets_are_made_as_requested(
    s: MuxerView,
    head: PacketHead,
    peer_port: u32,
    family: u16,
    kind: u16,
)
    ensures
        ({
            let req = TsiProxyCreate { peer_port, family, _type: kind };
            let inet = family == 2 || family == if s.host == HostOs::MacOs {
                30u16
            } else {
                10u16
            };
            let refused = s.host_listeners.contains(peer_port) || !s.attached || (family == 1
                && !s.tsi_flags.hijack_unix) || (inet && !s.tsi_flags.hijack_inet);
            let id = (4294967296 * peer_port + 620) as u64;
            let step = create_step(s, head, Some(req));
            &&& refused || kind != 1 && kind != 2 ==> step == StepView::Done
            &&& !refused && kind == 1 ==> step == (StepView::CreateStream {
                id,
                guest_cid: s.cid,
                family,
                local_port: 620,
                peer_port,
                control_port: head.src_port,
            })
            &&& !refused && kind == 2 ==> step == (StepView::CreateDgram {
                id,
                guest_cid: s.cid,
                family,
                peer_port,
            })
        }),
        create_step(s, head, None) == StepView::Done,
{
}

/// A request to connect goes to the socket that it names, with the address that it names.
/// Where there is no such socket the guest is told that the connection was refused.
pub proof fn connections_go_to_the_named_address(
    s: MuxerView,
    head: PacketHead,
    peer_port: u32,
    addr: Seq<u8>,
)
    ensures
        ({
            let id = (4294967296 * peer_port + 620) as u64;
            connect_out(s, head, Some((peer_port, addr))) == if s.proxies.contains(id) {
                (s, StepView::Call { id, call: CallView::Connect((peer_port, addr)) })
            } else {
                pushed(
                    s,
                    RxView::ConnResponse {
                        local_port: head.dst_port,
                        peer_port: head.src_port,
                        result: if s.host == HostOs::MacOs {
                            -61i32
                        } else {
                            -111i32
                        },
                    },
                )
            }
        }),
        connect_out(s, head, None) == (s, StepView::Done),
{
}

/// A payload with a socket and an IPv4 address, read and carried out, has that socket
/// connect to the address and the port that stand in the payload, byte for byte.
pub proof fn ipv4_connections_are_carried_out(payload: &[u8], host: HostOs, head: &PacketHead)
    requires
        payload@.len() >= 24,
        payload@.subrange(4, 10) == seq![16u8, 0, 0, 0, 2, 0],
    ensures
        forall|req: Option<TsiConnectReq>, m: &mut VsockMuxer, step: Step|
            #![trigger call_ensures(TsiConnectReq::parse, (payload, host), req), call_ensures(VsockMuxer::connect_proxy, (m, head, req), step)]
            {
                let p = payload@;
                let port = p[0] + 256 * p[1] + 65536 * p[2] + 16777216 * p[3];
                let id = (4294967296 * port + 620) as u64;
                call_ensures(TsiConnectReq::parse, (payload, host), req) && call_ensures(
                    VsockMuxer::connect_proxy,
                    (m, head, req),
                    step,
                ) && m@.proxies.contains(id) ==> {
                    &&& final(m)@ == m@
                    &&& step matches Step::Call { id: asked, call: ProxyCall::Connect(to) }
                    &&& asked == id
                    &&& to.peer_port == port
                    &&& to.addr@.len() == 16
                    &&& to.addr@.subrange(0, 8) == p.subrange(8, 16)
                }
            },
{
    ipv4_requests_hold_their_address(payload@, host);
}

/// A request for an address goes to the socket with the ports that it names. Where there
/// is no such socket the guest is told that the argument is invalid, with no address.
pub proof fn names_are_asked_of_the_named_socket(s: MuxerView, head: PacketHead, req: TsiGetnameReq)
    ensures
        ({
            let id = (4294967296 * req.peer_port + req.local_port) as u64;
            getname_out(s, head, Some(req)) == if s.proxies.contains(id) {
                (s, StepView::Tell { id, call: CallView::GetPeerName })
            } else {
                pushed(
                    s,
                    RxView::GetnameResponse {
                        local_port: head.dst_port,
                        peer_port: head.src_port,
                        data: (-22i32, 0, unspecified_addr()),
                    },
                )
            }
        }),
        getname_out(s, head, None) == (s, StepView::Done),
{
}

/// The destination of a socket's datagrams is set to the address that the request names,
/// and a datagram for it goes to the socket that sends it. Without the socket nothing
/// happens.
pub proof fn datagrams_go_to_the_named_address(
    s: MuxerView,
    head: PacketHead,
    peer_port: u32,
    addr: Seq<u8>,
)
    ensures
        ({
            let id = (4294967296 * peer_port + 620) as u64;
            sendto_addr_step(s, Some((peer_port, addr))) == if s.proxies.contains(id) {
                StepView::Call { id, call: CallView::SendtoAddr((peer_port, addr)) }
            } else {
                StepView::Done
            }
        }),
        sendto_addr_step(s, None) == StepView::Done,
        ({
            let id = (4294967296 * head.src_port + 620) as u64;
            sendto_data_step(s, head) == if s.proxies.contains(id) {
                StepView::Tell { id, call: CallView::SendtoData }
            } else {
                StepView::Done
            }
        }),
{
}

/// A request to listen goes to the socket that it names, with everything that it names.
/// Where there is no such socket the guest is told that it is not permitted.
pub proof fn sockets_listen_as_requested(
    s: MuxerView,
    head: PacketHead,
    peer_port: u32,
    vm_port: u32,
    backlog: i32,
    addr: Seq<u8>,
)
    ensures
        ({
            let id = (4294967296 * peer_port + 620) as u64;
            let req = (peer_port, vm_port, backlog, addr);
            listen_out(s, head, Some(req)) == if s.proxies.contains(id) {
                (s, StepView::Call { id, call: CallView::Listen(req) })
            } else {
                pushed(
                    s,
                    RxView::ListenResponse {
                        local_port: head.dst_port,
                        peer_port: head.src_port,
                        result: -1i32,
                    },
                )
            }
        }),
        listen_out(s, head, None) == (s, StepView::Done),
{
}

/// A request to accept goes to the socket that it names. Where there is no such socket the
/// guest is told that the argument is invalid.
pub proof fn sockets_accept_as_requested(s: MuxerView, head: PacketHead, req: TsiAcceptReq)
    ensures
        ({
            let id = (4294967296 * req.peer_port + 620) as u64;
            accept_out(s, head, Some(req)) == if s.proxies.contains(id) {
                (s, StepView::Call { id, call: CallView::Accept(req) })
            } else {
                pushed(
                    s,
                    RxView::AcceptResponse {
                        local_port: head.dst_port,
                        peer_port: head.src_port,
                        result: -22i32,
                    },
                )
            }
        }),
        accept_out(s, head, None) == (s, StepView::Done),
{
}

/// A request to release goes to the socket with the ports that it names, if there is one.
pub proof fn the_named_socket_is_released(s: MuxerView, req: TsiReleaseReq)
    ensures
        ({
            let id = (4294967296 * req.peer_port + req.local_port) as u64;
            release_step(s, Some(req)) == if s.proxies.contains(id) {
                StepView::Call { id, call: CallView::Release }
            } else {
                StepView::Done
            }
        }),
        release_step(s, None) == StepView::Done,
{
}

/// Requests that were read are carried out on the state at hand, as what they hold.
pub proof fn read_requests_are_carried_out(head: &PacketHead)
    ensures
        forall|m: &VsockMuxer, req: Option<TsiProxyCreate>, step: Step| #[trigger]
            call_ensures(VsockMuxer::create_proxy, (m, head, req), step) ==> step@ == create_step(
                m@,
                *head,
                req,
            ),
        forall|m: &mut VsockMuxer, req: Option<TsiConnectReq>, step: Step| #[trigger]
            call_ensures(VsockMuxer::connect_proxy, (m, head, req), step) ==> (final(m)@, step@)
                == connect_out(m@, *head, option_view(req)),
        forall|m: &mut VsockMuxer, req: Option<TsiGetnameReq>, step: Step| #[trigger]
            call_ensures(VsockMuxer::name_proxy, (m, head, req), step) ==> (final(m)@, step@)
                == getname_out(m@, *head, req),
        forall|m: &VsockMuxer, req: Option<TsiSendtoAddr>, step: Step| #[trigger]
            call_ensures(VsockMuxer::address_proxy, (m, req), step) ==> step@ == sendto_addr_step(
                m@,
                option_view(req),
            ),
        forall|m: &VsockMuxer, step: Step| #[trigger]
            call_ensures(VsockMuxer::process_sendto_data, (m, head), step) ==> step@
                == sendto_data_step(m@, *head),
        forall|m: &mut VsockMuxer, req: Option<TsiListenReq>, step: Step| #[trigger]
            call_ensures(VsockMuxer::listen_proxy, (m, head, req), step) ==> (final(m)@, step@)
                == listen_out(m@, *head, option_view(req)),
        forall|m: &mut VsockMuxer, req: Option<TsiAcceptReq>, step: Step| #[trigger]
            call_ensures(VsockMuxer::accept_proxy, (m, head, req), step) ==> (final(m)@, step@)
                == accept_out(m@, *head, req),
        forall|m: &VsockMuxer, req: Option<TsiReleaseReq>, step: Step| #[trigger]
            call_ensures(VsockMuxer::release_proxy, (m, req), step) ==> step@ == release_step(
                m@,
                req,
            ),
{
}

/// A control packet is carried out as the request in a copy of its payload.
pub proof fn control_packets_are_carried_out(pkt: &VsockPacket, head: &PacketHead)
    requires
        pkt@.slot is None,
        pkt@.payload_len() is Some,
    ensures
        forall|m: &VsockMuxer, step: Step| #[trigger]
            call_ensures(VsockMuxer::process_proxy_create, (m, pkt, head), step) ==> exists|
                copy: GuestCopy,
            | #[trigger]
                pkt@.copied(copy) && step@ == create_step(m@, *head, proxy_create_in(copy@)),
        forall|m: &mut VsockMuxer, step: Step| #[trigger]
            call_ensures(VsockMuxer::process_connect, (m, pkt, head), step) ==> exists|
                copy: GuestCopy,
            | #[trigger]
                pkt@.copied(copy) && (final(m)@, step@) == connect_out(
                    m@,
                    *head,
                    addressed_in(copy@, m@.host),
                ),
        forall|m: &mut VsockMuxer, step: Step| #[trigger]
            call_ensures(VsockMuxer::process_getname, (m, pkt, head), step) ==> exists|
                copy: GuestCopy,
            | #[trigger]
                pkt@.copied(copy) && (final(m)@, step@) == getname_out(
                    m@,
                    *head,
                    getname_in(copy@),
                ),
        forall|m: &VsockMuxer, step: Step| #[trigger]
            call_ensures(VsockMuxer::process_sendto_addr, (m, pkt), step) ==> exists|
                copy: GuestCopy,
            | #[trigger]
                pkt@.copied(copy) && step@ == sendto_addr_step(
                    m@,
                    addressed_in(copy@, m@.host),
                ),
        forall|m: &mut VsockMuxer, step: Step| #[trigger]
            call_ensures(VsockMuxer::process_listen_request, (m, pkt, head), step) ==> exists|
                copy: GuestCopy,
            | #[trigger]
                pkt@.copied(copy) && (final(m)@, step@) == listen_out(
                    m@,
                    *head,
                    listen_in(copy@, m@.host),
                ),
        forall|m: &mut VsockMuxer, step: Step| #[trigger]
            call_ensures(VsockMuxer::process_accept_request, (m, pkt, head), step) ==> exists|
                copy: GuestCopy,
            | #[trigger]
                pkt@.copied(copy) && (final(m)@, step@) == accept_out(
                    m@,
                    *head,
                    accept_in(copy@),
                ),
        forall|m: &VsockMuxer, step: Step| #[trigger]
            call_ensures(VsockMuxer::process_proxy_release, (m, pkt), step) ==> exists|
                copy: GuestCopy,
            | #[trigger]
                pkt@.copied(copy) && step@ == release_step(m@, release_in(copy@)),
{
}

} // verus!
