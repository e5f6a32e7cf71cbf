//! Requests and responses of the socket redirection protocol, which lets programs
//! in the guest use sockets of the host. They travel as the data of packets.

use crate::byte_order::{
    be16, le16, le32, le32_bytes, read_le_u16, read_le_u32, u32_to_le,
};
use crate::defs::HostOs;
use crate::sockaddr::{
    address_in, inet_raw, linux_takes_addresses_as_they_stand, macos_takes_internet_addresses,
    parse_address, storage_image, SockAddr,
};
use crate::views::option_view;
use vstd::prelude::*;
use vstd::slice::slice_subrange;

verus! {

/// Request for a new socket.
#[derive(Debug, Clone, Copy, PartialEq, Eq, Structural)]
pub struct TsiProxyCreate {
    /// Guest port that names the socket.
    pub peer_port: u32,
    /// Linux address family.
    pub family: u16,
    /// Socket type.
    pub _type: u16,
}

/// The request for a new socket in `p`.
pub open spec fn proxy_create_in(p: Seq<u8>) -> Option<TsiProxyCreate> {
    if p.len() >= 8 {
        Some(
            TsiProxyCreate {
                peer_port: le32(p, 0) as u32,
                family: le16(p, 4) as u16,
                _type: le16(p, 6) as u16,
            },
        )
    } else {
        None
    }
}

impl TsiProxyCreate {
    /// The request in `payload`, if it is complete.
    pub fn parse(payload: &[u8]) -> (req: Option<TsiProxyCreate>)
        ensures
            req == proxy_create_in(payload@),
    {
        if payload.len() < 8 {
            return None;
        }
        Some(
            TsiProxyCreate {
                peer_port: read_le_u32(payload, 0),
                family: read_le_u16(payload, 4),
                _type: read_le_u16(payload, 6),
            },
        )
    }
}

/// Request to connect a socket.
#[derive(Debug)]
pub struct TsiConnectReq {
    /// Guest port that names the socket.
    pub peer_port: u32,
    /// Address to connect to.
    pub addr: SockAddr,
}

impl View for TsiConnectReq {
    type V = (u32, Seq<u8>);

    open spec fn view(&self) -> (u32, Seq<u8>) {
        (self.peer_port, self.addr@)
    }
}

/// The socket and the address that a request in `p` names: a port, the length of
/// the address, and the address.
pub open spec fn addressed_in(p: Seq<u8>, host: HostOs) -> Option<(u32, Seq<u8>)> {
    if p.len() >= 8 {
        match address_in(p.subrange(8, p.len() as int), le32(p, 4) as u32, host) {
            Some(addr) => Some((le32(p, 0) as u32, addr)),
            None => None,
        }
    } else {
        None
    }
}

impl TsiConnectReq {
    /// The request in `payload`, if it is complete and names an address that the host
    /// supports.
    pub fn parse(payload: &[u8], host: HostOs) -> (req: Option<TsiConnectReq>)
        ensures
            option_view(req) == addressed_in(payload@, host),
    {
        if payload.len() < 8 {
            return None;
        }
        let peer_port: u32 = read_le_u32(payload, 0);
        let addr_len: u32 = read_le_u32(payload, 4);
        match parse_address(slice_subrange(payload, 8, payload.len()), addr_len, host) {
            Some(addr) => Some(TsiConnectReq { peer_port, addr }),
            None => None,
        }
    }
}

/// Response to a request to connect a socket.
#[derive(Debug, Clone, Copy, PartialEq, Eq, Structural)]
pub struct TsiConnectRsp {
    /// Zero, or a negative error number.
    pub result: i32,
}

/// Request for an address of a socket.
#[derive(Debug, Clone, Copy, PartialEq, Eq, Structural)]
pub struct TsiGetnameReq {
    /// Guest port that names the socket.
    pub peer_port: u32,
    /// Host port that names the socket.
    pub local_port: u32,
    /// Whether the address of the peer is asked for.
    pub peer: u32,
}

/// The request for an address in `p`.
pub open spec fn getname_in(p: Seq<u8>) -> Option<TsiGetnameReq> {
    if p.len() >= 12 {
        Some(
            TsiGetnameReq {
                peer_port: le32(p, 0) as u32,
                local_port: le32(p, 4) as u32,
                peer: le32(p, 8) as u32,
            },
        )
    } else {
        None
    }
}

impl TsiGetnameReq {
    /// The request in `payload`, if it is complete.
    pub fn parse(payload: &[u8]) -> (req: Option<TsiGetnameReq>)
        ensures
            req == getname_in(payload@),
    {
        if payload.len() < 12 {
            return None;
        }
        Some(
            TsiGetnameReq {
                peer_port: read_le_u32(payload, 0),
                local_port: read_le_u32(payload, 4),
                peer: read_le_u32(payload, 8),
            },
        )
    }
}

/// Response to a request for an address.
#[derive(Debug)]
pub struct TsiGetnameRsp {
    /// Zero, or a negative error number.
    pub result: i32,
    /// Length of the address.
    pub addr_len: u32,
    /// The address.
    pub addr: SockAddr,
}

impl View for TsiGetnameRsp {
    type V = (i32, u32, Seq<u8>);

    open spec fn view(&self) -> (i32, u32, Seq<u8>) {
        (self.result, self.addr_len, self.addr@)
    }
}

/// The address that stands for none: IPv4, all zeros.
pub open spec fn unspecified_addr() -> Seq<u8> {
    inet_raw(seq![0u8, 0, 0, 0], 0)
}

/// The address that stands for none.
pub fn unspecified() -> (addr: SockAddr)
    ensures
        addr@ == unspecified_addr(),
{
    let ip: [u8; 4] = [0, 0, 0, 0];
    SockAddr::inet(ip, 0)
}

impl Default for TsiGetnameRsp {
    /// A failure without an address.
    fn default() -> (rsp: TsiGetnameRsp)
        ensures
            rsp@ == (-1i32, 16u32, unspecified_addr()),
    {
        TsiGetnameRsp { result: -1, addr_len: 16, addr: unspecified() }
    }
}

/// The bytes of a response to a request for an address.
pub open spec fn getname_rsp_bytes(rsp: (i32, u32, Seq<u8>), host: HostOs) -> Seq<u8> {
    le32_bytes(rsp.0 as u32) + le32_bytes(rsp.1) + storage_image(rsp.2, host)
}

impl TsiGetnameRsp {
    /// The bytes of the response.
    pub fn encode(&self, host: HostOs) -> (bytes: Vec<u8>)
        ensures
            bytes@ == getname_rsp_bytes(self@, host),
    {
        let mut bytes: Vec<u8> = Vec::new();
        bytes.extend_from_slice(&u32_to_le(self.result as u32));
        bytes.extend_from_slice(&u32_to_le(self.addr_len));
        let storage: Vec<u8> = self.addr.storage(host);
        bytes.extend_from_slice(storage.as_slice());
        bytes
    }
}

/// Request to send datagrams of a socket to an address.
#[derive(Debug)]
pub struct TsiSendtoAddr {
    /// Guest port that names the socket.
    pub peer_port: u32,
    /// Address to send to.
    pub addr: SockAddr,
}

impl View for TsiSendtoAddr {
    type V = (u32, Seq<u8>);

    open spec fn view(&self) -> (u32, Seq<u8>) {
        (self.peer_port, self.addr@)
    }
}

impl TsiSendtoAddr {
    /// The request in `payload`, if it is complete and names an address that the host
    /// supports.
    pub fn parse(payload: &[u8], host: HostOs) -> (req: Option<TsiSendtoAddr>)
        ensures
            option_view(req) == addressed_in(payload@, host),
    {
        match TsiConnectReq::parse(payload, host) {
            Some(req) => Some(TsiSendtoAddr { peer_port: req.peer_port, addr: req.addr }),
            None => None,
        }
    }
}

/// Request to listen on a socket.
#[derive(Debug)]
pub struct TsiListenReq {
    /// Guest port that names the socket.
    pub peer_port: u32,
    /// Guest port that connections go to.
    pub vm_port: u32,
    /// Number of connections that may wait.
    pub backlog: i32,
    /// Address to listen on.
    pub addr: SockAddr,
}

impl View for TsiListenReq {
    type V = (u32, u32, i32, Seq<u8>);

    open spec fn view(&self) -> (u32, u32, i32, Seq<u8>) {
        (self.peer_port, self.vm_port, self.backlog, self.addr@)
    }
}

/// The request to listen in `p`.
pub open spec fn listen_in(p: Seq<u8>, host: HostOs) -> Option<(u32, u32, i32, Seq<u8>)> {
    if p.len() >= 16 {
        match address_in(p.subrange(16, p.len() as int), le32(p, 12) as u32, host) {
            Some(addr) => Some(
                (le32(p, 0) as u32, le32(p, 4) as u32, le32(p, 8) as u32 as i32, addr),
            ),
            None => None,
        }
    } else {
        None
    }
}

impl TsiListenReq {
    /// The request in `payload`, if it is complete and names an address that the host
    /// supports.
    pub fn parse(payload: &[u8], host: HostOs) -> (req: Option<TsiListenReq>)
        ensures
            option_view(req) == listen_in(payload@, host),
    {
        if payload.len() < 16 {
            return None;
        }
        let peer_port: u32 = read_le_u32(payload, 0);
        let vm_port: u32 = read_le_u32(payload, 4);
        let backlog: i32 = read_le_u32(payload, 8) as i32;
        let addr_len: u32 = read_le_u32(payload, 12);
        match parse_address(slice_subrange(payload, 16, payload.len()), addr_len, host) {
            Some(addr) => Some(TsiListenReq { peer_port, vm_port, backlog, addr }),
            None => None,
        }
    }
}

/// Response to a request to listen.
#[derive(Debug, Clone, Copy, PartialEq, Eq, Structural)]
pub struct TsiListenRsp {
    /// Zero, or a negative error number.
    pub result: i32,
}

/// Request to accept a connection.
#[derive(Debug, Clone, Copy, PartialEq, Eq, Structural)]
pub struct TsiAcceptReq {
    /// Guest port that names the socket.
    pub peer_port: u32,
    /// Options of the request.
    pub flags: u32,
}

/// The request to accept in `p`.
pub open spec fn accept_in(p: Seq<u8>) -> Option<TsiAcceptReq> {
    if p.len() >= 8 {
        Some(TsiAcceptReq { peer_port: le32(p, 0) as u32, flags: le32(p, 4) as u32 })
    } else {
        None
    }
}

impl TsiAcceptReq {
    /// The request in `payload`, if it is complete.
    pub fn parse(payload: &[u8]) -> (req: Option<TsiAcceptReq>)
        ensures
            req == accept_in(payload@),
    {
        if payload.len() < 8 {
            return None;
        }
        Some(TsiAcceptReq { peer_port: read_le_u32(payload, 0), flags: read_le_u32(payload, 4) })
    }
}

/// Response to a request to accept.
#[derive(Debug, Clone, Copy, PartialEq, Eq, Structural)]
pub struct TsiAcceptRsp {
    /// Zero, or a negative error number.
    pub result: i32,
}

/// Request to release a socket.
#[derive(Debug, Clone, Copy, PartialEq, Eq, Structural)]
pub struct TsiReleaseReq {
    /// Guest port that names the socket.
    pub peer_port: u32,
    /// Host port that names the socket.
    pub local_port: u32,
}

/// The request to release in `p`.
pub open spec fn release_in(p: Seq<u8>) -> Option<TsiReleaseReq> {
    if p.len() >= 8 {
        Some(TsiReleaseReq { peer_port: le32(p, 0) as u32, local_port: le32(p, 4) as u32 })
    } else {
        None
    }
}

impl TsiReleaseReq {
    /// The request in `payload`, if it is complete.
    pub fn parse(payload: &[u8]) -> (req: Option<TsiReleaseReq>)
        ensures
            req == release_in(payload@),
    {
        if payload.len() < 8 {
            return None;
        }
        Some(
            TsiReleaseReq {
                peer_port: read_le_u32(payload, 0),
                local_port: read_le_u32(payload, 4),
            },
        )
    }
}

/// A request is only read from a payload that holds all of it, the address at the
/// length that the request gives included.
pub proof fn truncated_requests_are_refused(p: Seq<u8>, host: HostOs)
    ensures
        proxy_create_in(p) is Some <==> p.len() >= 8,
        getname_in(p) is Some <==> p.len() >= 12,
        accept_in(p) is Some <==> p.len() >= 8,
        release_in(p) is Some <==> p.len() >= 8,
        addressed_in(p, host) is Some ==> p.len() >= 10 && 8 + le32(p, 4) <= p.len(),
        listen_in(p, host) is Some ==> p.len() >= 18 && 16 + le32(p, 12) <= p.len(),
{
}

/// The payload that names a socket and an IPv4 address.
pub open spec fn ipv4_request(peer_port: u32, ip: Seq<u8>, port: u16) -> Seq<u8> {
    le32_bytes(peer_port) + le32_bytes(16) + inet_raw(ip, port)
}

/// A request with an IPv4 address gives the socket, the address and the port that it
/// was made with, and is refused if any of its end is missing.
pub proof fn ipv4_requests_keep_address(
    peer_port: u32,
    ip: Seq<u8>,
    port: u16,
    missing: nat,
    host: HostOs,
)
    requires
        ip.len() == 4,
        0 < missing <= 24,
    ensures
        addressed_in(ipv4_request(peer_port, ip, port), host) == Some(
            (peer_port, inet_raw(ip, port)),
        ),
        inet_raw(ip, port).subrange(4, 8) == ip,
        be16(inet_raw(ip, port), 2) == port,
        addressed_in(ipv4_request(peer_port, ip, port).take(24 - missing), host) is None,
{
}

/// Requests without an address have their numbers one after another, low byte first.
pub proof fn plain_requests_are_read_in_order(p: Seq<u8>)
    requires
        p.len() >= 12,
    ensures
        ({
            let first = p[0] + 256 * p[1] + 65536 * p[2] + 16777216 * p[3];
            let second = p[4] + 256 * p[5] + 65536 * p[6] + 16777216 * p[7];
            let third = p[8] + 256 * p[9] + 65536 * p[10] + 16777216 * p[11];
            &&& proxy_create_in(p) matches Some(req) && req.peer_port == first && req.family == p[4]
                + 256 * p[5] && req._type == p[6] + 256 * p[7]
            &&& getname_in(p) matches Some(req) && req.peer_port == first && req.local_port
                == second && req.peer == third
            &&& accept_in(p) matches Some(req) && req.peer_port == first && req.flags == second
            &&& release_in(p) matches Some(req) && req.peer_port == first && req.local_port
                == second
        }),
{
}

/// What stands behind the numbers of a request without an address does not matter.
pub proof fn plain_requests_end_with_their_numbers(p: Seq<u8>, tail: Seq<u8>)
    ensures
        p.len() >= 8 ==> proxy_create_in(p + tail) == proxy_create_in(p),
        p.len() >= 12 ==> getname_in(p + tail) == getname_in(p),
        p.len() >= 8 ==> accept_in(p + tail) == accept_in(p),
        p.len() >= 8 ==> release_in(p + tail) == release_in(p),
{
}

/// A request with an address names the socket first, then the length of the address, and
/// then the address. A request to listen has the guest port of connections and the number
/// of connections that may wait in between.
pub proof fn addressed_requests_are_read_in_order(p: Seq<u8>, host: HostOs)
    ensures
        p.len() >= 8 ==> ({
            let len = p[4] + 256 * p[5] + 65536 * p[6] + 16777216 * p[7];
            let addr = address_in(p.skip(8), len as u32, host);
            &&& addressed_in(p, host) is Some <==> addr is Some
            &&& addr is Some ==> {
                let (peer_port, address) = addressed_in(p, host)->0;
                &&& peer_port == p[0] + 256 * p[1] + 65536 * p[2] + 16777216 * p[3]
                &&& address == addr->0
            }
        }),
        p.len() < 8 ==> addressed_in(p, host) is None,
        p.len() >= 16 ==> ({
            let len = p[12] + 256 * p[13] + 65536 * p[14] + 16777216 * p[15];
            let backlog = p[8] + 256 * p[9] + 65536 * p[10] + 16777216 * p[11];
            let addr = address_in(p.skip(16), len as u32, host);
            &&& listen_in(p, host) is Some <==> addr is Some
            &&& addr is Some ==> {
                let (peer_port, vm_port, waiting, address) = listen_in(p, host)->0;
                &&& peer_port == p[0] + 256 * p[1] + 65536 * p[2] + 16777216 * p[3]
                &&& vm_port == p[4] + 256 * p[5] + 65536 * p[6] + 16777216 * p[7]
                &&& waiting == backlog as u32 as i32
                &&& address == addr->0
            }
        }),
        p.len() < 16 ==> listen_in(p, host) is None,
{
    if p.len() >= 8 {
        assert(p.skip(8) =~= p.subrange(8, p.len() as int));
    }
    if p.len() >= 16 {
        assert(p.skip(16) =~= p.subrange(16, p.len() as int));
    }
}

/// A response with an address starts with its result and the length of the address, low
/// byte first, and has the address behind these.
pub proof fn addresses_are_answered_behind_the_result(
    result: i32,
    addr_len: u32,
    addr: Seq<u8>,
    host: HostOs,
)
    ensures
        ({
            let b = getname_rsp_bytes((result, addr_len, addr), host);
            &&& b[0] + 256 * b[1] + 65536 * b[2] + 16777216 * b[3] == result as u32
            &&& b[4] + 256 * b[5] + 65536 * b[6] + 16777216 * b[7] == addr_len
            &&& b.skip(8) == storage_image(addr, host)
        }),
{
    let b = getname_rsp_bytes((result, addr_len, addr), host);
    assert(b.skip(8) =~= storage_image(addr, host));
}

/// The address that stands for none is IPv4 with nothing but zeros behind its family, and a
/// response without more is a failure with that address.
pub proof fn no_address_is_all_zeros(i: int)
    requires
        2 <= i < 16,
    ensures
        unspecified_addr().len() == 16,
        unspecified_addr()[0] == 2,
        unspecified_addr()[1] == 0,
        unspecified_addr()[i] == 0,
        forall|addr: SockAddr| #[trigger]
            call_ensures(unspecified, (), addr) ==> addr@ == unspecified_addr(),
        forall|rsp: TsiGetnameRsp| #[trigger]
            call_ensures(TsiGetnameRsp::default, (), rsp) ==> rsp.result == -1 && rsp.addr_len == 16
                && rsp.addr@ == unspecified_addr(),
{
}

/// Reading a payload gives the request that it holds.
pub proof fn payloads_are_read_as_requests(payload: &[u8], host: HostOs)
    ensures
        forall|req: Option<TsiProxyCreate>| #[trigger]
            call_ensures(TsiProxyCreate::parse, (payload,), req) ==> req == proxy_create_in(
                payload@,
            ),
        forall|req: Option<TsiGetnameReq>| #[trigger]
            call_ensures(TsiGetnameReq::parse, (payload,), req) ==> req == getname_in(payload@),
        forall|req: Option<TsiAcceptReq>| #[trigger]
            call_ensures(TsiAcceptReq::parse, (payload,), req) ==> req == accept_in(payload@),
        forall|req: Option<TsiReleaseReq>| #[trigger]
            call_ensures(TsiReleaseReq::parse, (payload,), req) ==> req == release_in(payload@),
        forall|req: Option<TsiConnectReq>| #[trigger]
            call_ensures(TsiConnectReq::parse, (payload, host), req) ==> match req {
                Some(req) => addressed_in(payload@, host) == Some((req.peer_port, req.addr@)),
                None => addressed_in(payload@, host) is None,
            },
        forall|req: Option<TsiSendtoAddr>| #[trigger]
            call_ensures(TsiSendtoAddr::parse, (payload, host), req) ==> match req {
                Some(req) => addressed_in(payload@, host) == Some((req.peer_port, req.addr@)),
                None => addressed_in(payload@, host) is None,
            },
        forall|req: Option<TsiListenReq>| #[trigger]
            call_ensures(TsiListenReq::parse, (payload, host), req) ==> match req {
                Some(req) => listen_in(payload@, host) == Some(
                    (req.peer_port, req.vm_port, req.backlog, req.addr@),
                ),
                None => listen_in(payload@, host) is None,
            },
        forall|rsp: &TsiGetnameRsp, bytes: Vec<u8>| #[trigger]
            call_ensures(TsiGetnameRsp::encode, (rsp, host), bytes) ==> bytes@
                == getname_rsp_bytes((rsp.result, rsp.addr_len, rsp.addr@), host),
{
}

/// A payload with a socket and an IPv4 address is read as that socket and that address: the
/// family, the port and the four bytes stand in the address as they stand in the payload.
pub proof fn ipv4_requests_hold_their_address(p: Seq<u8>, host: HostOs)
    requires
        p.len() >= 24,
        p.subrange(4, 10) == seq![16u8, 0, 0, 0, 2, 0],
    ensures
        addressed_in(p, host) is Some,
        ({
            let (peer_port, addr) = addressed_in(p, host)->0;
            &&& peer_port == p[0] + 256 * p[1] + 65536 * p[2] + 16777216 * p[3]
            &&& addr.len() == 16
            &&& addr.subrange(0, 8) == p.subrange(8, 16)
        }),
{
    let fixed = p.subrange(4, 10);
    assert(fixed[0] == 16 && fixed[1] == 0 && fixed[2] == 0 && fixed[3] == 0 && fixed[4] == 2
        && fixed[5] == 0);
    addressed_requests_are_read_in_order(p, host);
    let rest = p.skip(8);
    linux_takes_addresses_as_they_stand(rest, 16);
    macos_takes_internet_addresses(rest, 16);
    assert(rest[0] == 2 && rest[1] == 0);
    assert(rest.subrange(0, 16).subrange(0, 8) =~= p.subrange(8, 16));
    assert(rest.subrange(0, 8) =~= p.subrange(8, 16));
}

} // verus!
