//! Socket addresses in the layout that Linux guests use.
//!
//! On a Linux host that is the host's layout too. On macOS an address has its length and
//! a family of one byte in front; behind these two bytes it is laid out the same.

use crate::byte_order::{
    be16, be32, le16, le16_bytes, le32_bytes, overwrite, read_be_u16, read_be_u32, read_le_u16,
    u16_to_le, u32_to_le,
};
use crate::defs::{
    HostOs, BSD_AF_INET, BSD_AF_INET6, LINUX_AF_INET, LINUX_AF_INET6, LINUX_AF_UNIX,
};
use crate::views::option_view;
use vstd::prelude::*;
use vstd::slice::{slice_subrange, slice_to_vec};
use vstd::utf8::{decode_utf8, valid_utf8};

verus! {

/// Size of an IPv4 address structure.
pub const SOCKADDR_IN_LEN: usize = 16;

/// Size of an IPv6 address structure.
pub const SOCKADDR_IN6_LEN: usize = 28;

/// Size of the longest Unix address structure.
pub const SOCKADDR_UN_MAX_LEN: usize = 110;

/// Size of the structure that holds an address of any family.
pub const SOCKADDR_STORAGE_LEN: usize = 128;

/// Whether `raw` is an address of a family that can be redirected, at a length
/// that the family allows.
pub open spec fn supported(raw: Seq<u8>) -> bool {
    &&& raw.len() >= 2
    &&& {
        let family = le16(raw, 0);
        ||| family == LINUX_AF_INET && raw.len() == SOCKADDR_IN_LEN
        ||| family == LINUX_AF_INET6 && raw.len() == SOCKADDR_IN6_LEN
        ||| family == LINUX_AF_UNIX && raw.len() <= SOCKADDR_UN_MAX_LEN
    }
}

/// The address in the first `addr_len` of the bytes `buf`, as the host keeps it: on Linux
/// as it is, on macOS what is left when it is taken apart. Unix addresses are not taken
/// apart.
pub open spec fn address_in(buf: Seq<u8>, addr_len: u32, host: HostOs) -> Option<Seq<u8>> {
    if addr_len <= buf.len() && supported(buf.subrange(0, addr_len as int)) {
        match host {
            HostOs::Linux => Some(buf.subrange(0, addr_len as int)),
            HostOs::MacOs => if le16(buf, 0) == LINUX_AF_INET {
                Some(inet_raw(buf.subrange(4, 8), be16(buf, 2) as u16))
            } else if le16(buf, 0) == LINUX_AF_INET6 {
                Some(
                    inet6_raw(
                        buf.subrange(2, 4),
                        be32(buf, 4) as u32,
                        buf.subrange(8, 24),
                        be32(buf, 24) as u32,
                    ),
                )
            } else {
                None
            },
        }
    } else {
        None
    }
}

/// The bytes of the IPv6 address structure with the bytes `port` and `ip`. The other
/// numbers stand as a little-endian host keeps them.
pub open spec fn inet6_raw(port: Seq<u8>, flowinfo: u32, ip: Seq<u8>, scope_id: u32) -> Seq<u8> {
    le16_bytes(LINUX_AF_INET6) + port + le32_bytes(flowinfo) + ip + le32_bytes(scope_id)
}

/// The bytes of the IPv4 address structure for `ip` and `port`.
pub open spec fn inet_raw(ip: Seq<u8>, port: u16) -> Seq<u8> {
    le16_bytes(LINUX_AF_INET) + seq![(port / 0x100) as u8, (port % 0x100) as u8] + ip + seq![
        0u8,
        0,
        0,
        0,
        0,
        0,
        0,
        0,
    ]
}

/// The bytes that an address structure of any family holds for the address `raw`: on
/// Linux a Unix address at its own length, others filled up with zeros; on macOS any at
/// its own length.
pub open spec fn storage_image(raw: Seq<u8>, host: HostOs) -> Seq<u8> {
    if host == HostOs::MacOs || le16(raw, 0) == LINUX_AF_UNIX {
        raw
    } else {
        raw + Seq::new((SOCKADDR_STORAGE_LEN - raw.len()) as nat, |i: int| 0u8)
    }
}

/// Whether `raw` is an address of a supported family, or one that the guest is told no
/// family of.
pub open spec fn told(raw: Seq<u8>) -> bool {
    ||| supported(raw)
    ||| 2 <= raw.len() <= SOCKADDR_STORAGE_LEN && le16(raw, 0) == 0
}

/// An IPv4 socket address.
#[derive(Clone, Copy, Debug, PartialEq, Eq)]
pub struct SockaddrIn {
    /// The four bytes of the address, as they are written.
    pub ip: [u8; 4],
    /// The port.
    pub port: u16,
}

/// A socket address: its bytes, which [`told`] holds of.
#[derive(Debug)]
pub struct SockAddr {
    raw: Vec<u8>,
}

impl View for SockAddr {
    type V = Seq<u8>;

    closed spec fn view(&self) -> Seq<u8> {
        self.raw@
    }
}

impl SockAddr {
    #[verifier::type_invariant]
    spec fn inv(self) -> bool {
        told(self.raw@)
    }

    /// The IPv4 address made of `ip` and `port`.
    pub fn inet(ip: [u8; 4], port: u16) -> (addr: SockAddr)
        ensures
            addr@ == inet_raw(ip@, port),
    {
        let family: [u8; 2] = u16_to_le(LINUX_AF_INET);
        let high: u8 = (port / 0x100) as u8;
        let low: u8 = (port % 0x100) as u8;
        let raw: Vec<u8> = vec![
            family[0],
            family[1],
            high,
            low,
            ip[0],
            ip[1],
            ip[2],
            ip[3],
            0,
            0,
            0,
            0,
            0,
            0,
            0,
            0,
        ];
        SockAddr { raw }
    }

    /// The IPv6 address made of its groups of sixteen bits and the other numbers.
    pub fn inet6(groups: [u16; 8], port: u16, flowinfo: u32, scope_id: u32) -> (addr: SockAddr)
        ensures
            addr@ == inet6_raw(port_bytes(port), flowinfo, group_bytes(groups@, 8), scope_id),
    {
        let family: [u8; 2] = u16_to_le(LINUX_AF_INET6);
        let flow: [u8; 4] = u32_to_le(flowinfo);
        let scope: [u8; 4] = u32_to_le(scope_id);
        let mut raw: Vec<u8> = vec![
            family[0],
            family[1],
            (port / 0x100) as u8,
            (port % 0x100) as u8,
            flow[0],
            flow[1],
            flow[2],
            flow[3],
        ];
        let ghost start = raw@;
        for i in 0..8usize
            invariant
                raw@ =~= start + group_bytes(groups@, i as nat),
        {
            let ghost before = group_bytes(groups@, i as nat);
            raw.push((groups[i] / 0x100) as u8);
            raw.push((groups[i] % 0x100) as u8);
            assert(group_bytes(groups@, (i + 1) as nat) =~= before + port_bytes(groups@[i as int]));
        }
        raw.extend_from_slice(&scope);
        assert(raw@ =~= inet6_raw(port_bytes(port), flowinfo, group_bytes(groups@, 8), scope_id));
        SockAddr { raw }
    }

    /// The bytes of the address.
    pub fn bytes(&self) -> (bytes: &[u8])
        ensures
            bytes@ == self@,
            told(self@),
    {
        proof {
            use_type_invariant(self);
        }
        self.raw.as_slice()
    }

    /// The address that a BSD address structure holds, if its family has a length and it
    /// has that.
    pub fn from_bsd(bsd: &[u8]) -> (addr: Option<SockAddr>)
        ensures
            match addr {
                Some(addr) => {
                    &&& bsd@.len() >= 2
                    &&& addr@ == linux_image(bsd@)
                    &&& told(linux_image(bsd@))
                },
                None => bsd@.len() < 2 || !told(linux_image(bsd@)),
            },
    {
        if bsd.len() < 2 {
            return None;
        }
        let raw: Vec<u8> = linux_layout(bsd);
        let family: u16 = read_le_u16(raw.as_slice(), 0);
        if fits_family(family, raw.len()) || family == 0 && raw.len() <= SOCKADDR_STORAGE_LEN {
            Some(SockAddr { raw })
        } else {
            None
        }
    }

    /// The bytes as an address structure of any family holds them on the host.
    pub fn storage(&self, host: HostOs) -> (bytes: Vec<u8>)
        ensures
            bytes@ == storage_image(self@, host),
    {
        let raw: &[u8] = self.bytes();
        let mut bytes: Vec<u8> = slice_to_vec(raw);
        if host == HostOs::Linux && read_le_u16(raw, 0) != LINUX_AF_UNIX {
            bytes.resize(SOCKADDR_STORAGE_LEN, 0);
        }
        bytes
    }

    /// The IPv4 address and port, if it is an IPv4 address.
    pub fn as_sockaddr_in(&self) -> (addr: Option<SockaddrIn>)
        ensures
            addr is Some <==> le16(self@, 0) == LINUX_AF_INET,
            addr matches Some(a) ==> a.ip@ == self@.subrange(4, 8) && a.port == be16(self@, 2),
    {
        let raw: &[u8] = self.bytes();
        if read_le_u16(raw, 0) == LINUX_AF_INET {
            let ip: [u8; 4] = [raw[4], raw[5], raw[6], raw[7]];
            Some(SockaddrIn { ip, port: read_be_u16(raw, 2) })
        } else {
            None
        }
    }
}

/// Whether an address of the family may be `len` bytes long.
fn fits_family(family: u16, len: usize) -> (fits: bool)
    ensures
        fits == ({
            ||| family == LINUX_AF_INET && len == SOCKADDR_IN_LEN
            ||| family == LINUX_AF_INET6 && len == SOCKADDR_IN6_LEN
            ||| family == LINUX_AF_UNIX && 2 <= len <= SOCKADDR_UN_MAX_LEN
        }),
{
    family == LINUX_AF_INET && len == SOCKADDR_IN_LEN || family == LINUX_AF_INET6 && len
        == SOCKADDR_IN6_LEN || family == LINUX_AF_UNIX && 2 <= len && len <= SOCKADDR_UN_MAX_LEN
}

/// The address in the first `addr_len` of the bytes `buf`, if they are there and
/// hold an address of a family that the host supports at a length that fits it.
pub fn parse_address(buf: &[u8], addr_len: u32, host: HostOs) -> (addr: Option<SockAddr>)
    ensures
        option_view(addr) == address_in(buf@, addr_len, host),
{
    if host == HostOs::MacOs {
        return match parse_inet_address(buf, addr_len) {
            Some(InetAddr::V4 { ip, port }) => Some(SockAddr::inet(ip, port)),
            Some(InetAddr::V6 { groups, port, flowinfo, scope_id }) => {
                let addr = SockAddr::inet6(groups, port, flowinfo, scope_id);
                proof {
                    lemma_inet6_kept(buf@, groups@, port);
                }
                Some(addr)
            },
            None => None,
        };
    }
    let len: usize = addr_len as usize;
    if len > buf.len() || len < 2 {
        return None;
    }
    let raw: &[u8] = slice_subrange(buf, 0, len);
    if fits_family(read_le_u16(raw, 0), len) {
        Some(SockAddr { raw: slice_to_vec(raw) })
    } else {
        None
    }
}

/// The bytes of a port, as they are written.
pub open spec fn port_bytes(port: u16) -> Seq<u8> {
    seq![(port / 0x100) as u8, (port % 0x100) as u8]
}

/// The bytes of the first `n` groups of an IPv6 address, as they are written.
pub open spec fn group_bytes(groups: Seq<u16>, n: nat) -> Seq<u8> {
    Seq::new(2 * n, |i: int| port_bytes(groups[i / 2])[i % 2])
}

proof fn lemma_inet6_kept(buf: Seq<u8>, groups: Seq<u16>, port: u16)
    requires
        buf.len() >= 28,
        groups.len() == 8,
        port == be16(buf, 2),
        forall|i: int| 0 <= i < 8 ==> #[trigger] groups[i] == be16(buf, 8 + 2 * i),
    ensures
        port_bytes(port) == buf.subrange(2, 4),
        group_bytes(groups, 8) == buf.subrange(8, 24),
{
    assert forall|i: int| 0 <= i < 16 implies #[trigger] group_bytes(groups, 8)[i] == buf[8 + i] by {
        assert(groups[i / 2] == be16(buf, 8 + 2 * (i / 2)));
    }
    assert(group_bytes(groups, 8) =~= buf.subrange(8, 24));
    assert(port_bytes(port) =~= buf.subrange(2, 4));
}

/// An internet address, taken apart for a host that lays addresses out otherwise.
#[derive(Clone, Copy, Debug, PartialEq, Eq)]
pub enum InetAddr {
    /// An IPv4 address.
    V4 { ip: [u8; 4], port: u16 },
    /// An IPv6 address, in groups of sixteen bits.
    V6 { groups: [u16; 8], port: u16, flowinfo: u32, scope_id: u32 },
}

/// The internet address in the first `addr_len` of the bytes `buf`, taken apart.
pub open spec fn is_inet_in(addr: Option<InetAddr>, buf: Seq<u8>, addr_len: u32) -> bool {
    match addr {
        Some(InetAddr::V4 { ip, port }) => {
            &&& SOCKADDR_IN_LEN == addr_len <= buf.len()
            &&& le16(buf, 0) == LINUX_AF_INET
            &&& port == be16(buf, 2)
            &&& ip@ == buf.subrange(4, 8)
        },
        Some(InetAddr::V6 { groups, port, flowinfo, scope_id }) => {
            &&& SOCKADDR_IN6_LEN == addr_len <= buf.len()
            &&& le16(buf, 0) == LINUX_AF_INET6
            &&& port == be16(buf, 2)
            &&& flowinfo == be32(buf, 4)
            &&& forall|i: int| 0 <= i < 8 ==> #[trigger] groups[i] == be16(buf, 8 + 2 * i)
            &&& scope_id == be32(buf, 24)
        },
        None => address_in(buf, addr_len, HostOs::MacOs) is None,
    }
}

/// The internet address in the first `addr_len` of the bytes `buf`, field by field.
/// Unix addresses are not taken apart.
pub fn parse_inet_address(buf: &[u8], addr_len: u32) -> (addr: Option<InetAddr>)
    ensures
        is_inet_in(addr, buf@, addr_len),
{
    let len: usize = addr_len as usize;
    if len > buf.len() || len < 2 {
        return None;
    }
    let family: u16 = read_le_u16(buf, 0);
    if family == LINUX_AF_INET && len == SOCKADDR_IN_LEN {
        let ip: [u8; 4] = [buf[4], buf[5], buf[6], buf[7]];
        assert(ip@ =~= buf@.subrange(4, 8));
        Some(InetAddr::V4 { ip, port: read_be_u16(buf, 2) })
    } else if family == LINUX_AF_INET6 && len == SOCKADDR_IN6_LEN {
        let groups: [u16; 8] = [
            read_be_u16(buf, 8),
            read_be_u16(buf, 10),
            read_be_u16(buf, 12),
            read_be_u16(buf, 14),
            read_be_u16(buf, 16),
            read_be_u16(buf, 18),
            read_be_u16(buf, 20),
            read_be_u16(buf, 22),
        ];
        Some(
            InetAddr::V6 {
                groups,
                port: read_be_u16(buf, 2),
                flowinfo: read_be_u32(buf, 4),
                scope_id: read_be_u32(buf, 24),
            },
        )
    } else {
        None
    }
}

/// The Linux number of a BSD address family, zero for one that has none here.
pub open spec fn linux_family(bsd_family: u8) -> u16 {
    if bsd_family == BSD_AF_INET {
        LINUX_AF_INET
    } else if bsd_family == BSD_AF_INET6 {
        LINUX_AF_INET6
    } else {
        0
    }
}

/// The Linux layout of a BSD address structure: where that has a length and a
/// one-byte family, Linux has a two-byte family of another numbering.
pub open spec fn linux_image(bsd: Seq<u8>) -> Seq<u8> {
    overwrite(bsd, 0, le16_bytes(linux_family(bsd[1])))
}

/// The Linux layout of a BSD address structure.
pub fn linux_layout(bsd: &[u8]) -> (raw: Vec<u8>)
    requires
        bsd@.len() >= 2,
    ensures
        raw@ == linux_image(bsd@),
{
    let family: u16 = if bsd[1] == BSD_AF_INET {
        LINUX_AF_INET
    } else if bsd[1] == BSD_AF_INET6 {
        LINUX_AF_INET6
    } else {
        0
    };
    let bytes: [u8; 2] = u16_to_le(family);
    let mut raw: Vec<u8> = slice_to_vec(bsd);
    raw[0] = bytes[0];
    raw[1] = bytes[1];
    raw
}

/// The family of the address that starts `payload`.
pub open spec fn sa_family_of(payload: Seq<u8>) -> Option<u16> {
    if payload.len() >= 2 {
        Some(le16(payload, 0) as u16)
    } else {
        None
    }
}

/// The family of the address that starts `payload`, if it is complete.
pub fn sa_family(payload: &[u8]) -> (family: Option<u16>)
    ensures
        family == sa_family_of(payload@),
{
    if payload.len() >= 2 {
        Some(read_le_u16(payload, 0))
    } else {
        None
    }
}

/// The port of the internet address that starts `payload`.
pub open spec fn inet_port_of(payload: Seq<u8>) -> Option<u16> {
    if payload.len() >= 4 {
        Some(be16(payload, 2) as u16)
    } else {
        None
    }
}

/// The port of the internet address that starts `payload`, if it is complete.
pub fn inet_port(payload: &[u8]) -> (port: Option<u16>)
    ensures
        port == inet_port_of(payload@),
{
    if payload.len() >= 4 {
        Some(read_be_u16(payload, 2))
    } else {
        None
    }
}

/// The IPv4 address bytes of the address that starts `payload`.
pub open spec fn inet_addr_of(payload: Seq<u8>) -> Option<Seq<u8>> {
    if payload.len() >= 8 {
        Some(payload.subrange(4, 8))
    } else {
        None
    }
}

/// The IPv4 address bytes of the address that starts `payload`, if they are there.
pub fn inet_addr(payload: &[u8]) -> (ip: Option<[u8; 4]>)
    ensures
        option_view(ip) == inet_addr_of(payload@),
{
    if payload.len() >= 8 {
        let ip: [u8; 4] = [payload[4], payload[5], payload[6], payload[7]];
        Some(ip)
    } else {
        None
    }
}

/// The bytes of `s` before its first zero byte.
pub open spec fn c_string(s: Seq<u8>) -> Option<Seq<u8>> {
    match s.index_of_first(0) {
        Some(end) => Some(s.subrange(0, end)),
        None => None,
    }
}

/// The path in the Unix address that starts `payload`: the text before the first
/// zero byte of the path field, which must be complete.
pub open spec fn unix_path_of(payload: Seq<u8>) -> Option<Seq<char>> {
    if payload.len() >= 108 {
        match c_string(payload.subrange(2, 108)) {
            Some(text) => if valid_utf8(text) {
                Some(decode_utf8(text))
            } else {
                None
            },
            None => None,
        }
    } else {
        None
    }
}

/// Calls `String::from_utf8`, which gives the text of `bytes` if and only if they
/// are UTF-8.
#[verifier::external_body]
fn utf8_text(bytes: Vec<u8>) -> (text: Option<String>)
    ensures
        text is Some <==> valid_utf8(bytes@),
        text matches Some(t) ==> t@ == decode_utf8(bytes@),
{
    String::from_utf8(bytes).ok()
}

/// The path in the Unix address that starts `payload`, if the path field is
/// complete, has a zero byte and holds text before it.
pub fn unix_path(payload: &[u8]) -> (path: Option<String>)
    ensures
        option_view(path) == unix_path_of(payload@),
{
    if payload.len() < 108 {
        return None;
    }
    let field: &[u8] = slice_subrange(payload, 2, 108);
    let mut end: usize = 0;
    while end < field.len() && field[end] != 0
        invariant
            end <= field@.len(),
            forall|j: int| 0 <= j < end ==> field@[j] != 0,
        decreases field@.len() - end,
    {
        end += 1;
    }
    proof {
        field@.index_of_first_ensures(0);
    }
    if end == field.len() {
        return None;
    }
    utf8_text(slice_to_vec(slice_subrange(field, 0, end)))
}

/// An IPv4 address lies in memory as its family, its port high byte first, its four bytes
/// and eight zeros; an IPv6 address as its family, its port, its flow, its sixteen bytes
/// and its scope.
pub proof fn addresses_lie_as_linux_has_them(
    ip: Seq<u8>,
    port: u16,
    ip6: Seq<u8>,
    port6: Seq<u8>,
    flowinfo: u32,
    scope_id: u32,
)
    requires
        ip.len() == 4,
        ip6.len() == 16,
        port6.len() == 2,
    ensures
        ({
            let raw = inet_raw(ip, port);
            &&& raw.len() == 16
            &&& raw[0] == 2 && raw[1] == 0
            &&& 256 * raw[2] + raw[3] == port
            &&& raw.subrange(4, 8) == ip
            &&& forall|i: int| 8 <= i < 16 ==> #[trigger] raw[i] == 0
        }),
        ({
            let raw = inet6_raw(port6, flowinfo, ip6, scope_id);
            &&& raw.len() == 28
            &&& raw[0] == 10 && raw[1] == 0
            &&& raw.subrange(2, 4) == port6
            &&& raw[4] + 256 * raw[5] + 65536 * raw[6] + 16777216 * raw[7] == flowinfo
            &&& raw.subrange(8, 24) == ip6
            &&& raw[24] + 256 * raw[25] + 65536 * raw[26] + 16777216 * raw[27] == scope_id
        }),
{
    let raw = inet_raw(ip, port);
    assert(raw.subrange(4, 8) =~= ip);
    let raw6 = inet6_raw(port6, flowinfo, ip6, scope_id);
    assert(raw6.subrange(2, 4) =~= port6);
    assert(raw6.subrange(8, 24) =~= ip6);
}

/// On Linux an address is taken as it stands, if all of it is there: IPv4 at 16 bytes,
/// IPv6 at 28, Unix at no more than 110.
pub proof fn linux_takes_addresses_as_they_stand(buf: Seq<u8>, addr_len: u32)
    ensures
        ({
            let family = buf[0] + 256 * buf[1];
            let fits = 2 <= addr_len <= buf.len() && (family == 2 && addr_len == 16 || family == 10
                && addr_len == 28 || family == 1 && addr_len <= 110);
            address_in(buf, addr_len, HostOs::Linux) == if fits {
                Some(buf.subrange(0, addr_len as int))
            } else {
                None
            }
        }),
{
    if 2 <= addr_len <= buf.len() {
        let raw = buf.subrange(0, addr_len as int);
        assert(raw[0] == buf[0] && raw[1] == buf[1]);
    }
}

/// On macOS an IPv4 address keeps its port and its bytes, an IPv6 address its port, its
/// bytes, and its flow and scope as the numbers that they stand for in big-endian order.
/// Other addresses are refused.
pub proof fn macos_takes_internet_addresses(buf: Seq<u8>, addr_len: u32)
    ensures
        ({
            let family = buf[0] + 256 * buf[1];
            let v4 = 16 == addr_len <= buf.len() && family == 2;
            let v6 = 28 == addr_len <= buf.len() && family == 10;
            let got = address_in(buf, addr_len, HostOs::MacOs);
            &&& got is Some <==> v4 || v6
            &&& v4 ==> {
                &&& got->0.len() == 16
                &&& got->0.subrange(0, 8) == buf.subrange(0, 8)
                &&& forall|i: int| 8 <= i < 16 ==> #[trigger] (got->0)[i] == 0
            }
            &&& v6 ==> {
                &&& got->0.len() == 28
                &&& got->0.subrange(0, 4) == buf.subrange(0, 4)
                &&& got->0.subrange(4, 8) == buf.subrange(4, 8).reverse()
                &&& got->0.subrange(8, 24) == buf.subrange(8, 24)
                &&& got->0.subrange(24, 28) == buf.subrange(24, 28).reverse()
            }
        }),
{
    if 2 <= addr_len <= buf.len() {
        let raw = buf.subrange(0, addr_len as int);
        assert(raw[0] == buf[0] && raw[1] == buf[1]);
        let got = address_in(buf, addr_len, HostOs::MacOs);
        if addr_len == 16 && le16(buf, 0) == 2 {
            assert(got->0.subrange(0, 8) =~= buf.subrange(0, 8));
        }
        if addr_len == 28 && le16(buf, 0) == 10 {
            assert(got->0.subrange(0, 4) =~= buf.subrange(0, 4));
            assert(got->0.subrange(4, 8) =~= buf.subrange(4, 8).reverse());
            assert(got->0.subrange(8, 24) =~= buf.subrange(8, 24));
            assert(got->0.subrange(24, 28) =~= buf.subrange(24, 28).reverse());
        }
    }
}

/// An address that was read is the one in the bytes, and one that was made of an IPv4
/// address and a port gives these back.
pub proof fn addresses_give_back_what_they_hold(buf: &[u8], addr_len: u32, host: HostOs)
    ensures
        forall|addr: Option<SockAddr>| #[trigger]
            call_ensures(parse_address, (buf, addr_len, host), addr) ==> option_view(addr)
                == address_in(buf@, addr_len, host),
        forall|ip: [u8; 4], port: u16, addr: SockAddr, back: Option<SockaddrIn>|
            #![trigger call_ensures(SockAddr::inet, (ip, port), addr), call_ensures(SockAddr::as_sockaddr_in, (&addr,), back)]
            call_ensures(SockAddr::inet, (ip, port), addr) && call_ensures(
                SockAddr::as_sockaddr_in,
                (&addr,),
                back,
            ) ==> back is Some && back->0.ip@ == ip@ && back->0.port == port,
        forall|addr: &SockAddr, back: Option<SockaddrIn>| #[trigger]
            call_ensures(SockAddr::as_sockaddr_in, (addr,), back) ==> {
                &&& back is Some <==> addr@[0] == 2 && addr@[1] == 0
                &&& back is Some ==> back->0.ip@ == addr@.subrange(4, 8) && back->0.port == 256
                    * addr@[2] + addr@[3]
            },
        forall|addr: &SockAddr, bytes: &[u8]| #[trigger]
            call_ensures(SockAddr::bytes, (addr,), bytes) ==> bytes@ == addr@,
        forall|addr: &SockAddr, bytes: Vec<u8>| #[trigger]
            call_ensures(SockAddr::storage, (addr, host), bytes) ==> bytes@ == storage_image(
                addr@,
                host,
            ),
{
    assert forall|ip: [u8; 4], port: u16, addr: SockAddr, back: Option<SockaddrIn>|
        #![trigger call_ensures(SockAddr::inet, (ip, port), addr), call_ensures(SockAddr::as_sockaddr_in, (&addr,), back)]
        call_ensures(SockAddr::inet, (ip, port), addr) && call_ensures(
            SockAddr::as_sockaddr_in,
            (&addr,),
            back,
        ) implies back is Some && back->0.ip@ == ip@ && back->0.port == port by {
        assert(inet_raw(ip@, port).subrange(4, 8) =~= ip@);
    }
}

/// The guest is told an internet address followed by zeros up to 128 bytes by a Linux host,
/// and at its own length by macOS; a Unix address at its own length by both.
pub proof fn addresses_are_told_with_zeros_behind(raw: Seq<u8>, host: HostOs, i: int)
    requires
        2 <= raw.len() <= 128,
        0 <= i < 128,
    ensures
        ({
            let told = storage_image(raw, host);
            let filled = host == HostOs::Linux && !(raw[0] == 1 && raw[1] == 0);
            &&& told.len() == if filled {
                128
            } else {
                raw.len()
            }
            &&& i < raw.len() ==> told[i] == raw[i]
            &&& raw.len() <= i < told.len() ==> told[i] == 0
        }),
{
}

/// A BSD address keeps all but its first two bytes, which become the Linux number of its
/// family: 2 stays, 30 becomes 10, and others zero.
pub proof fn bsd_addresses_get_linux_families(bsd: Seq<u8>, i: int)
    requires
        bsd.len() >= 2,
        2 <= i < bsd.len(),
    ensures
        linux_image(bsd).len() == bsd.len(),
        linux_image(bsd)[i] == bsd[i],
        linux_image(bsd)[1] == 0,
        linux_image(bsd)[0] == if bsd[1] == 2 {
            2u8
        } else if bsd[1] == 30 {
            10u8
        } else {
            0u8
        },
{
}

/// A BSD address is told to the guest if its length is that of its family: 16 bytes for
/// IPv4, 28 for IPv6, and up to 128 for families that the guest is told none of.
pub proof fn bsd_addresses_have_the_length_of_their_family(bsd: &[u8])
    ensures
        forall|addr: Option<SockAddr>| #[trigger]
            call_ensures(SockAddr::from_bsd, (bsd,), addr) ==> {
                &&& addr is Some <==> bsd@.len() >= 2 && (bsd@[1] == 2 && bsd@.len() == 16
                    || bsd@[1] == 30 && bsd@.len() == 28 || bsd@[1] != 2 && bsd@[1] != 30
                    && bsd@.len() <= 128)
                &&& addr is Some ==> addr->0@ == linux_image(bsd@)
            },
        forall|raw: Vec<u8>| #[trigger]
            call_ensures(linux_layout, (bsd,), raw) ==> raw@ == linux_image(bsd@),
{
    if bsd@.len() >= 2 {
        let raw = linux_image(bsd@);
        assert(raw[0] + 256 * raw[1] == le16(raw, 0));
    }
}

/// The parts of an address are read where they lie: the family in the first two bytes, the
/// port high byte first in the next two, the IPv4 address in the four behind these. Parts
/// that are not all there are not read.
pub proof fn address_parts_are_read_where_they_lie(payload: Seq<u8>)
    ensures
        sa_family_of(payload) is Some <==> payload.len() >= 2,
        sa_family_of(payload) is Some ==> sa_family_of(payload)->0 == payload[0] + 256
            * payload[1],
        inet_port_of(payload) is Some <==> payload.len() >= 4,
        inet_port_of(payload) is Some ==> inet_port_of(payload)->0 == 256 * payload[2]
            + payload[3],
        inet_addr_of(payload) is Some <==> payload.len() >= 8,
        inet_addr_of(payload) is Some ==> inet_addr_of(payload)->0 =~= seq![
            payload[4],
            payload[5],
            payload[6],
            payload[7],
        ],
{
}

/// An internet address that is taken apart gives each part as it lies in the bytes.
pub proof fn internet_addresses_are_taken_apart(buf: &[u8], addr_len: u32)
    ensures
        forall|addr: Option<InetAddr>| #[trigger]
            call_ensures(parse_inet_address, (buf, addr_len), addr) ==> match addr {
                Some(InetAddr::V4 { ip, port }) => {
                    &&& addr_len == 16 && buf@.len() >= 16
                    &&& buf@[0] == 2 && buf@[1] == 0
                    &&& port == 256 * buf@[2] + buf@[3]
                    &&& ip@ =~= seq![buf@[4], buf@[5], buf@[6], buf@[7]]
                },
                Some(InetAddr::V6 { groups, port, flowinfo, scope_id }) => {
                    &&& addr_len == 28 && buf@.len() >= 28
                    &&& buf@[0] == 10 && buf@[1] == 0
                    &&& port == 256 * buf@[2] + buf@[3]
                    &&& flowinfo == 16777216 * buf@[4] + 65536 * buf@[5] + 256 * buf@[6] + buf@[7]
                    &&& scope_id == 16777216 * buf@[24] + 65536 * buf@[25] + 256 * buf@[26]
                        + buf@[27]
                    &&& forall|i: int|
                        0 <= i < 8 ==> #[trigger] groups@[i] == 256 * buf@[8 + 2 * i] + buf@[9 + 2
                            * i]
                },
                None => !(16 == addr_len <= buf@.len() && buf@[0] == 2 && buf@[1] == 0) && !(28
                    == addr_len <= buf@.len() && buf@[0] == 10 && buf@[1] == 0),
            },
{
    assert forall|addr: Option<InetAddr>| #[trigger]
        call_ensures(parse_inet_address, (buf, addr_len), addr) && addr is None implies !(16
        == addr_len <= buf@.len() && buf@[0] == 2 && buf@[1] == 0) && !(28 == addr_len <= buf@.len()
        && buf@[0] == 10 && buf@[1] == 0) by {
        macos_takes_internet_addresses(buf@, addr_len);
    }
}

/// The path of a Unix address is the text behind its first two bytes, up to the first zero
/// byte, if that text is UTF-8. A path without a zero byte is none, and neither is one in
/// fewer than 108 bytes.
pub proof fn unix_paths_end_at_the_first_zero(payload: Seq<u8>, n: int)
    requires
        0 <= n <= 106,
        payload.len() >= 108 ==> forall|i: int| 2 <= i < 2 + n ==> #[trigger] payload[i] != 0,
        payload.len() >= 108 && n < 106 ==> payload[2 + n] == 0,
    ensures
        payload.len() < 108 || n == 106 ==> unix_path_of(payload) is None,
        payload.len() >= 108 && n < 106 ==> unix_path_of(payload) == if valid_utf8(
            payload.subrange(2, 2 + n),
        ) {
            Some(decode_utf8(payload.subrange(2, 2 + n)))
        } else {
            None
        },
{
    if payload.len() >= 108 {
        let field = payload.subrange(2, 108);
        field.index_of_first_ensures(0);
        if n < 106 {
            assert(field[n] == 0);
            assert(field.contains(0));
            let end = field.index_of_first(0)->0;
            assert(end == n) by {
                if end < n {
                    assert(payload[2 + end] != 0);
                }
            }
            assert(field.subrange(0, n) =~= payload.subrange(2, 2 + n));
        } else {
            assert forall|i: int| 0 <= i < field.len() implies field[i] != 0 by {
                assert(payload[2 + i] != 0);
            }
            assert(!field.contains(0));
        }
    }
}

} // verus!
