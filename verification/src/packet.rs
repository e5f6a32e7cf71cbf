//! Packets exchanged with the guest through the device's queues.
//!
//! A packet has a header of fixed size and, for data packets, a buffer. The
//! header layout is that of the C struct:
//!
//! ```C
//! struct virtio_vsock_hdr {
//!     le64 src_cid;
//!     le64 dst_cid;
//!     le32 src_port;
//!     le32 dst_port;
//!     le32 len;
//!     le16 type;
//!     le16 op;
//!     le32 flags;
//!     le32 buf_alloc;
//!     le32 fwd_cnt;
//! };
//! ```
//!
//! The header of a packet from the guest is copied once, before it is checked,
//! so that what the guest writes later changes neither routing nor lengths. The
//! header of a packet to the guest, and buffers, stay in guest memory: they are
//! read and written in place.

use crate::byte_order::{
    le16, le16_bytes, le16_reads_back, le32, le32_bytes, le32_reads_back, le64, le64_bytes,
    le64_reads_back, overwrite, read_le_u16, read_le_u32, read_le_u64, u16_to_le, u32_to_le,
    u64_to_le,
};
use crate::defs::{HostOs, MAX_PKT_BUF_SIZE};
use crate::error::VsockError;
use crate::guest_copy::{read_memory, GuestCopy};
use crate::guest_memory::{
    addresses_from, guest_regions, range_backed, range_in_one_region, BufferView, Descriptor,
    DescriptorChain, GuestBuffer, HeaderSlot,
};
use crate::sockaddr;
use crate::sockaddr::{inet_addr_of, inet_port_of, sa_family_of, unix_path_of};
use crate::tsi::{
    accept_in, addressed_in, getname_in, getname_rsp_bytes, listen_in, proxy_create_in, release_in,
    TsiAcceptReq, TsiAcceptRsp, TsiConnectReq, TsiConnectRsp, TsiGetnameReq, TsiGetnameRsp,
    TsiListenReq, TsiListenRsp, TsiProxyCreate, TsiReleaseReq, TsiSendtoAddr,
};
use crate::views::{option_view, result_view};
use vstd::prelude::*;
use vstd::slice::slice_to_vec;

verus! {

/// Size of a packet header in bytes.
pub const VSOCK_PKT_HDR_SIZE: usize = 44;

/// Offset of the source context identifier.
pub const HDROFF_SRC_CID: usize = 0;

/// Offset of the destination context identifier.
pub const HDROFF_DST_CID: usize = 8;

/// Offset of the source port.
pub const HDROFF_SRC_PORT: usize = 16;

/// Offset of the destination port.
pub const HDROFF_DST_PORT: usize = 20;

/// Offset of the data length.
pub const HDROFF_LEN: usize = 24;

/// Offset of the socket type.
pub const HDROFF_TYPE: usize = 28;

/// Offset of the operation.
pub const HDROFF_OP: usize = 30;

/// Offset of the flags of the operation.
pub const HDROFF_FLAGS: usize = 32;

/// Offset of the sender's receive buffer size.
pub const HDROFF_BUF_ALLOC: usize = 36;

/// Offset of the count of bytes that the sender has consumed.
pub const HDROFF_FWD_CNT: usize = 40;

/// Room that the buffer must have for an address to be answered.
pub const GETNAME_RSP_ROOM: usize = 132;

/// A packet: its header, and where its parts lie in guest memory.
pub struct PacketView {
    /// The bytes of the header, for a packet from the guest.
    pub header: Seq<u8>,
    /// Where the header is, for a packet to the guest.
    pub slot: Option<BufferView>,
    /// The data buffer.
    pub buffer: Option<BufferView>,
}

/// What routing a packet depends on.
#[derive(Clone, Copy, Debug, PartialEq, Eq, Structural)]
pub struct PacketHead {
    /// The source context identifier.
    pub src_cid: u64,
    /// The destination context identifier.
    pub dst_cid: u64,
    /// The source port.
    pub src_port: u32,
    /// The destination port.
    pub dst_port: u32,
    /// The operation.
    pub op: u16,
}

/// Whether `copy` was read from the header slot.
pub open spec fn slot_copy(slot: BufferView, copy: GuestCopy) -> bool {
    &&& copy@.len() == VSOCK_PKT_HDR_SIZE
    &&& copy.source() == slot.addresses
}

impl PacketView {
    /// Whether the packet is from the guest, so that its header is a copy.
    pub open spec fn from_guest(self) -> bool {
        self.slot is None
    }

    /// The packet with its header read as `header`.
    pub open spec fn read_as(self, header: Seq<u8>) -> PacketView {
        PacketView { header, slot: None, ..self }
    }

    /// Whether `seen` is what the packet is seen as when its header is read: itself, for
    /// a packet from the guest, else with what was found in its header slot.
    pub open spec fn seen_as(self, seen: PacketView) -> bool {
        match self.slot {
            None => seen == self,
            Some(slot) => exists|copy: GuestCopy|
                slot_copy(slot, copy) && seen == #[trigger] self.read_as(copy@),
        }
    }

    /// The source context identifier.
    pub open spec fn src_cid(self) -> u64 {
        le64(self.header, HDROFF_SRC_CID as int) as u64
    }

    /// The destination context identifier.
    pub open spec fn dst_cid(self) -> u64 {
        le64(self.header, HDROFF_DST_CID as int) as u64
    }

    /// The source port.
    pub open spec fn src_port(self) -> u32 {
        le32(self.header, HDROFF_SRC_PORT as int) as u32
    }

    /// The destination port.
    pub open spec fn dst_port(self) -> u32 {
        le32(self.header, HDROFF_DST_PORT as int) as u32
    }

    /// The socket type.
    pub open spec fn type_(self) -> u16 {
        le16(self.header, HDROFF_TYPE as int) as u16
    }

    /// The operation.
    pub open spec fn op(self) -> u16 {
        le16(self.header, HDROFF_OP as int) as u16
    }

    /// The flags of the operation.
    pub open spec fn flags(self) -> u32 {
        le32(self.header, HDROFF_FLAGS as int) as u32
    }

    /// The size of the sender's receive buffer.
    pub open spec fn buf_alloc(self) -> u32 {
        le32(self.header, HDROFF_BUF_ALLOC as int) as u32
    }

    /// The count of bytes that the sender has consumed.
    pub open spec fn fwd_cnt(self) -> u32 {
        le32(self.header, HDROFF_FWD_CNT as int) as u32
    }

    /// The data length that the header declares.
    pub open spec fn len(self) -> int {
        le32(self.header, HDROFF_LEN as int)
    }

    /// What routing the packet depends on.
    pub open spec fn head(self) -> PacketHead {
        PacketHead {
            src_cid: self.src_cid(),
            dst_cid: self.dst_cid(),
            src_port: self.src_port(),
            dst_port: self.dst_port(),
            op: self.op(),
        }
    }

    /// Whether `head` is what routing the packet depends on when its header is read.
    pub open spec fn heads(self, head: PacketHead) -> bool {
        exists|seen: PacketView| #[trigger] self.seen_as(seen) && head == seen.head()
    }

    /// How many bytes of payload there are to read: as many as the header
    /// declares, if the buffer holds them.
    pub open spec fn payload_len(self) -> Option<int> {
        if self.len() == 0 {
            Some(0)
        } else {
            match self.buffer {
                Some(b) if self.len() <= b.addresses.len() => Some(self.len()),
                _ => None,
            }
        }
    }

    /// Whether `copy` was read from where the payload lies, at the length that the
    /// header declares.
    pub open spec fn copied(self, copy: GuestCopy) -> bool {
        match self.payload_len() {
            Some(n) => {
                &&& copy@.len() == n
                &&& copy.source() == self.payload_addresses()
            },
            None => false,
        }
    }

    /// The guest addresses of the payload.
    pub open spec fn payload_addresses(self) -> Seq<u64> {
        match self.buffer {
            Some(b) if self.len() <= b.addresses.len() => b.addresses.take(self.len()),
            _ => Seq::empty(),
        }
    }

    /// Whether `req` is what may be read as the request for a new socket, given
    /// some copy of the payload.
    pub open spec fn reads_proxy_create(self, req: Option<TsiProxyCreate>) -> bool {
        exists|seen: PacketView| #[trigger]
            self.seen_as(seen) && match seen.payload_len() {
                Some(_) => exists|p: GuestCopy| seen.copied(p) && req == #[trigger] proxy_create_in(p@),
                None => req is None,
            }
    }

    /// Whether `req` is what may be read as the socket and the address, given
    /// some copy of the payload.
    pub open spec fn reads_addressed(self, host: HostOs, req: Option<(u32, Seq<u8>)>) -> bool {
        exists|seen: PacketView| #[trigger]
            self.seen_as(seen) && match seen.payload_len() {
                Some(_) => exists|p: GuestCopy| seen.copied(p) && req == #[trigger] addressed_in(p@, host),
                None => req is None,
            }
    }

    /// Whether `req` is what may be read as the request for an address, given
    /// some copy of the payload.
    pub open spec fn reads_getname(self, req: Option<TsiGetnameReq>) -> bool {
        exists|seen: PacketView| #[trigger]
            self.seen_as(seen) && match seen.payload_len() {
                Some(_) => exists|p: GuestCopy| seen.copied(p) && req == #[trigger] getname_in(p@),
                None => req is None,
            }
    }

    /// Whether `req` is what may be read as the request to listen, given
    /// some copy of the payload.
    pub open spec fn reads_listen(self, host: HostOs, req: Option<(u32, u32, i32, Seq<u8>)>) -> bool {
        exists|seen: PacketView| #[trigger]
            self.seen_as(seen) && match seen.payload_len() {
                Some(_) => exists|p: GuestCopy| seen.copied(p) && req == #[trigger] listen_in(p@, host),
                None => req is None,
            }
    }

    /// Whether `req` is what may be read as the request to accept, given
    /// some copy of the payload.
    pub open spec fn reads_accept(self, req: Option<TsiAcceptReq>) -> bool {
        exists|seen: PacketView| #[trigger]
            self.seen_as(seen) && match seen.payload_len() {
                Some(_) => exists|p: GuestCopy| seen.copied(p) && req == #[trigger] accept_in(p@),
                None => req is None,
            }
    }

    /// Whether `req` is what may be read as the request to release, given
    /// some copy of the payload.
    pub open spec fn reads_release(self, req: Option<TsiReleaseReq>) -> bool {
        exists|seen: PacketView| #[trigger]
            self.seen_as(seen) && match seen.payload_len() {
                Some(_) => exists|p: GuestCopy| seen.copied(p) && req == #[trigger] release_in(p@),
                None => req is None,
            }
    }

    /// The packet after `bytes` were put in its header at `at`, be it in the copy or in
    /// guest memory.
    pub open spec fn with(self, at: usize, bytes: Seq<u8>) -> PacketView {
        match self.slot {
            None => PacketView { header: overwrite(self.header, at as int, bytes), ..self },
            Some(slot) => PacketView { slot: Some(slot.store(at as int, bytes)), ..self },
        }
    }

    /// The packet after `bytes` were stored at the start of its data buffer, if that
    /// has room for `room` bytes; else the packet as it was.
    pub open spec fn store_data(self, room: int, bytes: Seq<u8>) -> PacketView {
        match self.buffer {
            Some(b) if room <= b.addresses.len() => PacketView {
                buffer: Some(b.store(0, bytes)),
                ..self
            },
            _ => self,
        }
    }
}

/// The header of a packet.
enum PacketHeader<'a> {
    /// A copy of what the guest sent.
    Tx([u8; 44]),
    /// Room in guest memory for what the guest is sent.
    Rx(HeaderSlot<'a>),
}

/// A packet of the socket device.
pub struct VsockPacket<'a> {
    header: PacketHeader<'a>,
    buf: Option<GuestBuffer<'a>>,
}

impl<'a> View for VsockPacket<'a> {
    type V = PacketView;

    closed spec fn view(&self) -> PacketView {
        match self.header {
            PacketHeader::Tx(bytes) => PacketView {
                header: bytes@,
                slot: None,
                buffer: option_view(self.buf),
            },
            PacketHeader::Rx(slot) => PacketView {
                header: Seq::empty(),
                slot: Some(slot@),
                buffer: option_view(self.buf),
            },
        }
    }
}

/// Why a head descriptor cannot hold the header of a packet from the guest.
pub open spec fn tx_head_fault(chain: DescriptorChain) -> Option<VsockError> {
    if chain.head.write_only {
        Some(VsockError::UnreadableDescriptor)
    } else if chain.head.len < VSOCK_PKT_HDR_SIZE {
        Some(VsockError::HdrDescTooSmall(chain.head.len))
    } else if !range_backed(
        guest_regions(*chain.mem),
        chain.head.addr,
        VSOCK_PKT_HDR_SIZE as int,
    ) {
        Some(VsockError::GuestMemoryMmap)
    } else {
        None
    }
}

/// Where the data of a packet from the guest lies, given the copied header: at
/// no descriptor for a packet without data, else at the one that follows.
pub open spec fn tx_data(header: Seq<u8>, next: Option<Descriptor>) -> Result<
    Option<Descriptor>,
    VsockError,
> {
    let len = le32(header, HDROFF_LEN as int);
    if len == 0 {
        Ok(None)
    } else if len > MAX_PKT_BUF_SIZE {
        Err(VsockError::InvalidPktLen(len as u32))
    } else {
        match next {
            None => Err(VsockError::BufDescMissing),
            Some(desc) => if desc.write_only {
                Err(VsockError::UnreadableDescriptor)
            } else if desc.len < len {
                Err(VsockError::BufDescTooSmall)
            } else {
                Ok(Some(desc))
            },
        }
    }
}

/// The packet from the guest that `chain` carries when its header was copied as
/// `header`.
pub open spec fn tx_packet(chain: DescriptorChain, header: Seq<u8>) -> Result<
    PacketView,
    VsockError,
> {
    match tx_data(header, chain.next) {
        Err(fault) => Err(fault),
        Ok(None) => Ok(PacketView { header, slot: None, buffer: None }),
        Ok(Some(desc)) => if range_in_one_region(
            guest_regions(*chain.mem),
            desc.addr,
            desc.len as int,
        ) {
            Ok(
                PacketView {
                    header,
                    slot: None,
                    buffer: Some(BufferView::fresh(desc.addr, desc.len as nat)),
                },
            )
        } else {
            Err(VsockError::GuestMemoryMmap)
        },
    }
}

/// The data range of a packet to the guest: what is left of a lone descriptor
/// behind the header, else the descriptor that follows, which must be writable too.
pub open spec fn rx_data(chain: DescriptorChain) -> Result<(u64, nat), VsockError> {
    if !chain.has_next && chain.head.len > VSOCK_PKT_HDR_SIZE {
        if chain.head.addr + VSOCK_PKT_HDR_SIZE > u64::MAX {
            Err(VsockError::GuestMemoryBounds)
        } else {
            Ok(
                (
                    (chain.head.addr + VSOCK_PKT_HDR_SIZE) as u64,
                    (chain.head.len - VSOCK_PKT_HDR_SIZE) as nat,
                ),
            )
        }
    } else {
        match chain.next {
            None => Err(VsockError::BufDescMissing),
            Some(desc) => if desc.write_only {
                Ok((desc.addr, desc.len as nat))
            } else {
                Err(VsockError::UnwritableDescriptor)
            },
        }
    }
}

/// Where the header slot and the buffer of a packet to the guest lie.
pub open spec fn rx_layout(chain: DescriptorChain) -> Result<(BufferView, BufferView), VsockError> {
    let regions = guest_regions(*chain.mem);
    if !chain.head.write_only {
        Err(VsockError::UnwritableDescriptor)
    } else if chain.head.len < VSOCK_PKT_HDR_SIZE {
        Err(VsockError::HdrDescTooSmall(chain.head.len))
    } else if !range_in_one_region(regions, chain.head.addr, VSOCK_PKT_HDR_SIZE as int) {
        Err(VsockError::GuestMemoryMmap)
    } else {
        match rx_data(chain) {
            Err(fault) => Err(fault),
            Ok((addr, count)) => if range_in_one_region(regions, addr, count as int) {
                Ok(
                    (
                        BufferView::fresh(chain.head.addr, VSOCK_PKT_HDR_SIZE as nat),
                        BufferView::fresh(addr, count),
                    ),
                )
            } else {
                Err(VsockError::GuestMemoryMmap)
            },
        }
    }
}

/// The packet to the guest that `chain` has room for.
pub open spec fn rx_packet(chain: DescriptorChain) -> Result<PacketView, VsockError> {
    match rx_layout(chain) {
        Err(fault) => Err(fault),
        Ok((slot, buffer)) => Ok(
            PacketView { header: Seq::empty(), slot: Some(slot), buffer: Some(buffer) },
        ),
    }
}

/// Whether `header` was read from where the head of `chain` points, at the size of a
/// header.
pub open spec fn header_copy(chain: DescriptorChain, header: GuestCopy) -> bool {
    &&& header@.len() == VSOCK_PKT_HDR_SIZE
    &&& header.source() == addresses_from(chain.head.addr, VSOCK_PKT_HDR_SIZE as nat)
}

/// Puts `bytes` in a header at `at`.
fn put(header: &mut [u8; 44], at: usize, bytes: &[u8])
    requires
        at + bytes@.len() <= VSOCK_PKT_HDR_SIZE,
    ensures
        final(header)@ == overwrite(old(header)@, at as int, bytes@),
{
    let ghost before = header@;
    for i in 0..bytes.len()
        invariant
            at + bytes@.len() <= VSOCK_PKT_HDR_SIZE == before.len(),
            header@ =~= overwrite(before, at as int, bytes@.subrange(0, i as int)),
    {
        header[at + i] = bytes[i];
    }
    assert(bytes@.subrange(0, bytes@.len() as int) =~= bytes@);
}

/// The bytes of a header.
fn header_bytes(copy: &GuestCopy) -> (header: [u8; 44])
    requires
        copy@.len() == VSOCK_PKT_HDR_SIZE,
    ensures
        header@ == copy@,
{
    let bytes = copy.as_slice();
    let mut header = [0u8; 44];
    for i in 0..VSOCK_PKT_HDR_SIZE
        invariant
            bytes@ == copy@,
            bytes@.len() == VSOCK_PKT_HDR_SIZE,
            forall|j: int| 0 <= j < i ==> header@[j] == #[trigger] bytes@[j],
    {
        header[i] = bytes[i];
    }
    assert(header@ =~= copy@);
    header
}

impl<'a> VsockPacket<'a> {
    /// The packet from the guest whose header was copied as `header`.
    pub fn from_tx_header(chain: &DescriptorChain<'a>, header: [u8; 44]) -> (pkt: Result<
        VsockPacket<'a>,
        VsockError,
    >)
        ensures
            result_view(pkt) == tx_packet(*chain, header@),
    {
        let mut pkt = VsockPacket { header: PacketHeader::Tx(header), buf: None };
        let len = pkt.len();
        // Without data there is no point in looking for a data descriptor.
        if len == 0 {
            return Ok(pkt);
        }
        if len > MAX_PKT_BUF_SIZE {
            return Err(VsockError::InvalidPktLen(len));
        }
        let desc = match chain.next {
            Some(desc) => desc,
            None => return Err(VsockError::BufDescMissing),
        };
        if desc.write_only {
            return Err(VsockError::UnreadableDescriptor);
        }
        if desc.len < len {
            return Err(VsockError::BufDescTooSmall);
        }
        match GuestBuffer::open(chain.mem, desc.addr, desc.len as usize) {
            Some(buf) => {
                pkt.buf = Some(buf);
                Ok(pkt)
            },
            None => Err(VsockError::GuestMemoryMmap),
        }
    }

    /// The packet that the guest sent in `chain`.
    ///
    /// The head descriptor holds the header; a following one can hold data. The
    /// header is read once, and the outcome depends on that one copy alone.
    pub fn from_tx_virtq_head(chain: &DescriptorChain<'a>) -> (pkt: Result<
        VsockPacket<'a>,
        VsockError,
    >)
        ensures
            match tx_head_fault(*chain) {
                Some(fault) => pkt == Err::<VsockPacket<'a>, _>(fault),
                None => exists|header: GuestCopy|
                    header_copy(*chain, header) && result_view(pkt) == #[trigger] tx_packet(
                        *chain,
                        header@,
                    ),
            },
    {
        // Everything in the transmit queue must be readable.
        if chain.head.write_only {
            return Err(VsockError::UnreadableDescriptor);
        }
        if chain.head.len < VSOCK_PKT_HDR_SIZE as u32 {
            return Err(VsockError::HdrDescTooSmall(chain.head.len));
        }
        match read_memory(chain.mem, chain.head.addr, VSOCK_PKT_HDR_SIZE) {
            Ok(header) => VsockPacket::from_tx_header(chain, header_bytes(&header)),
            Err(_) => Err(VsockError::GuestMemoryMmap),
        }
    }

    /// The packet to the guest that `chain` has room for.
    ///
    /// Everything must be writable. The data goes into the second descriptor, or,
    /// where there is none, into what the header leaves of the first.
    pub fn from_rx_virtq_head(chain: &DescriptorChain<'a>) -> (pkt: Result<
        VsockPacket<'a>,
        VsockError,
    >)
        ensures
            result_view(pkt) == rx_packet(*chain),
    {
        if !chain.head.write_only {
            return Err(VsockError::UnwritableDescriptor);
        }
        if chain.head.len < VSOCK_PKT_HDR_SIZE as u32 {
            return Err(VsockError::HdrDescTooSmall(chain.head.len));
        }
        let slot = match HeaderSlot::open(chain.mem, chain.head.addr) {
            Some(slot) => slot,
            None => return Err(VsockError::GuestMemoryMmap),
        };
        // Starting from Linux 6.2 the driver can use a single descriptor for both
        // header and data.
        let (addr, count): (u64, usize) = if !chain.has_next && chain.head.len
            > VSOCK_PKT_HDR_SIZE as u32 {
            match chain.head.addr.checked_add(VSOCK_PKT_HDR_SIZE as u64) {
                Some(addr) => (addr, chain.head.len as usize - VSOCK_PKT_HDR_SIZE),
                None => return Err(VsockError::GuestMemoryBounds),
            }
        } else {
            match chain.next {
                Some(desc) => {
                    if !desc.write_only {
                        return Err(VsockError::UnwritableDescriptor);
                    }
                    (desc.addr, desc.len as usize)
                },
                None => return Err(VsockError::BufDescMissing),
            }
        };
        let buf = match GuestBuffer::open(chain.mem, addr, count) {
            Some(buf) => buf,
            None => return Err(VsockError::GuestMemoryMmap),
        };
        Ok(VsockPacket { header: PacketHeader::Rx(slot), buf: Some(buf) })
    }

    /// The header of a packet from the guest has full size, and so has the slot of a
    /// packet to the guest whenever it is read.
    pub proof fn header_is_complete(&self, seen: PacketView)
        requires
            self@.seen_as(seen),
        ensures
            seen.header.len() == VSOCK_PKT_HDR_SIZE,
    {
    }

    /// The bytes of the header: the copy, or what is in guest memory at this moment.
    pub fn hdr(&self) -> (bytes: Vec<u8>)
        ensures
            exists|seen: PacketView| #[trigger] self@.seen_as(seen) && bytes@ == seen.header,
            bytes@.len() == VSOCK_PKT_HDR_SIZE,
    {
        let (bytes, Ghost(seen)) = self.read_header();
        bytes
    }

    /// The bytes of the header, and what the packet is seen as with them.
    fn read_header(&self) -> (read: (Vec<u8>, Ghost<PacketView>))
        ensures
            self@.seen_as(read.1@),
            read.0@ == read.1@.header,
            read.0@.len() == VSOCK_PKT_HDR_SIZE,
    {
        match &self.header {
            PacketHeader::Tx(bytes) => (slice_to_vec(bytes), Ghost(self@)),
            PacketHeader::Rx(slot) => {
                let copy = slot.read();
                let ghost seen = self@.read_as(copy@);
                assert(slot_copy(slot@, copy));
                (copy.into_vec(), Ghost(seen))
            },
        }
    }

    /// What routing the packet depends on. The header is read once for all of it.
    pub fn head(&self) -> (head: PacketHead)
        ensures
            self@.heads(head),
    {
        let (header, Ghost(seen)) = self.read_header();
        let bytes = header.as_slice();
        PacketHead {
            src_cid: read_le_u64(bytes, HDROFF_SRC_CID),
            dst_cid: read_le_u64(bytes, HDROFF_DST_CID),
            src_port: read_le_u32(bytes, HDROFF_SRC_PORT),
            dst_port: read_le_u32(bytes, HDROFF_DST_PORT),
            op: read_le_u16(bytes, HDROFF_OP),
        }
    }

    /// Changes the header: puts `bytes` in it at `at`, be it in the copy or in guest
    /// memory.
    pub fn hdr_mut(&mut self, at: usize, bytes: &[u8])
        requires
            at + bytes@.len() <= VSOCK_PKT_HDR_SIZE,
        ensures
            final(self)@ == old(self)@.with(at, bytes@),
    {
        match &mut self.header {
            PacketHeader::Tx(header) => put(header, at, bytes),
            PacketHeader::Rx(slot) => slot.write(at, bytes),
        }
    }

    /// The data buffer as the guest has it at this moment, at its full size, which
    /// may be larger than the data. Control packets have none.
    pub fn buf(&self) -> (copy: Option<GuestCopy>)
        ensures
            match self@.buffer {
                Some(b) => copy matches Some(c) && c@.len() == b.addresses.len() && c.source()
                    == b.addresses,
                None => copy is None,
            },
    {
        match &self.buf {
            Some(buf) => Some(buf.read(buf.len())),
            None => None,
        }
    }

    /// The data buffer, to be written. Control packets have none.
    pub fn buf_mut(&mut self) -> (buf: Option<&mut GuestBuffer<'a>>)
        ensures
            buf is Some <==> old(self)@.buffer is Some,
            buf matches Some(b) ==> b@ == old(self)@.buffer->0 && final(self)@ == (PacketView {
                buffer: Some(final(b)@),
                ..old(self)@
            }),
            buf is None ==> final(self)@ == old(self)@,
    {
        match &mut self.buf {
            Some(buf) => Some(buf),
            None => None,
        }
    }

    /// The data as the guest has it at this moment, at exactly the length that the
    /// header declares.
    pub fn payload(&self) -> (copy: Option<GuestCopy>)
        ensures
            exists|seen: PacketView| #[trigger]
                self@.seen_as(seen) && match seen.payload_len() {
                    Some(_) => copy matches Some(c) && seen.copied(c),
                    None => copy is None,
                },
    {
        let (header, Ghost(seen)) = self.read_header();
        let len: usize = read_le_u32(header.as_slice(), HDROFF_LEN) as usize;
        if len == 0 {
            assert(seen.payload_addresses() =~= Seq::empty());
            return Some(GuestCopy::empty());
        }
        match &self.buf {
            Some(buf) if len <= buf.len() => Some(buf.read(len)),
            _ => None,
        }
    }

    /// The source context identifier.
    pub fn src_cid(&self) -> (v: u64)
        ensures
            exists|seen: PacketView| #[trigger] self@.seen_as(seen) && v == seen.src_cid(),
    {
        let (header, Ghost(seen)) = self.read_header();
        read_le_u64(header.as_slice(), HDROFF_SRC_CID)
    }

    /// Sets the source context identifier.
    pub fn set_src_cid(&mut self, cid: u64) -> (pkt: &mut Self)
        ensures
            pkt@ == old(self)@.with(HDROFF_SRC_CID, le64_bytes(cid)),
            *final(self) == *final(pkt),
    {
        self.hdr_mut(HDROFF_SRC_CID, &u64_to_le(cid));
        self
    }

    /// The destination context identifier.
    pub fn dst_cid(&self) -> (v: u64)
        ensures
            exists|seen: PacketView| #[trigger] self@.seen_as(seen) && v == seen.dst_cid(),
    {
        let (header, Ghost(seen)) = self.read_header();
        read_le_u64(header.as_slice(), HDROFF_DST_CID)
    }

    /// Sets the destination context identifier.
    pub fn set_dst_cid(&mut self, cid: u64) -> (pkt: &mut Self)
        ensures
            pkt@ == old(self)@.with(HDROFF_DST_CID, le64_bytes(cid)),
            *final(self) == *final(pkt),
    {
        self.hdr_mut(HDROFF_DST_CID, &u64_to_le(cid));
        self
    }

    /// The source port.
    pub fn src_port(&self) -> (v: u32)
        ensures
            exists|seen: PacketView| #[trigger] self@.seen_as(seen) && v == seen.src_port(),
    {
        let (header, Ghost(seen)) = self.read_header();
        read_le_u32(header.as_slice(), HDROFF_SRC_PORT)
    }

    /// Sets the source port.
    pub fn set_src_port(&mut self, port: u32) -> (pkt: &mut Self)
        ensures
            pkt@ == old(self)@.with(HDROFF_SRC_PORT, le32_bytes(port)),
            *final(self) == *final(pkt),
    {
        self.hdr_mut(HDROFF_SRC_PORT, &u32_to_le(port));
        self
    }

    /// The destination port.
    pub fn dst_port(&self) -> (v: u32)
        ensures
            exists|seen: PacketView| #[trigger] self@.seen_as(seen) && v == seen.dst_port(),
    {
        let (header, Ghost(seen)) = self.read_header();
        read_le_u32(header.as_slice(), HDROFF_DST_PORT)
    }

    /// Sets the destination port.
    pub fn set_dst_port(&mut self, port: u32) -> (pkt: &mut Self)
        ensures
            pkt@ == old(self)@.with(HDROFF_DST_PORT, le32_bytes(port)),
            *final(self) == *final(pkt),
    {
        self.hdr_mut(HDROFF_DST_PORT, &u32_to_le(port));
        self
    }

    /// The data length that the header declares.
    pub fn len(&self) -> (v: u32)
        ensures
            exists|seen: PacketView| #[trigger] self@.seen_as(seen) && v == seen.len(),
    {
        let (header, Ghost(seen)) = self.read_header();
        read_le_u32(header.as_slice(), HDROFF_LEN)
    }

    /// Sets the data length that the header declares.
    pub fn set_len(&mut self, len: u32) -> (pkt: &mut Self)
        ensures
            pkt@ == old(self)@.with(HDROFF_LEN, le32_bytes(len)),
            *final(self) == *final(pkt),
    {
        self.hdr_mut(HDROFF_LEN, &u32_to_le(len));
        self
    }

    /// The socket type.
    pub fn type_(&self) -> (v: u16)
        ensures
            exists|seen: PacketView| #[trigger] self@.seen_as(seen) && v == seen.type_(),
    {
        let (header, Ghost(seen)) = self.read_header();
        read_le_u16(header.as_slice(), HDROFF_TYPE)
    }

    /// Sets the socket type.
    pub fn set_type(&mut self, type_: u16) -> (pkt: &mut Self)
        ensures
            pkt@ == old(self)@.with(HDROFF_TYPE, le16_bytes(type_)),
            *final(self) == *final(pkt),
    {
        self.hdr_mut(HDROFF_TYPE, &u16_to_le(type_));
        self
    }

    /// The operation.
    pub fn op(&self) -> (v: u16)
        ensures
            exists|seen: PacketView| #[trigger] self@.seen_as(seen) && v == seen.op(),
    {
        let (header, Ghost(seen)) = self.read_header();
        read_le_u16(header.as_slice(), HDROFF_OP)
    }

    /// Sets the operation.
    pub fn set_op(&mut self, op: u16) -> (pkt: &mut Self)
        ensures
            pkt@ == old(self)@.with(HDROFF_OP, le16_bytes(op)),
            *final(self) == *final(pkt),
    {
        self.hdr_mut(HDROFF_OP, &u16_to_le(op));
        self
    }

    /// The flags of the operation.
    pub fn flags(&self) -> (v: u32)
        ensures
            exists|seen: PacketView| #[trigger] self@.seen_as(seen) && v == seen.flags(),
    {
        let (header, Ghost(seen)) = self.read_header();
        read_le_u32(header.as_slice(), HDROFF_FLAGS)
    }

    /// Sets the flags of the operation.
    pub fn set_flags(&mut self, flags: u32) -> (pkt: &mut Self)
        ensures
            pkt@ == old(self)@.with(HDROFF_FLAGS, le32_bytes(flags)),
            *final(self) == *final(pkt),
    {
        self.hdr_mut(HDROFF_FLAGS, &u32_to_le(flags));
        self
    }

    /// Adds a flag to those of the operation.
    pub fn set_flag(&mut self, flag: u32) -> (pkt: &mut Self)
        ensures
            exists|seen: PacketView| #[trigger]
                old(self)@.seen_as(seen) && pkt@ == old(self)@.with(
                    HDROFF_FLAGS,
                    le32_bytes(seen.flags() | flag),
                ),
            *final(self) == *final(pkt),
    {
        let flags = self.flags();
        self.set_flags(flags | flag)
    }

    /// The size of the sender's receive buffer.
    pub fn buf_alloc(&self) -> (v: u32)
        ensures
            exists|seen: PacketView| #[trigger] self@.seen_as(seen) && v == seen.buf_alloc(),
    {
        let (header, Ghost(seen)) = self.read_header();
        read_le_u32(header.as_slice(), HDROFF_BUF_ALLOC)
    }

    /// Sets the size of the sender's receive buffer.
    pub fn set_buf_alloc(&mut self, buf_alloc: u32) -> (pkt: &mut Self)
        ensures
            pkt@ == old(self)@.with(HDROFF_BUF_ALLOC, le32_bytes(buf_alloc)),
            *final(self) == *final(pkt),
    {
        self.hdr_mut(HDROFF_BUF_ALLOC, &u32_to_le(buf_alloc));
        self
    }

    /// The count of bytes that the sender has consumed.
    pub fn fwd_cnt(&self) -> (v: u32)
        ensures
            exists|seen: PacketView| #[trigger] self@.seen_as(seen) && v == seen.fwd_cnt(),
    {
        let (header, Ghost(seen)) = self.read_header();
        read_le_u32(header.as_slice(), HDROFF_FWD_CNT)
    }

    /// Sets the count of bytes that the sender has consumed.
    pub fn set_fwd_cnt(&mut self, fwd_cnt: u32) -> (pkt: &mut Self)
        ensures
            pkt@ == old(self)@.with(HDROFF_FWD_CNT, le32_bytes(fwd_cnt)),
            *final(self) == *final(pkt),
    {
        self.hdr_mut(HDROFF_FWD_CNT, &u32_to_le(fwd_cnt));
        self
    }

    /// The family of the address that the payload starts with.
    pub fn sa_family(&self) -> (value: Option<u16>)
        ensures
            exists|seen: PacketView| #[trigger]
                self@.seen_as(seen) && match seen.payload_len() {
                    Some(_) => exists|p: GuestCopy|
                        seen.copied(p) && value == #[trigger] sa_family_of(p@),
                    None => value is None,
                },
    {
        match self.payload() {
            Some(p) => sockaddr::sa_family(p.as_slice()),
            None => None,
        }
    }

    /// The port of the internet address that the payload starts with.
    pub fn inet_port(&self) -> (value: Option<u16>)
        ensures
            exists|seen: PacketView| #[trigger]
                self@.seen_as(seen) && match seen.payload_len() {
                    Some(_) => exists|p: GuestCopy|
                        seen.copied(p) && value == #[trigger] inet_port_of(p@),
                    None => value is None,
                },
    {
        match self.payload() {
            Some(p) => sockaddr::inet_port(p.as_slice()),
            None => None,
        }
    }

    /// The IPv4 address bytes of the address that the payload starts with.
    pub fn inet_addr(&self) -> (value: Option<[u8; 4]>)
        ensures
            exists|seen: PacketView| #[trigger]
                self@.seen_as(seen) && match seen.payload_len() {
                    Some(_) => exists|p: GuestCopy|
                        seen.copied(p) && option_view(value) == #[trigger] inet_addr_of(p@),
                    None => value is None,
                },
    {
        match self.payload() {
            Some(p) => sockaddr::inet_addr(p.as_slice()),
            None => None,
        }
    }

    /// The path of the Unix address that the payload starts with.
    pub fn unix_path(&self) -> (value: Option<String>)
        ensures
            exists|seen: PacketView| #[trigger]
                self@.seen_as(seen) && match seen.payload_len() {
                    Some(_) => exists|p: GuestCopy|
                        seen.copied(p) && option_view(value) == #[trigger] unix_path_of(p@),
                    None => value is None,
                },
    {
        match self.payload() {
            Some(p) => sockaddr::unix_path(p.as_slice()),
            None => None,
        }
    }

    /// The request for a new socket in the payload.
    pub fn read_proxy_create(&self) -> (value: Option<TsiProxyCreate>)
        ensures
            self@.reads_proxy_create(value),
    {
        match self.payload() {
            Some(p) => TsiProxyCreate::parse(p.as_slice()),
            None => None,
        }
    }

    /// The request to connect a socket in the payload.
    pub fn read_connect_req(&self, host: HostOs) -> (value: Option<TsiConnectReq>)
        ensures
            self@.reads_addressed(host, option_view(value)),
    {
        match self.payload() {
            Some(p) => TsiConnectReq::parse(p.as_slice(), host),
            None => None,
        }
    }

    /// Answers a request to connect a socket, if the buffer has room for it.
    pub fn write_connect_rsp(&mut self, rsp: TsiConnectRsp)
        ensures
            final(self)@ == old(self)@.store_data(4, le32_bytes(rsp.result as u32)),
    {
        self.write_data(4, &u32_to_le(rsp.result as u32));
    }

    /// The request for an address of a socket in the payload.
    pub fn read_getname_req(&self) -> (value: Option<TsiGetnameReq>)
        ensures
            self@.reads_getname(value),
    {
        match self.payload() {
            Some(p) => TsiGetnameReq::parse(p.as_slice()),
            None => None,
        }
    }

    /// Answers a request for an address of a socket, if the buffer has room for it.
    pub fn write_getname_rsp(&mut self, rsp: TsiGetnameRsp, host: HostOs)
        requires
            old(self)@.buffer matches Some(b) ==> !(GETNAME_RSP_ROOM <= b.addresses.len()
                < getname_rsp_bytes(rsp@, host).len()),
        ensures
            final(self)@ == old(self)@.store_data(GETNAME_RSP_ROOM as int, getname_rsp_bytes(rsp@, host)),
    {
        let bytes: Vec<u8> = rsp.encode(host);
        self.write_data(GETNAME_RSP_ROOM, bytes.as_slice());
    }

    /// The request to send datagrams to an address in the payload.
    pub fn read_sendto_addr(&self, host: HostOs) -> (value: Option<TsiSendtoAddr>)
        ensures
            self@.reads_addressed(host, option_view(value)),
    {
        match self.payload() {
            Some(p) => TsiSendtoAddr::parse(p.as_slice(), host),
            None => None,
        }
    }

    /// The request to listen on a socket in the payload.
    pub fn read_listen_req(&self, host: HostOs) -> (value: Option<TsiListenReq>)
        ensures
            self@.reads_listen(host, option_view(value)),
    {
        match self.payload() {
            Some(p) => TsiListenReq::parse(p.as_slice(), host),
            None => None,
        }
    }

    /// Answers a request to listen on a socket, if the buffer has room for it.
    pub fn write_listen_rsp(&mut self, rsp: TsiListenRsp)
        ensures
            final(self)@ == old(self)@.store_data(4, le32_bytes(rsp.result as u32)),
    {
        self.write_data(4, &u32_to_le(rsp.result as u32));
    }

    /// The request to accept a connection in the payload.
    pub fn read_accept_req(&self) -> (value: Option<TsiAcceptReq>)
        ensures
            self@.reads_accept(value),
    {
        match self.payload() {
            Some(p) => TsiAcceptReq::parse(p.as_slice()),
            None => None,
        }
    }

    /// Answers a request to accept a connection, if the buffer has room for it.
    pub fn write_accept_rsp(&mut self, rsp: TsiAcceptRsp)
        ensures
            final(self)@ == old(self)@.store_data(4, le32_bytes(rsp.result as u32)),
    {
        self.write_data(4, &u32_to_le(rsp.result as u32));
    }

    /// The request to release a socket in the payload.
    pub fn read_release_req(&self) -> (value: Option<TsiReleaseReq>)
        ensures
            self@.reads_release(value),
    {
        match self.payload() {
            Some(p) => TsiReleaseReq::parse(p.as_slice()),
            None => None,
        }
    }

    /// Tells the guest the time, if the buffer has room for it.
    pub fn write_time_sync(&mut self, time: u64)
        ensures
            final(self)@ == old(self)@.store_data(8, le64_bytes(time)),
    {
        self.write_data(8, &u64_to_le(time));
    }

    /// Stores `bytes` at the start of the buffer, if that has room for `room` bytes.
    fn write_data(&mut self, room: usize, bytes: &[u8])
        ensures
            final(self)@ == old(self)@.store_data(room as int, bytes@),
    {
        match &mut self.buf {
            Some(buf) => if room <= buf.len() {
                buf.write(0, bytes);
            },
            None => {},
        }
    }
}

/// A header field of a packet from the guest that was set reads back as what it was set
/// to. In a packet to the guest it can be overwritten by the guest.
pub proof fn header_fields_read_back(pkt: PacketView, wide: u64, word: u32, half: u16)
    requires
        pkt.from_guest(),
        pkt.header.len() == VSOCK_PKT_HDR_SIZE,
    ensures
        pkt.with(HDROFF_SRC_CID, le64_bytes(wide)).src_cid() == wide,
        pkt.with(HDROFF_DST_CID, le64_bytes(wide)).dst_cid() == wide,
        pkt.with(HDROFF_SRC_PORT, le32_bytes(word)).src_port() == word,
        pkt.with(HDROFF_DST_PORT, le32_bytes(word)).dst_port() == word,
        pkt.with(HDROFF_LEN, le32_bytes(word)).len() == word,
        pkt.with(HDROFF_TYPE, le16_bytes(half)).type_() == half,
        pkt.with(HDROFF_OP, le16_bytes(half)).op() == half,
        pkt.with(HDROFF_FLAGS, le32_bytes(word)).flags() == word,
        pkt.with(HDROFF_BUF_ALLOC, le32_bytes(word)).buf_alloc() == word,
        pkt.with(HDROFF_FWD_CNT, le32_bytes(word)).fwd_cnt() == word,
{
    le64_reads_back(pkt.header, HDROFF_SRC_CID as int, wide);
    le64_reads_back(pkt.header, HDROFF_DST_CID as int, wide);
    le32_reads_back(pkt.header, HDROFF_SRC_PORT as int, word);
    le32_reads_back(pkt.header, HDROFF_DST_PORT as int, word);
    le32_reads_back(pkt.header, HDROFF_LEN as int, word);
    le16_reads_back(pkt.header, HDROFF_TYPE as int, half);
    le16_reads_back(pkt.header, HDROFF_OP as int, half);
    le32_reads_back(pkt.header, HDROFF_FLAGS as int, word);
    le32_reads_back(pkt.header, HDROFF_BUF_ALLOC as int, word);
    le32_reads_back(pkt.header, HDROFF_FWD_CNT as int, word);
}

/// Setting a header field leaves every byte outside the field, the size of the
/// header and the data buffer as they were.
pub proof fn other_header_bytes_are_kept(pkt: PacketView, at: usize, bytes: Seq<u8>, i: int)
    requires
        at + bytes.len() <= pkt.header.len(),
        0 <= i < pkt.header.len(),
        i < at || at + bytes.len() <= i,
    ensures
        pkt.with(at, bytes).header[i] == pkt.header[i],
        pkt.with(at, bytes).header.len() == pkt.header.len(),
        pkt.with(at, bytes).buffer == pkt.buffer,
{
}

/// The header of a packet from the guest is read as the same every time: as the copy.
pub proof fn copied_headers_stay(pkt: PacketView, seen: PacketView, head: PacketHead)
    requires
        pkt.from_guest(),
    ensures
        pkt.seen_as(seen) <==> seen == pkt,
        pkt.heads(head) <==> head == pkt.head(),
{
    assert(pkt.seen_as(pkt));
}

/// A packet from the guest declares no more data than its buffer holds and a packet
/// may carry, so all of what it declares can be read.
pub proof fn declared_data_is_there(chain: DescriptorChain, header: Seq<u8>)
    requires
        header.len() == VSOCK_PKT_HDR_SIZE,
        tx_packet(chain, header) is Ok,
    ensures
        tx_packet(chain, header)->Ok_0.header == header,
        tx_packet(chain, header)->Ok_0.len() <= MAX_PKT_BUF_SIZE,
        tx_packet(chain, header)->Ok_0.payload_len() == Some(
            tx_packet(chain, header)->Ok_0.len(),
        ),
{
}

/// Each field of a header lies at its offset, low byte first, and routing depends on five
/// of them.
pub proof fn header_fields_lie_at_their_offsets(pkt: PacketView)
    requires
        pkt.header.len() == 44,
    ensures
        pkt.src_cid() == le64(pkt.header, 0),
        pkt.dst_cid() == le64(pkt.header, 8),
        pkt.src_port() == le32(pkt.header, 16),
        pkt.dst_port() == le32(pkt.header, 20),
        pkt.len() == le32(pkt.header, 24),
        pkt.type_() == le16(pkt.header, 28),
        pkt.op() == le16(pkt.header, 30),
        pkt.flags() == le32(pkt.header, 32),
        pkt.buf_alloc() == le32(pkt.header, 36),
        pkt.fwd_cnt() == le32(pkt.header, 40),
        pkt.head().src_cid == le64(pkt.header, 0),
        pkt.head().dst_cid == le64(pkt.header, 8),
        pkt.head().src_port == le32(pkt.header, 16),
        pkt.head().dst_port == le32(pkt.header, 20),
        pkt.head().op == le16(pkt.header, 30),
        VSOCK_PKT_HDR_SIZE == 44,
{
}

/// A field of a packet from the guest is read from the copy of its header, at the offset of
/// the field.
pub proof fn copied_fields_are_read_at_their_offsets(pkt: &VsockPacket)
    requires
        pkt@.slot is None,
    ensures
        forall|v: u64| #[trigger]
            call_ensures(VsockPacket::src_cid, (pkt,), v) ==> v == le64(pkt@.header, 0),
        forall|v: u64| #[trigger]
            call_ensures(VsockPacket::dst_cid, (pkt,), v) ==> v == le64(pkt@.header, 8),
        forall|v: u32| #[trigger]
            call_ensures(VsockPacket::src_port, (pkt,), v) ==> v == le32(pkt@.header, 16),
        forall|v: u32| #[trigger]
            call_ensures(VsockPacket::dst_port, (pkt,), v) ==> v == le32(pkt@.header, 20),
        forall|v: u32| #[trigger]
            call_ensures(VsockPacket::len, (pkt,), v) ==> v == le32(pkt@.header, 24),
        forall|v: u16| #[trigger]
            call_ensures(VsockPacket::type_, (pkt,), v) ==> v == le16(pkt@.header, 28),
        forall|v: u16| #[trigger]
            call_ensures(VsockPacket::op, (pkt,), v) ==> v == le16(pkt@.header, 30),
        forall|v: u32| #[trigger]
            call_ensures(VsockPacket::flags, (pkt,), v) ==> v == le32(pkt@.header, 32),
        forall|v: u32| #[trigger]
            call_ensures(VsockPacket::buf_alloc, (pkt,), v) ==> v == le32(pkt@.header, 36),
        forall|v: u32| #[trigger]
            call_ensures(VsockPacket::fwd_cnt, (pkt,), v) ==> v == le32(pkt@.header, 40),
        forall|bytes: Vec<u8>| #[trigger]
            call_ensures(VsockPacket::hdr, (pkt,), bytes) ==> bytes@ == pkt@.header,
        forall|head: PacketHead| #[trigger]
            call_ensures(VsockPacket::head, (pkt,), head) ==> head == pkt@.head(),
        pkt@.header.len() == 44,
{
    assert(pkt@.seen_as(pkt@));
    pkt.header_is_complete(pkt@);
}

/// A field that is set is written at its offset, low byte first. Adding a flag to a packet
/// from the guest keeps the flags that it has.
pub proof fn fields_are_set_at_their_offsets(wide: u64, word: u32, half: u16)
    ensures
        forall|pkt: &mut VsockPacket, out: &mut VsockPacket| #[trigger]
            call_ensures(VsockPacket::set_src_cid, (pkt, wide), out) ==> out@ == pkt@.with(
                0,
                le64_bytes(wide),
            ) && *final(pkt) == *final(out),
        forall|pkt: &mut VsockPacket, out: &mut VsockPacket| #[trigger]
            call_ensures(VsockPacket::set_dst_cid, (pkt, wide), out) ==> out@ == pkt@.with(
                8,
                le64_bytes(wide),
            ) && *final(pkt) == *final(out),
        forall|pkt: &mut VsockPacket, out: &mut VsockPacket| #[trigger]
            call_ensures(VsockPacket::set_src_port, (pkt, word), out) ==> out@ == pkt@.with(
                16,
                le32_bytes(word),
            ) && *final(pkt) == *final(out),
        forall|pkt: &mut VsockPacket, out: &mut VsockPacket| #[trigger]
            call_ensures(VsockPacket::set_dst_port, (pkt, word), out) ==> out@ == pkt@.with(
                20,
                le32_bytes(word),
            ) && *final(pkt) == *final(out),
        forall|pkt: &mut VsockPacket, out: &mut VsockPacket| #[trigger]
            call_ensures(VsockPacket::set_len, (pkt, word), out) ==> out@ == pkt@.with(
                24,
                le32_bytes(word),
            ) && *final(pkt) == *final(out),
        forall|pkt: &mut VsockPacket, out: &mut VsockPacket| #[trigger]
            call_ensures(VsockPacket::set_type, (pkt, half), out) ==> out@ == pkt@.with(
                28,
                le16_bytes(half),
            ) && *final(pkt) == *final(out),
        forall|pkt: &mut VsockPacket, out: &mut VsockPacket| #[trigger]
            call_ensures(VsockPacket::set_op, (pkt, half), out) ==> out@ == pkt@.with(
                30,
                le16_bytes(half),
            ) && *final(pkt) == *final(out),
        forall|pkt: &mut VsockPacket, out: &mut VsockPacket| #[trigger]
            call_ensures(VsockPacket::set_flags, (pkt, word), out) ==> out@ == pkt@.with(
                32,
                le32_bytes(word),
            ) && *final(pkt) == *final(out),
        forall|pkt: &mut VsockPacket, out: &mut VsockPacket| #[trigger]
            call_ensures(VsockPacket::set_buf_alloc, (pkt, word), out) ==> out@ == pkt@.with(
                36,
                le32_bytes(word),
            ) && *final(pkt) == *final(out),
        forall|pkt: &mut VsockPacket, out: &mut VsockPacket| #[trigger]
            call_ensures(VsockPacket::set_fwd_cnt, (pkt, word), out) ==> out@ == pkt@.with(
                40,
                le32_bytes(word),
            ) && *final(pkt) == *final(out),
        forall|pkt: &mut VsockPacket, out: &mut VsockPacket| #[trigger]
            call_ensures(VsockPacket::set_flag, (pkt, word), out) && pkt@.slot is None ==> out@
                == pkt@.with(32, le32_bytes((le32(pkt@.header, 32) as u32) | word)) && *final(pkt)
                == *final(out),
{
}

/// What is put in a header goes where it is asked to: in a packet from the guest the copy
/// is changed, in a packet to the guest it is stored in the slot. Nothing else changes.
pub proof fn headers_are_changed_in_place(pkt: PacketView, at: usize, bytes: Seq<u8>, i: int)
    requires
        at + bytes.len() <= 44,
        0 <= i < 44,
    ensures
        pkt.with(at, bytes).buffer == pkt.buffer,
        pkt.slot is None && pkt.header.len() == 44 ==> {
            let header = pkt.with(at, bytes).header;
            &&& pkt.with(at, bytes).slot is None
            &&& header.len() == 44
            &&& header[i] == if at <= i < at + bytes.len() {
                bytes[i - at]
            } else {
                pkt.header[i]
            }
        },
        pkt.slot is Some && pkt.slot->0.addresses.len() == 44 ==> {
            let slot = pkt.with(at, bytes).slot;
            &&& slot is Some
            &&& slot->0.addresses == pkt.slot->0.addresses
            &&& slot->0.stored == pkt.slot->0.stored.push((at as int, bytes))
            &&& pkt.with(at, bytes).header == pkt.header
        },
{
    assert(bytes.take(bytes.len() as int) =~= bytes);
}

/// What is read of a packet's data are the first bytes of its buffer, as many as the header
/// declares. A packet whose buffer holds fewer has no payload, and one that declares none
/// an empty one.
pub proof fn payloads_are_as_long_as_declared(pkt: PacketView, copy: GuestCopy)
    ensures
        ({
            let len = le32(pkt.header, 24);
            &&& len == 0 ==> (pkt.copied(copy) ==> copy@.len() == 0)
            &&& len > 0 && pkt.buffer is Some && len <= pkt.buffer->0.addresses.len() ==> (
            pkt.copied(copy) <==> copy@.len() == len && copy.source()
                == pkt.buffer->0.addresses.subrange(0, len))
            &&& len > 0 && (pkt.buffer is None || len > pkt.buffer->0.addresses.len())
                ==> !pkt.copied(copy)
        }),
{
}

/// The payload of a packet from the guest is there if and only if its buffer holds what the
/// header declares, and is then as long. The buffer is read at its full length.
pub proof fn payloads_are_read_from_the_buffer(pkt: &VsockPacket)
    requires
        pkt@.slot is None,
    ensures
        forall|copy: Option<GuestCopy>| #[trigger]
            call_ensures(VsockPacket::payload, (pkt,), copy) ==> {
                let len = le32(pkt@.header, 24);
                &&& copy is Some <==> len == 0 || pkt@.buffer is Some && len
                    <= pkt@.buffer->0.addresses.len()
                &&& copy is Some ==> copy->0@.len() == len
                &&& copy is Some && len > 0 ==> copy->0.source()
                    == pkt@.buffer->0.addresses.subrange(0, len)
            },
        forall|copy: Option<GuestCopy>| #[trigger]
            call_ensures(VsockPacket::buf, (pkt,), copy) ==> {
                &&& copy is Some <==> pkt@.buffer is Some
                &&& copy is Some ==> copy->0.source() == pkt@.buffer->0.addresses && copy->0@.len()
                    == pkt@.buffer->0.addresses.len()
            },
{
}

/// What a reader gives for a packet from the guest is what stands in a copy of its payload,
/// and nothing if the buffer does not hold all of that.
pub proof fn requests_are_those_in_the_payload(pkt: &VsockPacket, host: HostOs)
    requires
        pkt@.slot is None,
    ensures
        pkt@.payload_len() is Some <==> le32(pkt@.header, 24) == 0 || pkt@.buffer is Some && le32(
            pkt@.header,
            24,
        ) <= pkt@.buffer->0.addresses.len(),
        forall|req: Option<TsiProxyCreate>| #[trigger]
            call_ensures(VsockPacket::read_proxy_create, (pkt,), req) ==> if pkt@.payload_len() is Some {
                exists|copy: GuestCopy| #[trigger] pkt@.copied(copy) && req == proxy_create_in(copy@)
            } else {
                req is None
            },
        forall|req: Option<TsiGetnameReq>| #[trigger]
            call_ensures(VsockPacket::read_getname_req, (pkt,), req) ==> if pkt@.payload_len() is Some {
                exists|copy: GuestCopy| #[trigger] pkt@.copied(copy) && req == getname_in(copy@)
            } else {
                req is None
            },
        forall|req: Option<TsiAcceptReq>| #[trigger]
            call_ensures(VsockPacket::read_accept_req, (pkt,), req) ==> if pkt@.payload_len() is Some {
                exists|copy: GuestCopy| #[trigger] pkt@.copied(copy) && req == accept_in(copy@)
            } else {
                req is None
            },
        forall|req: Option<TsiReleaseReq>| #[trigger]
            call_ensures(VsockPacket::read_release_req, (pkt,), req) ==> if pkt@.payload_len() is Some {
                exists|copy: GuestCopy| #[trigger] pkt@.copied(copy) && req == release_in(copy@)
            } else {
                req is None
            },
        forall|req: Option<TsiConnectReq>| #[trigger]
            call_ensures(VsockPacket::read_connect_req, (pkt, host), req) ==> if pkt@.payload_len() is Some {
                exists|copy: GuestCopy| #[trigger] pkt@.copied(copy) && option_view(req) == addressed_in(copy@, host)
            } else {
                req is None
            },
        forall|req: Option<TsiSendtoAddr>| #[trigger]
            call_ensures(VsockPacket::read_sendto_addr, (pkt, host), req) ==> if pkt@.payload_len() is Some {
                exists|copy: GuestCopy| #[trigger] pkt@.copied(copy) && option_view(req) == addressed_in(copy@, host)
            } else {
                req is None
            },
        forall|req: Option<TsiListenReq>| #[trigger]
            call_ensures(VsockPacket::read_listen_req, (pkt, host), req) ==> if pkt@.payload_len() is Some {
                exists|copy: GuestCopy| #[trigger] pkt@.copied(copy) && option_view(req) == listen_in(copy@, host)
            } else {
                req is None
            },
        forall|req: Option<u16>| #[trigger]
            call_ensures(VsockPacket::sa_family, (pkt,), req) ==> if pkt@.payload_len() is Some {
                exists|copy: GuestCopy| #[trigger] pkt@.copied(copy) && req == sa_family_of(copy@)
            } else {
                req is None
            },
        forall|req: Option<u16>| #[trigger]
            call_ensures(VsockPacket::inet_port, (pkt,), req) ==> if pkt@.payload_len() is Some {
                exists|copy: GuestCopy| #[trigger] pkt@.copied(copy) && req == inet_port_of(copy@)
            } else {
                req is None
            },
        forall|req: Option<[u8; 4]>| #[trigger]
            call_ensures(VsockPacket::inet_addr, (pkt,), req) ==> if pkt@.payload_len() is Some {
                exists|copy: GuestCopy| #[trigger] pkt@.copied(copy) && option_view(req) == inet_addr_of(copy@)
            } else {
                req is None
            },
        forall|req: Option<String>| #[trigger]
            call_ensures(VsockPacket::unix_path, (pkt,), req) ==> if pkt@.payload_len() is Some {
                exists|copy: GuestCopy| #[trigger] pkt@.copied(copy) && option_view(req) == unix_path_of(copy@)
            } else {
                req is None
            },
{
}

/// A packet from the guest needs a readable head that holds a header. Then the header
/// decides: without data there is no buffer; data is at most 65536 bytes, and lies in a
/// readable descriptor behind the head that holds it all.
pub proof fn packets_from_the_guest_are_whole(chain: DescriptorChain, header: Seq<u8>)
    ensures
        ({
            let regions = guest_regions(*chain.mem);
            tx_head_fault(chain) == if chain.head.write_only {
                Some(VsockError::UnreadableDescriptor)
            } else if chain.head.len < 44 {
                Some(VsockError::HdrDescTooSmall(chain.head.len))
            } else if !range_backed(regions, chain.head.addr, 44) {
                Some(VsockError::GuestMemoryMmap)
            } else {
                None
            }
        }),
        ({
            let regions = guest_regions(*chain.mem);
            let len = le32(header, 24);
            let got = tx_packet(chain, header);
            if len == 0 {
                got == Ok::<_, VsockError>(PacketView { header, slot: None, buffer: None })
            } else if len > 65536 {
                got is Err && got->Err_0 is InvalidPktLen && got->Err_0->InvalidPktLen_0 == len
            } else if chain.next is None {
                got == Err::<PacketView, _>(VsockError::BufDescMissing)
            } else if chain.next->0.write_only {
                got == Err::<PacketView, _>(VsockError::UnreadableDescriptor)
            } else if chain.next->0.len < len {
                got == Err::<PacketView, _>(VsockError::BufDescTooSmall)
            } else if !range_in_one_region(
                regions,
                chain.next->0.addr,
                chain.next->0.len as int,
            ) {
                got == Err::<PacketView, _>(VsockError::GuestMemoryMmap)
            } else {
                &&& got is Ok
                &&& got->Ok_0.header == header
                &&& got->Ok_0.slot is None
                &&& got->Ok_0.buffer is Some
                &&& got->Ok_0.buffer->0.stored.len() == 0
                &&& got->Ok_0.buffer->0.addresses.len() == chain.next->0.len
                &&& forall|i: int|
                    0 <= i < chain.next->0.len ==> #[trigger] (got->Ok_0.buffer->0.addresses[i])
                        == (chain.next->0.addr + i) as u64
            }
        }),
{
}

/// A packet to the guest needs a writable head with room for a header. The data goes to what
/// a lone head leaves behind the header, else to the writable descriptor behind the head.
pub proof fn packets_to_the_guest_have_room(chain: DescriptorChain)
    ensures
        ({
            let regions = guest_regions(*chain.mem);
            let head = chain.head;
            let lone = !chain.has_next && head.len > 44;
            let got = rx_packet(chain);
            if !head.write_only {
                got == Err::<PacketView, _>(VsockError::UnwritableDescriptor)
            } else if head.len < 44 {
                got == Err::<PacketView, _>(VsockError::HdrDescTooSmall(head.len))
            } else if !range_in_one_region(regions, head.addr, 44) {
                got == Err::<PacketView, _>(VsockError::GuestMemoryMmap)
            } else if lone && head.addr + 44 > u64::MAX {
                got == Err::<PacketView, _>(VsockError::GuestMemoryBounds)
            } else if !lone && chain.next is None {
                got == Err::<PacketView, _>(VsockError::BufDescMissing)
            } else if !lone && !chain.next->0.write_only {
                got == Err::<PacketView, _>(VsockError::UnwritableDescriptor)
            } else {
                let start = if lone {
                    (head.addr + 44) as u64
                } else {
                    chain.next->0.addr
                };
                let count = if lone {
                    head.len - 44
                } else {
                    chain.next->0.len as int
                };
                if !range_in_one_region(regions, start, count) {
                    got == Err::<PacketView, _>(VsockError::GuestMemoryMmap)
                } else {
                    &&& got is Ok
                    &&& got->Ok_0.slot is Some && got->Ok_0.buffer is Some
                    &&& got->Ok_0.slot->0.stored.len() == 0
                    &&& got->Ok_0.buffer->0.stored.len() == 0
                    &&& got->Ok_0.slot->0.addresses.len() == 44
                    &&& got->Ok_0.buffer->0.addresses.len() == count
                    &&& forall|i: int|
                        0 <= i < 44 ==> #[trigger] (got->Ok_0.slot->0.addresses[i]) == (head.addr
                            + i) as u64
                    &&& forall|i: int|
                        0 <= i < count ==> #[trigger] (got->Ok_0.buffer->0.addresses[i]) == (start
                            + i) as u64
                }
            }
        }),
{
}

/// Packets are made of chains as these are: one from the guest of the header that was read
/// where the head points, one to the guest of the room in the chain.
pub proof fn packets_are_made_of_their_chains(chain: &DescriptorChain, header: [u8; 44])
    ensures
        forall|pkt: Result<VsockPacket, VsockError>| #[trigger]
            call_ensures(VsockPacket::from_tx_header, (chain, header), pkt) ==> result_view(pkt)
                == tx_packet(*chain, header@),
        forall|pkt: Result<VsockPacket, VsockError>| #[trigger]
            call_ensures(VsockPacket::from_rx_virtq_head, (chain,), pkt) ==> result_view(pkt)
                == rx_packet(*chain),
        forall|pkt: Result<VsockPacket, VsockError>| #[trigger]
            call_ensures(VsockPacket::from_tx_virtq_head, (chain,), pkt) ==> match tx_head_fault(
                *chain,
            ) {
                Some(fault) => pkt is Err && pkt->Err_0 == fault,
                None => exists|copy: GuestCopy|
                    {
                        &&& copy@.len() == 44
                        &&& copy.source() == addresses_from(chain.head.addr, 44)
                        &&& result_view(pkt) == #[trigger] tx_packet(*chain, copy@)
                    },
            },
{
}

/// Answers are stored at the start of the buffer, low byte first, if it has room for them,
/// and nothing is stored otherwise. The header stays.
pub proof fn answers_are_stored_at_the_start(result: i32, time: u64, host: HostOs)
    ensures
        forall|pkt: &mut VsockPacket, rsp: TsiConnectRsp, done: ()| #[trigger]
            call_ensures(VsockPacket::write_connect_rsp, (pkt, rsp), done) && rsp.result == result
                ==> final(pkt)@ == pkt@.store_data(4, le32_bytes(result as u32)),
        forall|pkt: &mut VsockPacket, rsp: TsiListenRsp, done: ()| #[trigger]
            call_ensures(VsockPacket::write_listen_rsp, (pkt, rsp), done) && rsp.result == result
                ==> final(pkt)@ == pkt@.store_data(4, le32_bytes(result as u32)),
        forall|pkt: &mut VsockPacket, rsp: TsiAcceptRsp, done: ()| #[trigger]
            call_ensures(VsockPacket::write_accept_rsp, (pkt, rsp), done) && rsp.result == result
                ==> final(pkt)@ == pkt@.store_data(4, le32_bytes(result as u32)),
        forall|pkt: &mut VsockPacket, done: ()| #[trigger]
            call_ensures(VsockPacket::write_time_sync, (pkt, time), done) ==> final(pkt)@
                == pkt@.store_data(8, le64_bytes(time)),
        forall|pkt: &mut VsockPacket, rsp: TsiGetnameRsp, done: ()| #[trigger]
            call_ensures(VsockPacket::write_getname_rsp, (pkt, rsp, host), done) ==> final(pkt)@
                == pkt@.store_data(
                132,
                getname_rsp_bytes((rsp.result, rsp.addr_len, rsp.addr@), host),
            ),
{
}

/// Data is stored at the start of a buffer that has the room that is asked for, and leaves
/// the packet alone otherwise.
pub proof fn data_is_stored_where_there_is_room(pkt: PacketView, room: int, bytes: Seq<u8>)
    ensures
        pkt.store_data(room, bytes).header == pkt.header,
        pkt.store_data(room, bytes).slot == pkt.slot,
        pkt.buffer is None || room > pkt.buffer->0.addresses.len() ==> pkt.store_data(room, bytes)
            == pkt,
        pkt.buffer is Some && bytes.len() <= pkt.buffer->0.addresses.len() && room
            <= pkt.buffer->0.addresses.len() ==> {
            let after = pkt.store_data(room, bytes).buffer;
            &&& after is Some
            &&& after->0.addresses == pkt.buffer->0.addresses
            &&& after->0.stored == pkt.buffer->0.stored.push((0, bytes))
        },
{
    assert(bytes.take(bytes.len() as int) =~= bytes);
}

/// A header is changed where it is asked to be, and the data buffer is lent out as it is.
pub proof fn parts_of_packets_are_lent_out(at: usize, bytes: &[u8])
    ensures
        forall|pkt: &mut VsockPacket, done: ()| #[trigger]
            call_ensures(VsockPacket::hdr_mut, (pkt, at, bytes), done) ==> final(pkt)@ == pkt@.with(
                at,
                bytes@,
            ),
        forall|pkt: &mut VsockPacket, buf: Option<&mut GuestBuffer>| #[trigger]
            call_ensures(VsockPacket::buf_mut, (pkt,), buf) ==> {
                &&& buf is Some <==> pkt@.buffer is Some
                &&& buf is Some ==> buf->0@ == pkt@.buffer->0
                &&& buf is None ==> final(pkt)@ == pkt@
            },
{
}

} // verus!
