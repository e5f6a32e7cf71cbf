//! Access to guest memory, and the descriptors that point into it.
//!
//! The guest runs while the host reads and writes its memory, so the bytes that
//! a read finds are never known in advance. Which addresses are backed by memory
//! is fixed when the memory is set up, and that is what the contracts speak of.

use crate::guest_copy::{copy_out, GuestCopy};
use crate::packet::VSOCK_PKT_HDR_SIZE;
use vm_memory::{
    Bytes, GuestAddress, GuestMemoryBackend, GuestMemoryError, GuestRegionCollection,
    GuestRegionMmap, VolatileSlice,
};
use vstd::prelude::*;

verus! {

/// `vm_memory::GuestRegionCollection`, a set of guest memory regions.
#[verifier::external_type_specification]
#[verifier::external_body]
#[verifier::reject_recursive_types(R)]
pub struct ExGuestRegionCollection<R>(GuestRegionCollection<R>);

/// `vm_memory::GuestRegionMmap`, a guest memory region mapped into this process.
#[verifier::external_type_specification]
#[verifier::external_body]
#[verifier::reject_recursive_types(B)]
pub struct ExGuestRegionMmap<B>(GuestRegionMmap<B>);

/// `vm_memory::GuestMemoryError`, why an access to guest memory failed.
#[verifier::external_type_specification]
#[verifier::external_body]
pub struct ExGuestMemoryError(GuestMemoryError);

/// `vm_memory::VolatileSlice`, a handle on bytes that the guest may change.
#[verifier::external_type_specification]
#[verifier::external_body]
#[verifier::reject_recursive_types(B)]
pub struct ExVolatileSlice<'a, B>(VolatileSlice<'a, B>);

/// The memory of one guest.
pub type GuestMemory = GuestRegionCollection<GuestRegionMmap<()>>;

/// The regions of a guest's memory, each as its first address and its length.
pub uninterp spec fn guest_regions(mem: GuestMemory) -> Seq<(u64, u64)>;

/// The guest addresses of the bytes behind a handle, in order.
pub uninterp spec fn slice_addresses(slice: VolatileSlice<'_, ()>) -> Seq<u64>;

/// The `count` guest addresses from `addr` on.
pub open spec fn addresses_from(addr: u64, count: nat) -> Seq<u64> {
    Seq::new(count, |i: int| (addr + i) as u64)
}

/// Whether `addr` lies in `region`.
pub open spec fn in_region(region: (u64, u64), addr: int) -> bool {
    region.0 <= addr < region.0 + region.1
}

/// Whether some region holds `addr`.
pub open spec fn is_backed(regions: Seq<(u64, u64)>, addr: int) -> bool {
    exists|i: int| 0 <= i < regions.len() && in_region(#[trigger] regions[i], addr)
}

/// Whether every address of the range is backed, be it by several regions.
pub open spec fn range_backed(regions: Seq<(u64, u64)>, addr: u64, count: int) -> bool {
    forall|a: int| addr <= a < addr + count ==> #[trigger] is_backed(regions, a)
}

/// Whether one region holds `addr` and the whole range that starts there.
pub open spec fn range_in_one_region(regions: Seq<(u64, u64)>, addr: u64, count: int) -> bool {
    exists|i: int|
        0 <= i < regions.len() && in_region(#[trigger] regions[i], addr as int) && addr + count
            <= regions[i].0 + regions[i].1
}

/// Calls `GuestMemoryBackend::get_slice`.
///
/// It succeeds if and only if one region holds the whole range, and the handle
/// then stands for exactly that range.
#[verifier::external_body]
fn get_slice<'a>(mem: &'a GuestMemory, addr: u64, count: usize) -> (slice: Result<
    VolatileSlice<'a, ()>,
    GuestMemoryError,
>)
    ensures
        slice is Ok <==> range_in_one_region(guest_regions(*mem), addr, count as int),
        slice matches Ok(s) ==> slice_addresses(s) == addresses_from(addr, count as nat),
{
    mem.get_slice(GuestAddress(addr), count)
}

/// Calls `VolatileSlice::len`, the number of bytes behind the handle.
#[verifier::external_body]
fn slice_len(slice: &VolatileSlice<'_, ()>) -> (len: usize)
    ensures
        len == slice_addresses(*slice).len(),
{
    slice.len()
}

/// How many of `count` bytes fit in a piece of memory of `room` bytes from offset
/// `at` on.
pub open spec fn fitting(room: int, at: int, count: int) -> int {
    if at >= room {
        0
    } else if count <= room - at {
        count
    } else {
        room - at
    }
}

/// Calls `Bytes::write` on the handle of a buffer, which stores as many of `bytes` as
/// fit from offset `at` on, and gives how many; it fails if none fits.
///
/// The contract tells which bytes were stored, and where, and that the call does not
/// panic. Nothing is said of what the
/// guest reads there afterwards: it may write the same memory itself.
#[verifier::external_body]
fn copy_in(buffer: &mut GuestBuffer<'_>, at: usize, bytes: &[u8]) -> (stored: usize)
    ensures
        stored == old(buffer)@.takes(at as int, bytes@),
        final(buffer)@ == old(buffer)@.store(at as int, bytes@),
    no_unwind
{
    buffer.slice.write(bytes, at).unwrap_or(0)
}

/// A piece of guest memory: where it lies, and what the host stored there.
pub struct BufferView {
    /// The guest addresses of its bytes, in order.
    pub addresses: Seq<u64>,
    /// What was stored, in order: runs of bytes, each with the offset of its first.
    pub stored: Seq<(int, Seq<u8>)>,
}

impl BufferView {
    /// A piece of memory that nothing was stored in.
    pub open spec fn fresh(addr: u64, count: nat) -> BufferView {
        BufferView { addresses: addresses_from(addr, count), stored: Seq::empty() }
    }

    /// How many of `bytes` can be stored from offset `at` on.
    pub open spec fn takes(self, at: int, bytes: Seq<u8>) -> int {
        fitting(self.addresses.len() as int, at, bytes.len() as int)
    }

    /// The piece of memory after as many of `bytes` as fit were stored from offset `at`
    /// on.
    pub open spec fn store(self, at: int, bytes: Seq<u8>) -> BufferView {
        BufferView { stored: self.stored.push((at, bytes.take(self.takes(at, bytes)))), ..self }
    }
}

/// A piece of guest memory that the host reads and writes in place. What was stored is
/// recorded by the one function that stores.
pub struct GuestBuffer<'a> {
    slice: VolatileSlice<'a, ()>,
    stored: Ghost<Seq<(int, Seq<u8>)>>,
}

impl<'a> View for GuestBuffer<'a> {
    type V = BufferView;

    closed spec fn view(&self) -> BufferView {
        BufferView { addresses: slice_addresses(self.slice), stored: self.stored@ }
    }
}

impl<'a> GuestBuffer<'a> {
    /// The buffer of `count` bytes at `addr`, if one region holds all of it.
    pub fn open(mem: &'a GuestMemory, addr: u64, count: usize) -> (opened: Option<GuestBuffer<'a>>)
        ensures
            opened is Some <==> range_in_one_region(guest_regions(*mem), addr, count as int),
            opened matches Some(b) ==> b@ == BufferView::fresh(addr, count as nat),
    {
        match get_slice(mem, addr, count) {
            Ok(slice) => Some(GuestBuffer { slice, stored: Ghost(Seq::empty()) }),
            Err(_) => None,
        }
    }

    /// The number of bytes in the buffer.
    pub fn len(&self) -> (len: usize)
        ensures
            len == self@.addresses.len(),
    {
        slice_len(&self.slice)
    }

    /// The first `count` bytes, as the guest has them at this moment.
    pub fn read(&self, count: usize) -> (copy: GuestCopy)
        requires
            count <= self@.addresses.len(),
        ensures
            copy@.len() == count,
            copy.source() == self@.addresses.take(count as int),
    {
        copy_out(&self.slice, count)
    }

    /// Stores as many of `bytes` as fit, from offset `at` on, and gives how many.
    pub fn write(&mut self, at: usize, bytes: &[u8]) -> (count: usize)
        ensures
            count == old(self)@.takes(at as int, bytes@),
            final(self)@ == old(self)@.store(at as int, bytes@),
        no_unwind
    {
        copy_in(self, at, bytes)
    }
}

/// A piece of guest memory of the size of a packet header.
pub struct HeaderSlot<'a> {
    buffer: GuestBuffer<'a>,
}

impl<'a> View for HeaderSlot<'a> {
    type V = BufferView;

    closed spec fn view(&self) -> BufferView {
        self.buffer@
    }
}

impl<'a> HeaderSlot<'a> {
    #[verifier::type_invariant]
    spec fn inv(self) -> bool {
        self.buffer@.addresses.len() == VSOCK_PKT_HDR_SIZE
    }

    /// The slot at `addr`, if one region holds all of it.
    pub fn open(mem: &'a GuestMemory, addr: u64) -> (opened: Option<HeaderSlot<'a>>)
        ensures
            opened is Some <==> range_in_one_region(
                guest_regions(*mem),
                addr,
                VSOCK_PKT_HDR_SIZE as int,
            ),
            opened matches Some(slot) ==> slot@ == BufferView::fresh(
                addr,
                VSOCK_PKT_HDR_SIZE as nat,
            ),
    {
        match GuestBuffer::open(mem, addr, VSOCK_PKT_HDR_SIZE) {
            Some(buffer) => Some(HeaderSlot { buffer }),
            None => None,
        }
    }

    /// The bytes of the slot, as the guest has them at this moment.
    pub fn read(&self) -> (copy: GuestCopy)
        ensures
            copy@.len() == VSOCK_PKT_HDR_SIZE,
            copy.source() == self@.addresses,
    {
        proof {
            use_type_invariant(self);
        }
        let copy = self.buffer.read(VSOCK_PKT_HDR_SIZE);
        assert(copy.source() =~= self@.addresses);
        copy
    }

    /// Stores as many of `bytes` as fit, from offset `at` on.
    pub fn write(&mut self, at: usize, bytes: &[u8])
        ensures
            final(self)@ == old(self)@.store(at as int, bytes@),
    {
        proof {
            use_type_invariant(&*self);
        }
        self.buffer.write(at, bytes);
    }
}

/// One descriptor chain of a virtio queue, as far as a packet uses it: the head
/// descriptor and the one that follows it.
pub struct DescriptorChain<'a> {
    /// The memory that the descriptors point into.
    pub mem: &'a GuestMemory,
    /// Position of the head in the descriptor table.
    pub index: u16,
    /// The head descriptor.
    pub head: Descriptor,
    /// Whether the head announces a following descriptor.
    pub has_next: bool,
    /// The following descriptor, if there is a valid one.
    pub next: Option<Descriptor>,
}

/// One descriptor: a range of guest memory and the direction of transfer.
#[derive(Clone, Copy)]
pub struct Descriptor {
    /// First guest address.
    pub addr: u64,
    /// Length in bytes.
    pub len: u32,
    /// Whether the device may only write to it.
    pub write_only: bool,
}

/// Bytes are stored from the offset on as far as the piece of memory reaches, and those
/// that do not fit are left out. What was stored before is kept, and the memory stays
/// where it is.
pub proof fn stores_stop_at_the_end(b: BufferView, at: int, bytes: Seq<u8>)
    requires
        0 <= at,
    ensures
        b.store(at, bytes).addresses == b.addresses,
        b.store(at, bytes).stored.drop_last() == b.stored,
        at + bytes.len() <= b.addresses.len() ==> b.takes(at, bytes) == bytes.len() && b.store(
            at,
            bytes,
        ).stored.last() == (at, bytes),
        at < b.addresses.len() < at + bytes.len() ==> b.takes(at, bytes) == b.addresses.len() - at
            && b.store(at, bytes).stored.last() == (at, bytes.subrange(
            0,
            b.addresses.len() - at,
        )),
        at >= b.addresses.len() ==> b.takes(at, bytes) == 0 && b.store(
            at,
            bytes,
        ).stored.last().1.len() == 0,
{
    assert(b.store(at, bytes).stored.drop_last() =~= b.stored);
    if at + bytes.len() <= b.addresses.len() {
        assert(bytes.take(bytes.len() as int) =~= bytes);
    }
}

/// A buffer that is opened lies at the addresses that were asked for, one after another,
/// with nothing stored. It is read from its start, and written where it is asked to.
pub proof fn buffers_lie_where_they_were_opened(
    mem: &GuestMemory,
    addr: u64,
    count: usize,
    at: usize,
    bytes: &[u8],
)
    ensures
        forall|opened: Option<GuestBuffer>, i: int|
            #![trigger call_ensures(GuestBuffer::open, (mem, addr, count), opened), opened->0@.addresses[i]]
            call_ensures(GuestBuffer::open, (mem, addr, count), opened) && opened is Some ==> {
                &&& opened->0@.addresses.len() == count
                &&& opened->0@.stored.len() == 0
                &&& 0 <= i < count ==> opened->0@.addresses[i] == (addr + i) as u64
            },
        forall|opened: Option<HeaderSlot>, i: int|
            #![trigger call_ensures(HeaderSlot::open, (mem, addr), opened), opened->0@.addresses[i]]
            call_ensures(HeaderSlot::open, (mem, addr), opened) && opened is Some ==> {
                &&& opened->0@.addresses.len() == 44
                &&& opened->0@.stored.len() == 0
                &&& 0 <= i < 44 ==> opened->0@.addresses[i] == (addr + i) as u64
            },
        forall|b: &GuestBuffer, copy: GuestCopy| #[trigger]
            call_ensures(GuestBuffer::read, (b, count), copy) && count <= b@.addresses.len()
                ==> copy@.len() == count && copy.source() == b@.addresses.subrange(
                0,
                count as int,
            ),
        forall|b: &GuestBuffer, len: usize| #[trigger]
            call_ensures(GuestBuffer::len, (b,), len) ==> len == b@.addresses.len(),
        forall|b: &mut GuestBuffer, taken: usize| #[trigger]
            call_ensures(GuestBuffer::write, (b, at, bytes), taken) && at + bytes@.len()
                <= b@.addresses.len() ==> {
                &&& taken == bytes@.len()
                &&& final(b)@.addresses == b@.addresses
                &&& final(b)@.stored == b@.stored.push((at as int, bytes@))
            },
{
    assert forall|b: &mut GuestBuffer, taken: usize| #[trigger]
        call_ensures(GuestBuffer::write, (b, at, bytes), taken) && at + bytes@.len()
            <= b@.addresses.len() implies {
        &&& taken == bytes@.len()
        &&& final(b)@.addresses == b@.addresses
        &&& final(b)@.stored == b@.stored.push((at as int, bytes@))
    } by {
        assert(bytes@.take(bytes@.len() as int) =~= bytes@);
    }
}

/// A slot is read whole, from its first address to its last, and written where it is asked
/// to.
pub proof fn slots_are_read_whole(at: usize, bytes: &[u8])
    requires
        at + bytes@.len() <= 44,
    ensures
        forall|slot: &HeaderSlot, copy: GuestCopy| #[trigger]
            call_ensures(HeaderSlot::read, (slot,), copy) ==> copy@.len() == 44 && copy.source()
                == slot@.addresses,
        forall|slot: &mut HeaderSlot, done: ()| #[trigger]
            call_ensures(HeaderSlot::write, (slot, at, bytes), done) && slot@.addresses.len() == 44
                ==> {
                &&& final(slot)@.addresses == slot@.addresses
                &&& final(slot)@.stored == slot@.stored.push((at as int, bytes@))
            },
{
    assert(bytes@.take(bytes@.len() as int) =~= bytes@);
}

} // verus!
