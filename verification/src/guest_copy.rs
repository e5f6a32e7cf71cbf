//! Copies of guest memory.
//!
//! The guest may write its memory at any time, so nothing is known of the bytes of a
//! copy. What is known is where they were read: a copy keeps the guest addresses, and
//! only the functions here that read guest memory make copies with bytes in them.

use crate::guest_memory::{
    addresses_from, guest_regions, range_backed, slice_addresses, GuestMemory,
};
use vm_memory::{Bytes, GuestAddress, GuestMemoryError, VolatileSlice};
use vstd::prelude::*;

verus! {

/// Bytes that were read from guest memory.
pub struct GuestCopy {
    bytes: Vec<u8>,
    source: Ghost<Seq<u64>>,
}

impl View for GuestCopy {
    type V = Seq<u8>;

    closed spec fn view(&self) -> Seq<u8> {
        self.bytes@
    }
}

impl GuestCopy {
    /// The guest addresses that the bytes were read from, in order.
    pub closed spec fn source(self) -> Seq<u64> {
        self.source@
    }

    /// A copy of no bytes.
    pub fn empty() -> (copy: GuestCopy)
        ensures
            copy@ == Seq::<u8>::empty(),
            copy.source() == Seq::<u64>::empty(),
    {
        GuestCopy { bytes: Vec::new(), source: Ghost(Seq::empty()) }
    }

    /// The bytes.
    pub fn as_slice(&self) -> (bytes: &[u8])
        ensures
            bytes@ == self@,
    {
        self.bytes.as_slice()
    }

    /// The bytes, on their own.
    pub fn into_vec(self) -> (bytes: Vec<u8>)
        ensures
            bytes@ == self@,
    {
        self.bytes
    }
}

/// Calls `Bytes::read_slice` on guest memory for `count` bytes from `addr` on.
///
/// It succeeds if and only if every address of the range is backed, and reads the bytes
/// at those addresses. Nothing is said of the bytes themselves: the guest may write them
/// at any time.
#[verifier::external_body]
pub(crate) fn read_memory(mem: &GuestMemory, addr: u64, count: usize) -> (read: Result<
    GuestCopy,
    GuestMemoryError,
>)
    requires
        0 < count <= isize::MAX,
    ensures
        read is Ok <==> range_backed(guest_regions(*mem), addr, count as int),
        read matches Ok(copy) ==> copy@.len() == count,
        read matches Ok(copy) ==> copy.source() == addresses_from(addr, count as nat),
{
    let mut bytes = vec![0u8; count];
    mem.read_slice(&mut bytes, GuestAddress(addr))?;
    Ok(GuestCopy { bytes, source: Ghost(addresses_from(addr, count as nat)) })
}

/// Calls `VolatileSlice::copy_to` for the first `count` bytes behind the handle, which
/// reads the bytes at their addresses.
///
/// Nothing is said of the bytes themselves: the guest may write them at any time.
#[verifier::external_body]
pub(crate) fn copy_out(slice: &VolatileSlice<'_, ()>, count: usize) -> (copy: GuestCopy)
    requires
        count <= slice_addresses(*slice).len(),
    ensures
        copy@.len() == count,
        copy.source() == slice_addresses(*slice).take(count as int),
{
    let mut bytes = vec![0u8; count];
    slice.copy_to(&mut bytes[..]);
    GuestCopy { bytes, source: Ghost(slice_addresses(*slice).take(count as int)) }
}

/// A copy gives out the bytes that were read, all of them and in order. One of no bytes was
/// read nowhere.
pub proof fn copies_give_out_what_was_read(copy: GuestCopy)
    ensures
        forall|bytes: &[u8]| #[trigger]
            call_ensures(GuestCopy::as_slice, (&copy,), bytes) ==> bytes@ == copy@,
        forall|bytes: Vec<u8>| #[trigger]
            call_ensures(GuestCopy::into_vec, (copy,), bytes) ==> bytes@ == copy@,
        forall|none: GuestCopy| #[trigger]
            call_ensures(GuestCopy::empty, (), none) ==> none@.len() == 0 && none.source().len()
                == 0,
{
}

} // verus!
