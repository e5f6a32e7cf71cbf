//! What can go wrong in the device.

use vstd::prelude::*;

verus! {

/// An error of the socket device. Operating system errors are kept by number.
#[derive(Debug, PartialEq, Eq)]
pub enum VsockError {
    /// A descriptor that the device should read is writable only.
    UnreadableDescriptor,
    /// A descriptor that the device should write is not writable.
    UnwritableDescriptor,
    /// The head descriptor is shorter than a packet header.
    HdrDescTooSmall(u32),
    /// The header declares more data than a packet may carry.
    InvalidPktLen(u32),
    /// The header declares data and no descriptor holds it.
    BufDescMissing,
    /// The data descriptor is shorter than the declared data.
    BufDescTooSmall,
    /// A descriptor points outside guest memory.
    GuestMemoryMmap,
    /// The data address of a descriptor is past the end of the address space.
    GuestMemoryBounds,
    /// A host listener could not be bound.
    HostListener { port: u32, path: Vec<u8>, errno: i32 },
    /// The polling facility could not be set up.
    Transport(i32),
    /// An event descriptor could not be created.
    EventFd(i32),
    /// Nothing is waiting for the guest.
    NoData,
}

} // verus!
