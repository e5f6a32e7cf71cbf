//! The host side of a virtio socket device: packets exchanged with the guest,
//! the routing decisions of the connection multiplexer, guest context
//! identifiers, device configuration and captured processor state.

#![allow(unused_imports)]

pub mod byte_order;
pub mod collections;
pub mod defs;
pub mod error;
pub mod guest_cid;
pub mod guest_copy;
pub mod guest_memory;
pub mod ids;
pub mod muxer;
pub mod packet;
pub mod page_memory;
pub mod peers;
pub mod proxy;
pub mod rxq;
pub mod sockaddr;
pub mod state_codec;
pub mod text;
pub mod tsi;
pub mod views;
pub mod vsock_config;
pub mod x86_state;

use vstd::prelude::*;
