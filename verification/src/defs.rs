//! Constants of the virtio socket protocol and of the socket redirection
//! protocol that runs over it.

use vstd::prelude::*;

verus! {

/// The system that the device runs on.
#[derive(Clone, Copy, Debug, PartialEq, Eq, Structural)]
pub enum HostOs {
    /// Linux.
    Linux,
    /// macOS.
    MacOs,
}

impl HostOs {
    /// Error number: connection refused.
    pub open spec fn econnrefused_number(self) -> i32 {
        match self {
            HostOs::Linux => LINUX_ECONNREFUSED,
            HostOs::MacOs => MACOS_ECONNREFUSED,
        }
    }

    /// Error number: connection refused.
    pub fn econnrefused(&self) -> (number: i32)
        ensures
            number == self.econnrefused_number(),
    {
        match self {
            HostOs::Linux => LINUX_ECONNREFUSED,
            HostOs::MacOs => MACOS_ECONNREFUSED,
        }
    }

    /// Address family of IPv6.
    pub open spec fn inet6_number(self) -> u16 {
        match self {
            HostOs::Linux => LINUX_AF_INET6,
            HostOs::MacOs => BSD_AF_INET6 as u16,
        }
    }

    /// Address family of IPv6.
    pub fn inet6(&self) -> (family: u16)
        ensures
            family == self.inet6_number(),
    {
        match self {
            HostOs::Linux => LINUX_AF_INET6,
            HostOs::MacOs => BSD_AF_INET6 as u16,
        }
    }
}

/// Context identifier of the host.
pub const VSOCK_HOST_CID: u64 = 2;

/// Connection request.
pub const VSOCK_OP_REQUEST: u16 = 1;

/// Answer to a connection request.
pub const VSOCK_OP_RESPONSE: u16 = 2;

/// Forced end of a connection.
pub const VSOCK_OP_RST: u16 = 3;

/// Orderly end of a connection.
pub const VSOCK_OP_SHUTDOWN: u16 = 4;

/// Data.
pub const VSOCK_OP_RW: u16 = 5;

/// Receive buffer state of the sender.
pub const VSOCK_OP_CREDIT_UPDATE: u16 = 6;

/// Largest payload that a packet may declare.
pub const MAX_PKT_BUF_SIZE: u32 = 65536;

/// Stream sockets, as a redirection request names them.
pub const SOCK_STREAM: u16 = 1;

/// Datagram sockets, as a redirection request names them.
pub const SOCK_DGRAM: u16 = 2;

/// Host port that stands in the low half of a redirected socket's identifier.
pub const TSI_PROXY_PORT: u32 = 620;

/// Control port: create a redirected socket.
pub const TSI_PROXY_CREATE: u32 = 1024;

/// Control port: connect a redirected socket.
pub const TSI_CONNECT: u32 = 1025;

/// Control port: query a redirected socket's address.
pub const TSI_GETNAME: u32 = 1026;

/// Control port: set the destination of a redirected datagram socket.
pub const TSI_SENDTO_ADDR: u32 = 1027;

/// Control port: send on a redirected datagram socket.
pub const TSI_SENDTO_DATA: u32 = 1028;

/// Control port: listen on a redirected socket.
pub const TSI_LISTEN: u32 = 1029;

/// Control port: accept on a redirected socket.
pub const TSI_ACCEPT: u32 = 1030;

/// Control port: release a redirected socket.
pub const TSI_PROXY_RELEASE: u32 = 1031;

/// Linux address family of Unix sockets.
pub const LINUX_AF_UNIX: u16 = 1;

/// Linux address family of IPv4.
pub const LINUX_AF_INET: u16 = 2;

/// Linux address family of IPv6.
pub const LINUX_AF_INET6: u16 = 10;

/// BSD address family of IPv4.
pub const BSD_AF_INET: u8 = 2;

/// BSD address family of IPv6, as macOS numbers it.
pub const BSD_AF_INET6: u8 = 30;

/// Error number: operation not permitted.
pub const EPERM: i32 = 1;

/// Error number: invalid argument.
pub const EINVAL: i32 = 22;

/// Linux error number: connection refused.
pub const LINUX_ECONNREFUSED: i32 = 111;

/// macOS error number: connection refused.
pub const MACOS_ECONNREFUSED: i32 = 61;

/// The numbers of the protocol between guest and host, which the guest was built with.
pub proof fn protocol_numbers_are_fixed(host: HostOs)
    ensures
        VSOCK_HOST_CID == 2,
        VSOCK_OP_REQUEST == 1,
        VSOCK_OP_RESPONSE == 2,
        VSOCK_OP_RST == 3,
        VSOCK_OP_SHUTDOWN == 4,
        VSOCK_OP_RW == 5,
        VSOCK_OP_CREDIT_UPDATE == 6,
        MAX_PKT_BUF_SIZE == 65536,
        SOCK_STREAM == 1,
        SOCK_DGRAM == 2,
        TSI_PROXY_PORT == 620,
        TSI_PROXY_CREATE == 1024,
        TSI_CONNECT == 1025,
        TSI_GETNAME == 1026,
        TSI_SENDTO_ADDR == 1027,
        TSI_SENDTO_DATA == 1028,
        TSI_LISTEN == 1029,
        TSI_ACCEPT == 1030,
        TSI_PROXY_RELEASE == 1031,
        LINUX_AF_UNIX == 1,
        LINUX_AF_INET == 2,
        LINUX_AF_INET6 == 10,
        BSD_AF_INET == 2,
        BSD_AF_INET6 == 30,
        EPERM == 1,
        EINVAL == 22,
        host == HostOs::Linux ==> host.econnrefused_number() == 111 && host.inet6_number() == 10,
        host == HostOs::MacOs ==> host.econnrefused_number() == 61 && host.inet6_number() == 30,
        forall|number: i32| #[trigger]
            call_ensures(HostOs::econnrefused, (&host,), number) ==> number
                == host.econnrefused_number(),
        forall|family: u16| #[trigger]
            call_ensures(HostOs::inet6, (&host,), family) ==> family == host.inet6_number(),
{
}

} // verus!
