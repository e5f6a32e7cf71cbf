//! What passes between the multiplexer and the proxies that carry connections to
//! sockets and services of the host.
//!
//! The multiplexer decides; the host side owns descriptors and services and acts.
//! A [`Step`] is a decision that asks for such an action.

use crate::rxq::{MuxerRx, RxView};
use crate::tsi::{TsiAcceptReq, TsiConnectReq, TsiListenReq, TsiSendtoAddr};
use vstd::prelude::*;

verus! {

/// Event: a descriptor can be read.
pub const EVENT_IN: u32 = 1;

/// Event: a descriptor can be written.
pub const EVENT_OUT: u32 = 4;

/// Which sockets of the guest are redirected to the host.
#[derive(Clone, Copy, Debug, PartialEq, Eq, Structural)]
pub struct TsiFlags {
    /// Internet sockets.
    pub hijack_inet: bool,
    /// Unix sockets.
    pub hijack_unix: bool,
}

impl TsiFlags {
    /// No sockets.
    pub fn empty() -> (flags: TsiFlags)
        ensures
            flags == (TsiFlags { hijack_inet: false, hijack_unix: false }),
    {
        TsiFlags { hijack_inet: false, hijack_unix: false }
    }

    /// Whether any sockets are redirected.
    pub open spec fn enabled(self) -> bool {
        self.hijack_inet || self.hijack_unix
    }

    /// Whether no sockets are redirected.
    pub fn is_empty(&self) -> (empty: bool)
        ensures
            empty == !self.enabled(),
    {
        !self.hijack_inet && !self.hijack_unix
    }

    /// Whether any sockets are redirected.
    pub fn tsi_enabled(&self) -> (enabled: bool)
        ensures
            enabled == self.enabled(),
    {
        !self.is_empty()
    }
}

impl Default for TsiFlags {
    /// No sockets.
    fn default() -> (flags: TsiFlags)
        ensures
            flags == (TsiFlags { hijack_inet: false, hijack_unix: false }),
    {
        TsiFlags::empty()
    }
}

/// Who asks a stream service for a connection.
#[derive(Clone, Copy, Debug, PartialEq, Eq, Structural)]
pub struct VsockConnectRequest {
    /// Context identifier that the guest was configured with.
    pub guest_cid: u64,
    /// Port of the guest.
    pub guest_port: u32,
    /// Port of the host.
    pub host_port: u32,
}

/// Who sends a datagram to a service.
#[derive(Clone, Copy, Debug, PartialEq, Eq, Structural)]
pub struct VsockDatagramPeer {
    /// Context identifier that the guest was configured with.
    pub guest_cid: u64,
    /// Port of the guest.
    pub guest_port: u32,
    /// Port of the host.
    pub host_port: u32,
}

/// Whether a proxy is to go.
#[derive(Clone, Copy, Debug, PartialEq, Eq, Structural)]
pub enum ProxyRemoval {
    /// It stays.
    Keep,
    /// It goes at once.
    Immediate,
    /// It goes a while later.
    Deferred,
}

/// What a proxy asks for after it has done some work.
#[derive(Clone, Copy, Debug, PartialEq, Eq)]
pub struct ProxyUpdate {
    /// Whether the guest is to be told that packets wait for it.
    pub signal_queue: bool,
    /// Whether the proxy is to go.
    pub remove_proxy: ProxyRemoval,
    /// Events to wait for: token, descriptor, events.
    pub polling: Option<(u64, i32, u32)>,
    /// A connection to hand to a waiting accept: its proxy and the listening proxy.
    pub push_accept: Option<(u64, u64)>,
}

/// What a proxy is asked to do with the packet at hand.
#[derive(Debug)]
pub enum ProxyCall {
    /// Connect to an address.
    Connect(TsiConnectReq),
    /// Answer with an address.
    GetPeerName,
    /// Send datagrams to an address.
    SendtoAddr(TsiSendtoAddr),
    /// Send a datagram to that address.
    SendtoData,
    /// Listen.
    Listen(TsiListenReq),
    /// Accept a connection.
    Accept(TsiAcceptReq),
    /// Let go of the connection.
    Release,
    /// Send data.
    SendMsg,
    /// Answer a connection request.
    ConfirmConnect,
    /// Take the answer to a connection request.
    OpResponse,
    /// Shut the connection down.
    Shutdown,
    /// Take the receive buffer state of the guest.
    UpdatePeerCredit,
}

/// What a proxy is asked to do, as a value.
#[verifier::ext_equal]
pub enum CallView {
    /// Connect to an address.
    Connect((u32, Seq<u8>)),
    /// Answer with an address.
    GetPeerName,
    /// Send datagrams to an address.
    SendtoAddr((u32, Seq<u8>)),
    /// Send a datagram to that address.
    SendtoData,
    /// Listen.
    Listen((u32, u32, i32, Seq<u8>)),
    /// Accept a connection.
    Accept(TsiAcceptReq),
    /// Let go of the connection.
    Release,
    /// Send data.
    SendMsg,
    /// Answer a connection request.
    ConfirmConnect,
    /// Take the answer to a connection request.
    OpResponse,
    /// Shut the connection down.
    Shutdown,
    /// Take the receive buffer state of the guest.
    UpdatePeerCredit,
}

impl View for ProxyCall {
    type V = CallView;

    open spec fn view(&self) -> CallView {
        match *self {
            ProxyCall::Connect(req) => CallView::Connect(req@),
            ProxyCall::GetPeerName => CallView::GetPeerName,
            ProxyCall::SendtoAddr(req) => CallView::SendtoAddr(req@),
            ProxyCall::SendtoData => CallView::SendtoData,
            ProxyCall::Listen(req) => CallView::Listen(req@),
            ProxyCall::Accept(req) => CallView::Accept(req),
            ProxyCall::Release => CallView::Release,
            ProxyCall::SendMsg => CallView::SendMsg,
            ProxyCall::ConfirmConnect => CallView::ConfirmConnect,
            ProxyCall::OpResponse => CallView::OpResponse,
            ProxyCall::Shutdown => CallView::Shutdown,
            ProxyCall::UpdatePeerCredit => CallView::UpdatePeerCredit,
        }
    }
}

/// What the host side is to do next.
#[derive(Debug)]
pub enum Step {
    /// Nothing.
    Done,
    /// Put the item in the next receive chain of the guest.
    Offer(MuxerRx),
    /// Ask the proxy `id`, and process the update that it gives, if any.
    Call { id: u64, call: ProxyCall },
    /// Ask the proxy `id`, and leave it at that.
    Tell { id: u64, call: ProxyCall },
    /// Make a proxy `id` for a redirected stream socket.
    CreateStream {
        id: u64,
        guest_cid: u64,
        family: u16,
        local_port: u32,
        peer_port: u32,
        control_port: u32,
    },
    /// Make a proxy `id` for a redirected datagram socket.
    CreateDgram { id: u64, guest_cid: u64, family: u16, peer_port: u32 },
    /// Ask a stream service for a connection that the proxy `id` is to carry.
    Connect { id: u64, service: u64, request: VsockConnectRequest },
    /// Connect the proxy `id` to a Unix socket.
    ConnectUnix { id: u64, guest_cid: u64, local_port: u32, peer_port: u32, path: Vec<u8> },
    /// Ask a datagram service for a new peer.
    OpenPeer { service: u64, peer: VsockDatagramPeer, activity: u64 },
    /// Wait for events of a descriptor under the token `id`.
    Watch { id: u64, fd: i32, events: u32 },
}

/// What the host side is to do next, as a value.
#[verifier::ext_equal]
pub enum StepView {
    /// Nothing.
    Done,
    /// Put the item in the next receive chain of the guest.
    Offer(RxView),
    /// Ask the proxy `id`, and process the update that it gives, if any.
    Call { id: u64, call: CallView },
    /// Ask the proxy `id`, and leave it at that.
    Tell { id: u64, call: CallView },
    /// Make a proxy `id` for a redirected stream socket.
    CreateStream {
        id: u64,
        guest_cid: u64,
        family: u16,
        local_port: u32,
        peer_port: u32,
        control_port: u32,
    },
    /// Make a proxy `id` for a redirected datagram socket.
    CreateDgram { id: u64, guest_cid: u64, family: u16, peer_port: u32 },
    /// Ask a stream service for a connection that the proxy `id` is to carry.
    Connect { id: u64, service: u64, request: VsockConnectRequest },
    /// Connect the proxy `id` to a Unix socket.
    ConnectUnix { id: u64, guest_cid: u64, local_port: u32, peer_port: u32, path: Seq<u8> },
    /// Ask a datagram service for a new peer.
    OpenPeer { service: u64, peer: VsockDatagramPeer, activity: u64 },
    /// Wait for events of a descriptor under the token `id`.
    Watch { id: u64, fd: i32, events: u32 },
}

impl View for Step {
    type V = StepView;

    open spec fn view(&self) -> StepView {
        match *self {
            Step::Done => StepView::Done,
            Step::Offer(rx) => StepView::Offer(rx@),
            Step::Call { id, call } => StepView::Call { id, call: call@ },
            Step::Tell { id, call } => StepView::Tell { id, call: call@ },
            Step::CreateStream { id, guest_cid, family, local_port, peer_port, control_port } =>
                StepView::CreateStream {
                id,
                guest_cid,
                family,
                local_port,
                peer_port,
                control_port,
            },
            Step::CreateDgram { id, guest_cid, family, peer_port } => StepView::CreateDgram {
                id,
                guest_cid,
                family,
                peer_port,
            },
            Step::Connect { id, service, request } => StepView::Connect { id, service, request },
            Step::ConnectUnix { id, guest_cid, local_port, peer_port, path } =>
                StepView::ConnectUnix { id, guest_cid, local_port, peer_port, path: path@ },
            Step::OpenPeer { service, peer, activity } => StepView::OpenPeer {
                service,
                peer,
                activity,
            },
            Step::Watch { id, fd, events } => StepView::Watch { id, fd, events },
        }
    }
}

/// Sockets are redirected if those of either kind are; by themselves none are. Events are
/// numbered as the operating system numbers them.
pub proof fn either_kind_enables_redirection(flags: TsiFlags)
    ensures
        flags.enabled() <==> flags.hijack_inet || flags.hijack_unix,
        forall|enabled: bool| #[trigger]
            call_ensures(TsiFlags::tsi_enabled, (&flags,), enabled) ==> enabled == (
            flags.hijack_inet || flags.hijack_unix),
        forall|empty: bool| #[trigger]
            call_ensures(TsiFlags::is_empty, (&flags,), empty) ==> empty == !(flags.hijack_inet
                || flags.hijack_unix),
        forall|none: TsiFlags| #[trigger]
            call_ensures(TsiFlags::empty, (), none) ==> !none.hijack_inet && !none.hijack_unix,
        forall|none: TsiFlags| #[trigger]
            call_ensures(TsiFlags::default, (), none) ==> !none.hijack_inet && !none.hijack_unix,
        EVENT_IN == 1,
        EVENT_OUT == 4,
{
}

/// A call as a value is of the kind of the call, and has what that was given.
pub proof fn calls_are_kept_as_values(
    connect: TsiConnectReq,
    sendto: TsiSendtoAddr,
    listen: TsiListenReq,
    accept: TsiAcceptReq,
)
    ensures
        ProxyCall::Connect(connect)@ == CallView::Connect((connect.peer_port, connect.addr@)),
        ProxyCall::SendtoAddr(sendto)@ == CallView::SendtoAddr((sendto.peer_port, sendto.addr@)),
        ProxyCall::Listen(listen)@ == CallView::Listen(
            (listen.peer_port, listen.vm_port, listen.backlog, listen.addr@),
        ),
        ProxyCall::Accept(accept)@ == CallView::Accept(accept),
        ProxyCall::GetPeerName@ == CallView::GetPeerName,
        ProxyCall::SendtoData@ == CallView::SendtoData,
        ProxyCall::Release@ == CallView::Release,
        ProxyCall::SendMsg@ == CallView::SendMsg,
        ProxyCall::ConfirmConnect@ == CallView::ConfirmConnect,
        ProxyCall::OpResponse@ == CallView::OpResponse,
        ProxyCall::Shutdown@ == CallView::Shutdown,
        ProxyCall::UpdatePeerCredit@ == CallView::UpdatePeerCredit,
{
}

/// A step as a value is of the kind of the step, and has everything that the step has.
pub proof fn steps_are_kept_as_values(step: Step)
    ensures
        match step {
            Step::Done => step@ == StepView::Done,
            Step::Offer(rx) => step@ == StepView::Offer(rx@),
            Step::Call { id, call } => step@ == (StepView::Call { id, call: call@ }),
            Step::Tell { id, call } => step@ == (StepView::Tell { id, call: call@ }),
            Step::CreateStream { id, guest_cid, family, local_port, peer_port, control_port } =>
                step@ == (StepView::CreateStream {
                id,
                guest_cid,
                family,
                local_port,
                peer_port,
                control_port,
            }),
            Step::CreateDgram { id, guest_cid, family, peer_port } => step@ == (
            StepView::CreateDgram { id, guest_cid, family, peer_port }),
            Step::Connect { id, service, request } => step@ == (StepView::Connect {
                id,
                service,
                request,
            }),
            Step::ConnectUnix { id, guest_cid, local_port, peer_port, path } => step@ == (
            StepView::ConnectUnix { id, guest_cid, local_port, peer_port, path: path@ }),
            Step::OpenPeer { service, peer, activity } => step@ == (StepView::OpenPeer {
                service,
                peer,
                activity,
            }),
            Step::Watch { id, fd, events } => step@ == (StepView::Watch { id, fd, events }),
        },
{
}

} // verus!
