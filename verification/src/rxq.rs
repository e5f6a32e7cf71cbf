//! What waits for the guest: items that become packets once the guest has room.

use crate::tsi::TsiGetnameRsp;
use std::collections::VecDeque;
use vstd::prelude::*;

verus! {

/// An item for the guest.
#[derive(Debug)]
pub enum MuxerRx {
    /// The connection ends.
    Reset { local_port: u32, peer_port: u32 },
    /// An address that was asked for.
    GetnameResponse { local_port: u32, peer_port: u32, data: TsiGetnameRsp },
    /// Outcome of a connection attempt.
    ConnResponse { local_port: u32, peer_port: u32, result: i32 },
    /// The host wants to connect.
    OpRequest { local_port: u32, peer_port: u32 },
    /// The host accepts a connection.
    OpResponse { local_port: u32, peer_port: u32 },
    /// The host asks for the guest's receive buffer state.
    CreditRequest { local_port: u32, peer_port: u32, fwd_cnt: u32 },
    /// The host tells its receive buffer state.
    CreditUpdate { local_port: u32, peer_port: u32, fwd_cnt: u32 },
    /// Outcome of a request to listen.
    ListenResponse { local_port: u32, peer_port: u32, result: i32 },
    /// Outcome of a request to accept.
    AcceptResponse { local_port: u32, peer_port: u32, result: i32 },
    /// A message of a connectionless peer.
    Datagram { local_port: u32, peer_port: u32, data: Vec<u8> },
}

/// An item for the guest, as a value.
#[verifier::ext_equal]
pub enum RxView {
    /// The connection ends.
    Reset { local_port: u32, peer_port: u32 },
    /// An address that was asked for.
    GetnameResponse { local_port: u32, peer_port: u32, data: (i32, u32, Seq<u8>) },
    /// Outcome of a connection attempt.
    ConnResponse { local_port: u32, peer_port: u32, result: i32 },
    /// The host wants to connect.
    OpRequest { local_port: u32, peer_port: u32 },
    /// The host accepts a connection.
    OpResponse { local_port: u32, peer_port: u32 },
    /// The host asks for the guest's receive buffer state.
    CreditRequest { local_port: u32, peer_port: u32, fwd_cnt: u32 },
    /// The host tells its receive buffer state.
    CreditUpdate { local_port: u32, peer_port: u32, fwd_cnt: u32 },
    /// Outcome of a request to listen.
    ListenResponse { local_port: u32, peer_port: u32, result: i32 },
    /// Outcome of a request to accept.
    AcceptResponse { local_port: u32, peer_port: u32, result: i32 },
    /// A message of a connectionless peer.
    Datagram { local_port: u32, peer_port: u32, data: Seq<u8> },
}

impl View for MuxerRx {
    type V = RxView;

    open spec fn view(&self) -> RxView {
        match *self {
            MuxerRx::Reset { local_port, peer_port } => RxView::Reset { local_port, peer_port },
            MuxerRx::GetnameResponse { local_port, peer_port, data } => RxView::GetnameResponse {
                local_port,
                peer_port,
                data: data@,
            },
            MuxerRx::ConnResponse { local_port, peer_port, result } => RxView::ConnResponse {
                local_port,
                peer_port,
                result,
            },
            MuxerRx::OpRequest { local_port, peer_port } => RxView::OpRequest {
                local_port,
                peer_port,
            },
            MuxerRx::OpResponse { local_port, peer_port } => RxView::OpResponse {
                local_port,
                peer_port,
            },
            MuxerRx::CreditRequest { local_port, peer_port, fwd_cnt } => RxView::CreditRequest {
                local_port,
                peer_port,
                fwd_cnt,
            },
            MuxerRx::CreditUpdate { local_port, peer_port, fwd_cnt } => RxView::CreditUpdate {
                local_port,
                peer_port,
                fwd_cnt,
            },
            MuxerRx::ListenResponse { local_port, peer_port, result } => RxView::ListenResponse {
                local_port,
                peer_port,
                result,
            },
            MuxerRx::AcceptResponse { local_port, peer_port, result } => RxView::AcceptResponse {
                local_port,
                peer_port,
                result,
            },
            MuxerRx::Datagram { local_port, peer_port, data } => RxView::Datagram {
                local_port,
                peer_port,
                data: data@,
            },
        }
    }
}

/// The items that wait for the guest, first come first served.
pub struct MuxerRxQ {
    queue: VecDeque<MuxerRx>,
}

impl View for MuxerRxQ {
    type V = Seq<RxView>;

    closed spec fn view(&self) -> Seq<RxView> {
        self.queue@.map_values(|rx: MuxerRx| rx@)
    }
}

impl MuxerRxQ {
    /// A queue without items.
    pub fn new() -> (q: MuxerRxQ)
        ensures
            q@ == Seq::<RxView>::empty(),
    {
        let q = MuxerRxQ { queue: VecDeque::new() };
        q
    }

    /// Whether nothing waits.
    pub fn is_empty(&self) -> (empty: bool)
        ensures
            empty <==> self@.len() == 0,
    {
        self.queue.len() == 0
    }

    /// Puts an item behind those that wait.
    pub fn push(&mut self, rx: MuxerRx)
        ensures
            final(self)@ == old(self)@.push(rx@),
    {
        self.queue.push_back(rx);
    }

    /// Takes the item that has waited longest.
    pub fn pop(&mut self) -> (rx: Option<MuxerRx>)
        ensures
            match rx {
                Some(rx) => old(self)@.len() > 0 && rx@ == old(self)@[0] && final(self)@
                    == old(self)@.skip(1),
                None => old(self)@.len() == 0 && final(self)@ == old(self)@,
            },
    {
        let rx = self.queue.pop_front();
        rx
    }

    /// Drops every item.
    pub fn clear(&mut self)
        ensures
            final(self)@ == Seq::<RxView>::empty(),
    {
        self.queue.clear();
    }
}

/// An item as a value is of the kind of the item, and has everything that the item has.
pub proof fn items_are_kept_as_values(rx: MuxerRx)
    ensures
        match rx {
            MuxerRx::Reset { local_port, peer_port } => rx@ == (RxView::Reset {
                local_port,
                peer_port,
            }),
            MuxerRx::GetnameResponse { local_port, peer_port, data } => rx@ == (
            RxView::GetnameResponse {
                local_port,
                peer_port,
                data: (data.result, data.addr_len, data.addr@),
            }),
            MuxerRx::ConnResponse { local_port, peer_port, result } => rx@ == (
            RxView::ConnResponse { local_port, peer_port, result }),
            MuxerRx::OpRequest { local_port, peer_port } => rx@ == (RxView::OpRequest {
                local_port,
                peer_port,
            }),
            MuxerRx::OpResponse { local_port, peer_port } => rx@ == (RxView::OpResponse {
                local_port,
                peer_port,
            }),
            MuxerRx::CreditRequest { local_port, peer_port, fwd_cnt } => rx@ == (
            RxView::CreditRequest { local_port, peer_port, fwd_cnt }),
            MuxerRx::CreditUpdate { local_port, peer_port, fwd_cnt } => rx@ == (
            RxView::CreditUpdate { local_port, peer_port, fwd_cnt }),
            MuxerRx::ListenResponse { local_port, peer_port, result } => rx@ == (
            RxView::ListenResponse { local_port, peer_port, result }),
            MuxerRx::AcceptResponse { local_port, peer_port, result } => rx@ == (
            RxView::AcceptResponse { local_port, peer_port, result }),
            MuxerRx::Datagram { local_port, peer_port, data } => rx@ == (RxView::Datagram {
                local_port,
                peer_port,
                data: data@,
            }),
        },
{
}

/// The queue gives its items out in the order in which they were put in, each once.
pub proof fn items_leave_in_order(rx: MuxerRx)
    ensures
        forall|q: &mut MuxerRxQ, out: ()| #[trigger]
            call_ensures(MuxerRxQ::push, (q, rx), out) ==> final(q)@ == q@ + seq![rx@],
        forall|q: &mut MuxerRxQ, out: Option<MuxerRx>| #[trigger]
            call_ensures(MuxerRxQ::pop, (q,), out) ==> match out {
                Some(first) => q@ == seq![first@] + final(q)@,
                None => q@ == Seq::<RxView>::empty() && final(q)@ == Seq::<RxView>::empty(),
            },
        forall|q: &MuxerRxQ, empty: bool| #[trigger]
            call_ensures(MuxerRxQ::is_empty, (q,), empty) ==> empty == (q@ == Seq::<
                RxView,
            >::empty()),
        forall|q: &mut MuxerRxQ, out: ()| #[trigger]
            call_ensures(MuxerRxQ::clear, (q,), out) ==> final(q)@.len() == 0,
        forall|q: MuxerRxQ| #[trigger] call_ensures(MuxerRxQ::new, (), q) ==> q@.len() == 0,
{
    assert forall|q: &mut MuxerRxQ, out: Option<MuxerRx>| #[trigger]
        call_ensures(MuxerRxQ::pop, (q,), out) implies match out {
        Some(first) => q@ == seq![first@] + final(q)@,
        None => q@ == Seq::<RxView>::empty() && final(q)@ == Seq::<RxView>::empty(),
    } by {
        if out is Some {
            assert(q@ =~= seq![out->0@] + final(q)@);
        } else {
            assert(q@ =~= Seq::<RxView>::empty());
        }
    }
    assert forall|q: &MuxerRxQ, empty: bool| #[trigger]
        call_ensures(MuxerRxQ::is_empty, (q,), empty) implies empty == (q@ == Seq::<
        RxView,
    >::empty()) by {
        if q@.len() == 0 {
            assert(q@ =~= Seq::<RxView>::empty());
        }
    }
}

} // verus!
