//! How items reach the guest: through a receive chain if it has one, else through
//! the queue of what waits.

use crate::error::VsockError;
use crate::guest_memory::DescriptorChain;
use crate::muxer::{MuxerView, VsockMuxer};
use crate::packet::{rx_packet, VsockPacket, VSOCK_PKT_HDR_SIZE};
use crate::proxy::{Step, StepView};
use crate::rxq::{MuxerRx, MuxerRxQ, RxView};
use crate::views::result_view;
use vstd::prelude::*;

verus! {

/// What becomes of a receive chain.
#[derive(Clone, Copy, Debug, PartialEq, Eq, Structural)]
pub enum QueueAction {
    /// It goes back to the guest with `len` bytes written.
    AddUsed { index: u16, len: u32 },
    /// It stays available.
    UndoPop,
}

/// Queues `rx` behind what waits already; if nothing waits, gives it back to be put
/// in a receive chain.
pub fn push_packet(rxq: &mut MuxerRxQ, rx: MuxerRx) -> (offer: Option<MuxerRx>)
    ensures
        match offer {
            Some(offer) => old(rxq)@.len() == 0 && offer == rx && final(rxq)@ == old(rxq)@,
            None => old(rxq)@.len() > 0 && final(rxq)@ == old(rxq)@.push(rx@),
        },
{
    if !rxq.is_empty() {
        rxq.push(rx);
        return None;
    }
    Some(rx)
}

/// Whether `offer` is the packet that `rx` can be put in, given the receive chain
/// that the guest has ready, if any.
pub open spec fn fits_chain(
    offer: Option<(MuxerRx, VsockPacket)>,
    rx: MuxerRx,
    chain: Option<&DescriptorChain>,
) -> bool {
    match chain {
        Some(chain) => match offer {
            Some((item, pkt)) => item == rx && rx_packet(*chain) == Ok::<_, VsockError>(pkt@),
            None => rx_packet(*chain) is Err,
        },
        None => offer is None,
    }
}

/// Takes the next receive chain for `rx`, or the news that there is none: then `rx`
/// waits. A chain that cannot hold a packet is used up and `rx` with it.
pub fn offer_chain<'a>(
    rxq: &mut MuxerRxQ,
    rx: MuxerRx,
    chain: Option<&DescriptorChain<'a>>,
) -> (offer: Option<(MuxerRx, VsockPacket<'a>)>)
    ensures
        fits_chain(offer, rx, chain),
        final(rxq)@ == match chain {
            Some(_) => old(rxq)@,
            None => old(rxq)@.push(rx@),
        },
{
    match chain {
        Some(chain) => match VsockPacket::from_rx_virtq_head(chain) {
            Ok(pkt) => Some((rx, pkt)),
            Err(_) => None,
        },
        None => {
            rxq.push(rx);
            None
        },
    }
}

/// What becomes of the chain with head `index` once a packet was filled in that declares
/// `len` bytes of data, or could not be.
pub fn finish_push(index: u16, len: u32, encoded: bool) -> (action: QueueAction)
    requires
        encoded ==> VSOCK_PKT_HDR_SIZE + len <= u32::MAX,
    ensures
        action == (if encoded {
            QueueAction::AddUsed { index, len: (VSOCK_PKT_HDR_SIZE + len) as u32 }
        } else {
            QueueAction::UndoPop
        }),
{
    if encoded {
        QueueAction::AddUsed { index, len: VSOCK_PKT_HDR_SIZE as u32 + len }
    } else {
        QueueAction::UndoPop
    }
}

/// The state after `rx` was pushed, and what to do then. Without guest memory there
/// is no one to push to.
pub open spec fn pushed(s: MuxerView, rx: RxView) -> (MuxerView, StepView) {
    if !s.attached {
        (s, StepView::Done)
    } else if s.rxq.len() > 0 {
        (MuxerView { rxq: s.rxq.push(rx), ..s }, StepView::Done)
    } else {
        (s, StepView::Offer(rx))
    }
}

impl VsockMuxer {
    /// Queues `rx`, or asks for a receive chain to put it in.
    pub fn push_packet(&mut self, rx: MuxerRx) -> (step: Step)
        ensures
            (final(self)@, step@) == pushed(old(self)@, rx@),
    {
        if !self.attached {
            return Step::Done;
        }
        match push_packet(&mut self.rxq, rx) {
            Some(rx) => Step::Offer(rx),
            None => Step::Done,
        }
    }

    /// Takes the next receive chain for an offered item, or the news that there is
    /// none.
    pub fn offer_chain<'a>(&mut self, rx: MuxerRx, chain: Option<&DescriptorChain<'a>>) -> (offer:
        Option<(MuxerRx, VsockPacket<'a>)>)
        ensures
            fits_chain(offer, rx, chain),
            final(self)@ == match chain {
                Some(_) => old(self)@,
                None => (MuxerView { rxq: old(self)@.rxq.push(rx@), ..old(self)@ }),
            },
    {
        offer_chain(&mut self.rxq, rx, chain)
    }

    /// Whether something waits for the guest.
    pub fn has_pending_rx(&self) -> (pending: bool)
        ensures
            pending == (self@.rxq.len() > 0),
    {
        !self.rxq.is_empty()
    }

    /// The item that has waited longest. One that turns out not to make a packet is
    /// dropped, and the next is asked for.
    pub fn recv_pkt(&mut self) -> (rx: Result<MuxerRx, VsockError>)
        ensures
            (final(self)@, result_view(rx)) == received(old(self)@),
    {
        match self.rxq.pop() {
            Some(rx) => Ok(rx),
            None => Err(VsockError::NoData),
        }
    }
}

/// The state after the item that has waited longest was taken, and the item, if any
/// waited.
pub open spec fn received(s: MuxerView) -> (MuxerView, Result<RxView, VsockError>) {
    if s.rxq.len() > 0 {
        (MuxerView { rxq: s.rxq.skip(1), ..s }, Ok(s.rxq[0]))
    } else {
        (s, Err(VsockError::NoData))
    }
}

/// The state and the outcome once items were taken until one made a packet, or none was
/// left. `makes` tells of each item that waits whether it makes a packet.
pub open spec fn received_packet(s: MuxerView, makes: Seq<bool>) -> (
    MuxerView,
    Result<RxView, VsockError>,
)
    decreases s.rxq.len(),
{
    let next = received(s);
    if next.1 is Err || makes[0] {
        next
    } else {
        received_packet(next.0, makes.skip(1))
    }
}

/// The first item that makes a packet is taken, those before it are dropped and those
/// behind it wait on. If none makes a packet, there is no data and nothing waits.
pub proof fn first_packet_is_received(s: MuxerView, makes: Seq<bool>, k: int)
    requires
        makes.len() == s.rxq.len(),
        0 <= k <= makes.len(),
        forall|i: int| 0 <= i < k ==> !#[trigger] makes[i],
        k < makes.len() ==> makes[k],
    ensures
        received_packet(s, makes) == (if k < makes.len() {
            (MuxerView { rxq: s.rxq.skip(k + 1), ..s }, Ok(s.rxq[k]))
        } else {
            (MuxerView { rxq: Seq::empty(), ..s }, Err(VsockError::NoData))
        }),
    decreases k,
{
    if k > 0 {
        let next = received(s).0;
        let rest = makes.skip(1);
        assert forall|i: int| 0 <= i < k - 1 implies !#[trigger] rest[i] by {
            assert(!makes[i + 1]);
        }
        first_packet_is_received(next, rest, k - 1);
        if k < makes.len() {
            assert(s.rxq.skip(1).skip(k) =~= s.rxq.skip(k + 1));
        }
    } else if makes.len() == 0 {
        assert(s.rxq =~= Seq::empty());
    }
}

/// Items reach the guest in the order in which they were pushed while the first of
/// them waits: the one that waited is taken before the one pushed behind it.
pub proof fn delivery_keeps_order(s: MuxerView, first: RxView, second: RxView)
    requires
        s.attached,
        s.rxq.len() > 0,
        s.rxq[0] == first,
    ensures
        pushed(s, second).0.rxq[0] == first,
        pushed(s, second).0.rxq.last() == second,
        pushed(s, second).0.rxq.len() == s.rxq.len() + 1,
{
}

/// An item is put in a receive chain if nothing waits before it, and waits behind the others
/// if something does. Without guest memory it is dropped. Nothing else changes.
pub proof fn items_wait_behind_others(s: MuxerView, rx: RxView)
    ensures
        !s.attached ==> pushed(s, rx) == (s, StepView::Done),
        s.attached && s.rxq.len() == 0 ==> pushed(s, rx) == (s, StepView::Offer(rx)),
        s.attached && s.rxq.len() > 0 ==> pushed(s, rx) == (
            MuxerView { rxq: s.rxq + seq![rx], ..s },
            StepView::Done,
        ),
        forall|m: &mut VsockMuxer, item: MuxerRx, step: Step| #[trigger]
            call_ensures(VsockMuxer::push_packet, (m, item), step) ==> (final(m)@, step@) == pushed(
                m@,
                item@,
            ),
{
    assert(s.rxq.push(rx) =~= s.rxq + seq![rx]);
}

/// An item that is offered a chain is put in the packet that the chain has room for, or
/// dropped with a chain that has none. Without a chain it waits behind the others.
pub proof fn offered_items_are_put_in_their_chain(rx: MuxerRx, chain: Option<&DescriptorChain>)
    ensures
        forall|m: &mut VsockMuxer, offer: Option<(MuxerRx, VsockPacket)>| #[trigger]
            call_ensures(VsockMuxer::offer_chain, (m, rx, chain), offer) ==> match chain {
                Some(chain) => {
                    &&& final(m)@ == m@
                    &&& offer is Some <==> rx_packet(*chain) is Ok
                    &&& offer is Some ==> (offer->0).0 == rx && (offer->0).1@ == rx_packet(*chain)->Ok_0
                },
                None => {
                    &&& offer is None
                    &&& final(m)@ == (MuxerView { rxq: m@.rxq + seq![rx@], ..m@ })
                },
            },
        forall|q: &mut MuxerRxQ, offer: Option<(MuxerRx, VsockPacket)>| #[trigger]
            call_ensures(offer_chain, (q, rx, chain), offer) ==> match chain {
                Some(chain) => {
                    &&& final(q)@ == q@
                    &&& offer is Some <==> rx_packet(*chain) is Ok
                    &&& offer is Some ==> (offer->0).0 == rx && (offer->0).1@ == rx_packet(*chain)->Ok_0
                },
                None => offer is None && final(q)@ == q@ + seq![rx@],
            },
        forall|q: &mut MuxerRxQ, offer: Option<MuxerRx>| #[trigger]
            call_ensures(push_packet, (q, rx), offer) ==> if q@.len() == 0 {
                offer == Some(rx) && final(q)@ == q@
            } else {
                offer is None && final(q)@ == q@ + seq![rx@]
            },
{
    assert forall|q: Seq<RxView>| #[trigger] q.push(rx@) == q + seq![rx@] by {
        assert(q.push(rx@) =~= q + seq![rx@]);
    }
}

/// A chain goes back to the guest with the header and the data, if a packet was filled in;
/// else it stays available.
pub proof fn filled_chains_go_back(index: u16, len: u32, encoded: bool, action: QueueAction)
    requires
        call_ensures(finish_push, (index, len, encoded), action),
        encoded ==> 44 + len <= u32::MAX,
    ensures
        encoded ==> action is AddUsed && action->index == index && action->len == 44 + len,
        !encoded ==> action is UndoPop,
{
}

/// The item that has waited longest is taken, and the others wait on. If none waits there
/// is no data.
pub proof fn the_longest_waiting_item_is_taken()
    ensures
        forall|m: &mut VsockMuxer, rx: Result<MuxerRx, VsockError>| #[trigger]
            call_ensures(VsockMuxer::recv_pkt, (m,), rx) ==> match rx {
                Ok(rx) => {
                    &&& m@.rxq == seq![rx@] + final(m)@.rxq
                    &&& final(m)@ == (MuxerView { rxq: final(m)@.rxq, ..m@ })
                },
                Err(fault) => {
                    &&& m@.rxq.len() == 0
                    &&& fault is NoData
                    &&& final(m)@ == m@
                },
            },
        forall|m: &VsockMuxer, pending: bool| #[trigger]
            call_ensures(VsockMuxer::has_pending_rx, (m,), pending) ==> pending == (m@.rxq.len()
                != 0),
{
    assert forall|m: &mut VsockMuxer, rx: Result<MuxerRx, VsockError>| #[trigger]
        call_ensures(VsockMuxer::recv_pkt, (m,), rx) && rx is Ok implies m@.rxq == seq![rx->Ok_0@]
        + final(m)@.rxq by {
        assert(result_view(rx) == received(m@).1);
        assert(m@.rxq =~= seq![rx->Ok_0@] + final(m)@.rxq);
    }
}

} // verus!
