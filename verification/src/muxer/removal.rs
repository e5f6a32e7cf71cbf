//! The channel through which proxies are handed over for removal.
//!
//! What becomes of an identifier in the channel is up to the thread at its other end.
//! What is known is which channel an end belongs to, and what was handed over to it.

use crossbeam_channel::{Receiver, Sender};
use vstd::prelude::*;

verus! {

/// `crossbeam_channel::Sender`, the sending end of a channel.
#[verifier::external_type_specification]
#[verifier::external_body]
#[verifier::reject_recursive_types(T)]
pub struct ExSender<T>(Sender<T>);

/// `crossbeam_channel::Receiver`, the receiving end of a channel.
#[verifier::external_type_specification]
#[verifier::external_body]
#[verifier::reject_recursive_types(T)]
pub struct ExReceiver<T>(Receiver<T>);

/// The channel that a sending end belongs to.
pub uninterp spec fn sender_channel(sender: Sender<u64>) -> int;

/// The channel that a receiving end belongs to.
pub uninterp spec fn receiver_channel(receiver: Receiver<u64>) -> int;

/// The device's end of the channel, as a value.
#[verifier::ext_equal]
pub struct RemovalView {
    /// The channel.
    pub channel: int,
    /// The proxies that were to be handed over, in order, each with whether there was
    /// someone to take it.
    pub handed: Seq<(u64, bool)>,
}

impl RemovalView {
    /// The end of a new channel.
    pub open spec fn fresh(channel: int) -> RemovalView {
        RemovalView { channel, handed: Seq::empty() }
    }

    /// The end after the proxy `id` was to be handed over, and was if `sent`.
    pub open spec fn hand(self, id: u64, sent: bool) -> RemovalView {
        RemovalView { handed: self.handed.push((id, sent)), ..self }
    }

    /// Whether the last proxy that was to be handed over was.
    pub open spec fn last_sent(self) -> bool {
        self.handed.last().1
    }
}

/// The device's end of the channel. What was handed over is recorded by the one
/// function that sends.
pub struct RemovalEnd {
    sender: Sender<u64>,
    handed: Ghost<Seq<(u64, bool)>>,
}

impl View for RemovalEnd {
    type V = RemovalView;

    closed spec fn view(&self) -> RemovalView {
        RemovalView { channel: sender_channel(self.sender), handed: self.handed@ }
    }
}

/// Calls `crossbeam_channel::unbounded`, which gives the two ends of one channel.
#[verifier::external_body]
fn removal_channel() -> (ends: (Sender<u64>, Receiver<u64>))
    ensures
        sender_channel(ends.0) == receiver_channel(ends.1),
{
    crossbeam_channel::unbounded()
}

/// Calls `Sender::clone`, which gives another sending end of the same channel.
#[verifier::external_body]
fn another_end(sender: &Sender<u64>) -> (another: Sender<u64>)
    ensures
        sender_channel(another) == sender_channel(*sender),
{
    sender.clone()
}

/// Calls `Sender::send` with `id`, which fails if and only if the receiving end is
/// gone. That is up to another thread, so nothing is said of which outcome it is; the
/// outcome is recorded with `id`.
#[verifier::external_body]
fn send_id(end: &mut RemovalEnd, id: u64) -> (sent: bool)
    ensures
        final(end)@ == old(end)@.hand(id, sent),
{
    end.sender.send(id).is_ok()
}

impl RemovalEnd {
    /// A new channel: the device's end, and the receiving end.
    pub fn open() -> (ends: (RemovalEnd, Receiver<u64>))
        ensures
            ends.0@ == RemovalView::fresh(receiver_channel(ends.1)),
    {
        let (sender, receiver) = removal_channel();
        (RemovalEnd { sender, handed: Ghost(Seq::empty()) }, receiver)
    }

    /// Another sending end of the channel, for another thread.
    pub fn another(&self) -> (sender: Sender<u64>)
        ensures
            sender_channel(sender) == self@.channel,
    {
        another_end(&self.sender)
    }

    /// Hands the proxy `id` over, and gives whether there is still someone to take it.
    pub fn hand_over(&mut self, id: u64) -> (sent: bool)
        ensures
            final(self)@ == old(self)@.hand(id, sent),
    {
        send_id(self, id)
    }
}

/// Handing a proxy over adds it to what was handed over, with the outcome, and nothing
/// else. Another end belongs to the same channel.
pub proof fn handing_over_is_recorded(id: u64)
    ensures
        forall|end: &mut RemovalEnd, sent: bool| #[trigger]
            call_ensures(RemovalEnd::hand_over, (end, id), sent) ==> {
                &&& final(end)@.channel == end@.channel
                &&& final(end)@.handed == end@.handed + seq![(id, sent)]
                &&& final(end)@.last_sent() == sent
            },
        forall|end: &RemovalEnd, sender: Sender<u64>| #[trigger]
            call_ensures(RemovalEnd::another, (end,), sender) ==> sender_channel(sender)
                == end@.channel,
        forall|ends: (RemovalEnd, Receiver<u64>)| #[trigger]
            call_ensures(RemovalEnd::open, (), ends) ==> ends.0@.handed.len() == 0
                && ends.0@.channel == receiver_channel(ends.1),
{
}

} // verus!
