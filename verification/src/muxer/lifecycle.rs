//! How the device is set to work and brought to rest.
//!
//! Both go step by step: the host side performs a step and comes back for the next.
//! Activation that fails at some step is undone by bringing the device to rest.

use crate::collections::members_of;
use crate::defs::{HostOs, TSI_PROXY_PORT};
use crate::ids::join;
use crate::muxer::control::tsi_id;
use crate::muxer::removal::{receiver_channel, sender_channel, RemovalEnd, RemovalView};
use crate::muxer::{MuxerView, VsockMuxer};
use crate::peers::PeerMap;
use crate::proxy::TsiFlags;
use crossbeam_channel::{Receiver, Sender};
use vstd::prelude::*;

verus! {

/// Why the device cannot be activated.
#[derive(Clone, Copy, Debug, PartialEq, Eq, Structural)]
pub enum ActivateError {
    /// It has exited for good.
    Exited,
    /// It works already.
    AlreadyActive,
}

impl ActivateError {
    /// The error in words.
    pub fn message(&self) -> (text: &'static str)
        ensures
            text@ == match *self {
                ActivateError::Exited => "vsock device has exited"@,
                ActivateError::AlreadyActive => "vsock muxer is already activated"@,
            },
    {
        match self {
            ActivateError::Exited => "vsock device has exited",
            ActivateError::AlreadyActive => "vsock muxer is already activated",
        }
    }
}

/// How far activation has come: what was asked for last.
#[derive(Clone, Copy, Debug, PartialEq, Eq, Structural)]
pub enum ActivationStage {
    /// Nothing yet.
    Begin,
    /// A copy of the stop event.
    StopEvent,
    /// To wait for the stop event.
    Watching,
    /// A look at a listener's path.
    Checking,
    /// To wait for a listener.
    Listening,
    /// The thread that keeps the guest's clock.
    Timesync,
    /// The thread for deferred removals.
    Reaper,
    /// The event thread.
    Muxer,
    /// The device works.
    Active,
}

/// Activation under way, as a value.
#[verifier::ext_equal]
pub struct ActivationView {
    /// Ports of the listeners, in the order in which they are taken.
    pub ports: Seq<u32>,
    /// How many listeners are done.
    pub done: int,
    /// What was asked for last.
    pub stage: ActivationStage,
}

/// Activation under way.
pub struct Activation {
    ports: Vec<u32>,
    done: usize,
    stage: ActivationStage,
}

impl View for Activation {
    type V = ActivationView;

    closed spec fn view(&self) -> ActivationView {
        ActivationView { ports: self.ports@, done: self.done as int, stage: self.stage }
    }
}

impl Activation {
    #[verifier::type_invariant]
    spec fn inv(self) -> bool {
        &&& self.done <= self.ports.len()
        &&& self.stage == ActivationStage::Checking || self.stage == ActivationStage::Listening
            ==> self.done < self.ports.len()
    }
}

/// The next step of activation.
pub enum ActivationStep {
    /// Make a copy of the stop event.
    CloneStopEvent,
    /// Wait for the stop event.
    WatchStopEvent,
    /// See that the path of the port's listener is still its own.
    CheckListener { port: u32 },
    /// Wait for the port's listener under the token `id`.
    WatchListener { port: u32, id: u64 },
    /// Keep guest memory, the receive queue and the interrupt at hand, and start the
    /// thread that keeps the guest's clock.
    StartTimesync,
    /// Keep guest memory, the receive queue and the interrupt at hand, and start the
    /// thread for deferred removals, which takes them from the channel.
    StartReaper(Receiver<u64>),
    /// Start the event thread, which can defer removals too.
    StartMuxer(Option<Sender<u64>>),
    /// The device works.
    Active,
}

/// The next step of activation, as a value.
pub enum ActivationAction {
    /// Make a copy of the stop event.
    CloneStopEvent,
    /// Wait for the stop event.
    WatchStopEvent,
    /// See that the path of the port's listener is still its own.
    CheckListener { port: u32 },
    /// Wait for the port's listener under the token `id`.
    WatchListener { port: u32, id: u64 },
    /// Start the thread that keeps the guest's clock.
    StartTimesync,
    /// Start the thread for deferred removals, with the receiving end of the channel.
    StartReaper { channel: int },
    /// Start the event thread, with a sending end of the channel.
    StartMuxer { channel: Option<int> },
    /// The device works.
    Active,
}

impl View for ActivationStep {
    type V = ActivationAction;

    open spec fn view(&self) -> ActivationAction {
        match *self {
            ActivationStep::CloneStopEvent => ActivationAction::CloneStopEvent,
            ActivationStep::WatchStopEvent => ActivationAction::WatchStopEvent,
            ActivationStep::CheckListener { port } => ActivationAction::CheckListener { port },
            ActivationStep::WatchListener { port, id } => ActivationAction::WatchListener {
                port,
                id,
            },
            ActivationStep::StartTimesync => ActivationAction::StartTimesync,
            ActivationStep::StartReaper(receiver) => ActivationAction::StartReaper {
                channel: receiver_channel(receiver),
            },
            ActivationStep::StartMuxer(sender) => ActivationAction::StartMuxer {
                channel: match sender {
                    Some(sender) => Some(sender_channel(sender)),
                    None => None,
                },
            },
            ActivationStep::Active => ActivationAction::Active,
        }
    }
}

/// Why activation is refused, if it is.
pub open spec fn activation_fault(s: MuxerView) -> Option<ActivateError> {
    if s.retired {
        Some(ActivateError::Exited)
    } else if s.muxer_thread || s.reaper_thread {
        Some(ActivateError::AlreadyActive)
    } else {
        None
    }
}

/// Activation goes on with the thread for deferred removals, where the new channel for
/// these is `channel`.
pub open spec fn start_reaper(s: MuxerView, ports: Seq<u32>, done: int, channel: int) -> (
    MuxerView,
    ActivationView,
    ActivationAction,
) {
    (
        MuxerView { reaper: Some(RemovalView::fresh(channel)), ..s },
        ActivationView { ports, done, stage: ActivationStage::Reaper },
        ActivationAction::StartReaper { channel },
    )
}

/// Activation goes on with the listener after the first `done`, or past the last. On
/// macOS a thread keeps the guest's clock.
pub open spec fn next_listener(s: MuxerView, ports: Seq<u32>, done: int, channel: int) -> (
    MuxerView,
    ActivationView,
    ActivationAction,
) {
    let ready = MuxerView { attached: true, interrupt: true, ..s };
    if done < ports.len() {
        (
            s,
            ActivationView { ports, done, stage: ActivationStage::Checking },
            ActivationAction::CheckListener { port: ports[done] },
        )
    } else if s.host == HostOs::MacOs {
        (
            ready,
            ActivationView { ports, done, stage: ActivationStage::Timesync },
            ActivationAction::StartTimesync,
        )
    } else {
        start_reaper(ready, ports, done, channel)
    }
}

/// Activation after the last step was performed: the state, how far it has come, and
/// the next step. A channel that is made then is `channel`.
pub open spec fn activation_next(s: MuxerView, a: ActivationView, channel: int) -> (
    MuxerView,
    ActivationView,
    ActivationAction,
) {
    match a.stage {
        ActivationStage::Begin => (
            s,
            ActivationView { stage: ActivationStage::StopEvent, ..a },
            ActivationAction::CloneStopEvent,
        ),
        ActivationStage::StopEvent => (
            s,
            ActivationView { stage: ActivationStage::Watching, ..a },
            ActivationAction::WatchStopEvent,
        ),
        ActivationStage::Watching => next_listener(s, a.ports, a.done, channel),
        ActivationStage::Checking => (
            s,
            ActivationView { stage: ActivationStage::Listening, ..a },
            ActivationAction::WatchListener {
                port: a.ports[a.done],
                id: tsi_id(a.ports[a.done]),
            },
        ),
        ActivationStage::Listening => next_listener(
            MuxerView { proxies: s.proxies.insert(tsi_id(a.ports[a.done])), ..s },
            a.ports,
            a.done + 1,
            channel,
        ),
        ActivationStage::Timesync => start_reaper(
            MuxerView { timesync_thread: true, ..s },
            a.ports,
            a.done,
            channel,
        ),
        ActivationStage::Reaper => (
            MuxerView { reaper_thread: true, ..s },
            ActivationView { stage: ActivationStage::Muxer, ..a },
            ActivationAction::StartMuxer {
                channel: match s.reaper {
                    Some(end) => Some(end.channel),
                    None => None,
                },
            },
        ),
        ActivationStage::Muxer => (
            MuxerView { muxer_thread: true, ..s },
            ActivationView { stage: ActivationStage::Active, ..a },
            ActivationAction::Active,
        ),
        ActivationStage::Active => (s, a, ActivationAction::Active),
    }
}

/// The channel that was made in the step, if one was.
spec fn made_channel(action: ActivationAction) -> int {
    match action {
        ActivationAction::StartReaper { channel } => channel,
        _ => 0,
    }
}

/// What went wrong first on the way to rest.
#[derive(Clone, Copy, Debug, PartialEq, Eq, Structural)]
pub enum QuiesceFault {
    /// The event thread could not be told to stop.
    StopSignal,
    /// The event thread panicked.
    MuxerPanicked,
    /// The thread that keeps the guest's clock panicked.
    TimesyncPanicked,
    /// The thread for deferred removals panicked.
    ReaperPanicked,
}

impl QuiesceFault {
    /// The fault in words, where the host side has no error of its own for it.
    pub fn message(&self) -> (text: Option<&'static str>)
        ensures
            match *self {
                QuiesceFault::StopSignal => text is None,
                QuiesceFault::MuxerPanicked => text is Some && text->0@
                    == "vsock muxer thread panicked"@,
                QuiesceFault::TimesyncPanicked => text is Some && text->0@
                    == "vsock timesync thread panicked"@,
                QuiesceFault::ReaperPanicked => text is Some && text->0@
                    == "vsock reaper thread panicked"@,
            },
    {
        match self {
            QuiesceFault::StopSignal => None,
            QuiesceFault::MuxerPanicked => Some("vsock muxer thread panicked"),
            QuiesceFault::TimesyncPanicked => Some("vsock timesync thread panicked"),
            QuiesceFault::ReaperPanicked => Some("vsock reaper thread panicked"),
        }
    }
}

/// How far the way to rest has come: what was asked for last.
#[derive(Clone, Copy, Debug, PartialEq, Eq, Structural)]
pub enum QuiesceStage {
    /// Nothing yet.
    Begin,
    /// To signal the event thread.
    Signal,
    /// To join the event thread.
    Muxer,
    /// To join the thread that keeps the guest's clock.
    Timesync,
    /// To join the thread for deferred removals.
    Reaper,
    /// To stop waiting for events.
    Unwatch,
    /// The way is over.
    Finished,
}

/// The way to rest.
#[derive(Clone, Copy, Debug, PartialEq, Eq)]
pub struct Quiesce {
    /// What was asked for last.
    pub stage: QuiesceStage,
    /// What went wrong first.
    pub fault: Option<QuiesceFault>,
}

/// The next step of the way to rest.
#[derive(Debug)]
pub enum QuiesceStep {
    /// Signal the stop event.
    SignalStop,
    /// Join the event thread.
    JoinMuxer,
    /// Stop the thread that keeps the guest's clock, and join it.
    JoinTimesync,
    /// Join the thread for deferred removals.
    JoinReaper,
    /// Stop waiting for the listeners of the ports and for the stop event, and clear
    /// that event.
    Unwatch(Vec<u32>),
    /// Drop the proxies and let go of guest memory, the receive queue and the
    /// interrupt, unless the event thread could not be signalled. The way is over.
    Finished(Result<(), QuiesceFault>),
}

/// The next step of the way to rest, as a value.
#[verifier::ext_equal]
pub enum QuiesceAction {
    /// Signal the stop event.
    SignalStop,
    /// Join the event thread.
    JoinMuxer,
    /// Stop the thread that keeps the guest's clock, and join it.
    JoinTimesync,
    /// Join the thread for deferred removals.
    JoinReaper,
    /// Stop waiting for events.
    Unwatch(Set<u32>),
    /// The way is over.
    Finished(Result<(), QuiesceFault>),
}

impl View for QuiesceStep {
    type V = QuiesceAction;

    open spec fn view(&self) -> QuiesceAction {
        match *self {
            QuiesceStep::SignalStop => QuiesceAction::SignalStop,
            QuiesceStep::JoinMuxer => QuiesceAction::JoinMuxer,
            QuiesceStep::JoinTimesync => QuiesceAction::JoinTimesync,
            QuiesceStep::JoinReaper => QuiesceAction::JoinReaper,
            QuiesceStep::Unwatch(ports) => QuiesceAction::Unwatch(ports@.to_set()),
            QuiesceStep::Finished(result) => QuiesceAction::Finished(result),
        }
    }
}

/// The state at rest: no proxy, no peer and nothing waiting is left. Listeners and
/// the configuration stay.
pub open spec fn quiesced(s: MuxerView) -> MuxerView {
    MuxerView {
        proxies: Set::empty(),
        peers: PeerMap::empty(),
        rxq: Seq::empty(),
        attached: false,
        interrupt: false,
        reaper: None,
        muxer_thread: false,
        timesync_thread: false,
        reaper_thread: false,
        ..s
    }
}

/// The first of two faults.
pub open spec fn first_fault(q: Quiesce, ok: bool, fault: QuiesceFault) -> Option<QuiesceFault> {
    if ok || q.fault is Some {
        q.fault
    } else {
        Some(fault)
    }
}

/// The outcome of the way to rest.
pub open spec fn quiesce_result(q: Quiesce) -> Result<(), QuiesceFault> {
    match q.fault {
        Some(fault) => Err(fault),
        None => Ok(()),
    }
}

/// Events are waited for no longer.
pub open spec fn unwatch(s: MuxerView, fault: Option<QuiesceFault>) -> (
    MuxerView,
    Quiesce,
    QuiesceAction,
) {
    (
        s,
        Quiesce { stage: QuiesceStage::Unwatch, fault },
        QuiesceAction::Unwatch(s.host_listeners),
    )
}

/// The thread for deferred removals ends once nothing can be sent to it.
pub open spec fn release_reaper(s: MuxerView, fault: Option<QuiesceFault>) -> (
    MuxerView,
    Quiesce,
    QuiesceAction,
) {
    if s.reaper_thread {
        (
            MuxerView { reaper: None, reaper_thread: false, ..s },
            Quiesce { stage: QuiesceStage::Reaper, fault },
            QuiesceAction::JoinReaper,
        )
    } else {
        unwatch(MuxerView { reaper: None, ..s }, fault)
    }
}

/// The thread that keeps the guest's clock ends.
pub open spec fn release_timesync(s: MuxerView, fault: Option<QuiesceFault>) -> (
    MuxerView,
    Quiesce,
    QuiesceAction,
) {
    if s.timesync_thread {
        (
            MuxerView { timesync_thread: false, ..s },
            Quiesce { stage: QuiesceStage::Timesync, fault },
            QuiesceAction::JoinTimesync,
        )
    } else {
        release_reaper(s, fault)
    }
}

/// The way to rest after the last step went well, or did not: the state, how far it
/// has come, and the next step.
pub open spec fn quiesce_next(s: MuxerView, q: Quiesce, ok: bool) -> (
    MuxerView,
    Quiesce,
    QuiesceAction,
) {
    match q.stage {
        QuiesceStage::Begin => if s.muxer_thread {
            (s, Quiesce { stage: QuiesceStage::Signal, ..q }, QuiesceAction::SignalStop)
        } else {
            release_timesync(s, q.fault)
        },
        QuiesceStage::Signal => if ok {
            (
                MuxerView { muxer_thread: false, ..s },
                Quiesce { stage: QuiesceStage::Muxer, ..q },
                QuiesceAction::JoinMuxer,
            )
        } else {
            (
                s,
                Quiesce {
                    stage: QuiesceStage::Finished,
                    fault: Some(QuiesceFault::StopSignal),
                },
                QuiesceAction::Finished(Err(QuiesceFault::StopSignal)),
            )
        },
        QuiesceStage::Muxer => release_timesync(
            s,
            first_fault(q, ok, QuiesceFault::MuxerPanicked),
        ),
        QuiesceStage::Timesync => release_reaper(
            s,
            first_fault(q, ok, QuiesceFault::TimesyncPanicked),
        ),
        QuiesceStage::Reaper => unwatch(s, first_fault(q, ok, QuiesceFault::ReaperPanicked)),
        QuiesceStage::Unwatch => (
            quiesced(s),
            Quiesce { stage: QuiesceStage::Finished, ..q },
            QuiesceAction::Finished(quiesce_result(q)),
        ),
        QuiesceStage::Finished => (s, q, QuiesceAction::Finished(quiesce_result(q))),
    }
}

impl VsockMuxer {
    /// Begins activation, unless the device has exited or works already.
    pub fn activate(&self) -> (activation: Result<Activation, ActivateError>)
        ensures
            match activation_fault(self@) {
                Some(fault) => activation == Err::<Activation, _>(fault),
                None => {
                    &&& activation is Ok
                    &&& activation->Ok_0@.ports.no_duplicates()
                    &&& activation->Ok_0@.ports.to_set() == self@.host_listeners
                    &&& activation->Ok_0@.done == 0
                    &&& activation->Ok_0@.stage == ActivationStage::Begin
                },
            },
    {
        if self.retired {
            return Err(ActivateError::Exited);
        }
        if self.muxer_thread || self.reaper_thread {
            return Err(ActivateError::AlreadyActive);
        }
        let ports: Vec<u32> = members_of(&self.host_listeners);
        Ok(Activation { ports, done: 0, stage: ActivationStage::Begin })
    }

    /// Takes the news that the last step of activation went well, and gives the next.
    pub fn activate_inner(&mut self, a: Activation) -> (next: (Activation, ActivationStep))
        ensures
            exists|channel: int|
                (final(self)@, next.0@, next.1@) == #[trigger] activation_next(
                    old(self)@,
                    a@,
                    channel,
                ),
    {
        proof {
            use_type_invariant(&a);
        }
        let ghost begin = a@;
        let ports: Vec<u32> = a.ports;
        let done: usize = a.done;
        let next = match a.stage {
            ActivationStage::Begin => (
                Activation { ports, done, stage: ActivationStage::StopEvent },
                ActivationStep::CloneStopEvent,
            ),
            ActivationStage::StopEvent => (
                Activation { ports, done, stage: ActivationStage::Watching },
                ActivationStep::WatchStopEvent,
            ),
            ActivationStage::Watching => self.next_listener(ports, done),
            ActivationStage::Checking => {
                let port: u32 = ports[done];
                (
                    Activation { ports, done, stage: ActivationStage::Listening },
                    ActivationStep::WatchListener { port, id: join(port, TSI_PROXY_PORT) },
                )
            },
            ActivationStage::Listening => {
                let id: u64 = join(ports[done], TSI_PROXY_PORT);
                self.proxies.insert(id);
                self.next_listener(ports, done + 1)
            },
            ActivationStage::Timesync => {
                self.timesync_thread = true;
                self.start_reaper(ports, done)
            },
            ActivationStage::Reaper => {
                self.reaper_thread = true;
                let sender: Option<Sender<u64>> = match &self.reaper_sender {
                    Some(end) => Some(end.another()),
                    None => None,
                };
                (
                    Activation { ports, done, stage: ActivationStage::Muxer },
                    ActivationStep::StartMuxer(sender),
                )
            },
            ActivationStage::Muxer => {
                self.muxer_thread = true;
                (
                    Activation { ports, done, stage: ActivationStage::Active },
                    ActivationStep::Active,
                )
            },
            ActivationStage::Active => (
                Activation { ports, done, stage: ActivationStage::Active },
                ActivationStep::Active,
            ),
        };
        assert((self@, next.0@, next.1@) == activation_next(
            old(self)@,
            begin,
            made_channel(next.1@),
        ));
        next
    }

    /// Goes on with the listener after the first `done`, or past the last.
    fn next_listener(&mut self, ports: Vec<u32>, done: usize) -> (next: (
        Activation,
        ActivationStep,
    ))
        requires
            done <= ports.len(),
        ensures
            (final(self)@, next.0@, next.1@) == next_listener(
                old(self)@,
                ports@,
                done as int,
                made_channel(next.1@),
            ),
    {
        if done < ports.len() {
            let port: u32 = ports[done];
            (
                Activation { ports, done, stage: ActivationStage::Checking },
                ActivationStep::CheckListener { port },
            )
        } else {
            self.attached = true;
            self.interrupt = true;
            if self.host == HostOs::MacOs {
                return (
                    Activation { ports, done, stage: ActivationStage::Timesync },
                    ActivationStep::StartTimesync,
                );
            }
            self.start_reaper(ports, done)
        }
    }

    /// Goes on with the thread for deferred removals.
    fn start_reaper(&mut self, ports: Vec<u32>, done: usize) -> (next: (
        Activation,
        ActivationStep,
    ))
        requires
            done <= ports.len(),
        ensures
            (final(self)@, next.0@, next.1@) == start_reaper(
                old(self)@,
                ports@,
                done as int,
                made_channel(next.1@),
            ),
    {
        let (end, receiver) = RemovalEnd::open();
        self.reaper_sender = Some(end);
        (
            Activation { ports, done, stage: ActivationStage::Reaper },
            ActivationStep::StartReaper(receiver),
        )
    }

    /// Begins the way to rest.
    pub fn quiesce() -> (q: Quiesce)
        ensures
            q == (Quiesce { stage: QuiesceStage::Begin, fault: None }),
    {
        Quiesce { stage: QuiesceStage::Begin, fault: None }
    }

    /// Takes whether the last step on the way to rest went well, and gives the next.
    /// Whatever is said of the beginning is ignored.
    pub fn quiesce_step(&mut self, q: Quiesce, ok: bool) -> (next: (Quiesce, QuiesceStep))
        ensures
            (final(self)@, next.0, next.1@) == quiesce_next(old(self)@, q, ok),
    {
        match q.stage {
            QuiesceStage::Begin => {
                if self.muxer_thread {
                    return (
                        Quiesce { stage: QuiesceStage::Signal, fault: q.fault },
                        QuiesceStep::SignalStop,
                    );
                }
                self.release_timesync(q.fault)
            },
            QuiesceStage::Signal => {
                if !ok {
                    return (
                        Quiesce {
                            stage: QuiesceStage::Finished,
                            fault: Some(QuiesceFault::StopSignal),
                        },
                        QuiesceStep::Finished(Err(QuiesceFault::StopSignal)),
                    );
                }
                self.muxer_thread = false;
                (Quiesce { stage: QuiesceStage::Muxer, fault: q.fault }, QuiesceStep::JoinMuxer)
            },
            QuiesceStage::Muxer => {
                let fault: Option<QuiesceFault> = if ok || q.fault.is_some() {
                    q.fault
                } else {
                    Some(QuiesceFault::MuxerPanicked)
                };
                self.release_timesync(fault)
            },
            QuiesceStage::Timesync => {
                let fault: Option<QuiesceFault> = if ok || q.fault.is_some() {
                    q.fault
                } else {
                    Some(QuiesceFault::TimesyncPanicked)
                };
                self.release_reaper(fault)
            },
            QuiesceStage::Reaper => {
                let fault: Option<QuiesceFault> = if ok || q.fault.is_some() {
                    q.fault
                } else {
                    Some(QuiesceFault::ReaperPanicked)
                };
                self.unwatch(fault)
            },
            QuiesceStage::Unwatch => {
                self.proxies.clear();
                self.peers.clear();
                self.rxq.clear();
                self.attached = false;
                self.interrupt = false;
                self.reaper_sender = None;
                self.muxer_thread = false;
                self.timesync_thread = false;
                self.reaper_thread = false;
                (
                    Quiesce { stage: QuiesceStage::Finished, fault: q.fault },
                    VsockMuxer::finished(q.fault),
                )
            },
            QuiesceStage::Finished => (q, VsockMuxer::finished(q.fault)),
        }
    }

    /// The end of the way to rest.
    fn finished(fault: Option<QuiesceFault>) -> (step: QuiesceStep)
        ensures
            forall|stage: QuiesceStage|
                step@ == QuiesceAction::Finished(
                    #[trigger] quiesce_result(Quiesce { stage, fault }),
                ),
    {
        match fault {
            Some(fault) => QuiesceStep::Finished(Err(fault)),
            None => QuiesceStep::Finished(Ok(())),
        }
    }

    /// Lets the thread that keeps the guest's clock end.
    fn release_timesync(&mut self, fault: Option<QuiesceFault>) -> (next: (Quiesce, QuiesceStep))
        ensures
            (final(self)@, next.0, next.1@) == release_timesync(old(self)@, fault),
    {
        if self.timesync_thread {
            self.timesync_thread = false;
            (Quiesce { stage: QuiesceStage::Timesync, fault }, QuiesceStep::JoinTimesync)
        } else {
            self.release_reaper(fault)
        }
    }

    /// Lets the thread for deferred removals end.
    fn release_reaper(&mut self, fault: Option<QuiesceFault>) -> (next: (Quiesce, QuiesceStep))
        ensures
            (final(self)@, next.0, next.1@) == release_reaper(old(self)@, fault),
    {
        self.reaper_sender = None;
        if self.reaper_thread {
            self.reaper_thread = false;
            (Quiesce { stage: QuiesceStage::Reaper, fault }, QuiesceStep::JoinReaper)
        } else {
            self.unwatch(fault)
        }
    }

    /// Lets events be waited for no longer.
    fn unwatch(&self, fault: Option<QuiesceFault>) -> (next: (Quiesce, QuiesceStep))
        ensures
            (self@, next.0, next.1@) == unwatch(self@, fault),
    {
        (
            Quiesce { stage: QuiesceStage::Unwatch, fault },
            QuiesceStep::Unwatch(members_of(&self.host_listeners)),
        )
    }

    /// Begins the end of the device: it comes to rest and is never activated again.
    pub fn retire(&mut self) -> (q: Quiesce)
        ensures
            q == (Quiesce { stage: QuiesceStage::Begin, fault: None }),
            final(self)@ == (MuxerView { retired: true, ..old(self)@ }),
    {
        self.retired = true;
        VsockMuxer::quiesce()
    }

    /// Ends the device once it is at rest, or could not be brought there: its
    /// listeners are given up.
    pub fn release_listeners(&mut self)
        ensures
            final(self)@ == (MuxerView { host_listeners: Set::empty(), ..old(self)@ }),
    {
        self.host_listeners.clear();
    }
}

/// The state and how far activation has come after `n` more steps. The channel that is
/// made on the way is `channel`.
pub open spec fn activation_run(s: MuxerView, a: ActivationView, n: nat, channel: int) -> (
    MuxerView,
    ActivationView,
)
    decreases n,
{
    if n == 0 {
        (s, a)
    } else {
        let before = activation_run(s, a, (n - 1) as nat, channel);
        let next = activation_next(before.0, before.1, channel);
        (next.0, next.1)
    }
}

/// Activation that stops after any number of steps leaves nothing behind: at rest,
/// the device is as it would be without them.
pub proof fn partial_activation_is_undone(
    s: MuxerView,
    a: ActivationView,
    n: nat,
    channel: int,
)
    ensures
        quiesced(activation_run(s, a, n, channel).0) == quiesced(s),
    decreases n,
{
    if n > 0 {
        partial_activation_is_undone(s, a, (n - 1) as nat, channel);
    }
}

/// The identifiers of the proxies of the first `n` listeners.
pub open spec fn listener_ids(ports: Seq<u32>, n: int) -> Set<u64> {
    ports.take(n).map_values(|port: u32| tsi_id(port)).to_set()
}

/// Activation gives each listener that is done a proxy, and takes none away.
pub proof fn activation_registers_listeners(
    before: Set<u64>,
    s: MuxerView,
    a: ActivationView,
    channel: int,
)
    requires
        0 <= a.done <= a.ports.len(),
        a.stage == ActivationStage::Checking || a.stage == ActivationStage::Listening ==> a.done
            < a.ports.len(),
        a.stage == ActivationStage::Timesync ==> a.done == a.ports.len(),
        s.proxies == before.union(listener_ids(a.ports, a.done)),
    ensures
        activation_next(s, a, channel).0.proxies == before.union(
            listener_ids(a.ports, activation_next(s, a, channel).1.done),
        ),
        activation_next(s, a, channel).2 is StartTimesync ==> activation_next(s, a, channel).1.done
            == a.ports.len(),
        activation_next(s, a, channel).2 is StartReaper ==> activation_next(s, a, channel).1.done
            == a.ports.len(),
{
    if a.stage == ActivationStage::Listening {
        let ids = a.ports.take(a.done).map_values(|port: u32| tsi_id(port));
        let more = a.ports.take(a.done + 1).map_values(|port: u32| tsi_id(port));
        let id = tsi_id(a.ports[a.done]);
        assert(more =~= ids.push(id));
        assert forall|x: u64| more.to_set().contains(x) == (ids.to_set().contains(x) || x == id) by {
            vstd::seq_lib::lemma_seq_contains_after_push(ids, id, x);
        }
    }
}

/// Whether what was started so far is there.
pub open spec fn activation_consistent(s: MuxerView, a: ActivationView) -> bool {
    let late = a.stage == ActivationStage::Reaper || a.stage == ActivationStage::Muxer || a.stage
        == ActivationStage::Active;
    &&& a.stage == ActivationStage::Timesync || late ==> s.attached && s.interrupt
    &&& late ==> s.reaper is Some
    &&& late && s.host == HostOs::MacOs ==> s.timesync_thread
    &&& a.stage == ActivationStage::Muxer || a.stage == ActivationStage::Active
        ==> s.reaper_thread
    &&& a.stage == ActivationStage::Active ==> s.muxer_thread
}

/// Activation is announced last: once it is, guest memory, the interrupt and both
/// threads are there, and every listener has its turn behind it.
pub proof fn activation_is_announced_last(s: MuxerView, a: ActivationView, channel: int)
    requires
        activation_consistent(s, a),
    ensures
        activation_consistent(activation_next(s, a, channel).0, activation_next(s, a, channel).1),
        activation_next(s, a, channel).2 == ActivationAction::Active ==> ({
            let after = activation_next(s, a, channel).0;
            after.attached && after.interrupt && after.reaper is Some && after.reaper_thread
                && after.muxer_thread && (s.host == HostOs::MacOs ==> after.timesync_thread)
        }),
{
}

/// Where activation stands once the first `k` listeners are done.
spec fn at_listener(s: MuxerView, ports: Seq<u32>, k: int, channel: int) -> (MuxerView, ActivationView) {
    let next = next_listener(
        MuxerView { proxies: s.proxies.union(listener_ids(ports, k)), ..s },
        ports,
        k,
        channel,
    );
    (next.0, next.1)
}

proof fn lemma_listener_reached(s: MuxerView, a: ActivationView, k: nat, channel: int)
    requires
        a.stage == ActivationStage::Begin,
        a.done == 0,
        k <= a.ports.len(),
    ensures
        activation_run(s, a, (3 + 2 * k) as nat, channel) == at_listener(s, a.ports, k as int, channel),
    decreases k,
{
    if k == 0 {
        reveal_with_fuel(activation_run, 4);
        assert(s.proxies.union(listener_ids(a.ports, 0)) =~= s.proxies) by {
            assert(a.ports.take(0).map_values(|port: u32| tsi_id(port)).len() == 0);
        }
    } else {
        let i = k - 1;
        lemma_listener_reached(s, a, i as nat, channel);
        let (at, here) = at_listener(s, a.ports, i, channel);
        let watching = activation_next(at, here, channel).1;
        activation_registers_listeners(s.proxies, at, watching, channel);
        assert(activation_run(s, a, (4 + 2 * i) as nat, channel) == (at, watching));
    }
}

/// How many steps activation takes: two for each listener, one for the guest's clock on
/// macOS, and five more.
pub open spec fn activation_len(s: MuxerView, ports: Seq<u32>) -> nat {
    5 + 2 * ports.len() + if s.host == HostOs::MacOs {
        1nat
    } else {
        0
    }
}

/// Activation that meets no failure comes to an end: then the device works, and its
/// proxies are those that were there and one for each listener.
pub proof fn activation_completes(s: MuxerView, a: ActivationView, channel: int)
    requires
        a.stage == ActivationStage::Begin,
        a.done == 0,
    ensures
        activation_run(s, a, activation_len(s, a.ports), channel).1.stage
            == ActivationStage::Active,
        activation_run(s, a, activation_len(s, a.ports), channel).0 == (MuxerView {
            proxies: s.proxies.union(listener_ids(a.ports, a.ports.len() as int)),
            attached: true,
            interrupt: true,
            reaper: Some(RemovalView::fresh(channel)),
            timesync_thread: s.timesync_thread || s.host == HostOs::MacOs,
            reaper_thread: true,
            muxer_thread: true,
            ..s
        }),
{
    let n = a.ports.len();
    lemma_listener_reached(s, a, n, channel);
    let first = activation_run(s, a, (3 + 2 * n) as nat, channel);
    let second = activation_next(first.0, first.1, channel);
    assert(activation_run(s, a, (4 + 2 * n) as nat, channel) == (second.0, second.1));
    let third = activation_next(second.0, second.1, channel);
    assert(activation_run(s, a, (5 + 2 * n) as nat, channel) == (third.0, third.1));
}

/// The two threads get the two ends of one channel, and so does the device, whatever
/// channel is made in between.
pub proof fn threads_share_a_channel(s: MuxerView, a: ActivationView, channel: int, other: int)
    requires
        activation_next(s, a, channel).2 is StartReaper,
    ensures
        ({
            let next = activation_next(s, a, channel);
            let last = activation_next(next.0, next.1, other);
            &&& next.2 == (ActivationAction::StartReaper { channel })
            &&& last.2 == (ActivationAction::StartMuxer { channel: Some(channel) })
            &&& last.0.reaper == Some(RemovalView::fresh(channel))
        }),
{
}

/// The state and the way to rest after as many steps as there are answers.
pub open spec fn quiesce_run(s: MuxerView, q: Quiesce, answers: Seq<bool>) -> (MuxerView, Quiesce)
    decreases answers.len(),
{
    if answers.len() == 0 {
        (s, q)
    } else {
        let next = quiesce_next(s, q, answers[0]);
        quiesce_run(next.0, next.1, answers.skip(1))
    }
}

/// The way to rest ends at rest, unless the event thread cannot be signalled; then
/// nothing has changed. `signalled`, `muxer`, `timesync` and `reaper` say whether
/// signalling and joining the threads go well where they are asked for. The first fault
/// is told.
pub proof fn quiescence_ends_at_rest(
    s: MuxerView,
    signalled: bool,
    muxer: bool,
    timesync: bool,
    reaper: bool,
)
    ensures
        ({
            let begin = Quiesce { stage: QuiesceStage::Begin, fault: None };
            let stop = if s.muxer_thread {
                seq![true, signalled, muxer]
            } else {
                seq![true]
            };
            let clock = if s.timesync_thread {
                seq![timesync]
            } else {
                seq![]
            };
            let end = quiesce_run(s, begin, stop + clock + seq![reaper, true, true]);
            &&& end.1.stage == QuiesceStage::Finished
            &&& end.0 == if s.muxer_thread && !signalled {
                s
            } else {
                quiesced(s)
            }
            &&& end.1.fault == if s.muxer_thread && !signalled {
                Some(QuiesceFault::StopSignal)
            } else if s.muxer_thread && !muxer {
                Some(QuiesceFault::MuxerPanicked)
            } else if s.timesync_thread && !timesync {
                Some(QuiesceFault::TimesyncPanicked)
            } else if s.reaper_thread && !reaper {
                Some(QuiesceFault::ReaperPanicked)
            } else {
                None
            }
        }),
{
    reveal_with_fuel(quiesce_run, 8);
}

/// A device at rest can be activated, unless it has exited. Rest changes nothing more of
/// a device at rest, and a new device is at rest.
pub proof fn rest_allows_activation(
    s: MuxerView,
    host: HostOs,
    cid: u64,
    host_port_map: Option<Map<u16, u16>>,
    unix_routes: Map<u32, (Seq<u8>, bool)>,
    stream_routes: Map<u32, u64>,
    dgram_routes: Map<u32, u64>,
    tsi_flags: TsiFlags,
)
    ensures
        activation_fault(quiesced(s)) is None <==> !s.retired,
        quiesced(quiesced(s)) == quiesced(s),
        ({
            let fresh = MuxerView::fresh(
                host,
                cid,
                host_port_map,
                unix_routes,
                stream_routes,
                dgram_routes,
                tsi_flags,
            );
            quiesced(fresh) == fresh && activation_fault(fresh) is None
        }),
{
}

/// Listeners outlive rest: they are the same before and after, and only the end of
/// the device gives them up.
pub proof fn listeners_outlive_rest(
    s: MuxerView,
    q: Quiesce,
    ok: bool,
    a: ActivationView,
    channel: int,
)
    ensures
        quiesce_next(s, q, ok).0.host_listeners == s.host_listeners,
        activation_next(s, a, channel).0.host_listeners == s.host_listeners,
{
}

/// A device that has exited stays so, whatever its worker threads do, and cannot be
/// activated.
pub proof fn exit_is_final(
    s: MuxerView,
    q: Quiesce,
    ok: bool,
    a: ActivationView,
    channel: int,
)
    requires
        s.retired,
    ensures
        quiesce_next(s, q, ok).0.retired,
        activation_next(s, a, channel).0.retired,
        activation_fault(s) == Some(ActivateError::Exited),
{
}

/// A device that has exited is not activated, and neither is one whose event thread or
/// removal thread runs. Others are, with the listeners that they have, each once.
pub proof fn activation_begins_at_rest(s: MuxerView)
    ensures
        s.retired ==> activation_fault(s) == Some(ActivateError::Exited),
        !s.retired && (s.muxer_thread || s.reaper_thread) ==> activation_fault(s) == Some(
            ActivateError::AlreadyActive,
        ),
        !s.retired && !s.muxer_thread && !s.reaper_thread ==> activation_fault(s) is None,
        forall|m: &VsockMuxer, activation: Result<Activation, ActivateError>| #[trigger]
            call_ensures(VsockMuxer::activate, (m,), activation) ==> {
                &&& activation is Ok <==> !m@.retired && !m@.muxer_thread && !m@.reaper_thread
                &&& m@.retired ==> activation->Err_0 is Exited
                &&& !m@.retired && activation is Err ==> activation->Err_0 is AlreadyActive
                &&& activation is Ok ==> {
                    let a = activation->Ok_0@;
                    &&& a.stage is Begin && a.done == 0
                    &&& a.ports.no_duplicates()
                    &&& forall|port: u32| #[trigger]
                        a.ports.contains(port) <==> m@.host_listeners.contains(port)
                }
            },
{
    assert forall|m: &VsockMuxer, activation: Result<Activation, ActivateError>, port: u32|
        #[trigger] call_ensures(VsockMuxer::activate, (m,), activation)
            && activation is Ok implies #[trigger] activation->Ok_0@.ports.contains(port)
        <==> m@.host_listeners.contains(port) by {
        let ports = activation->Ok_0@.ports;
        assert(ports.to_set().contains(port) == ports.contains(port));
    }
}

/// Activation copies the stop event and waits for it. Then each listener in turn is looked
/// at and waited for under the identifier of its port, and gets its proxy once it is. Past
/// the last one guest memory and the interrupt are there; on macOS the thread for the
/// guest's clock is started, then the one for deferred removals with a new channel, and last
/// the event thread with an end of that channel. Each counts as running once it was started.
pub proof fn activation_goes_step_by_step(s: MuxerView, a: ActivationView, channel: int)
    ensures
        ({
            let (after, next, action) = activation_next(s, a, channel);
            let ready = MuxerView { attached: true, interrupt: true, ..s };
            let new = RemovalView { channel, handed: Seq::empty() };
            &&& next.ports == a.ports
            &&& a.stage is Begin ==> after == s && next.stage is StopEvent && next.done == a.done
                && action is CloneStopEvent
            &&& a.stage is StopEvent ==> after == s && next.stage is Watching && next.done == a.done
                && action is WatchStopEvent
            &&& a.stage is Watching && a.done < a.ports.len() ==> after == s
                && next.stage is Checking && next.done == a.done && action
                == (ActivationAction::CheckListener { port: a.ports[a.done] })
            &&& a.stage is Checking ==> after == s && next.stage is Listening && next.done == a.done
                && action == (ActivationAction::WatchListener {
                port: a.ports[a.done],
                id: (4294967296 * a.ports[a.done] + 620) as u64,
            })
            &&& a.stage is Listening && a.done + 1 < a.ports.len() ==> {
                &&& after == (MuxerView {
                    proxies: s.proxies.insert((4294967296 * a.ports[a.done] + 620) as u64),
                    ..s
                })
                &&& next.stage is Checking && next.done == a.done + 1
                &&& action == (ActivationAction::CheckListener { port: a.ports[a.done + 1] })
            }
            &&& a.stage is Watching && a.done >= a.ports.len() && s.host is Linux ==> after == (
            MuxerView { reaper: Some(new), ..ready }) && next.stage is Reaper && action == (
            ActivationAction::StartReaper { channel })
            &&& a.stage is Watching && a.done >= a.ports.len() && s.host is MacOs ==> after == ready
                && next.stage is Timesync && action is StartTimesync
            &&& a.stage is Listening && a.done + 1 >= a.ports.len() ==> {
                let served = s.proxies.insert((4294967296 * a.ports[a.done] + 620) as u64);
                &&& s.host is Linux ==> after == (MuxerView {
                    proxies: served,
                    reaper: Some(new),
                    ..ready
                }) && next.stage is Reaper && action == (ActivationAction::StartReaper { channel })
                &&& s.host is MacOs ==> after == (MuxerView { proxies: served, ..ready })
                    && next.stage is Timesync && action is StartTimesync
            }
            &&& a.stage is Timesync ==> after == (MuxerView {
                timesync_thread: true,
                reaper: Some(new),
                ..s
            }) && next.stage is Reaper && action == (ActivationAction::StartReaper { channel })
            &&& a.stage is Reaper ==> after == (MuxerView { reaper_thread: true, ..s })
                && next.stage is Muxer && action is StartMuxer && (s.reaper is Some ==> action == (
            ActivationAction::StartMuxer { channel: Some(s.reaper->0.channel) }))
            &&& a.stage is Muxer ==> after == (MuxerView { muxer_thread: true, ..s })
                && next.stage is Active && action is Active
            &&& a.stage is Active ==> after == s && next == a && action is Active
        }),
        forall|m: &mut VsockMuxer, begun: Activation, next: (Activation, ActivationStep)| #[trigger]
            call_ensures(VsockMuxer::activate_inner, (m, begun), next) ==> exists|made: int|
                (final(m)@, next.0@, next.1@) == #[trigger] activation_next(m@, begun@, made),
{
}

/// A step of activation as a value is of the kind of the step, and has what the step has.
pub proof fn activation_steps_are_kept_as_values(step: ActivationStep)
    ensures
        match step {
            ActivationStep::CloneStopEvent => step@ is CloneStopEvent,
            ActivationStep::WatchStopEvent => step@ is WatchStopEvent,
            ActivationStep::CheckListener { port } => step@ == (ActivationAction::CheckListener {
                port,
            }),
            ActivationStep::WatchListener { port, id } => step@ == (
            ActivationAction::WatchListener { port, id }),
            ActivationStep::StartTimesync => step@ is StartTimesync,
            ActivationStep::StartReaper(receiver) => step@ == (ActivationAction::StartReaper {
                channel: receiver_channel(receiver),
            }),
            ActivationStep::StartMuxer(None) => step@ == (ActivationAction::StartMuxer {
                channel: None,
            }),
            ActivationStep::StartMuxer(Some(sender)) => step@ == (ActivationAction::StartMuxer {
                channel: Some(sender_channel(sender)),
            }),
            ActivationStep::Active => step@ is Active,
        },
{
}

/// The way to rest signals the event thread if it runs, and joins it; then it joins the
/// thread for the guest's clock and, once nothing can be sent to it, the one for deferred
/// removals, where they run; then events are waited for no longer. At its end nothing is
/// left of the work, and the configuration and the listeners are. A thread that cannot be
/// signalled ends the way where it is.
pub proof fn rest_comes_step_by_step(s: MuxerView, q: Quiesce, ok: bool)
    ensures
        ({
            let (after, next, action) = quiesce_next(s, q, ok);
            let joined = q.stage is Begin && !s.muxer_thread || q.stage is Muxer;
            let timed = joined && !s.timesync_thread || q.stage is Timesync;
            let reaped = timed && !s.reaper_thread || q.stage is Reaper;
            &&& q.stage is Begin && s.muxer_thread ==> after == s && next.stage is Signal
                && action is SignalStop && next.fault == q.fault
            &&& q.stage is Signal && ok ==> after == (MuxerView { muxer_thread: false, ..s })
                && next.stage is Muxer && action is JoinMuxer && next.fault == q.fault
            &&& q.stage is Signal && !ok ==> after == s && next.stage is Finished && next.fault
                == Some(QuiesceFault::StopSignal) && action == QuiesceAction::Finished(
                Err(QuiesceFault::StopSignal),
            )
            &&& joined && s.timesync_thread ==> after == (MuxerView { timesync_thread: false, ..s })
                && next.stage is Timesync && action is JoinTimesync
            &&& timed && s.reaper_thread ==> after == (MuxerView {
                reaper: None,
                reaper_thread: false,
                ..s
            }) && next.stage is Reaper && action is JoinReaper
            &&& reaped ==> next.stage is Unwatch && action == QuiesceAction::Unwatch(
                s.host_listeners,
            ) && after == if q.stage is Reaper {
                s
            } else {
                MuxerView { reaper: None, ..s }
            }
            &&& q.stage is Unwatch ==> next.stage is Finished && next.fault == q.fault && after == (
            MuxerView {
                proxies: Set::empty(),
                peers: Map::empty(),
                rxq: Seq::empty(),
                attached: false,
                interrupt: false,
                reaper: None,
                muxer_thread: false,
                timesync_thread: false,
                reaper_thread: false,
                ..s
            })
            &&& q.stage is Finished ==> after == s && next == q
            &&& q.stage is Unwatch || q.stage is Finished ==> action == QuiesceAction::Finished(
                match q.fault {
                    Some(fault) => Err(fault),
                    None => Ok(()),
                },
            )
        }),
        forall|m: &mut VsockMuxer, next: (Quiesce, QuiesceStep)| #[trigger]
            call_ensures(VsockMuxer::quiesce_step, (m, q, ok), next) ==> (
                final(m)@,
                next.0,
                next.1@,
            ) == quiesce_next(m@, q, ok),
{
}

/// A thread that panicked is told as that thread, unless something went wrong before it; a
/// thread that ended well tells nothing, and nothing is forgotten that was told.
pub proof fn the_first_fault_is_told(s: MuxerView, q: Quiesce, ok: bool)
    ensures
        ({
            let next = quiesce_next(s, q, ok).1;
            &&& q.fault is Some && !(q.stage is Signal) ==> next.fault == q.fault
            &&& ok ==> next.fault == q.fault
            &&& !ok && q.fault is None && q.stage is Muxer ==> next.fault == Some(
                QuiesceFault::MuxerPanicked,
            )
            &&& !ok && q.fault is None && q.stage is Timesync ==> next.fault == Some(
                QuiesceFault::TimesyncPanicked,
            )
            &&& !ok && q.fault is None && q.stage is Reaper ==> next.fault == Some(
                QuiesceFault::ReaperPanicked,
            )
            &&& q.stage is Begin || q.stage is Unwatch || q.stage is Finished ==> next.fault
                == q.fault
        }),
{
}

/// A step of the way to rest as a value is of the kind of the step, and has what the step
/// has.
pub proof fn quiesce_steps_are_kept_as_values(step: QuiesceStep, port: u32)
    ensures
        match step {
            QuiesceStep::SignalStop => step@ is SignalStop,
            QuiesceStep::JoinMuxer => step@ is JoinMuxer,
            QuiesceStep::JoinTimesync => step@ is JoinTimesync,
            QuiesceStep::JoinReaper => step@ is JoinReaper,
            QuiesceStep::Unwatch(ports) => {
                &&& step@ matches QuiesceAction::Unwatch(set)
                &&& set.contains(port) <==> ports@.contains(port)
            },
            QuiesceStep::Finished(result) => step@ == QuiesceAction::Finished(result),
        },
{
}

/// The way to rest begins without a fault. Retiring a device marks it as exited and begins
/// that way, and releasing its listeners gives up all of them; neither changes anything
/// else.
pub proof fn devices_are_retired_for_good()
    ensures
        forall|q: Quiesce| #[trigger] call_ensures(VsockMuxer::quiesce, (), q) ==> q.stage is Begin
            && q.fault is None,
        forall|m: &mut VsockMuxer, q: Quiesce| #[trigger]
            call_ensures(VsockMuxer::retire, (m,), q) ==> {
                &&& q.stage is Begin && q.fault is None
                &&& final(m)@ == (MuxerView { retired: true, ..m@ })
            },
        forall|m: &mut VsockMuxer, done: ()| #[trigger]
            call_ensures(VsockMuxer::release_listeners, (m,), done) ==> final(m)@ == (MuxerView {
                host_listeners: Set::empty(),
                ..m@
            }),
{
}

/// The errors of activation and the faults on the way to rest in words.
pub proof fn lifecycle_errors_name_what_was_wrong()
    ensures
        forall|text: &'static str| #[trigger]
            call_ensures(ActivateError::message, (&ActivateError::Exited,), text) ==> text@
                == "vsock device has exited"@,
        forall|text: &'static str| #[trigger]
            call_ensures(ActivateError::message, (&ActivateError::AlreadyActive,), text) ==> text@
                == "vsock muxer is already activated"@,
        forall|text: Option<&'static str>| #[trigger]
            call_ensures(QuiesceFault::message, (&QuiesceFault::StopSignal,), text) ==> text
                is None,
        forall|text: Option<&'static str>| #[trigger]
            call_ensures(QuiesceFault::message, (&QuiesceFault::MuxerPanicked,), text) ==> text
                is Some && text->0@ == "vsock muxer thread panicked"@,
        forall|text: Option<&'static str>| #[trigger]
            call_ensures(QuiesceFault::message, (&QuiesceFault::TimesyncPanicked,), text) ==> text
                is Some && text->0@ == "vsock timesync thread panicked"@,
        forall|text: Option<&'static str>| #[trigger]
            call_ensures(QuiesceFault::message, (&QuiesceFault::ReaperPanicked,), text) ==> text
                is Some && text->0@ == "vsock reaper thread panicked"@,
{
}

} // verus!
