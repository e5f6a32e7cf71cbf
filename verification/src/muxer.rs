//! The connection multiplexer: routes packets of the guest to proxies, and queues
//! what proxies have for the guest.
//!
//! The multiplexer holds which proxies exist; the host side holds the proxies
//! themselves, under the same identifiers. Every function here takes what the host
//! side found out, changes the state and says what to do next.

pub mod control;
pub mod delivery;
pub mod dgram;
pub mod lifecycle;
pub mod removal;
pub mod stream;
pub mod updates;

use crate::collections::keys_of;
use crate::defs::HostOs;
use crate::error::VsockError;
use crate::ids::{join, join_halves};
use crate::muxer::removal::{RemovalEnd, RemovalView};
use crate::peers::{on_port, DgramPeerEntry, DgramPeers, PeerMap};
use crate::proxy::TsiFlags;
use crate::rxq::{MuxerRxQ, RxView};
use crate::views::{option_view, result_view};
use std::collections::{HashMap, HashSet};
use vstd::prelude::*;
use vstd::slice::slice_to_vec;

verus! {

/// The state of the multiplexer, as a value.
#[verifier::ext_equal]
pub struct MuxerView {
    /// The system that the device runs on.
    pub host: HostOs,
    /// Context identifier of the guest.
    pub cid: u64,
    /// Guest ports that redirected sockets listen on, by host port.
    pub host_port_map: Option<Map<u16, u16>>,
    /// Paths of Unix sockets by port, and whether the host connects there.
    pub unix_routes: Map<u32, (Seq<u8>, bool)>,
    /// Stream services by host port.
    pub stream_routes: Map<u32, u64>,
    /// Datagram services by host port.
    pub dgram_routes: Map<u32, u64>,
    /// Ports with a bound host listener.
    pub host_listeners: Set<u32>,
    /// The proxies that exist.
    pub proxies: Set<u64>,
    /// The peers of datagram services.
    pub peers: PeerMap,
    /// Number of the next datagram proxy.
    pub next_dgram_proxy_id: u64,
    /// Number of the next datagram.
    pub next_dgram_activity: u64,
    /// Which sockets are redirected.
    pub tsi_flags: TsiFlags,
    /// What waits for the guest.
    pub rxq: Seq<RxView>,
    /// Whether guest memory and the receive queue are there.
    pub attached: bool,
    /// Whether the guest can be signalled.
    pub interrupt: bool,
    /// The channel for deferred removals, if there is one.
    pub reaper: Option<RemovalView>,
    /// Whether the event thread runs.
    pub muxer_thread: bool,
    /// Whether the thread that keeps the guest's clock runs.
    pub timesync_thread: bool,
    /// Whether the thread for deferred removals runs.
    pub reaper_thread: bool,
    /// Whether the device has exited.
    pub retired: bool,
}

/// The connection multiplexer.
pub struct VsockMuxer {
    host: HostOs,
    cid: u64,
    host_port_map: Option<HashMap<u16, u16>>,
    unix_ipc_port_map: Option<HashMap<u32, (Vec<u8>, bool)>>,
    custom_port_map: Option<HashMap<u32, u64>>,
    custom_dgram_port_map: Option<HashMap<u32, u64>>,
    host_listeners: HashSet<u32>,
    proxies: HashSet<u64>,
    peers: DgramPeers,
    next_dgram_proxy_id: u64,
    next_dgram_activity: u64,
    tsi_flags: TsiFlags,
    rxq: MuxerRxQ,
    attached: bool,
    interrupt: bool,
    reaper_sender: Option<RemovalEnd>,
    muxer_thread: bool,
    timesync_thread: bool,
    reaper_thread: bool,
    retired: bool,
}

/// The contents of an optional map, empty where there is none.
pub open spec fn routes_of<V>(map: Option<HashMap<u32, V>>) -> Map<u32, V> {
    match map {
        Some(m) => m@,
        None => Map::empty(),
    }
}

/// The contents of an optional map of Unix socket routes.
pub open spec fn unix_routes_of(map: Option<HashMap<u32, (Vec<u8>, bool)>>) -> Map<
    u32,
    (Seq<u8>, bool),
> {
    routes_of(map).map_values(|route: (Vec<u8>, bool)| (route.0@, route.1))
}

/// The contents of an optional map of ports.
pub open spec fn ports_of(map: Option<HashMap<u16, u16>>) -> Option<Map<u16, u16>> {
    match map {
        Some(m) => Some(m@),
        None => None,
    }
}

impl View for VsockMuxer {
    type V = MuxerView;

    closed spec fn view(&self) -> MuxerView {
        MuxerView {
            host: self.host,
            cid: self.cid,
            host_port_map: ports_of(self.host_port_map),
            unix_routes: unix_routes_of(self.unix_ipc_port_map),
            stream_routes: routes_of(self.custom_port_map),
            dgram_routes: routes_of(self.custom_dgram_port_map),
            host_listeners: self.host_listeners@,
            proxies: self.proxies@,
            peers: self.peers@,
            next_dgram_proxy_id: self.next_dgram_proxy_id,
            next_dgram_activity: self.next_dgram_activity,
            tsi_flags: self.tsi_flags,
            rxq: self.rxq@,
            attached: self.attached,
            interrupt: self.interrupt,
            reaper: option_view(self.reaper_sender),
            muxer_thread: self.muxer_thread,
            timesync_thread: self.timesync_thread,
            reaper_thread: self.reaper_thread,
            retired: self.retired,
        }
    }
}

/// A Unix socket that the host connects to, to reach a port of the guest.
#[derive(Debug)]
pub struct ListenRoute {
    /// Port of the guest.
    pub port: u32,
    /// Path of the socket.
    pub path: Vec<u8>,
}

/// How binding the socket of a [`ListenRoute`] went: an error number if it failed.
#[derive(Debug)]
pub struct ListenerOutcome {
    /// Port of the guest.
    pub port: u32,
    /// Path of the socket.
    pub path: Vec<u8>,
    /// Whether the socket is bound.
    pub bound: Result<(), i32>,
}

/// How opening what the device needs went.
#[derive(Debug)]
pub struct DeviceResources {
    /// The system that the device runs on.
    pub host: HostOs,
    /// Binding the listeners, in the order in which it was tried.
    pub listeners: Vec<ListenerOutcome>,
    /// Setting up the poller: an error number if it failed.
    pub epoll: Result<(), i32>,
    /// Creating the stop event: an error number if it failed.
    pub stop_evt: Result<(), i32>,
}

/// The ports that the host connects to by Unix sockets.
pub open spec fn listening_ports(routes: Map<u32, (Seq<u8>, bool)>) -> Set<u32> {
    routes.dom().filter(|port: u32| routes[port].1)
}

/// Whether `listeners` failed first at `i`.
pub open spec fn fails_at(listeners: Seq<ListenerOutcome>, i: int) -> bool {
    &&& 0 <= i < listeners.len()
    &&& listeners[i].bound is Err
    &&& forall|j: int| 0 <= j < i ==> (#[trigger] listeners[j]).bound is Ok
}

/// Whether `fault` tells that the socket of `outcome` could not be bound, and why.
pub open spec fn names_listener(fault: VsockError, outcome: ListenerOutcome) -> bool {
    match fault {
        VsockError::HostListener { port, path, errno } => {
            &&& port == outcome.port
            &&& path@ == outcome.path@
            &&& outcome.bound == Err::<(), i32>(errno)
        },
        _ => false,
    }
}

/// Whether the outcome is of binding a socket that the routes ask for.
pub open spec fn binds_route(
    outcome: ListenerOutcome,
    routes: Map<u32, (Seq<u8>, bool)>,
) -> bool {
    &&& listening_ports(routes).contains(outcome.port)
    &&& routes[outcome.port].0 == outcome.path@
}

/// Whether the outcomes are those of binding every socket that the routes ask for,
/// each once, up to the first that failed.
pub open spec fn binds_routes(
    listeners: Seq<ListenerOutcome>,
    routes: Map<u32, (Seq<u8>, bool)>,
) -> bool {
    &&& forall|i: int| 0 <= i < listeners.len() ==> binds_route(#[trigger] listeners[i], routes)
    &&& forall|i: int, j: int|
        0 <= i < j < listeners.len() ==> (#[trigger] listeners[i]).port != (
        #[trigger] listeners[j]).port
    &&& (exists|i: int| #[trigger] fails_at(listeners, i)) || forall|port: u32| #[trigger]
        listening_ports(routes).contains(port) ==> exists|i: int|
            0 <= i < listeners.len() && (#[trigger] listeners[i]).port == port
}

/// Whether `result` is what comes of making the device whose state would be `fresh`:
/// the first thing that could not be opened, else the device.
pub open spec fn made(
    result: Result<MuxerView, VsockError>,
    fresh: MuxerView,
    opened: DeviceResources,
) -> bool {
    &&& forall|i: int| #[trigger]
        fails_at(opened.listeners@, i) ==> result is Err && names_listener(
            result->Err_0,
            opened.listeners@[i],
        )
    &&& (forall|i: int|
        0 <= i < opened.listeners@.len() ==> (#[trigger] opened.listeners@[i]).bound is Ok)
        ==> result == match (opened.epoll, opened.stop_evt) {
        (Err(errno), _) => Err(VsockError::Transport(errno)),
        (Ok(()), Err(errno)) => Err(VsockError::EventFd(errno)),
        (Ok(()), Ok(())) => Ok(fresh),
    }
}

impl MuxerView {
    /// The state after the device was made, before it is activated.
    pub open spec fn fresh(
        host: HostOs,
        cid: u64,
        host_port_map: Option<Map<u16, u16>>,
        unix_routes: Map<u32, (Seq<u8>, bool)>,
        stream_routes: Map<u32, u64>,
        dgram_routes: Map<u32, u64>,
        tsi_flags: TsiFlags,
    ) -> MuxerView {
        MuxerView {
            host,
            cid,
            host_port_map,
            unix_routes,
            stream_routes,
            dgram_routes,
            host_listeners: listening_ports(unix_routes),
            proxies: Set::empty(),
            peers: PeerMap::empty(),
            next_dgram_proxy_id: 1,
            next_dgram_activity: 1,
            tsi_flags,
            rxq: Seq::empty(),
            attached: false,
            interrupt: false,
            reaper: None,
            muxer_thread: false,
            timesync_thread: false,
            reaper_thread: false,
            retired: false,
        }
    }
}

impl VsockMuxer {
    /// The sockets to bind before the device is made, in the order to bind them.
    pub fn listen_routes(
        unix_ipc_port_map: &Option<HashMap<u32, (Vec<u8>, bool)>>,
    ) -> (routes: Vec<ListenRoute>)
        ensures
            forall|i: int, j: int|
                0 <= i < j < routes@.len() ==> (#[trigger] routes@[i]).port != (
                #[trigger] routes@[j]).port,
            forall|i: int|
                0 <= i < routes@.len() ==> {
                    let all = unix_routes_of(*unix_ipc_port_map);
                    listening_ports(all).contains((#[trigger] routes@[i]).port)
                        && all[routes@[i].port].0 == routes@[i].path@
                },
            forall|port: u32| #[trigger]
                listening_ports(unix_routes_of(*unix_ipc_port_map)).contains(port) ==> exists|i: int|
                    0 <= i < routes@.len() && (#[trigger] routes@[i]).port == port,
    {
        let mut routes: Vec<ListenRoute> = Vec::new();
        let map = match unix_ipc_port_map {
            Some(map) => map,
            None => return routes,
        };
        let ports: Vec<u32> = keys_of(map);
        let ghost all = unix_routes_of(*unix_ipc_port_map);
        for n in 0..ports.len()
            invariant
                *unix_ipc_port_map == Some(*map),
                all == unix_routes_of(*unix_ipc_port_map),
                ports@.no_duplicates(),
                ports@.to_set() == map@.dom(),
                forall|i: int, j: int|
                    0 <= i < j < routes@.len() ==> (#[trigger] routes@[i]).port != (
                    #[trigger] routes@[j]).port,
                forall|i: int|
                    0 <= i < routes@.len() ==> listening_ports(all).contains(
                        (#[trigger] routes@[i]).port,
                    ) && all[routes@[i].port].0 == routes@[i].path@ && ports@.take(
                        n as int,
                    ).contains(routes@[i].port),
                forall|k: int|
                    0 <= k < n && listening_ports(all).contains(#[trigger] ports@[k]) ==> exists|
                        i: int,
                    |
                        0 <= i < routes@.len() && (#[trigger] routes@[i]).port == ports@[k],
        {
            let port: u32 = ports[n];
            let ghost before = routes@;
            assert forall|p: u32| ports@.take(n as int).contains(p) implies #[trigger] ports@.take(
                n + 1,
            ).contains(p) by {
                vstd::seq_lib::lemma_seq_contains_after_push(ports@.take(n as int), port, p);
            }
            match map.get(&port) {
                Some(route) => if route.1 {
                    routes.push(ListenRoute { port, path: slice_to_vec(route.0.as_slice()) });
                    assert(routes@[before.len() as int].port == port);
                    assert(ports@.take(n + 1)[n as int] == port);
                    assert forall|k: int|
                        0 <= k < n + 1 && listening_ports(all).contains(
                            #[trigger] ports@[k],
                        ) implies exists|i: int|
                        0 <= i < routes@.len() && (#[trigger] routes@[i]).port == ports@[k] by {
                        if k < n {
                            let i = choose|i: int|
                                0 <= i < before.len() && (#[trigger] before[i]).port == ports@[k];
                            assert(routes@[i].port == ports@[k]);
                        }
                    }
                },
                None => {},
            }
        }
        routes
    }

    /// The multiplexer of a device, given how opening what it needs went: the sockets of
    /// [`VsockMuxer::listen_routes`] first, up to one that cannot be bound.
    pub fn new(
        cid: u64,
        host_port_map: Option<HashMap<u16, u16>>,
        unix_ipc_port_map: Option<HashMap<u32, (Vec<u8>, bool)>>,
        custom_port_map: Option<HashMap<u32, u64>>,
        custom_dgram_port_map: Option<HashMap<u32, u64>>,
        tsi_flags: TsiFlags,
        opened: DeviceResources,
    ) -> (muxer: Result<VsockMuxer, VsockError>)
        requires
            binds_routes(opened.listeners@, unix_routes_of(unix_ipc_port_map)),
        ensures
            made(
                result_view(muxer),
                MuxerView::fresh(
                    opened.host,
                    cid,
                    ports_of(host_port_map),
                    unix_routes_of(unix_ipc_port_map),
                    routes_of(custom_port_map),
                    routes_of(custom_dgram_port_map),
                    tsi_flags,
                ),
                opened,
            ),
    {
        let listeners: Vec<ListenerOutcome> = opened.listeners;
        for n in 0..listeners.len()
            invariant
                listeners@ == opened.listeners@,
                forall|j: int| 0 <= j < n ==> (#[trigger] listeners@[j]).bound is Ok,
        {
            match listeners[n].bound {
                Ok(()) => {},
                Err(errno) => {
                    return Err(
                        VsockError::HostListener {
                            port: listeners[n].port,
                            path: slice_to_vec(listeners[n].path.as_slice()),
                            errno,
                        },
                    );
                },
            }
        }
        match opened.epoll {
            Ok(()) => {},
            Err(errno) => return Err(VsockError::Transport(errno)),
        }
        match opened.stop_evt {
            Ok(()) => {},
            Err(errno) => return Err(VsockError::EventFd(errno)),
        }
        let mut host_listeners: HashSet<u32> = HashSet::new();
        for n in 0..listeners.len()
            invariant
                forall|port: u32| #[trigger]
                    host_listeners@.contains(port) <==> exists|i: int|
                        0 <= i < n && (#[trigger] listeners@[i]).port == port,
        {
            host_listeners.insert(listeners[n].port);
        }
        proof {
            let routes = unix_routes_of(unix_ipc_port_map);
            assert(host_listeners@ =~= listening_ports(routes)) by {
                assert forall|port: u32| #[trigger] host_listeners@.contains(port) implies
                    listening_ports(routes).contains(port) by {
                    let i = choose|i: int|
                        0 <= i < listeners@.len() && (#[trigger] listeners@[i]).port == port;
                    assert(binds_route(listeners@[i], routes));
                }
            }
        }
        Ok(
            VsockMuxer {
                host: opened.host,
                cid,
                host_port_map,
                unix_ipc_port_map,
                custom_port_map,
                custom_dgram_port_map,
                host_listeners,
                proxies: HashSet::new(),
                peers: DgramPeers::new(),
                next_dgram_proxy_id: 1,
                next_dgram_activity: 1,
                tsi_flags,
                rxq: MuxerRxQ::new(),
                attached: false,
                interrupt: false,
                reaper_sender: None,
                muxer_thread: false,
                timesync_thread: false,
                reaper_thread: false,
                retired: false,
            },
        )
    }

    /// The system that the device runs on.
    pub fn host(&self) -> (host: HostOs)
        ensures
            host == self@.host,
    {
        self.host
    }

    /// Context identifier of the guest.
    pub fn cid(&self) -> (cid: u64)
        ensures
            cid == self@.cid,
    {
        self.cid
    }

    /// Guest ports that redirected sockets listen on, by host port, for the proxies
    /// that are asked to listen.
    pub fn host_port_map(&self) -> (map: &Option<HashMap<u16, u16>>)
        ensures
            ports_of(*map) == self@.host_port_map,
    {
        &self.host_port_map
    }

    /// Whether the proxy `id` exists.
    pub fn has_proxy(&self, id: u64) -> (known: bool)
        ensures
            known == self@.proxies.contains(id),
    {
        self.proxies.contains(&id)
    }

    /// What is kept of the peer of a datagram service.
    pub fn dgram_peer(&self, guest_port: u32, host_port: u32) -> (entry: Option<DgramPeerEntry>)
        ensures
            entry == self@.peers.get(join_halves(guest_port, host_port)),
    {
        self.peers.get(join(guest_port, host_port))
    }

    /// How many peers the host port serves.
    pub fn dgram_peer_count(&self, host_port: u32) -> (count: usize)
        ensures
            count == on_port(self@.peers, host_port).len(),
    {
        self.peers.keys_on(host_port).len()
    }
}

/// The routes of a map are its contents, and without a map there are none. A Unix socket's
/// route has its path and whether the host connects there.
pub proof fn routes_are_the_contents_of_maps(
    services: Option<HashMap<u32, u64>>,
    sockets: Option<HashMap<u32, (Vec<u8>, bool)>>,
    ports: Option<HashMap<u16, u16>>,
    port: u32,
)
    ensures
        services is Some ==> routes_of(services) == services->0@,
        services is None ==> !routes_of(services).contains_key(port),
        sockets is Some ==> (unix_routes_of(sockets).contains_key(port)
            <==> sockets->0@.contains_key(port)),
        sockets is Some && sockets->0@.contains_key(port) ==> {
            &&& unix_routes_of(sockets)[port].0 == sockets->0@[port].0@
            &&& unix_routes_of(sockets)[port].1 == sockets->0@[port].1
        },
        sockets is None ==> !unix_routes_of(sockets).contains_key(port),
        ports is Some ==> ports_of(ports) == Some(ports->0@),
        ports is None ==> ports_of(ports) is None,
        listening_ports(unix_routes_of(sockets)).contains(port) <==> unix_routes_of(
            sockets,
        ).contains_key(port) && unix_routes_of(sockets)[port].1,
{
}

/// A new device has the configuration that it was made with, each part in its place, and a
/// listener for each port that the host connects to. It is at rest: without proxies, peers
/// and items, and without guest memory and threads. Numbers start at one.
pub proof fn new_devices_have_their_configuration(
    host: HostOs,
    cid: u64,
    host_port_map: Option<Map<u16, u16>>,
    unix_routes: Map<u32, (Seq<u8>, bool)>,
    stream_routes: Map<u32, u64>,
    dgram_routes: Map<u32, u64>,
    tsi_flags: TsiFlags,
    port: u32,
)
    ensures
        ({
            let d = MuxerView::fresh(
                host,
                cid,
                host_port_map,
                unix_routes,
                stream_routes,
                dgram_routes,
                tsi_flags,
            );
            &&& d.host == host
            &&& d.cid == cid
            &&& d.host_port_map == host_port_map
            &&& d.unix_routes == unix_routes
            &&& d.stream_routes == stream_routes
            &&& d.dgram_routes == dgram_routes
            &&& d.tsi_flags == tsi_flags
            &&& d.host_listeners.contains(port) <==> unix_routes.contains_key(port)
                && unix_routes[port].1
            &&& d.proxies.is_empty()
            &&& d.peers.dom().is_empty()
            &&& d.rxq.len() == 0
            &&& d.next_dgram_proxy_id == 1
            &&& d.next_dgram_activity == 1
            &&& !d.attached && !d.interrupt && d.reaper is None
            &&& !d.muxer_thread && !d.timesync_thread && !d.reaper_thread && !d.retired
        }),
{
}

proof fn lemma_first_failure(listeners: Seq<ListenerOutcome>, n: int)
    requires
        0 <= n <= listeners.len(),
    ensures
        (forall|i: int| 0 <= i < n ==> (#[trigger] listeners[i]).bound is Ok) || exists|i: int|
            i < n && #[trigger] fails_at(listeners, i),
    decreases n,
{
    if n > 0 {
        lemma_first_failure(listeners, n - 1);
        if forall|i: int| 0 <= i < n - 1 ==> (#[trigger] listeners[i]).bound is Ok {
            if listeners[n - 1].bound is Err {
                assert(fails_at(listeners, n - 1));
            }
        }
    }
}

/// A device is made if and only if everything that it needs could be opened. Else the first
/// thing that could not be is told: a listener by its port, its path and the error, then the
/// poller, then the stop event.
pub proof fn devices_are_made_of_what_was_opened(
    result: Result<MuxerView, VsockError>,
    fresh: MuxerView,
    opened: DeviceResources,
    i: int,
)
    requires
        made(result, fresh, opened),
    ensures
        ({
            let bound = forall|j: int|
                0 <= j < opened.listeners@.len() ==> (#[trigger] opened.listeners@[j]).bound is Ok;
            &&& result is Ok <==> bound && opened.epoll is Ok && opened.stop_evt is Ok
            &&& result is Ok ==> result->Ok_0 == fresh
            &&& bound && opened.epoll is Err ==> result == Err::<MuxerView, _>(
                VsockError::Transport(opened.epoll->Err_0),
            )
            &&& bound && opened.epoll is Ok && opened.stop_evt is Err ==> result == Err::<
                MuxerView,
                _,
            >(VsockError::EventFd(opened.stop_evt->Err_0))
        }),
        0 <= i < opened.listeners@.len() && opened.listeners@[i].bound is Err && (forall|j: int|
            0 <= j < i ==> (#[trigger] opened.listeners@[j]).bound is Ok) ==> {
            &&& result is Err
            &&& result->Err_0 matches VsockError::HostListener { port, path, errno }
            &&& port == opened.listeners@[i].port
            &&& path@ == opened.listeners@[i].path@
            &&& errno == opened.listeners@[i].bound->Err_0
        },
{
    lemma_first_failure(opened.listeners@, opened.listeners@.len() as int);
    if 0 <= i < opened.listeners@.len() && opened.listeners@[i].bound is Err && (forall|j: int|
        0 <= j < i ==> (#[trigger] opened.listeners@[j]).bound is Ok) {
        assert(fails_at(opened.listeners@, i));
    }
}

/// A multiplexer that is made has each part of its configuration in its place.
pub proof fn multiplexers_have_their_configuration(
    cid: u64,
    host_port_map: Option<HashMap<u16, u16>>,
    unix_ipc_port_map: Option<HashMap<u32, (Vec<u8>, bool)>>,
    custom_port_map: Option<HashMap<u32, u64>>,
    custom_dgram_port_map: Option<HashMap<u32, u64>>,
    tsi_flags: TsiFlags,
    opened: DeviceResources,
)
    ensures
        forall|muxer: Result<VsockMuxer, VsockError>| #[trigger]
            call_ensures(
                VsockMuxer::new,
                (
                    cid,
                    host_port_map,
                    unix_ipc_port_map,
                    custom_port_map,
                    custom_dgram_port_map,
                    tsi_flags,
                    opened,
                ),
                muxer,
            ) ==> made(
                result_view(muxer),
                MuxerView::fresh(
                    opened.host,
                    cid,
                    ports_of(host_port_map),
                    unix_routes_of(unix_ipc_port_map),
                    routes_of(custom_port_map),
                    routes_of(custom_dgram_port_map),
                    tsi_flags,
                ),
                opened,
            ),
{
}

/// What is asked of a multiplexer is told as it is.
pub proof fn multiplexers_tell_their_state(
    m: &VsockMuxer,
    id: u64,
    guest_port: u32,
    host_port: u32,
)
    ensures
        forall|host: HostOs| #[trigger] call_ensures(VsockMuxer::host, (m,), host) ==> host
            == m@.host,
        forall|cid: u64| #[trigger] call_ensures(VsockMuxer::cid, (m,), cid) ==> cid == m@.cid,
        forall|map: &Option<HashMap<u16, u16>>| #[trigger]
            call_ensures(VsockMuxer::host_port_map, (m,), map) ==> ports_of(*map)
                == m@.host_port_map,
        forall|known: bool| #[trigger] call_ensures(VsockMuxer::has_proxy, (m, id), known) ==> known
            == m@.proxies.contains(id),
        forall|entry: Option<DgramPeerEntry>| #[trigger]
            call_ensures(VsockMuxer::dgram_peer, (m, guest_port, host_port), entry) ==> {
                let key = (4294967296 * guest_port + host_port) as u64;
                &&& entry is Some <==> m@.peers.contains_key(key)
                &&& entry is Some ==> entry->0 == m@.peers[key]
            },
        forall|count: usize| #[trigger]
            call_ensures(VsockMuxer::dgram_peer_count, (m, host_port), count) ==> count == on_port(
                m@.peers,
                host_port,
            ).len(),
{
}

/// The sockets to bind are those that the host connects to, each once, with their paths.
pub proof fn listeners_are_bound_for_every_route(
    map: &Option<HashMap<u32, (Vec<u8>, bool)>>,
    routes: Vec<ListenRoute>,
    port: u32,
)
    requires
        call_ensures(VsockMuxer::listen_routes, (map,), routes),
    ensures
        (exists|i: int| 0 <= i < routes@.len() && (#[trigger] routes@[i]).port == port) <==> map
            is Some && map->0@.contains_key(port) && map->0@[port].1,
        forall|i: int|
            0 <= i < routes@.len() && (#[trigger] routes@[i]).port == port ==> routes@[i].path@
                == map->0@[port].0@,
        forall|i: int, j: int|
            0 <= i < j < routes@.len() ==> (#[trigger] routes@[i]).port != (
            #[trigger] routes@[j]).port,
{
    routes_are_the_contents_of_maps(None, *map, None, port);
    let all = unix_routes_of(*map);
    assert(listening_ports(all).contains(port) ==> exists|i: int|
        0 <= i < routes@.len() && (#[trigger] routes@[i]).port == port);
}

} // verus!
