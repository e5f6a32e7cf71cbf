//! Configuration of the device.

use crate::collections::keys_of;
use crate::defs::HostOs;
use crate::error::VsockError;
use crate::muxer::{
    binds_routes, devices_are_made_of_what_was_opened, made, ports_of, routes_of, unix_routes_of, DeviceResources, MuxerView, VsockMuxer,
};
use crate::proxy::TsiFlags;
use crate::text::{append_decimal, digits};
use crate::views::{option_view, result_view};
use std::collections::HashMap;
use vstd::prelude::*;
use vstd::string::StringExecFns;

verus! {

/// An error of configuring the device.
#[derive(Debug)]
pub enum VsockConfigError {
    /// The device could not be made.
    CreateVsockDevice(VsockError),
    /// A datagram service was to get a port of the device itself.
    ReservedDatagramPort { port: u32, owner: &'static str },
    /// A guest was to get a context identifier that is not for guests.
    InvalidGuestCid(u32),
    /// A guest was to get the context identifier of another.
    GuestCidInUse(u32),
    /// No context identifier is left.
    GuestCidExhausted,
}

/// The error in words, with `cause` the error of the device in words.
pub open spec fn message_of(error: VsockConfigError, cause: Seq<char>) -> Seq<char> {
    match error {
        VsockConfigError::CreateVsockDevice(_) => "Cannot create vsock device: "@ + cause,
        VsockConfigError::ReservedDatagramPort { port, owner } =>
            "Cannot route vsock datagram port "@ + digits(port as nat, 10) + ": reserved for "@
            + owner@,
        VsockConfigError::InvalidGuestCid(cid) => "Invalid guest CID "@ + digits(cid as nat, 10)
            + ": CIDs 0, 1 and 2 are reserved (host CID is 2)"@,
        VsockConfigError::GuestCidInUse(cid) => "Guest CID "@ + digits(cid as nat, 10)
            + " is already assigned to another VM"@,
        VsockConfigError::GuestCidExhausted => "No unassigned guest CID remains"@,
    }
}

impl VsockConfigError {
    /// The error in words. `cause` is the error of the device in words, for the one
    /// error that has one.
    pub fn message(&self, cause: &str) -> (text: String)
        ensures
            text@ == message_of(*self, cause@),
    {
        match self {
            VsockConfigError::CreateVsockDevice(_) => {
                let mut text = String::from_str("Cannot create vsock device: ");
                text.append(cause);
                text
            },
            VsockConfigError::ReservedDatagramPort { port, owner } => {
                let mut text = String::from_str("Cannot route vsock datagram port ");
                append_decimal(&mut text, *port as u64);
                text.append(": reserved for ");
                text.append(owner);
                text
            },
            VsockConfigError::InvalidGuestCid(cid) => {
                let mut text = String::from_str("Invalid guest CID ");
                append_decimal(&mut text, *cid as u64);
                text.append(": CIDs 0, 1 and 2 are reserved (host CID is 2)");
                text
            },
            VsockConfigError::GuestCidInUse(cid) => {
                let mut text = String::from_str("Guest CID ");
                append_decimal(&mut text, *cid as u64);
                text.append(" is already assigned to another VM");
                text
            },
            VsockConfigError::GuestCidExhausted => {
                String::from_str("No unassigned guest CID remains")
            },
        }
    }
}

/// Port that the guest's clock is set through.
pub const VSOCK_TIMESYNC_PORT: u32 = 123;

/// First control port of redirected sockets.
pub const TSI_CONTROL_PORT_START: u32 = 1024;

/// Last control port of redirected sockets.
pub const TSI_CONTROL_PORT_END: u32 = 1031;

/// Configuration of a device.
#[derive(Clone)]
pub struct VsockDeviceConfig {
    /// Name of the device.
    pub vsock_id: String,
    /// Context identifier of the guest.
    pub guest_cid: u32,
    /// Guest ports that redirected sockets listen on, by host port.
    pub host_port_map: Option<HashMap<u16, u16>>,
    /// Paths of Unix sockets by port, and whether the host connects there.
    pub unix_ipc_port_map: Option<HashMap<u32, (Vec<u8>, bool)>>,
    /// Stream services by host port. The host side knows them by these numbers.
    pub custom_port_map: Option<HashMap<u32, u64>>,
    /// Datagram services by host port. The host side knows them by these numbers.
    pub custom_dgram_port_map: Option<HashMap<u32, u64>>,
    /// Which sockets are redirected.
    pub tsi_flags: TsiFlags,
}

impl VsockDeviceConfig {
    /// The state of the device that is made from the configuration on the host.
    pub open spec fn device(self, host: HostOs) -> MuxerView {
        MuxerView::fresh(
            host,
            self.guest_cid as u64,
            ports_of(self.host_port_map),
            unix_routes_of(self.unix_ipc_port_map),
            routes_of(self.custom_port_map),
            routes_of(self.custom_dgram_port_map),
            self.tsi_flags,
        )
    }
}

/// Whether `port` is a control port of redirected sockets.
pub open spec fn is_control_port(port: u32) -> bool {
    TSI_CONTROL_PORT_START <= port <= TSI_CONTROL_PORT_END
}

/// Whether a datagram service has a control port of redirected sockets, with such
/// sockets in use.
pub open spec fn takes_control_port(cfg: VsockDeviceConfig) -> bool {
    cfg.tsi_flags.enabled() && exists|port: u32| #[trigger]
        routes_of(cfg.custom_dgram_port_map).contains_key(port) && is_control_port(port)
}

/// Whether `result` is what comes of checking the routes of datagram services: ports
/// of the device itself are refused. Which of several control ports is named is
/// open.
pub open spec fn routes_checked(
    cfg: VsockDeviceConfig,
    result: Result<(), VsockConfigError>,
) -> bool {
    let routes = routes_of(cfg.custom_dgram_port_map);
    match result {
        Ok(()) => !routes.contains_key(VSOCK_TIMESYNC_PORT) && !takes_control_port(cfg),
        Err(VsockConfigError::ReservedDatagramPort { port, owner }) => if routes.contains_key(
            VSOCK_TIMESYNC_PORT,
        ) {
            port == VSOCK_TIMESYNC_PORT && owner@ == "guest time synchronization"@
        } else {
            &&& takes_control_port(cfg)
            &&& routes.contains_key(port)
            &&& is_control_port(port)
            &&& owner@ == "the active TSI control transport"@
        },
        Err(_) => false,
    }
}

/// A device.
pub struct Vsock {
    muxer: VsockMuxer,
}

impl View for Vsock {
    type V = MuxerView;

    closed spec fn view(&self) -> MuxerView {
        self.muxer@
    }
}

impl Vsock {
    /// The device that the configuration describes, given how opening what it needs
    /// went.
    pub fn new(cfg: VsockDeviceConfig, opened: DeviceResources) -> (vsock: Result<
        Vsock,
        VsockError,
    >)
        requires
            binds_routes(opened.listeners@, unix_routes_of(cfg.unix_ipc_port_map)),
        ensures
            made(result_view(vsock), cfg.device(opened.host), opened),
    {
        match VsockMuxer::new(
            cfg.guest_cid as u64,
            cfg.host_port_map,
            cfg.unix_ipc_port_map,
            cfg.custom_port_map,
            cfg.custom_dgram_port_map,
            cfg.tsi_flags,
            opened,
        ) {
            Ok(muxer) => Ok(Vsock { muxer }),
            Err(fault) => Err(fault),
        }
    }

    /// Name of the device.
    pub fn id(&self) -> (id: &'static str)
        ensures
            id@ == "vsock"@,
    {
        "vsock"
    }

    /// Context identifier of the guest.
    pub fn cid(&self) -> (cid: u64)
        ensures
            cid == self@.cid,
    {
        self.muxer.cid()
    }

    /// The multiplexer of the device.
    pub fn muxer(&self) -> (muxer: &VsockMuxer)
        ensures
            muxer@ == self@,
    {
        &self.muxer
    }

    /// The multiplexer of the device, to be worked with.
    pub fn muxer_mut(&mut self) -> (muxer: &mut VsockMuxer)
        ensures
            muxer@ == old(self)@,
            final(self)@ == final(muxer)@,
    {
        &mut self.muxer
    }
}

/// The device to be, as a value.
#[verifier::ext_equal]
pub struct BuilderView {
    /// The device.
    pub inner: Option<MuxerView>,
    /// Which sockets were last asked to be redirected.
    pub tsi_flags: TsiFlags,
}

/// Makes the device and keeps it.
pub struct VsockBuilder {
    inner: Option<Vsock>,
    tsi_flags: TsiFlags,
}

impl View for VsockBuilder {
    type V = BuilderView;

    closed spec fn view(&self) -> BuilderView {
        BuilderView { inner: option_view(self.inner), tsi_flags: self.tsi_flags }
    }
}

/// Whether `opened` tells how opening what the device needs went, where its routes are
/// not refused: then nothing is opened.
pub open spec fn opened_for(cfg: VsockDeviceConfig, opened: DeviceResources) -> bool {
    routes_checked(cfg, Ok(())) ==> binds_routes(
        opened.listeners@,
        unix_routes_of(cfg.unix_ipc_port_map),
    )
}

/// Whether `result` is what comes of making the device that `cfg` describes.
pub open spec fn device_made(
    cfg: VsockDeviceConfig,
    opened: DeviceResources,
    result: Result<MuxerView, VsockConfigError>,
) -> bool {
    match result {
        Ok(device) => routes_checked(cfg, Ok(())) && made(Ok(device), cfg.device(opened.host), opened),
        Err(VsockConfigError::CreateVsockDevice(fault)) => routes_checked(cfg, Ok(())) && made(
            Err(fault),
            cfg.device(opened.host),
            opened,
        ),
        Err(fault) => routes_checked(cfg, Err(fault)),
    }
}

impl VsockBuilder {
    /// No device yet.
    pub fn new() -> (builder: VsockBuilder)
        ensures
            builder@ == (BuilderView {
                inner: None,
                tsi_flags: TsiFlags { hijack_inet: false, hijack_unix: false },
            }),
    {
        VsockBuilder { inner: None, tsi_flags: TsiFlags::empty() }
    }

    /// Makes a device, in place of the one there is, if any. If it cannot be made, the
    /// one there is stays.
    pub fn insert(&mut self, cfg: VsockDeviceConfig, opened: DeviceResources) -> (result: Result<
        (),
        VsockConfigError,
    >)
        requires
            opened_for(cfg, opened),
        ensures
            final(self)@.tsi_flags == cfg.tsi_flags,
            match result {
                Ok(()) => final(self)@.inner is Some && device_made(
                    cfg,
                    opened,
                    Ok(final(self)@.inner->0),
                ),
                Err(fault) => final(self)@.inner == old(self)@.inner && device_made(
                    cfg,
                    opened,
                    Err(fault),
                ),
            },
    {
        self.tsi_flags = cfg.tsi_flags;
        match VsockBuilder::create_vsock(cfg, opened) {
            Ok(vsock) => {
                self.inner = Some(vsock);
                Ok(())
            },
            Err(fault) => Err(fault),
        }
    }

    /// The device, if there is one.
    pub fn get(&self) -> (vsock: Option<&Vsock>)
        ensures
            vsock is Some <==> self@.inner is Some,
            vsock is Some ==> vsock->0@ == self@.inner->0,
    {
        match &self.inner {
            Some(vsock) => Some(vsock),
            None => None,
        }
    }

    /// Which sockets were last asked to be redirected.
    pub fn tsi_flags(&self) -> (flags: TsiFlags)
        ensures
            flags == self@.tsi_flags,
    {
        self.tsi_flags
    }

    /// Checks the routes of datagram services, before anything is opened.
    pub fn check_routes(cfg: &VsockDeviceConfig) -> (result: Result<(), VsockConfigError>)
        ensures
            routes_checked(*cfg, result),
    {
        let routes = match &cfg.custom_dgram_port_map {
            Some(routes) => routes,
            None => return Ok(()),
        };
        if routes.contains_key(&VSOCK_TIMESYNC_PORT) {
            return Err(
                VsockConfigError::ReservedDatagramPort {
                    port: VSOCK_TIMESYNC_PORT,
                    owner: "guest time synchronization",
                },
            );
        }
        if cfg.tsi_flags.is_empty() {
            return Ok(());
        }
        let ports: Vec<u32> = keys_of(routes);
        for n in 0..ports.len()
            invariant
                cfg.custom_dgram_port_map == Some(*routes),
                cfg.tsi_flags.enabled(),
                !routes@.contains_key(VSOCK_TIMESYNC_PORT),
                ports@.to_set() == routes@.dom(),
                forall|k: int| 0 <= k < n ==> !is_control_port(#[trigger] ports@[k]),
        {
            let port: u32 = ports[n];
            assert(ports@.to_set().contains(port));
            if TSI_CONTROL_PORT_START <= port && port <= TSI_CONTROL_PORT_END {
                return Err(
                    VsockConfigError::ReservedDatagramPort {
                        port,
                        owner: "the active TSI control transport",
                    },
                );
            }
        }
        Ok(())
    }

    /// Makes the device that the configuration describes, given how opening what it
    /// needs went. Routes are checked before what was opened is looked at.
    pub fn create_vsock(cfg: VsockDeviceConfig, opened: DeviceResources) -> (vsock: Result<
        Vsock,
        VsockConfigError,
    >)
        requires
            opened_for(cfg, opened),
        ensures
            device_made(cfg, opened, result_view(vsock)),
    {
        match VsockBuilder::check_routes(&cfg) {
            Ok(()) => {},
            Err(fault) => return Err(fault),
        }
        match Vsock::new(cfg, opened) {
            Ok(vsock) => Ok(vsock),
            Err(fault) => Err(VsockConfigError::CreateVsockDevice(fault)),
        }
    }
}

impl Default for VsockBuilder {
    /// No device yet.
    fn default() -> (builder: VsockBuilder)
        ensures
            builder@ == (BuilderView {
                inner: None,
                tsi_flags: TsiFlags { hijack_inet: false, hijack_unix: false },
            }),
    {
        VsockBuilder::new()
    }
}

/// The device that is inserted has the configuration's parts each in its place: its stream
/// services are those of `custom_port_map`, its datagram services those of
/// `custom_dgram_port_map`, its Unix sockets those of `unix_ipc_port_map`, and its guest
/// ports, its redirection and the guest's identifier those of the configuration.
pub proof fn inserted_devices_are_as_configured(cfg: VsockDeviceConfig, opened: DeviceResources)
    ensures
        forall|b: &mut VsockBuilder, result: Result<(), VsockConfigError>| #[trigger]
            call_ensures(VsockBuilder::insert, (b, cfg, opened), result) && result is Ok ==> {
                let d = final(b)@.inner->0;
                &&& final(b)@.inner is Some
                &&& final(b)@.tsi_flags == cfg.tsi_flags
                &&& d.host == opened.host
                &&& d.cid == cfg.guest_cid
                &&& d.tsi_flags == cfg.tsi_flags
                &&& match cfg.custom_port_map {
                    Some(map) => d.stream_routes == map@,
                    None => d.stream_routes.dom().is_empty(),
                }
                &&& match cfg.custom_dgram_port_map {
                    Some(map) => d.dgram_routes == map@,
                    None => d.dgram_routes.dom().is_empty(),
                }
                &&& match cfg.host_port_map {
                    Some(map) => d.host_port_map == Some(map@),
                    None => d.host_port_map is None,
                }
                &&& match cfg.unix_ipc_port_map {
                    Some(map) => {
                        &&& d.unix_routes.dom() == map@.dom()
                        &&& forall|port: u32| #[trigger]
                            map@.contains_key(port) ==> d.unix_routes[port] == (
                                map@[port].0@,
                                map@[port].1,
                            )
                        &&& forall|port: u32| #[trigger]
                            d.host_listeners.contains(port) <==> map@.contains_key(port)
                                && map@[port].1
                    },
                    None => d.unix_routes.dom().is_empty() && d.host_listeners.is_empty(),
                }
                &&& d.proxies.is_empty() && d.peers.dom().is_empty() && d.rxq.len() == 0
                &&& !d.attached && !d.retired && !d.muxer_thread && !d.reaper_thread
            },
        forall|b: &mut VsockBuilder, result: Result<(), VsockConfigError>| #[trigger]
            call_ensures(VsockBuilder::insert, (b, cfg, opened), result) && result is Err ==> {
                &&& final(b)@.inner == b@.inner
                &&& final(b)@.tsi_flags == cfg.tsi_flags
            },
{
    assert forall|b: &mut VsockBuilder, result: Result<(), VsockConfigError>| #[trigger]
        call_ensures(VsockBuilder::insert, (b, cfg, opened), result) && result is Ok implies {
        let d = final(b)@.inner->0;
        &&& final(b)@.inner is Some
        &&& d == cfg.device(opened.host)
    } by {
        devices_are_made_of_what_was_opened(
            Ok(final(b)@.inner->0),
            cfg.device(opened.host),
            opened,
            0,
        );
    }
    let d = cfg.device(opened.host);
    assert(d.stream_routes == routes_of(cfg.custom_port_map));
    match cfg.unix_ipc_port_map {
        Some(map) => {
            assert(d.unix_routes.dom() =~= map@.dom());
        },
        None => {
            assert(d.unix_routes.dom() =~= Set::empty());
            assert(d.host_listeners =~= Set::empty());
        },
    }
}

/// A device is made as configured, or the thing that could not be opened is told; what was
/// made is the device that is inserted.
pub proof fn devices_are_as_configured(cfg: VsockDeviceConfig, opened: DeviceResources)
    ensures
        forall|vsock: Result<Vsock, VsockError>| #[trigger]
            call_ensures(Vsock::new, (cfg, opened), vsock) && vsock is Ok ==> {
                let d = vsock->Ok_0@;
                &&& d.host == opened.host
                &&& d.cid == cfg.guest_cid
                &&& d.tsi_flags == cfg.tsi_flags
                &&& d.stream_routes == routes_of(cfg.custom_port_map)
                &&& d.dgram_routes == routes_of(cfg.custom_dgram_port_map)
                &&& d.unix_routes == unix_routes_of(cfg.unix_ipc_port_map)
                &&& d.host_port_map == ports_of(cfg.host_port_map)
            },
        forall|vsock: Result<Vsock, VsockError>| #[trigger]
            call_ensures(Vsock::new, (cfg, opened), vsock) ==> made(
                result_view(vsock),
                cfg.device(opened.host),
                opened,
            ),
        forall|vsock: Result<Vsock, VsockConfigError>| #[trigger]
            call_ensures(VsockBuilder::create_vsock, (cfg, opened), vsock) ==> match vsock {
                Ok(vsock) => vsock@ == cfg.device(opened.host) && routes_checked(cfg, Ok(())),
                Err(VsockConfigError::CreateVsockDevice(fault)) => made(
                    Err(fault),
                    cfg.device(opened.host),
                    opened,
                ) && routes_checked(cfg, Ok(())),
                Err(fault) => routes_checked(cfg, Err(fault)),
            },
{
    assert forall|vsock: Result<Vsock, VsockError>| #[trigger]
        call_ensures(Vsock::new, (cfg, opened), vsock) && vsock is Ok implies vsock->Ok_0@
        == cfg.device(opened.host) by {
        devices_are_made_of_what_was_opened(
            result_view(vsock),
            cfg.device(opened.host),
            opened,
            0,
        );
    }
    assert forall|vsock: Result<Vsock, VsockConfigError>| #[trigger]
        call_ensures(VsockBuilder::create_vsock, (cfg, opened), vsock) && vsock is Ok implies
        vsock->Ok_0@ == cfg.device(opened.host) by {
        devices_are_made_of_what_was_opened(
            Ok(vsock->Ok_0@),
            cfg.device(opened.host),
            opened,
            0,
        );
    }
}

/// Datagram services are refused port 123, and ports 1024 to 1031 where sockets are
/// redirected. Other ports, and stream services, are not refused. The port that is named is
/// one of those that are refused, 123 before others.
pub proof fn reserved_ports_are_refused(
    cfg: &VsockDeviceConfig,
    result: Result<(), VsockConfigError>,
)
    requires
        call_ensures(VsockBuilder::check_routes, (cfg,), result),
    ensures
        ({
            let taken = |port: u32|
                cfg.custom_dgram_port_map is Some && cfg.custom_dgram_port_map->0@.contains_key(
                    port,
                );
            let redirected = cfg.tsi_flags.hijack_inet || cfg.tsi_flags.hijack_unix;
            &&& result is Ok <==> !taken(123) && (redirected ==> forall|port: u32|
                1024 <= port <= 1031 ==> !#[trigger] taken(port))
            &&& result is Err ==> {
                &&& result->Err_0 matches VsockConfigError::ReservedDatagramPort { port, owner }
                &&& taken(port)
                &&& if taken(123) {
                    port == 123 && owner@ == "guest time synchronization"@
                } else {
                    1024 <= port <= 1031 && redirected && owner@
                        == "the active TSI control transport"@
                }
            }
        }),
{
    let routes = routes_of(cfg.custom_dgram_port_map);
    let taken = |port: u32|
        cfg.custom_dgram_port_map is Some && cfg.custom_dgram_port_map->0@.contains_key(port);
    assert forall|port: u32| routes.contains_key(port) == #[trigger] taken(port) by {}
    if result is Ok {
        assert forall|port: u32| 1024 <= port <= 1031 && cfg.tsi_flags.enabled() implies !(
        #[trigger] taken(port)) by {
            assert(is_control_port(port));
            assert(routes.contains_key(port) == taken(port));
        }
    } else {
        assert(taken(123) == routes.contains_key(123));
        if !taken(123) {
            let port = choose|port: u32| #[trigger]
                routes.contains_key(port) && is_control_port(port);
            assert(taken(port));
        }
    }
}

/// The errors in words.
pub proof fn configuration_errors_name_what_was_wrong(
    port: u32,
    owner: &'static str,
    cause: &str,
    fault: VsockError,
)
    ensures
        forall|text: String| #[trigger]
            call_ensures(
                VsockConfigError::message,
                (&VsockConfigError::CreateVsockDevice(fault), cause),
                text,
            ) ==> text@ == "Cannot create vsock device: "@ + cause@,
        forall|text: String| #[trigger]
            call_ensures(
                VsockConfigError::message,
                (&(VsockConfigError::ReservedDatagramPort { port, owner }), cause),
                text,
            ) ==> text@ == "Cannot route vsock datagram port "@ + digits(port as nat, 10)
                + ": reserved for "@ + owner@,
        forall|text: String| #[trigger]
            call_ensures(
                VsockConfigError::message,
                (&VsockConfigError::InvalidGuestCid(port), cause),
                text,
            ) ==> text@ == "Invalid guest CID "@ + digits(port as nat, 10)
                + ": CIDs 0, 1 and 2 are reserved (host CID is 2)"@,
        forall|text: String| #[trigger]
            call_ensures(
                VsockConfigError::message,
                (&VsockConfigError::GuestCidInUse(port), cause),
                text,
            ) ==> text@ == "Guest CID "@ + digits(port as nat, 10)
                + " is already assigned to another VM"@,
        forall|text: String| #[trigger]
            call_ensures(
                VsockConfigError::message,
                (&VsockConfigError::GuestCidExhausted, cause),
                text,
            ) ==> text@ == "No unassigned guest CID remains"@,
{
}

/// A builder starts without a device and without redirection, and gives out the device that
/// it has. A device gives out its name, the guest's identifier and its multiplexer.
pub proof fn builders_give_out_their_device(b: &VsockBuilder, v: &Vsock)
    ensures
        forall|new: VsockBuilder| #[trigger]
            call_ensures(VsockBuilder::new, (), new) ==> new@.inner is None
                && !new@.tsi_flags.hijack_inet && !new@.tsi_flags.hijack_unix,
        forall|new: VsockBuilder| #[trigger]
            call_ensures(VsockBuilder::default, (), new) ==> new@.inner is None
                && !new@.tsi_flags.hijack_inet && !new@.tsi_flags.hijack_unix,
        forall|got: Option<&Vsock>| #[trigger]
            call_ensures(VsockBuilder::get, (b,), got) ==> {
                &&& got is Some <==> b@.inner is Some
                &&& got is Some ==> got->0@ == b@.inner->0
            },
        forall|flags: TsiFlags| #[trigger]
            call_ensures(VsockBuilder::tsi_flags, (b,), flags) ==> flags == b@.tsi_flags,
        forall|id: &'static str| #[trigger] call_ensures(Vsock::id, (v,), id) ==> id@ == "vsock"@,
        forall|cid: u64| #[trigger] call_ensures(Vsock::cid, (v,), cid) ==> cid == v@.cid,
        forall|m: &VsockMuxer| #[trigger] call_ensures(Vsock::muxer, (v,), m) ==> m@ == v@,
        forall|w: &mut Vsock, m: &mut VsockMuxer| #[trigger]
            call_ensures(Vsock::muxer_mut, (w,), m) ==> m@ == w@ && final(w)@ == final(m)@,
{
}

} // verus!
