use std::collections::HashMap;
use vsock_device::defs::HostOs;
use vsock_device::error::VsockError;
use vsock_device::muxer::{DeviceResources, ListenerOutcome, VsockMuxer};
use vsock_device::proxy::TsiFlags;
use vsock_device::vsock_config::VsockConfigError::{
    CreateVsockDevice, GuestCidExhausted, GuestCidInUse, InvalidGuestCid, ReservedDatagramPort,
};
use vsock_device::vsock_config::{
    VsockBuilder, VsockConfigError, VsockDeviceConfig, TSI_CONTROL_PORT_END,
    TSI_CONTROL_PORT_START, VSOCK_TIMESYNC_PORT,
};

fn default_config() -> VsockDeviceConfig {
    VsockDeviceConfig {
        vsock_id: String::from("vsock"),
        guest_cid: 3,
        host_port_map: None,
        unix_ipc_port_map: None,
        custom_port_map: None,
        custom_dgram_port_map: None,
        tsi_flags: TsiFlags::empty(),
    }
}

fn opened() -> DeviceResources {
    DeviceResources {
        host: HostOs::Linux,
        listeners: vec![],
        epoll: Ok(()),
        stop_evt: Ok(()),
    }
}

#[test]
fn test_vsock_insert() {
    let mut store = VsockBuilder::new();
    let mut vsock_config = default_config();

    store.insert(vsock_config.clone(), opened()).unwrap();
    let vsock = store.get().unwrap();
    assert_eq!(vsock.id(), &vsock_config.vsock_id);

    let new_cid = vsock_config.guest_cid + 1;
    vsock_config.guest_cid = new_cid;
    store.insert(vsock_config, opened()).unwrap();
    let vsock = store.get().unwrap();
    assert_eq!(vsock.cid(), new_cid as u64);
}

#[test]
fn test_error_messages() {
    let err = CreateVsockDevice(VsockError::EventFd(0));
    let _ = format!("{}{err:?}", err.message(&format!("{:?}", VsockError::EventFd(0))));
    for err in [InvalidGuestCid(2), GuestCidInUse(3), GuestCidExhausted] {
        let _ = format!("{}{err:?}", err.message(""));
    }
}

#[test]
fn create_vsock_rejects_reserved_datagram_ports() {
    let mut config = default_config();
    config.custom_dgram_port_map = Some(HashMap::from([(VSOCK_TIMESYNC_PORT, 1)]));

    assert!(matches!(
        VsockBuilder::create_vsock(config, opened()),
        Err(VsockConfigError::ReservedDatagramPort {
            port: VSOCK_TIMESYNC_PORT,
            ..
        })
    ));
}

#[test]
fn error_messages_are_spelled_out() {
    assert_eq!(
        CreateVsockDevice(VsockError::NoData).message("NoData"),
        "Cannot create vsock device: NoData"
    );
    assert_eq!(
        ReservedDatagramPort {
            port: 1024,
            owner: "someone"
        }
        .message(""),
        "Cannot route vsock datagram port 1024: reserved for someone"
    );
    assert_eq!(
        InvalidGuestCid(2).message(""),
        "Invalid guest CID 2: CIDs 0, 1 and 2 are reserved (host CID is 2)"
    );
    assert_eq!(
        GuestCidInUse(4294967295).message(""),
        "Guest CID 4294967295 is already assigned to another VM"
    );
    assert_eq!(GuestCidExhausted.message(""), "No unassigned guest CID remains");
}

#[test]
fn control_ports_are_reserved_while_sockets_are_redirected() {
    for port in [TSI_CONTROL_PORT_START, TSI_CONTROL_PORT_END] {
        let mut config = default_config();
        config.custom_dgram_port_map = Some(HashMap::from([(port, 1), (2000, 2)]));
        assert!(VsockBuilder::create_vsock(config.clone(), opened()).is_ok());
        config.tsi_flags.hijack_unix = true;
        match VsockBuilder::create_vsock(config, opened()) {
            Err(ReservedDatagramPort { port: named, owner }) => {
                assert_eq!(named, port);
                assert_eq!(owner, "the active TSI control transport");
            }
            _ => panic!("control port {port} was routed"),
        }
    }
    let mut config = default_config();
    config.tsi_flags.hijack_inet = true;
    config.custom_dgram_port_map = Some(HashMap::from([(1023, 1), (1032, 2)]));
    assert!(VsockBuilder::check_routes(&config).is_ok());
}

#[test]
fn a_failed_insert_keeps_the_device_and_takes_the_flags() {
    let mut store = VsockBuilder::default();
    assert!(store.get().is_none());
    store.insert(default_config(), opened()).unwrap();
    let mut bad = default_config();
    bad.guest_cid = 9;
    bad.tsi_flags.hijack_inet = true;
    bad.custom_dgram_port_map = Some(HashMap::from([(123, 1)]));
    assert!(store.insert(bad, opened()).is_err());
    assert_eq!(store.get().unwrap().cid(), 3);
    assert!(store.tsi_flags().hijack_inet);
}

#[test]
fn the_first_resource_that_fails_is_told() {
    let mut config = default_config();
    config.unix_ipc_port_map = Some(HashMap::from([
        (5000, (b"/a".to_vec(), true)),
        (5001, (b"/b".to_vec(), false)),
    ]));
    let routes = VsockMuxer::listen_routes(&config.unix_ipc_port_map);
    assert_eq!(routes.len(), 1);
    assert_eq!(routes[0].port, 5000);
    assert_eq!(routes[0].path, b"/a");

    let bound = |bound| {
        vec![ListenerOutcome {
            port: 5000,
            path: b"/a".to_vec(),
            bound,
        }]
    };
    let fault = |resources: DeviceResources| match VsockBuilder::create_vsock(
        config.clone(),
        resources,
    ) {
        Err(CreateVsockDevice(fault)) => Some(fault),
        Err(_) => panic!("routes were refused"),
        Ok(_) => None,
    };
    assert_eq!(
        fault(DeviceResources {
            host: HostOs::Linux,
            listeners: bound(Err(98)),
            epoll: Err(1),
            stop_evt: Err(2)
        }),
        Some(VsockError::HostListener {
            port: 5000,
            path: b"/a".to_vec(),
            errno: 98
        })
    );
    assert_eq!(
        fault(DeviceResources {
            host: HostOs::Linux,
            listeners: bound(Ok(())),
            epoll: Err(24),
            stop_evt: Err(2)
        }),
        Some(VsockError::Transport(24))
    );
    assert_eq!(
        fault(DeviceResources {
            host: HostOs::Linux,
            listeners: bound(Ok(())),
            epoll: Ok(()),
            stop_evt: Err(23)
        }),
        Some(VsockError::EventFd(23))
    );
    assert_eq!(
        fault(DeviceResources {
            host: HostOs::Linux,
            listeners: bound(Ok(())),
            epoll: Ok(()),
            stop_evt: Ok(())
        }),
        None
    );
}
