use std::collections::HashMap;
use vm_memory::{Bytes, GuestAddress, GuestMemoryMmap};
use vsock_device::defs::{
    HostOs, SOCK_DGRAM, SOCK_STREAM, TSI_ACCEPT, TSI_CONNECT, TSI_GETNAME, TSI_LISTEN,
    TSI_PROXY_CREATE, TSI_PROXY_PORT, TSI_PROXY_RELEASE, TSI_SENDTO_ADDR, TSI_SENDTO_DATA,
    VSOCK_HOST_CID, VSOCK_OP_CREDIT_UPDATE, VSOCK_OP_REQUEST, VSOCK_OP_RESPONSE, VSOCK_OP_RST,
    VSOCK_OP_RW, VSOCK_OP_SHUTDOWN,
};
use vsock_device::error::VsockError;
use vsock_device::guest_memory::{Descriptor, DescriptorChain};
use vsock_device::muxer::delivery::{finish_push, QueueAction};
use vsock_device::muxer::dgram::DgramStep;
use vsock_device::muxer::lifecycle::{
    ActivateError, ActivationStep, Quiesce, QuiesceFault, QuiesceStep,
};
use vsock_device::muxer::stream::ConnectAnswer;
use vsock_device::muxer::updates::Polling;
use vsock_device::muxer::{DeviceResources, ListenerOutcome, VsockMuxer};
use vsock_device::packet::{VsockPacket, VSOCK_PKT_HDR_SIZE};
use vsock_device::peers::{DgramPeerEntry, MAX_DGRAM_PEERS_PER_PORT};
use vsock_device::proxy::{
    ProxyCall, ProxyRemoval, ProxyUpdate, Step, TsiFlags, VsockConnectRequest, VsockDatagramPeer,
};
use vsock_device::rxq::MuxerRx;
use vsock_device::sockaddr::SockAddr;

const TEST_CID: u64 = 42;
const TEST_PORT: u32 = 5000;
const HEADER: GuestAddress = GuestAddress(0x2000);

fn memory() -> GuestMemoryMmap {
    GuestMemoryMmap::from_ranges(&[(GuestAddress(0), 0x10000)]).unwrap()
}

fn muxer_with(
    cid: u64,
    unix: Option<HashMap<u32, (Vec<u8>, bool)>>,
    streams: Option<HashMap<u32, u64>>,
    dgrams: Option<HashMap<u32, u64>>,
    tsi_flags: TsiFlags,
) -> VsockMuxer {
    muxer_on(HostOs::Linux, cid, unix, streams, dgrams, tsi_flags)
}

fn muxer_on(
    host: HostOs,
    cid: u64,
    unix: Option<HashMap<u32, (Vec<u8>, bool)>>,
    streams: Option<HashMap<u32, u64>>,
    dgrams: Option<HashMap<u32, u64>>,
    tsi_flags: TsiFlags,
) -> VsockMuxer {
    let listeners = VsockMuxer::listen_routes(&unix)
        .into_iter()
        .map(|route| ListenerOutcome {
            port: route.port,
            path: route.path,
            bound: Ok(()),
        })
        .collect();
    VsockMuxer::new(
        cid,
        None,
        unix,
        streams,
        dgrams,
        tsi_flags,
        DeviceResources {
            host,
            listeners,
            epoll: Ok(()),
            stop_evt: Ok(()),
        },
    )
    .unwrap()
}

fn activate(muxer: &mut VsockMuxer) -> Vec<&'static str> {
    let mut steps = vec![];
    let mut activation = muxer.activate().unwrap();
    loop {
        let (next, step) = muxer.activate_inner(activation);
        activation = next;
        steps.push(match step {
            ActivationStep::CloneStopEvent => "clone",
            ActivationStep::WatchStopEvent => "watch",
            ActivationStep::CheckListener { port: TEST_PORT } => "check",
            ActivationStep::WatchListener {
                port: TEST_PORT,
                id,
            } => {
                assert_eq!(id, tsi_id(TEST_PORT));
                "listen"
            }
            ActivationStep::StartTimesync => "timesync",
            ActivationStep::StartReaper(_) => "reaper",
            ActivationStep::StartMuxer(sender) => {
                assert!(sender.is_some());
                "muxer"
            }
            ActivationStep::Active => return steps,
            _ => panic!("listener of another port"),
        });
    }
}

fn quiesce(
    muxer: &mut VsockMuxer,
    mut q: Quiesce,
    mut answer: impl FnMut(&QuiesceStep) -> bool,
) -> Result<(), QuiesceFault> {
    let mut ok = true;
    loop {
        let (next, step) = muxer.quiesce_step(q, ok);
        q = next;
        if let QuiesceStep::Finished(result) = step {
            return result;
        }
        ok = answer(&step);
    }
}

fn rest(muxer: &mut VsockMuxer) {
    assert_eq!(quiesce(muxer, VsockMuxer::quiesce(), |_| true), Ok(()));
}

fn test_muxer() -> VsockMuxer {
    let mut muxer = muxer_with(
        TEST_CID,
        None,
        Some(HashMap::from([(TEST_PORT, 11)])),
        Some(HashMap::from([(TEST_PORT, 12)])),
        TsiFlags::empty(),
    );
    activate(&mut muxer);
    muxer
}

fn tsi_muxer() -> VsockMuxer {
    let mut muxer = muxer_with(
        TEST_CID,
        None,
        None,
        None,
        TsiFlags {
            hijack_inet: true,
            hijack_unix: true,
        },
    );
    activate(&mut muxer);
    muxer
}

fn tsi_id(port: u32) -> u64 {
    ((port as u64) << 32) | TSI_PROXY_PORT as u64
}

fn packet<'a>(
    mem: &'a GuestMemoryMmap,
    src_cid: u64,
    dst_cid: u64,
    dst_port: u32,
    op: u16,
    payload: &[u8],
) -> VsockPacket<'a> {
    let mut header = [0; VSOCK_PKT_HDR_SIZE];
    header[0..8].copy_from_slice(&src_cid.to_le_bytes());
    header[8..16].copy_from_slice(&dst_cid.to_le_bytes());
    header[16..20].copy_from_slice(&4000u32.to_le_bytes());
    header[20..24].copy_from_slice(&dst_port.to_le_bytes());
    header[24..28].copy_from_slice(&(payload.len() as u32).to_le_bytes());
    header[30..32].copy_from_slice(&op.to_le_bytes());
    mem.write_slice(&header, HEADER).unwrap();
    mem.write_slice(payload, GuestAddress(0x3000)).unwrap();
    let head = DescriptorChain {
        mem,
        index: 0,
        head: Descriptor {
            addr: HEADER.0,
            len: VSOCK_PKT_HDR_SIZE as u32,
            write_only: false,
        },
        has_next: true,
        next: Some(Descriptor {
            addr: 0x3000,
            len: payload.len() as u32,
            write_only: false,
        }),
    };
    VsockPacket::from_tx_virtq_head(&head).unwrap()
}

fn tx_packet(mem: &GuestMemoryMmap, src_cid: u64, dst_cid: u64, op: u16) -> VsockPacket<'_> {
    packet(mem, src_cid, dst_cid, TEST_PORT, op, &[])
}

/// Services that note who asks and refuse.
#[derive(Default)]
struct RecordingBackend {
    streams: Vec<VsockConnectRequest>,
    datagrams: Vec<VsockDatagramPeer>,
}

impl RecordingBackend {
    fn stream(&mut self, muxer: &mut VsockMuxer, pkt: &VsockPacket) {
        match muxer.send_stream_pkt(pkt) {
            Step::Done => {}
            Step::Connect { request, service, .. } => {
                assert_eq!(service, 11);
                self.streams.push(request);
                match muxer.connect_failed(&pkt.head()) {
                    Step::Offer(rx) => assert!(muxer.offer_chain(rx, None).is_none()),
                    Step::Done => {}
                    other => panic!("unexpected {other:?}"),
                }
            }
            Step::Offer(rx) => assert!(muxer.offer_chain(rx, None).is_none()),
            other => panic!("unexpected {other:?}"),
        }
    }

    fn datagram(&mut self, muxer: &mut VsockMuxer, pkt: &VsockPacket) {
        let DgramStep { retired, step } = muxer.send_dgram_pkt(pkt);
        assert!(retired.is_none());
        match step {
            Step::Done => {}
            Step::OpenPeer { peer, service, .. } => {
                assert_eq!(service, 12);
                self.datagrams.push(peer);
            }
            other => panic!("unexpected {other:?}"),
        }
    }
}

#[test]
fn foreign_cids_never_reach_stream_or_datagram_backends() {
    let mem = memory();
    let mut backend = RecordingBackend::default();
    let mut muxer = test_muxer();
    for cid in [
        0,
        1,
        2,
        3,
        TEST_CID - 1,
        TEST_CID + 1,
        u32::MAX as u64,
        u64::MAX,
    ] {
        for op in 0..=VSOCK_OP_CREDIT_UPDATE {
            let pkt = tx_packet(&mem, cid, VSOCK_HOST_CID, op);
            backend.stream(&mut muxer, &pkt);
            backend.datagram(&mut muxer, &pkt);
        }
    }
    assert!(backend.streams.is_empty());
    assert!(backend.datagrams.is_empty());
    assert!(!muxer.has_pending_rx());
    assert!(muxer.kick_backends().is_empty());
    assert_eq!(muxer.dgram_peer_count(TEST_PORT), 0);

    let request = tx_packet(&mem, TEST_CID, VSOCK_HOST_CID, VSOCK_OP_REQUEST);
    backend.stream(&mut muxer, &request);
    let datagram = tx_packet(&mem, TEST_CID, VSOCK_HOST_CID, VSOCK_OP_RW);
    backend.datagram(&mut muxer, &datagram);
    assert_eq!(
        backend.streams,
        vec![VsockConnectRequest {
            guest_cid: TEST_CID,
            guest_port: 4000,
            host_port: TEST_PORT,
        }]
    );
    assert_eq!(
        backend.datagrams,
        vec![VsockDatagramPeer {
            guest_cid: TEST_CID,
            guest_port: 4000,
            host_port: TEST_PORT,
        }]
    );
}

#[test]
fn changed_guest_headers_cannot_retarget_accepted_packets() {
    let mem = memory();
    let mut backend = RecordingBackend::default();
    let mut muxer = test_muxer();
    for op in [VSOCK_OP_REQUEST, VSOCK_OP_RW] {
        let pkt = tx_packet(&mem, TEST_CID, VSOCK_HOST_CID, op);
        mem.write_slice(&[0xff; VSOCK_PKT_HDR_SIZE], HEADER).unwrap();
        if op == VSOCK_OP_REQUEST {
            backend.stream(&mut muxer, &pkt);
        } else {
            backend.datagram(&mut muxer, &pkt);
        }
    }
    assert_eq!(backend.streams.len(), 1);
    assert_eq!(
        backend.streams[0],
        VsockConnectRequest {
            guest_cid: TEST_CID,
            guest_port: 4000,
            host_port: TEST_PORT,
        }
    );
    assert_eq!(backend.datagrams.len(), 1);
    assert_eq!(
        backend.datagrams[0],
        VsockDatagramPeer {
            guest_cid: TEST_CID,
            guest_port: 4000,
            host_port: TEST_PORT,
        }
    );
}

#[test]
fn non_host_destinations_never_reach_backends() {
    let mem = memory();
    let mut backend = RecordingBackend::default();
    let mut muxer = test_muxer();
    for cid in [0, 1, 3, TEST_CID, u64::MAX] {
        let pkt = tx_packet(&mem, TEST_CID, cid, VSOCK_OP_REQUEST);
        backend.stream(&mut muxer, &pkt);
        let pkt = tx_packet(&mem, TEST_CID, cid, VSOCK_OP_RW);
        backend.datagram(&mut muxer, &pkt);
    }
    assert!(backend.streams.is_empty());
    assert!(backend.datagrams.is_empty());
}

#[test]
fn datagram_peer_limit_evicts_the_least_recently_used_peer_per_port() {
    let mut muxer = muxer_with(3, None, None, None, TsiFlags::empty());
    let peer = |guest_port, host_port| VsockDatagramPeer {
        guest_cid: 3,
        guest_port,
        host_port,
    };
    for source_port in 1..=MAX_DGRAM_PEERS_PER_PORT as u32 {
        muxer.peer_watched(
            peer(source_port, 5000),
            source_port as u64,
            source_port as u64,
            true,
        );
    }
    muxer.peer_watched(peer(1, 6000), 0, u32::MAX as u64, true);

    muxer.evict_oldest_dgram_peer(5000);

    assert!(muxer.dgram_peer(1, 5000).is_none());
    assert_eq!(muxer.dgram_peer_count(5000), MAX_DGRAM_PEERS_PER_PORT - 1);
    assert!(muxer.dgram_peer(1, 6000).is_some());
}

#[test]
fn a_port_below_the_limit_evicts_no_one() {
    let mut muxer = test_muxer();
    let peer = VsockDatagramPeer {
        guest_cid: TEST_CID,
        guest_port: 1,
        host_port: TEST_PORT,
    };
    muxer.peer_watched(peer, 1, 1 << 32, true);
    assert_eq!(muxer.evict_oldest_dgram_peer(TEST_PORT), None);
    assert_eq!(muxer.dgram_peer_count(TEST_PORT), 1);
}

#[test]
fn datagram_peers_are_opened_once_and_then_served() {
    let mem = memory();
    let mut muxer = test_muxer();
    let pkt = tx_packet(&mem, TEST_CID, VSOCK_HOST_CID, VSOCK_OP_RW);
    let out = muxer.send_dgram_pkt(&pkt);
    let (peer, activity) = match out.step {
        Step::OpenPeer { peer, activity, .. } => (peer, activity),
        other => panic!("unexpected {other:?}"),
    };
    assert_eq!(activity, 1);
    let id = muxer.peer_opened();
    assert_eq!(id, 1 << 32);
    assert!(matches!(muxer.peer_built(id, -1), Step::Done));
    assert!(!muxer.has_proxy(id));

    let id = muxer.peer_opened();
    assert_eq!(id, 2 << 32);
    assert!(matches!(
        muxer.peer_built(id, 9),
        Step::Watch { id: token, fd: 9, events: 1 } if token == id
    ));
    assert!(muxer.has_proxy(id));
    assert!(matches!(
        muxer.peer_watched(peer, activity, id, true),
        Step::Call { id: token, call: ProxyCall::SendMsg } if token == id
    ));
    assert_eq!(
        muxer.dgram_peer(4000, TEST_PORT),
        Some(DgramPeerEntry { id, last_used: 1 })
    );

    let again = muxer.send_dgram_pkt(&pkt);
    assert!(matches!(
        again.step,
        Step::Call { id: token, call: ProxyCall::SendMsg } if token == id
    ));
    assert_eq!(
        muxer.dgram_peer(4000, TEST_PORT),
        Some(DgramPeerEntry { id, last_used: 2 })
    );

    assert!(muxer.remove_proxy(id));
    assert!(!muxer.remove_proxy(id));
    assert_eq!(muxer.dgram_peer(4000, TEST_PORT), None);
    assert!(matches!(muxer.send_dgram_pkt(&pkt).step, Step::OpenPeer { .. }));
}

#[test]
fn a_peer_that_cannot_be_watched_leaves_nothing() {
    let mut muxer = test_muxer();
    let peer = VsockDatagramPeer {
        guest_cid: TEST_CID,
        guest_port: 4000,
        host_port: TEST_PORT,
    };
    let id = muxer.peer_opened();
    muxer.peer_built(id, 5);
    assert!(matches!(muxer.peer_watched(peer, 1, id, false), Step::Done));
    assert!(!muxer.has_proxy(id));
    assert_eq!(muxer.dgram_peer(4000, TEST_PORT), None);
}

#[test]
fn the_peer_limit_holds_from_message_to_message() {
    let mem = memory();
    let mut muxer = test_muxer();
    let mut first = 0;
    for n in 0..=MAX_DGRAM_PEERS_PER_PORT as u32 {
        let mut pkt = tx_packet(&mem, TEST_CID, VSOCK_HOST_CID, VSOCK_OP_RW);
        pkt.set_src_port(n);
        let out = muxer.send_dgram_pkt(&pkt);
        let (peer, activity) = match out.step {
            Step::OpenPeer { peer, activity, .. } => (peer, activity),
            other => panic!("unexpected {other:?}"),
        };
        if n < MAX_DGRAM_PEERS_PER_PORT as u32 {
            assert_eq!(out.retired, None);
        } else {
            assert_eq!(out.retired, Some(first));
        }
        let id = muxer.peer_opened();
        if n == 0 {
            first = id;
        }
        muxer.peer_built(id, 3);
        muxer.peer_watched(peer, activity, id, true);
        assert!(muxer.dgram_peer_count(TEST_PORT) <= MAX_DGRAM_PEERS_PER_PORT);
    }
    assert_eq!(muxer.dgram_peer_count(TEST_PORT), MAX_DGRAM_PEERS_PER_PORT);
    assert_eq!(muxer.dgram_peer(0, TEST_PORT), None);
}

#[test]
fn direct_datagram_routes_take_data_only() {
    let mem = memory();
    let mut muxer = test_muxer();
    let pkt = tx_packet(&mem, TEST_CID, VSOCK_HOST_CID, VSOCK_OP_REQUEST);
    assert!(matches!(muxer.send_dgram_pkt(&pkt).step, Step::Done));
}

#[test]
fn stream_services_are_connected_watched_and_confirmed() {
    let mem = memory();
    let mut muxer = test_muxer();
    let pkt = tx_packet(&mem, TEST_CID, VSOCK_HOST_CID, VSOCK_OP_REQUEST);
    let stream = (4000u64 << 32) | TEST_PORT as u64;
    assert!(matches!(
        muxer.send_stream_pkt(&pkt),
        Step::Connect { id, .. } if id == stream
    ));
    assert!(matches!(
        muxer.service_connected(&pkt.head(), true, 7),
        Step::Watch { id, fd: 7, events: 5 } if id == stream
    ));
    assert!(matches!(muxer.service_watched(&pkt.head(), true, true), Step::Done));
    assert!(matches!(
        muxer.send_stream_pkt(&pkt),
        Step::Call { id, call: ProxyCall::ConfirmConnect } if id == stream
    ));
    muxer.remove_proxy(stream);

    assert!(matches!(
        muxer.service_connected(&pkt.head(), false, 7),
        Step::Watch { fd: 7, events: 1, .. }
    ));
    assert!(matches!(
        muxer.service_watched(&pkt.head(), false, true),
        Step::Tell { id, call: ProxyCall::ConfirmConnect } if id == stream
    ));
    muxer.remove_proxy(stream);

    muxer.service_connected(&pkt.head(), false, 7);
    assert!(matches!(
        muxer.service_watched(&pkt.head(), false, false),
        Step::Offer(MuxerRx::Reset { local_port: TEST_PORT, peer_port: 4000 })
    ));
    assert!(!muxer.has_proxy(stream));
    assert!(matches!(
        muxer.service_connected(&pkt.head(), false, -1),
        Step::Offer(MuxerRx::Reset { local_port: TEST_PORT, peer_port: 4000 })
    ));
    assert!(!muxer.has_proxy(stream));
}

#[test]
fn stream_packets_go_to_the_proxy_of_their_ports() {
    let mem = memory();
    let mut muxer = test_muxer();
    let stream = (4000u64 << 32) | TEST_PORT as u64;
    let ours = |op| tx_packet(&mem, TEST_CID, VSOCK_HOST_CID, op);
    assert!(matches!(muxer.send_stream_pkt(&ours(VSOCK_OP_RESPONSE)), Step::Done));
    assert!(matches!(muxer.send_stream_pkt(&ours(VSOCK_OP_SHUTDOWN)), Step::Done));
    assert!(matches!(muxer.send_stream_pkt(&ours(VSOCK_OP_CREDIT_UPDATE)), Step::Done));
    assert!(matches!(muxer.send_stream_pkt(&ours(VSOCK_OP_RST)), Step::Done));
    assert!(matches!(
        muxer.send_stream_pkt(&ours(VSOCK_OP_RW)),
        Step::Offer(MuxerRx::Reset { local_port: TEST_PORT, peer_port: 4000 })
    ));
    assert!(matches!(muxer.send_stream_pkt(&ours(0)), Step::Done));
    assert!(matches!(muxer.send_stream_pkt(&ours(7)), Step::Done));

    muxer.proxy_created(stream);
    let call = |step| match step {
        Step::Call { id, call } if id == stream => format!("call {call:?}"),
        Step::Tell { id, call } if id == stream => format!("tell {call:?}"),
        other => panic!("unexpected {other:?}"),
    };
    assert_eq!(call(muxer.send_stream_pkt(&ours(VSOCK_OP_RESPONSE))), "call OpResponse");
    assert_eq!(call(muxer.send_stream_pkt(&ours(VSOCK_OP_SHUTDOWN))), "tell Shutdown");
    assert_eq!(
        call(muxer.send_stream_pkt(&ours(VSOCK_OP_CREDIT_UPDATE))),
        "call UpdatePeerCredit"
    );
    assert_eq!(call(muxer.send_stream_pkt(&ours(VSOCK_OP_RW))), "call SendMsg");
    assert_eq!(call(muxer.send_stream_pkt(&ours(VSOCK_OP_RST))), "call Release");
    assert!(muxer.has_proxy(stream));
}

#[test]
fn unix_routes_connect_or_refuse() {
    let mem = memory();
    let unix = Some(HashMap::from([
        (TEST_PORT, (b"/run/listen".to_vec(), true)),
        (5001, (b"/run/connect".to_vec(), false)),
    ]));
    let mut muxer = muxer_with(TEST_CID, unix, None, None, TsiFlags::empty());
    let pkt = tx_packet(&mem, TEST_CID, VSOCK_HOST_CID, VSOCK_OP_REQUEST);
    assert!(matches!(muxer.send_stream_pkt(&pkt), Step::Done));
    activate(&mut muxer);
    assert!(matches!(
        muxer.send_stream_pkt(&pkt),
        Step::Offer(MuxerRx::Reset { local_port: TEST_PORT, peer_port: 4000 })
    ));
    let pkt = packet(&mem, TEST_CID, VSOCK_HOST_CID, 5001, VSOCK_OP_REQUEST, &[]);
    let stream = (4000u64 << 32) | 5001;
    match muxer.send_stream_pkt(&pkt) {
        Step::ConnectUnix {
            id,
            guest_cid,
            local_port,
            peer_port,
            path,
        } => {
            assert_eq!(id, stream);
            assert_eq!(guest_cid, TEST_CID);
            assert_eq!((local_port, peer_port), (5001, 4000));
            assert_eq!(path, b"/run/connect");
        }
        other => panic!("unexpected {other:?}"),
    }
    assert_eq!(VsockMuxer::connect_answer(true), ConnectAnswer::Confirm);
    assert_eq!(VsockMuxer::connect_answer(false), ConnectAnswer::Prepare);
    let effects = muxer.unix_connected(&pkt.head(), update(Some((stream, 4, 1)), ProxyRemoval::Keep));
    assert_eq!(
        effects.polling,
        Some(Polling {
            unwatch: 4,
            watch: Some((stream, 4, 1))
        })
    );
    assert!(effects.signal);
    assert!(muxer.has_proxy(stream));
    let pkt = packet(&mem, TEST_CID, VSOCK_HOST_CID, 5002, VSOCK_OP_REQUEST, &[]);
    assert!(matches!(muxer.send_stream_pkt(&pkt), Step::Done));
}

fn update(polling: Option<(u64, i32, u32)>, remove_proxy: ProxyRemoval) -> ProxyUpdate {
    ProxyUpdate {
        signal_queue: true,
        remove_proxy,
        polling,
        push_accept: None,
    }
}

#[test]
fn updates_are_followed_in_order() {
    let mut muxer = test_muxer();
    muxer.proxy_created(5);
    let kept = muxer.process_proxy_update(5, update(Some((5, 3, 0)), ProxyRemoval::Keep));
    assert_eq!(
        kept.polling,
        Some(Polling {
            unwatch: 3,
            watch: None
        })
    );
    assert!(!kept.retire && !kept.defer && kept.signal);
    assert!(muxer.has_proxy(5));

    let deferred = muxer.process_proxy_update(5, update(None, ProxyRemoval::Deferred));
    assert!(deferred.defer && !deferred.retire && deferred.polling.is_none());
    assert!(muxer.has_proxy(5));
    // The receiving end went with the activation step: the proxy is dropped at once.
    assert!(muxer.defer_removal(5));
    assert!(!muxer.has_proxy(5));
    assert!(!muxer.defer_removal(5));

    muxer.proxy_created(6);
    let gone = muxer.process_proxy_update(6, update(None, ProxyRemoval::Immediate));
    assert!(gone.retire && !gone.defer);
    assert!(!muxer.has_proxy(6));
    assert!(!muxer.process_proxy_update(6, update(None, ProxyRemoval::Immediate)).retire);

    rest(&mut muxer);
    muxer.proxy_created(7);
    let idle = muxer.process_proxy_update(7, update(None, ProxyRemoval::Deferred));
    assert!(!idle.defer && !idle.signal);
    assert!(!muxer.defer_removal(7));
    assert!(muxer.has_proxy(7));
}

#[test]
fn deferred_removals_reach_the_reaper() {
    let mut muxer = muxer_with(TEST_CID, None, None, None, TsiFlags::empty());
    let mut activation = muxer.activate().unwrap();
    let receiver = loop {
        let (next, step) = muxer.activate_inner(activation);
        activation = next;
        if let ActivationStep::StartReaper(receiver) = step {
            break receiver;
        }
    };
    muxer.proxy_created(5);
    assert!(!muxer.defer_removal(5));
    assert!(muxer.has_proxy(5));
    assert_eq!(receiver.try_recv(), Ok(5));
    let (_, step) = muxer.activate_inner(activation);
    match step {
        ActivationStep::StartMuxer(Some(sender)) => sender.send(6).unwrap(),
        _ => panic!("the event thread was not started"),
    }
    assert_eq!(receiver.try_recv(), Ok(6));
}

#[test]
fn accepted_connections_go_to_a_listener_that_is_there() {
    let mut muxer = test_muxer();
    muxer.proxy_created(1);
    let mut accepted = update(None, ProxyRemoval::Keep);
    accepted.push_accept = Some((1, 2));
    assert_eq!(muxer.process_response_update(1, accepted).enqueue_accept, None);
    muxer.proxy_created(2);
    assert_eq!(muxer.process_response_update(1, accepted).enqueue_accept, Some(2));
}

fn create_request(peer_port: u32, family: u16, kind: u16) -> Vec<u8> {
    let mut bytes = peer_port.to_le_bytes().to_vec();
    bytes.extend(family.to_le_bytes());
    bytes.extend(kind.to_le_bytes());
    bytes
}

#[test]
fn guest_requests_for_sockets_cannot_replace_a_host_listener() {
    let mem = memory();
    let unix = Some(HashMap::from([(TEST_PORT, (b"/run/host".to_vec(), true))]));
    let flags = TsiFlags {
        hijack_inet: true,
        hijack_unix: true,
    };
    let mut muxer = muxer_with(TEST_CID, unix, None, None, flags);
    assert_eq!(
        activate(&mut muxer),
        vec!["clone", "watch", "check", "listen", "reaper", "muxer"]
    );
    for family in [libc::AF_INET, libc::AF_UNIX] {
        for kind in [SOCK_STREAM, SOCK_DGRAM] {
            let payload = create_request(TEST_PORT, family as u16, kind);
            let pkt = packet(
                &mem,
                TEST_CID,
                VSOCK_HOST_CID,
                TSI_PROXY_CREATE,
                VSOCK_OP_RW,
                &payload,
            );
            assert!(matches!(muxer.send_dgram_pkt(&pkt).step, Step::Done));
            assert!(muxer.has_proxy(tsi_id(TEST_PORT)));
        }
    }
    for op in 0..=VSOCK_OP_CREDIT_UPDATE {
        let mut pkt = packet(&mem, TEST_CID, VSOCK_HOST_CID, TSI_PROXY_PORT, op, &[]);
        pkt.set_src_port(TEST_PORT);
        muxer.send_stream_pkt(&pkt);
        assert!(muxer.has_proxy(tsi_id(TEST_PORT)));
    }
}

#[test]
fn sockets_are_made_for_families_that_are_redirected() {
    let mem = memory();
    let step = |flags: TsiFlags, family: u16, kind: u16| {
        let mut muxer = muxer_with(TEST_CID, None, None, None, flags);
        activate(&mut muxer);
        let payload = create_request(9, family, kind);
        let pkt = packet(
            &mem,
            TEST_CID,
            VSOCK_HOST_CID,
            TSI_PROXY_CREATE,
            VSOCK_OP_RW,
            &payload,
        );
        muxer.send_dgram_pkt(&pkt).step
    };
    let inet = TsiFlags {
        hijack_inet: true,
        hijack_unix: false,
    };
    let unix = TsiFlags {
        hijack_inet: false,
        hijack_unix: true,
    };
    match step(inet, 2, SOCK_STREAM) {
        Step::CreateStream {
            id,
            guest_cid,
            family,
            local_port,
            peer_port,
            control_port,
        } => {
            assert_eq!(id, tsi_id(9));
            assert_eq!(guest_cid, TEST_CID);
            assert_eq!((family, local_port), (2, TSI_PROXY_PORT));
            assert_eq!((peer_port, control_port), (9, 4000));
        }
        other => panic!("unexpected {other:?}"),
    }
    assert!(matches!(
        step(inet, 10, SOCK_DGRAM),
        Step::CreateDgram { id, guest_cid: TEST_CID, family: 10, peer_port: 9 } if id == tsi_id(9)
    ));
    assert!(matches!(step(inet, 1, SOCK_STREAM), Step::Done));
    assert!(matches!(step(unix, 1, SOCK_STREAM), Step::CreateStream { .. }));
    assert!(matches!(step(unix, 2, SOCK_DGRAM), Step::Done));
    assert!(matches!(step(unix, 10, SOCK_STREAM), Step::Done));
    assert!(matches!(step(inet, 2, 3), Step::Done));
    assert!(matches!(step(TsiFlags::empty(), 2, SOCK_STREAM), Step::Done));
}

#[test]
fn requests_to_unknown_sockets_are_refused() {
    let mem = memory();
    let mut muxer = tsi_muxer();
    let mut connect = 9u32.to_le_bytes().to_vec();
    connect.extend(16u32.to_le_bytes());
    connect.extend(SockAddr::inet([1, 2, 3, 4], 5).bytes());
    let mut listen = 9u32.to_le_bytes().to_vec();
    listen.extend([0; 8]);
    listen.extend(16u32.to_le_bytes());
    listen.extend(SockAddr::inet([1, 2, 3, 4], 5).bytes());
    let plain = [9, 0, 0, 0, 0x6c, 2, 0, 0, 0, 0, 0, 0];
    let send = |muxer: &mut VsockMuxer, port, payload: &[u8]| {
        let pkt = packet(&mem, TEST_CID, VSOCK_HOST_CID, port, VSOCK_OP_RW, payload);
        muxer.send_dgram_pkt(&pkt).step
    };
    assert!(matches!(
        send(&mut muxer, TSI_CONNECT, &connect),
        Step::Offer(MuxerRx::ConnResponse { local_port: TSI_CONNECT, peer_port: 4000, result: -111 })
    ));
    match send(&mut muxer, TSI_GETNAME, &plain) {
        Step::Offer(MuxerRx::GetnameResponse { data, .. }) => {
            assert_eq!((data.result, data.addr_len), (-22, 0));
            assert_eq!(data.addr.as_sockaddr_in().unwrap().ip, [0; 4]);
        }
        other => panic!("unexpected {other:?}"),
    }
    assert!(matches!(
        send(&mut muxer, TSI_LISTEN, &listen),
        Step::Offer(MuxerRx::ListenResponse { result: -1, .. })
    ));
    assert!(matches!(
        send(&mut muxer, TSI_ACCEPT, &plain),
        Step::Offer(MuxerRx::AcceptResponse { result: -22, .. })
    ));
    assert!(matches!(send(&mut muxer, TSI_SENDTO_ADDR, &connect), Step::Done));
    assert!(matches!(send(&mut muxer, TSI_SENDTO_DATA, &plain), Step::Done));
    assert!(matches!(send(&mut muxer, TSI_PROXY_RELEASE, &plain), Step::Done));
    assert!(matches!(send(&mut muxer, 2000, &plain), Step::Done));

    muxer.proxy_created(tsi_id(9));
    muxer.proxy_created(tsi_id(4000));
    let call = |step| match step {
        Step::Call { id, call } => (id, format!("call {call:?}")),
        Step::Tell { id, call } => (id, format!("tell {call:?}")),
        other => panic!("unexpected {other:?}"),
    };
    let (id, text) = call(send(&mut muxer, TSI_CONNECT, &connect));
    assert_eq!(id, tsi_id(9));
    assert!(text.starts_with("call Connect("));
    assert_eq!(
        call(send(&mut muxer, TSI_GETNAME, &plain)),
        (tsi_id(9), String::from("tell GetPeerName"))
    );
    let (id, text) = call(send(&mut muxer, TSI_LISTEN, &listen));
    assert_eq!(id, tsi_id(9));
    assert!(text.starts_with("call Listen("));
    let (id, text) = call(send(&mut muxer, TSI_ACCEPT, &plain));
    assert_eq!(id, tsi_id(9));
    assert!(text.starts_with("call Accept("));
    let (id, text) = call(send(&mut muxer, TSI_SENDTO_ADDR, &connect));
    assert_eq!(id, tsi_id(9));
    assert!(text.starts_with("call SendtoAddr("));
    assert_eq!(
        call(send(&mut muxer, TSI_SENDTO_DATA, &plain)),
        (tsi_id(4000), String::from("tell SendtoData"))
    );
    assert_eq!(
        call(send(&mut muxer, TSI_PROXY_RELEASE, &plain)),
        (tsi_id(9), String::from("call Release"))
    );
    assert_eq!(
        call(send(&mut muxer, 2000, &plain)),
        (tsi_id(4000), String::from("call SendMsg"))
    );
    assert!(matches!(send(&mut muxer, TSI_CONNECT, &connect[..20]), Step::Done));
}

#[test]
fn control_ports_are_plain_ports_without_redirection() {
    let mem = memory();
    let mut muxer = muxer_with(TEST_CID, None, None, None, TsiFlags::empty());
    activate(&mut muxer);
    muxer.proxy_created(tsi_id(4000));
    let pkt = packet(
        &mem,
        TEST_CID,
        VSOCK_HOST_CID,
        TSI_PROXY_CREATE,
        VSOCK_OP_RW,
        &create_request(9, 2, SOCK_STREAM),
    );
    assert!(matches!(
        muxer.send_dgram_pkt(&pkt).step,
        Step::Call { call: ProxyCall::SendMsg, .. }
    ));
}

#[test]
fn items_wait_in_order_behind_the_first() {
    let mem = memory();
    let mut muxer = test_muxer();
    let reset = |port| MuxerRx::Reset {
        local_port: port,
        peer_port: 1,
    };
    assert!(matches!(muxer.recv_pkt(), Err(VsockError::NoData)));
    match muxer.push_packet(reset(1)) {
        Step::Offer(rx) => assert!(muxer.offer_chain(rx, None).is_none()),
        other => panic!("unexpected {other:?}"),
    }
    assert!(matches!(muxer.push_packet(reset(2)), Step::Done));
    assert!(muxer.has_pending_rx());
    assert!(matches!(muxer.recv_pkt(), Ok(MuxerRx::Reset { local_port: 1, .. })));
    assert!(matches!(muxer.recv_pkt(), Ok(MuxerRx::Reset { local_port: 2, .. })));
    assert!(!muxer.has_pending_rx());

    let mut chain = DescriptorChain {
        mem: &mem,
        index: 3,
        head: Descriptor {
            addr: HEADER.0,
            len: 52,
            write_only: true,
        },
        has_next: false,
        next: None,
    };
    let (_, mut pkt) = muxer.offer_chain(reset(3), Some(&chain)).unwrap();
    pkt.set_len(8);
    assert_eq!(
        finish_push(chain.index, pkt.len(), true),
        QueueAction::AddUsed { index: 3, len: 52 }
    );
    assert_eq!(finish_push(chain.index, pkt.len(), false), QueueAction::UndoPop);
    chain.head.write_only = false;
    assert!(muxer.offer_chain(reset(4), Some(&chain)).is_none());
    assert!(!muxer.has_pending_rx());
}

#[test]
fn items_that_make_no_packet_are_dropped() {
    let waiting = || {
        let mut muxer = test_muxer();
        for port in 1..=4 {
            let step = muxer.push_packet(MuxerRx::Reset {
                local_port: port,
                peer_port: 1,
            });
            if let Step::Offer(rx) = step {
                assert!(muxer.offer_chain(rx, None).is_none());
            }
        }
        muxer
    };
    let receive = |muxer: &mut VsockMuxer, makes: &[u32]| loop {
        match muxer.recv_pkt() {
            Ok(MuxerRx::Reset { local_port, .. }) if makes.contains(&local_port) => {
                return Some(local_port);
            }
            Ok(_) => {}
            Err(error) => {
                assert!(matches!(error, VsockError::NoData));
                return None;
            }
        }
    };
    let mut muxer = waiting();
    assert_eq!(receive(&mut muxer, &[3, 4]), Some(3));
    assert!(muxer.has_pending_rx());
    assert_eq!(receive(&mut muxer, &[3, 4]), Some(4));
    assert!(!muxer.has_pending_rx());
    let mut muxer = waiting();
    assert_eq!(receive(&mut muxer, &[]), None);
    assert!(!muxer.has_pending_rx());
}

#[test]
fn nothing_is_pushed_without_a_guest() {
    let mut muxer = muxer_with(TEST_CID, None, None, None, TsiFlags::empty());
    let step = muxer.push_packet(MuxerRx::Reset {
        local_port: 1,
        peer_port: 2,
    });
    assert!(matches!(step, Step::Done));
    assert!(!muxer.has_pending_rx());
}

#[test]
fn the_device_comes_to_rest_and_back() {
    let unix = Some(HashMap::from([(TEST_PORT, (b"/run/host".to_vec(), true))]));
    let mut muxer = muxer_with(TEST_CID, unix, None, None, TsiFlags::empty());
    for _ in 0..8 {
        assert_eq!(
            activate(&mut muxer),
            vec!["clone", "watch", "check", "listen", "reaper", "muxer"]
        );
        assert!(matches!(muxer.activate(), Err(ActivateError::AlreadyActive)));
        assert!(muxer.has_proxy(tsi_id(TEST_PORT)));
        let mut steps = vec![];
        let result = quiesce(&mut muxer, VsockMuxer::quiesce(), |step| {
            steps.push(format!("{step:?}"));
            true
        });
        assert_eq!(result, Ok(()));
        assert_eq!(
            steps,
            vec!["SignalStop", "JoinMuxer", "JoinReaper", "Unwatch([5000])"]
        );
        assert!(muxer.kick_backends().is_empty());
    }
}

#[test]
fn the_first_fault_on_the_way_to_rest_is_told() {
    let mut muxer = test_muxer();
    let signal = quiesce(&mut muxer, VsockMuxer::quiesce(), |_| false);
    assert_eq!(signal, Err(QuiesceFault::StopSignal));
    assert!(matches!(muxer.activate(), Err(ActivateError::AlreadyActive)));
    let both = quiesce(&mut muxer, VsockMuxer::quiesce(), |step| {
        !matches!(step, QuiesceStep::JoinMuxer | QuiesceStep::JoinReaper)
    });
    assert_eq!(both, Err(QuiesceFault::MuxerPanicked));
    assert_eq!(
        QuiesceFault::MuxerPanicked.message(),
        Some("vsock muxer thread panicked")
    );
    activate(&mut muxer);
    let reaper = quiesce(&mut muxer, VsockMuxer::quiesce(), |step| {
        !matches!(step, QuiesceStep::JoinReaper)
    });
    assert_eq!(reaper, Err(QuiesceFault::ReaperPanicked));
    assert_eq!(
        QuiesceFault::ReaperPanicked.message(),
        Some("vsock reaper thread panicked")
    );
    assert_eq!(QuiesceFault::StopSignal.message(), None);
    activate(&mut muxer);
}

#[test]
fn activation_that_fails_half_way_is_undone() {
    let unix = Some(HashMap::from([(TEST_PORT, (b"/run/host".to_vec(), true))]));
    let mut muxer = muxer_with(TEST_CID, unix, None, None, TsiFlags::empty());
    for failing in 0..6 {
        let mut activation = muxer.activate().unwrap();
        for _ in 0..=failing {
            activation = muxer.activate_inner(activation).0;
        }
        rest(&mut muxer);
        assert!(muxer.kick_backends().is_empty());
        assert!(matches!(
            muxer.push_packet(MuxerRx::OpRequest {
                local_port: 1,
                peer_port: 2
            }),
            Step::Done
        ));
    }
    activate(&mut muxer);
}

#[test]
fn an_exited_device_stays_so() {
    let unix = Some(HashMap::from([(TEST_PORT, (b"/run/host".to_vec(), true))]));
    let mut muxer = muxer_with(TEST_CID, unix, None, None, TsiFlags::empty());
    activate(&mut muxer);
    let begin = muxer.retire();
    assert_eq!(quiesce(&mut muxer, begin, |_| true), Ok(()));
    muxer.release_listeners();
    match muxer.activate() {
        Err(fault) => assert_eq!(fault.message(), "vsock device has exited"),
        Ok(_) => panic!("an exited device was activated"),
    }
    assert_eq!(
        ActivateError::AlreadyActive.message(),
        "vsock muxer is already activated"
    );
    let mut unwatched = None;
    quiesce(&mut muxer, VsockMuxer::quiesce(), |step| {
        if let QuiesceStep::Unwatch(ports) = step {
            unwatched = Some(ports.len());
        }
        true
    })
    .unwrap();
    assert_eq!(unwatched, Some(0));
}

#[test]
fn macos_keeps_the_clock_of_the_guest() {
    let unix = Some(HashMap::from([(TEST_PORT, (b"/run/host".to_vec(), true))]));
    let mut muxer = muxer_on(HostOs::MacOs, TEST_CID, unix, None, None, TsiFlags::empty());
    assert_eq!(muxer.host(), HostOs::MacOs);
    for failing in 0..7 {
        let mut activation = muxer.activate().unwrap();
        for _ in 0..=failing {
            activation = muxer.activate_inner(activation).0;
        }
        rest(&mut muxer);
    }
    assert_eq!(
        activate(&mut muxer),
        vec!["clone", "watch", "check", "listen", "timesync", "reaper", "muxer"]
    );
    let mut steps = vec![];
    let result = quiesce(&mut muxer, VsockMuxer::quiesce(), |step| {
        steps.push(format!("{step:?}"));
        true
    });
    assert_eq!(result, Ok(()));
    assert_eq!(
        steps,
        vec!["SignalStop", "JoinMuxer", "JoinTimesync", "JoinReaper", "Unwatch([5000])"]
    );
    activate(&mut muxer);
    let fault = quiesce(&mut muxer, VsockMuxer::quiesce(), |step| {
        !matches!(step, QuiesceStep::JoinTimesync | QuiesceStep::JoinReaper)
    });
    assert_eq!(fault, Err(QuiesceFault::TimesyncPanicked));
    assert_eq!(
        QuiesceFault::TimesyncPanicked.message(),
        Some("vsock timesync thread panicked")
    );
    activate(&mut muxer);
    let first = quiesce(&mut muxer, VsockMuxer::quiesce(), |step| {
        !matches!(step, QuiesceStep::JoinMuxer | QuiesceStep::JoinTimesync)
    });
    assert_eq!(first, Err(QuiesceFault::MuxerPanicked));
}

#[test]
fn macos_has_numbers_of_its_own() {
    let mem = memory();
    let flags = TsiFlags {
        hijack_inet: false,
        hijack_unix: true,
    };
    let mut muxer = muxer_on(HostOs::MacOs, TEST_CID, None, None, None, flags);
    activate(&mut muxer);
    let mut connect = 9u32.to_le_bytes().to_vec();
    connect.extend(16u32.to_le_bytes());
    connect.extend(SockAddr::inet([1, 2, 3, 4], 5).bytes());
    let mut send = |port, payload: &[u8]| {
        let pkt = packet(&mem, TEST_CID, VSOCK_HOST_CID, port, VSOCK_OP_RW, payload);
        muxer.send_dgram_pkt(&pkt).step
    };
    assert!(matches!(
        send(TSI_CONNECT, &connect),
        Step::Offer(MuxerRx::ConnResponse { result: -61, .. })
    ));
    // Without redirection of internet sockets, the host's number of the family counts.
    let inet6 = create_request(9, 30, SOCK_STREAM);
    assert!(matches!(send(TSI_PROXY_CREATE, &inet6), Step::Done));
    let other = create_request(9, 10, SOCK_STREAM);
    assert!(matches!(
        send(TSI_PROXY_CREATE, &other),
        Step::CreateStream { family: 10, .. }
    ));
}
