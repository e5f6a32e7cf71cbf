use vm_memory::{Bytes, GuestAddress, GuestMemoryMmap};
use vsock_device::defs::HostOs;
use vsock_device::error::VsockError;
use vsock_device::guest_copy::GuestCopy;
use vsock_device::guest_memory::{Descriptor, DescriptorChain};
use vsock_device::packet::{VsockPacket, HDROFF_DST_CID, HDROFF_DST_PORT, HDROFF_LEN, VSOCK_PKT_HDR_SIZE};
use vsock_device::sockaddr::SockAddr;
use vsock_device::tsi::{TsiAcceptRsp, TsiConnectRsp, TsiGetnameRsp, TsiListenRsp};

const HEADER: GuestAddress = GuestAddress(0x2000);

fn memory() -> GuestMemoryMmap {
    GuestMemoryMmap::from_ranges(&[(GuestAddress(0), 0x10000)]).unwrap()
}

fn read_only(addr: u64, len: u32) -> Descriptor {
    Descriptor {
        addr,
        len,
        write_only: false,
    }
}

fn write_only(addr: u64, len: u32) -> Descriptor {
    Descriptor {
        addr,
        len,
        write_only: true,
    }
}

fn chain(mem: &GuestMemoryMmap, head: Descriptor, next: Option<Descriptor>) -> DescriptorChain<'_> {
    DescriptorChain {
        mem,
        index: 0,
        head,
        has_next: next.is_some(),
        next,
    }
}

fn tx_payload<'a>(mem: &'a GuestMemoryMmap, bytes: &[u8], declared_len: usize) -> VsockPacket<'a> {
    mem.write_slice(&[0; VSOCK_PKT_HDR_SIZE], HEADER).unwrap();
    mem.write_obj(
        (declared_len as u32).to_le(),
        GuestAddress(HEADER.0 + HDROFF_LEN as u64),
    )
    .unwrap();
    mem.write_slice(bytes, GuestAddress(0x3000)).unwrap();
    let head = chain(
        mem,
        read_only(HEADER.0, VSOCK_PKT_HDR_SIZE as u32),
        Some(read_only(0x3000, bytes.len() as u32)),
    );
    VsockPacket::from_tx_virtq_head(&head).unwrap()
}

fn rx_packet(mem: &GuestMemoryMmap, room: u32) -> VsockPacket<'_> {
    let head = chain(
        mem,
        write_only(HEADER.0, VSOCK_PKT_HDR_SIZE as u32),
        Some(write_only(0x3000, room)),
    );
    VsockPacket::from_rx_virtq_head(&head).unwrap()
}

fn bytes(copy: Option<GuestCopy>) -> Option<Vec<u8>> {
    copy.map(|copy| copy.into_vec())
}

fn guest_bytes(mem: &GuestMemoryMmap, addr: u64, count: usize) -> Vec<u8> {
    let mut bytes = vec![0; count];
    mem.read_slice(&mut bytes, GuestAddress(addr)).unwrap();
    bytes
}

#[test]
fn minimized_proxy_create_padding_and_short_buffer_regressions() {
    let mem = memory();
    for (bytes, len) in [(&[0; 16][..], 1), (&[0; 6][..], 6), (&[0; 7][..], 7)] {
        assert!(tx_payload(&mem, bytes, len).read_proxy_create().is_none());
    }
    let bytes = [0xff; 108];
    assert!(tx_payload(&mem, &bytes, bytes.len()).unix_path().is_none());
}

#[test]
fn tx_header_is_stable_after_guest_memory_changes() {
    let mem = memory();
    let head = chain(&mem, read_only(HEADER.0, VSOCK_PKT_HDR_SIZE as u32 + 8), None);
    let pkt = VsockPacket::from_tx_virtq_head(&head).unwrap();

    mem.write_slice(&[0xff; VSOCK_PKT_HDR_SIZE], HEADER).unwrap();

    assert_eq!(pkt.hdr(), &[0; VSOCK_PKT_HDR_SIZE]);
    assert_eq!(pkt.len(), 0);
    assert_eq!(bytes(pkt.payload()), Some(vec![]));
}

#[test]
fn rx_header_still_writes_into_guest_memory() {
    let mem = memory();
    let head = chain(&mem, write_only(HEADER.0, VSOCK_PKT_HDR_SIZE as u32 + 8), None);
    let mut pkt = VsockPacket::from_rx_virtq_head(&head).unwrap();

    pkt.set_src_cid(2).set_dst_cid(42).set_dst_port(5000);

    let mut written = [0; VSOCK_PKT_HDR_SIZE];
    mem.read_slice(&mut written, HEADER).unwrap();
    assert_eq!(written.as_slice(), pkt.hdr());
    assert_eq!(
        u64::from_le_bytes(written[HDROFF_DST_CID..HDROFF_DST_CID + 8].try_into().unwrap()),
        42
    );
    assert_eq!(
        u32::from_le_bytes(written[HDROFF_DST_PORT..HDROFF_DST_PORT + 4].try_into().unwrap()),
        5000
    );
}

#[test]
fn rx_header_is_read_in_place() {
    let mem = memory();
    let mut pkt = rx_packet(&mem, 8);
    pkt.set_dst_port(5000).set_flags(1);
    assert_eq!(pkt.dst_port(), 5000);

    mem.write_slice(&[0x11; VSOCK_PKT_HDR_SIZE], HEADER).unwrap();

    assert_eq!(pkt.hdr(), &[0x11; VSOCK_PKT_HDR_SIZE]);
    assert_eq!(pkt.dst_port(), 0x1111_1111);
    assert_eq!(pkt.head().op, 0x1111);
    pkt.set_flag(2);
    assert_eq!(pkt.flags(), 0x1111_1113);
    assert_eq!(bytes(pkt.payload()), None);
    pkt.set_len(3);
    assert_eq!(bytes(pkt.payload()), Some(vec![0; 3]));
}

#[test]
fn tx_packets_are_refused_for_each_reason() {
    let mem = memory();
    let size = VSOCK_PKT_HDR_SIZE as u32;
    let fault = |head: DescriptorChain| VsockPacket::from_tx_virtq_head(&head).err();

    assert_eq!(
        fault(chain(&mem, write_only(HEADER.0, size), None)),
        Some(VsockError::UnreadableDescriptor)
    );
    assert_eq!(
        fault(chain(&mem, read_only(HEADER.0, size - 1), None)),
        Some(VsockError::HdrDescTooSmall(43))
    );
    assert_eq!(
        fault(chain(&mem, read_only(0x10000 - 40, size), None)),
        Some(VsockError::GuestMemoryMmap)
    );

    mem.write_obj(65537u32.to_le(), GuestAddress(HEADER.0 + 24)).unwrap();
    assert_eq!(
        fault(chain(&mem, read_only(HEADER.0, size), Some(read_only(0x3000, 70000)))),
        Some(VsockError::InvalidPktLen(65537))
    );

    mem.write_obj(16u32.to_le(), GuestAddress(HEADER.0 + 24)).unwrap();
    assert_eq!(
        fault(chain(&mem, read_only(HEADER.0, size), None)),
        Some(VsockError::BufDescMissing)
    );
    assert_eq!(
        fault(chain(&mem, read_only(HEADER.0, size), Some(write_only(0x3000, 16)))),
        Some(VsockError::UnreadableDescriptor)
    );
    assert_eq!(
        fault(chain(&mem, read_only(HEADER.0, size), Some(read_only(0x3000, 15)))),
        Some(VsockError::BufDescTooSmall)
    );
    assert_eq!(
        fault(chain(&mem, read_only(HEADER.0, size), Some(read_only(0x10000 - 8, 16)))),
        Some(VsockError::GuestMemoryMmap)
    );
    assert_eq!(
        fault(chain(&mem, read_only(HEADER.0, size), Some(read_only(0x3000, 16)))),
        None
    );
}

#[test]
fn rx_packets_are_refused_for_each_reason() {
    let mem = memory();
    let size = VSOCK_PKT_HDR_SIZE as u32;
    let fault = |head: DescriptorChain| VsockPacket::from_rx_virtq_head(&head).err();

    assert_eq!(
        fault(chain(&mem, read_only(HEADER.0, size), None)),
        Some(VsockError::UnwritableDescriptor)
    );
    assert_eq!(
        fault(chain(&mem, write_only(HEADER.0, 0), None)),
        Some(VsockError::HdrDescTooSmall(0))
    );
    assert_eq!(
        fault(chain(&mem, write_only(0x10000, size), None)),
        Some(VsockError::GuestMemoryMmap)
    );
    assert_eq!(
        fault(chain(&mem, write_only(HEADER.0, size), None)),
        Some(VsockError::BufDescMissing)
    );
    assert_eq!(
        fault(chain(&mem, write_only(HEADER.0, size), Some(read_only(0x3000, 8)))),
        Some(VsockError::UnwritableDescriptor)
    );
    assert_eq!(
        fault(chain(&mem, write_only(HEADER.0, size), Some(read_only(0x20000, 8)))),
        Some(VsockError::UnwritableDescriptor)
    );
    assert_eq!(
        fault(chain(&mem, write_only(HEADER.0, size), Some(write_only(0x3000, 8)))),
        None
    );
    assert_eq!(
        fault(chain(&mem, write_only(HEADER.0, size), Some(write_only(0x20000, 8)))),
        Some(VsockError::GuestMemoryMmap)
    );
    assert_eq!(
        fault(chain(&mem, write_only(0x10000 - 44, size + 1), None)),
        Some(VsockError::GuestMemoryMmap)
    );
}

#[test]
fn header_may_lie_across_regions_and_data_may_not() {
    let mem = GuestMemoryMmap::from_ranges(&[
        (GuestAddress(0), 0x1000),
        (GuestAddress(0x1000), 0x1000),
    ])
    .unwrap();
    mem.write_obj(4u32.to_le(), GuestAddress(0x1000 - 20 + 24)).unwrap();
    let across = chain(&mem, read_only(0x1000 - 20, 44), Some(read_only(0x100, 4)));
    assert_eq!(VsockPacket::from_tx_virtq_head(&across).unwrap().len(), 4);
    let split = chain(&mem, read_only(0x1000 - 20, 44), Some(read_only(0x1000 - 2, 4)));
    assert_eq!(
        VsockPacket::from_tx_virtq_head(&split).err(),
        Some(VsockError::GuestMemoryMmap)
    );
}

#[test]
fn a_lone_receive_descriptor_holds_header_and_data() {
    let mem = memory();
    let head = chain(&mem, write_only(HEADER.0, VSOCK_PKT_HDR_SIZE as u32 + 8), None);
    let mut pkt = VsockPacket::from_rx_virtq_head(&head).unwrap();
    assert_eq!(bytes(pkt.buf()).unwrap().len(), 8);
    pkt.write_time_sync(0x0102_0304_0506_0708);
    assert_eq!(
        guest_bytes(&mem, HEADER.0 + 44, 8),
        vec![8, 7, 6, 5, 4, 3, 2, 1]
    );
}

#[test]
fn header_fields_are_set_and_read() {
    let mem = memory();
    let mut pkt = rx_packet(&mem, 16);
    pkt.set_src_cid(0x1122_3344_5566_7788)
        .set_dst_cid(u64::MAX)
        .set_src_port(7)
        .set_dst_port(8)
        .set_len(9)
        .set_type(1)
        .set_op(5)
        .set_flags(2)
        .set_buf_alloc(10)
        .set_fwd_cnt(11)
        .set_flag(4);
    assert_eq!(pkt.src_cid(), 0x1122_3344_5566_7788);
    assert_eq!(pkt.dst_cid(), u64::MAX);
    assert_eq!(pkt.src_port(), 7);
    assert_eq!(pkt.dst_port(), 8);
    assert_eq!(pkt.len(), 9);
    assert_eq!(pkt.type_(), 1);
    assert_eq!(pkt.op(), 5);
    assert_eq!(pkt.flags(), 6);
    assert_eq!(pkt.buf_alloc(), 10);
    assert_eq!(pkt.fwd_cnt(), 11);
    assert_eq!(guest_bytes(&mem, HEADER.0, 44), pkt.hdr());
}

#[test]
fn setting_a_field_of_a_received_packet_leaves_guest_memory_alone() {
    let mem = memory();
    let mut pkt = tx_payload(&mem, &[1, 2, 3, 4], 3);
    pkt.set_src_cid(99);
    assert_eq!(pkt.src_cid(), 99);
    assert_eq!(guest_bytes(&mem, HEADER.0, 8), vec![0; 8]);
}

#[test]
fn payload_is_the_declared_part_of_the_buffer() {
    let mem = memory();
    let pkt = tx_payload(&mem, &[1, 2, 3, 4, 5], 3);
    assert_eq!(bytes(pkt.payload()), Some(vec![1, 2, 3]));
    assert_eq!(bytes(pkt.buf()), Some(vec![1, 2, 3, 4, 5]));
    let mut longer = pkt;
    longer.set_len(6);
    assert_eq!(bytes(longer.payload()), None);
    longer.set_len(0);
    assert_eq!(bytes(longer.payload()), Some(vec![]));
}

#[test]
fn control_readers_refuse_truncation_without_using_descriptor_padding() {
    let mem = memory();
    let bytes = [0u8; 40];
    for declared_len in 0..=40 {
        let pkt = tx_payload(&mem, &bytes, declared_len);
        assert_eq!(pkt.read_proxy_create().is_some(), declared_len >= 8);
        assert_eq!(pkt.read_getname_req().is_some(), declared_len >= 12);
        assert_eq!(pkt.read_accept_req().is_some(), declared_len >= 8);
        assert_eq!(pkt.read_release_req().is_some(), declared_len >= 8);
        assert_eq!(pkt.sa_family().is_some(), declared_len >= 2);
        assert_eq!(pkt.inet_port().is_some(), declared_len >= 4);
        assert_eq!(pkt.inet_addr().is_some(), declared_len >= 8);
        assert!(pkt.unix_path().is_none());
        assert!(pkt.read_connect_req(HostOs::Linux).is_none());
        assert!(pkt.read_sendto_addr(HostOs::Linux).is_none());
        assert!(pkt.read_listen_req(HostOs::Linux).is_none());
    }
}

#[test]
fn valid_ipv4_control_addresses_retain_ports_and_reject_shortened_payloads() {
    let mem = memory();
    let mut bytes = [0; 24];
    bytes[0..4].copy_from_slice(&77u32.to_le_bytes());
    bytes[4..8].copy_from_slice(&16u32.to_le_bytes());
    bytes[8..10].copy_from_slice(&2u16.to_le_bytes());
    bytes[10..12].copy_from_slice(&8080u16.to_be_bytes());
    bytes[12..16].copy_from_slice(&[10, 0, 0, 1]);
    let pkt = tx_payload(&mem, &bytes, bytes.len());
    let request = pkt.read_connect_req(HostOs::Linux).unwrap();
    assert_eq!(request.peer_port, 77);
    let addr = request.addr.as_sockaddr_in().unwrap();
    assert_eq!(addr.ip, [10, 0, 0, 1]);
    assert_eq!(addr.port, 8080);
    assert!(pkt.read_sendto_addr(HostOs::Linux).is_some());
    for missing in 1..=24 {
        let truncated = tx_payload(&mem, &bytes, bytes.len() - missing);
        assert!(truncated.read_connect_req(HostOs::Linux).is_none());
        assert!(truncated.read_sendto_addr(HostOs::Linux).is_none());
    }
}

#[test]
fn requests_are_read_field_by_field() {
    let mem = memory();
    let bytes = [1, 0, 0, 0, 2, 0, 3, 0, 4, 0, 0, 0];
    let pkt = tx_payload(&mem, &bytes, bytes.len());
    let create = pkt.read_proxy_create().unwrap();
    assert_eq!((create.peer_port, create.family, create._type), (1, 2, 3));
    let getname = pkt.read_getname_req().unwrap();
    assert_eq!(
        (getname.peer_port, getname.local_port, getname.peer),
        (1, 0x0003_0002, 4)
    );
    let accept = pkt.read_accept_req().unwrap();
    assert_eq!((accept.peer_port, accept.flags), (1, 0x0003_0002));
    let release = pkt.read_release_req().unwrap();
    assert_eq!((release.peer_port, release.local_port), (1, 0x0003_0002));
    assert_eq!(pkt.sa_family(), Some(1));
    assert_eq!(pkt.inet_port(), Some(0));
    assert_eq!(pkt.inet_addr(), Some([2, 0, 3, 0]));
}

#[test]
fn listen_requests_carry_a_signed_backlog() {
    let mem = memory();
    let mut bytes = vec![];
    bytes.extend(5u32.to_le_bytes());
    bytes.extend(6u32.to_le_bytes());
    bytes.extend((-1i32).to_le_bytes());
    bytes.extend(16u32.to_le_bytes());
    bytes.extend(SockAddr::inet([127, 0, 0, 1], 80).bytes());
    let pkt = tx_payload(&mem, &bytes, bytes.len());
    let listen = pkt.read_listen_req(HostOs::Linux).unwrap();
    assert_eq!(
        (listen.peer_port, listen.vm_port, listen.backlog),
        (5, 6, -1)
    );
    assert_eq!(listen.addr.as_sockaddr_in().unwrap().port, 80);
    let short = tx_payload(&mem, &bytes, bytes.len() - 1);
    assert!(short.read_listen_req(HostOs::Linux).is_none());
}

#[test]
fn unix_paths_end_at_the_first_zero_byte() {
    let mem = memory();
    let mut bytes = [b'x'; 108];
    bytes[0] = 1;
    bytes[1] = 0;
    bytes[2..10].copy_from_slice(b"/tmp/s\0y");
    let pkt = tx_payload(&mem, &bytes, 108);
    assert_eq!(pkt.unix_path(), Some(String::from("/tmp/s")));
    assert_eq!(tx_payload(&mem, &bytes, 107).unix_path(), None);
    bytes[8] = b'!';
    assert_eq!(tx_payload(&mem, &bytes, 108).unix_path(), None);
}

#[test]
fn responses_are_written_where_there_is_room() {
    let mem = memory();
    let mut pkt = rx_packet(&mem, 4);
    pkt.write_connect_rsp(TsiConnectRsp { result: -111 });
    assert_eq!(guest_bytes(&mem, 0x3000, 4), (-111i32).to_le_bytes());
    pkt.write_listen_rsp(TsiListenRsp { result: -1 });
    assert_eq!(guest_bytes(&mem, 0x3000, 4), (-1i32).to_le_bytes());
    pkt.write_accept_rsp(TsiAcceptRsp { result: 3 });
    assert_eq!(guest_bytes(&mem, 0x3000, 4), 3i32.to_le_bytes());
    pkt.write_time_sync(5);
    pkt.write_getname_rsp(TsiGetnameRsp::default(), HostOs::Linux);
    assert_eq!(guest_bytes(&mem, 0x3000, 4), 3i32.to_le_bytes());

    let mut tiny = rx_packet(&mem, 3);
    tiny.write_connect_rsp(TsiConnectRsp { result: 9 });
    assert_eq!(guest_bytes(&mem, 0x3000, 4), 3i32.to_le_bytes());
}

#[test]
fn getname_responses_carry_a_whole_address_structure() {
    let mem = memory();
    mem.write_slice(&[0xaa; 200], GuestAddress(0x3000)).unwrap();
    let mut pkt = rx_packet(&mem, 200);
    pkt.write_getname_rsp(TsiGetnameRsp {
        result: 0,
        addr_len: 16,
        addr: SockAddr::inet([1, 2, 3, 4], 0x1234),
    }, HostOs::Linux);
    let bytes = guest_bytes(&mem, 0x3000, 137);
    assert_eq!(bytes[0..4], [0; 4]);
    assert_eq!(bytes[4..8], 16u32.to_le_bytes());
    assert_eq!(bytes[8..16], [2, 0, 0x12, 0x34, 1, 2, 3, 4]);
    assert_eq!(bytes[16..136], [0; 120]);
    assert_eq!(bytes[136], 0xaa);
}

#[test]
fn buffers_can_be_written_in_place() {
    let mem = memory();
    let mut pkt = rx_packet(&mem, 6);
    assert_eq!(pkt.buf_mut().unwrap().write(2, &[9, 8]), 2);
    assert_eq!(bytes(pkt.buf()), Some(vec![0, 0, 9, 8, 0, 0]));
    assert_eq!(pkt.buf_mut().unwrap().write(5, &[7, 7, 7]), 1);
    assert_eq!(pkt.buf_mut().unwrap().write(6, &[7]), 0);
    assert_eq!(guest_bytes(&mem, 0x3000, 8), vec![0, 0, 9, 8, 0, 7, 0, 0]);
    let mut control = tx_payload(&mem, &[], 0);
    assert!(control.buf_mut().is_none());
    assert!(control.buf().is_none());
}

#[test]
fn macos_tells_an_address_at_its_own_length() {
    let mem = memory();
    mem.write_slice(&[0xaa; 200], GuestAddress(0x3000)).unwrap();
    let mut pkt = rx_packet(&mem, 132);
    pkt.write_getname_rsp(TsiGetnameRsp::default(), HostOs::MacOs);
    let bytes = guest_bytes(&mem, 0x3000, 25);
    assert_eq!(bytes[0..4], (-1i32).to_le_bytes());
    assert_eq!(bytes[8..24], SockAddr::inet([0; 4], 0).bytes()[..]);
    assert_eq!(bytes[24], 0xaa);
}
