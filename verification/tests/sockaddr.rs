use vsock_device::defs::HostOs;
use vsock_device::sockaddr::{
    inet_addr, inet_port, linux_layout, parse_address, parse_inet_address, sa_family, unix_path,
    InetAddr, SockAddr,
};
use vsock_device::tsi::TsiGetnameRsp;

#[test]
fn addresses_are_taken_at_the_length_of_their_family() {
    let inet = SockAddr::inet([192, 168, 0, 1], 443);
    assert_eq!(inet.bytes().len(), 16);
    let mut padded = inet.bytes().to_vec();
    padded.extend([0; 16]);
    assert_eq!(parse_address(&padded, 16, HostOs::Linux).unwrap().bytes(), inet.bytes());
    assert!(parse_address(&padded, 15, HostOs::Linux).is_none());
    assert!(parse_address(&padded, 17, HostOs::Linux).is_none());
    assert!(parse_address(&padded, 33, HostOs::Linux).is_none());

    let mut inet6 = vec![0u8; 28];
    inet6[0] = 10;
    assert!(parse_address(&inet6, 28, HostOs::Linux).is_some());
    assert!(parse_address(&inet6, 27, HostOs::Linux).is_none());

    let mut unix = vec![b'a'; 120];
    unix[0] = 1;
    unix[1] = 0;
    assert!(parse_address(&unix, 1, HostOs::Linux).is_none());
    assert_eq!(parse_address(&unix, 2, HostOs::Linux).unwrap().bytes().len(), 2);
    assert_eq!(parse_address(&unix, 110, HostOs::Linux).unwrap().bytes().len(), 110);
    assert!(parse_address(&unix, 111, HostOs::Linux).is_none());

    assert!(parse_address(&[3, 0, 0, 0], 4, HostOs::Linux).is_none());
}

#[test]
fn unix_addresses_keep_their_length_in_storage() {
    let unix = parse_address(&[1, 0, b'/', b'x', 0], 5, HostOs::Linux).unwrap();
    assert_eq!(unix.storage(HostOs::Linux), vec![1, 0, b'/', b'x', 0]);
    assert!(unix.as_sockaddr_in().is_none());
    let inet = SockAddr::inet([1, 1, 1, 1], 53);
    assert_eq!(inet.storage(HostOs::Linux).len(), 128);
}

#[test]
fn no_address_is_an_unspecified_one() {
    let rsp = TsiGetnameRsp::default();
    assert_eq!(rsp.result, -1);
    assert_eq!(rsp.addr_len, 16);
    let addr = rsp.addr.as_sockaddr_in().unwrap();
    assert_eq!(addr.ip, [0, 0, 0, 0]);
    assert_eq!(addr.port, 0);
}

#[test]
fn layouts_agree_with_the_host() {
    assert_eq!(std::mem::size_of::<libc::sockaddr_in>(), 16);
    assert_eq!(std::mem::size_of::<libc::sockaddr_in6>(), 28);
    assert_eq!(std::mem::size_of::<libc::sockaddr_un>(), 110);
    assert_eq!(std::mem::size_of::<libc::sockaddr_storage>(), 128);
    assert_eq!(libc::AF_UNIX, vsock_device::defs::LINUX_AF_UNIX as i32);
    assert_eq!(libc::AF_INET, vsock_device::defs::LINUX_AF_INET as i32);
    assert_eq!(libc::AF_INET6, vsock_device::defs::LINUX_AF_INET6 as i32);
    assert_eq!(libc::EPERM, vsock_device::defs::EPERM);
    assert_eq!(libc::EINVAL, vsock_device::defs::EINVAL);
    assert_eq!(libc::ECONNREFUSED, HostOs::Linux.econnrefused());
    assert_eq!(libc::AF_INET6, HostOs::Linux.inet6() as i32);
    assert_eq!(libc::EPOLLIN as u32, vsock_device::proxy::EVENT_IN);
    assert_eq!(libc::EPOLLOUT as u32, vsock_device::proxy::EVENT_OUT);
    let nix = nix::sys::socket::SockaddrIn::new(10, 1, 2, 3, 9000);
    let ours = SockAddr::inet([10, 1, 2, 3], 9000).as_sockaddr_in().unwrap();
    assert_eq!(nix.ip().octets(), ours.ip);
    assert_eq!(nix.port(), ours.port);
}

#[test]
fn internet_addresses_are_taken_apart() {
    assert_eq!(
        parse_inet_address(SockAddr::inet([9, 8, 7, 6], 513).bytes(), 16),
        Some(InetAddr::V4 {
            ip: [9, 8, 7, 6],
            port: 513
        })
    );
    let mut inet6 = vec![10, 0, 0, 80];
    inet6.extend([0, 0, 0, 1]);
    for group in 1u16..=8 {
        inet6.extend(group.to_be_bytes());
    }
    inet6.extend([0, 0, 1, 0]);
    assert_eq!(
        parse_inet_address(&inet6, 28),
        Some(InetAddr::V6 {
            groups: [1, 2, 3, 4, 5, 6, 7, 8],
            port: 80,
            flowinfo: 1,
            scope_id: 256
        })
    );
    assert_eq!(parse_inet_address(&inet6, 27), None);
    assert_eq!(parse_inet_address(&[1, 0, b'/', 0], 4), None);
    assert_eq!(parse_inet_address(&[1], 1), None);
}

#[test]
fn bsd_addresses_get_the_linux_family() {
    assert_eq!(linux_layout(&[16, 2, 0, 80]), vec![2, 0, 0, 80]);
    assert_eq!(linux_layout(&[28, 30, 0, 80]), vec![10, 0, 0, 80]);
    assert_eq!(linux_layout(&[4, 1, b'/', 0]), vec![0, 0, b'/', 0]);
}

#[test]
fn fields_of_an_address_are_read_on_their_own() {
    let addr = SockAddr::inet([4, 3, 2, 1], 0x0102);
    assert_eq!(sa_family(addr.bytes()), Some(2));
    assert_eq!(inet_port(addr.bytes()), Some(0x0102));
    assert_eq!(inet_addr(addr.bytes()), Some([4, 3, 2, 1]));
    assert_eq!(sa_family(&[2]), None);
    assert_eq!(inet_port(&[2, 0, 1]), None);
    assert_eq!(inet_addr(&[0; 7]), None);
    let mut unix = [0xffu8; 108];
    unix[2] = 0xc3;
    unix[3] = 0xa9;
    unix[4] = 0;
    assert_eq!(unix_path(&unix), Some(String::from("\u{e9}")));
}

#[test]
fn macos_keeps_what_is_left_of_a_taken_apart_address() {
    let mut inet = SockAddr::inet([9, 8, 7, 6], 513).bytes().to_vec();
    inet[12] = 0xff;
    let linux = parse_address(&inet, 16, HostOs::Linux).unwrap();
    assert_eq!(linux.bytes(), inet);
    assert_eq!(linux.storage(HostOs::Linux).len(), 128);
    let macos = parse_address(&inet, 16, HostOs::MacOs).unwrap();
    assert_eq!(macos.bytes(), SockAddr::inet([9, 8, 7, 6], 513).bytes());
    assert_eq!(macos.storage(HostOs::MacOs).len(), 16);
    assert!(parse_address(&inet, 15, HostOs::MacOs).is_none());

    let mut inet6 = vec![10, 0, 0, 80, 1, 2, 3, 4];
    inet6.extend(1..=16);
    inet6.extend([5, 6, 7, 8]);
    let mut kept = vec![10, 0, 0, 80, 4, 3, 2, 1];
    kept.extend(1..=16);
    kept.extend([8, 7, 6, 5]);
    assert_eq!(parse_address(&inet6, 28, HostOs::Linux).unwrap().bytes(), inet6);
    assert_eq!(parse_address(&inet6, 28, HostOs::MacOs).unwrap().bytes(), kept);

    assert!(parse_address(&[1, 0, b'/', 0], 4, HostOs::Linux).is_some());
    assert!(parse_address(&[1, 0, b'/', 0], 4, HostOs::MacOs).is_none());
    assert_eq!(HostOs::MacOs.econnrefused(), 61);
    assert_eq!(HostOs::MacOs.inet6(), 30);
}

#[test]
fn bsd_addresses_are_told_to_the_guest() {
    let mut bsd = SockAddr::inet([1, 2, 3, 4], 80).bytes().to_vec();
    bsd[0] = 16;
    bsd[1] = 2;
    let addr = SockAddr::from_bsd(&bsd).unwrap();
    assert_eq!(addr.bytes(), SockAddr::inet([1, 2, 3, 4], 80).bytes());
    assert!(SockAddr::from_bsd(&bsd[..8]).is_none());
    assert!(SockAddr::from_bsd(&bsd[..1]).is_none());
    let unix = SockAddr::from_bsd(&[4, 1, b'/', 0]).unwrap();
    assert_eq!(unix.bytes(), [0, 0, b'/', 0]);
    assert!(unix.as_sockaddr_in().is_none());
    let rsp = TsiGetnameRsp {
        result: 0,
        addr_len: 4,
        addr: unix,
    };
    assert_eq!(
        rsp.encode(HostOs::MacOs),
        vec![0, 0, 0, 0, 4, 0, 0, 0, 0, 0, b'/', 0]
    );
}
