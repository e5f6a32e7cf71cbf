use std::collections::HashSet;
use vsock_device::guest_cid::{
    allocate_guest_cid, reserve_guest_cid, GuestCids, FIRST_GUEST_CID,
};
use vsock_device::vsock_config::VsockConfigError::{
    GuestCidExhausted, GuestCidInUse, InvalidGuestCid,
};

#[test]
fn test_guest_cid_allocation_unique_valid_and_respects_reservations() {
    let mut cids = GuestCids::new();
    for cid in [0, 1, 2] {
        assert!(
            matches!(reserve_guest_cid(&mut cids, cid), Err(InvalidGuestCid(_))),
            "CID {cid} must be rejected as reserved"
        );
    }

    let mut seen = HashSet::new();
    for _ in 0..64 {
        let cid = allocate_guest_cid(&mut cids).expect("CID space must not exhaust in tests");
        assert!(
            cid >= FIRST_GUEST_CID,
            "allocated CID {cid} must not be reserved"
        );
        assert!(seen.insert(cid), "allocated CID {cid} handed out twice");
    }

    let allocated = allocate_guest_cid(&mut cids).unwrap();
    assert!(matches!(
        reserve_guest_cid(&mut cids, allocated),
        Err(GuestCidInUse(_))
    ));

    let pinned = allocated.wrapping_add(4096);
    assert!(pinned >= FIRST_GUEST_CID);
    reserve_guest_cid(&mut cids, pinned).expect("fresh CID must reserve cleanly");
    assert!(matches!(
        reserve_guest_cid(&mut cids, pinned),
        Err(GuestCidInUse(_))
    ));
    loop {
        let cid = allocate_guest_cid(&mut cids).unwrap();
        assert_ne!(cid, pinned, "allocator handed out a reserved CID");
        if cid > pinned {
            break;
        }
    }
}

#[test]
fn allocation_starts_at_three_and_steps_over_reservations() {
    let mut cids = GuestCids::new();
    reserve_guest_cid(&mut cids, 4).unwrap();
    assert_eq!(allocate_guest_cid(&mut cids).unwrap(), 3);
    assert_eq!(allocate_guest_cid(&mut cids).unwrap(), 5);
    assert_eq!(allocate_guest_cid(&mut cids).unwrap(), 6);
    assert!(matches!(
        reserve_guest_cid(&mut cids, 5),
        Err(GuestCidInUse(5))
    ));
    reserve_guest_cid(&mut cids, u32::MAX).unwrap();
    assert!(matches!(
        reserve_guest_cid(&mut cids, u32::MAX),
        Err(GuestCidInUse(u32::MAX))
    ));
    assert_eq!(
        GuestCidExhausted.message(""),
        "No unassigned guest CID remains"
    );
}
