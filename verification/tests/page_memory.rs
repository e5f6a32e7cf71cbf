use vsock_device::page_memory::PageMemory;

#[test]
fn partial_delta_preserves_neighbors_and_crosses_pages() {
    let mut memory = PageMemory::new();
    memory.write_bytes(0, &[7; 8192]);
    memory.write_bytes(4094, &[1, 2, 3, 4]);
    assert_eq!(&memory.page(0).unwrap()[4093..], &[7, 1, 2]);
    assert_eq!(&memory.page(4096).unwrap()[..3], &[3, 4, 7]);
    memory.write_zero(4095, 2);
    assert_eq!(&memory.page(0).unwrap()[4094..], &[1, 0]);
    assert_eq!(&memory.page(4096).unwrap()[..3], &[0, 4, 7]);
    assert_eq!(memory.len(), 2);
}

#[test]
fn a_first_piece_leaves_the_rest_of_its_page_zero() {
    let mut memory = PageMemory::new();
    memory.write_bytes(8200, &[5]);
    assert_eq!(memory.len(), 1);
    let page = memory.page(8192).unwrap();
    assert_eq!(page.len(), 4096);
    assert_eq!(page[8], 5);
    assert!(page.iter().enumerate().all(|(i, byte)| i == 8 || *byte == 0));
    assert!(memory.page(0).is_none());
    memory.write_bytes(0, &[]);
    assert!(memory.page(0).is_none());
}

#[test]
fn pages_that_are_missing_or_other_are_counted() {
    let mut full = PageMemory::new();
    full.write_bytes(0, &[1; 3 * 4096]);
    let mut memory = PageMemory::new();
    assert_eq!(memory.mismatches(&full), 3);
    memory.write_bytes(0, &[1; 2 * 4096]);
    assert_eq!(memory.mismatches(&full), 1);
    memory.write_bytes(4100, &[2]);
    assert_eq!(memory.mismatches(&full), 2);
    memory.write_bytes(4100, &[1; 2 * 4096]);
    assert_eq!(memory.mismatches(&full), 0);
    assert_eq!(full.mismatches(&memory), 1);
}
