use dma_transfer::buffer::Pinned;

#[test]
fn a_pinned_buffer_keeps_address_and_bytes() {
    let pinned = Pinned::new(0x2000_0100, vec![1, 2, 3]).unwrap();
    assert_eq!(pinned.address(), 0x2000_0100);
    assert_eq!(pinned.len(), 3);
    assert_eq!(pinned.as_slice(), &[1, 2, 3]);
    assert_eq!(pinned.into_inner(), vec![1, 2, 3]);
}

#[test]
fn a_region_past_the_end_of_the_address_space_is_rejected() {
    assert!(Pinned::new(usize::MAX, vec![0, 0]).is_none());
    assert!(Pinned::new(usize::MAX - 1, vec![0, 0]).is_none());
    assert!(Pinned::new(usize::MAX - 2, vec![0, 0]).is_some());
    assert!(Pinned::new(usize::MAX, vec![0]).is_none());
    assert!(Pinned::new(usize::MAX, Vec::new()).is_some());
}

#[test]
fn get_reads_inside_and_refuses_outside() {
    let pinned = Pinned::new(16, vec![10, 20]).unwrap();
    assert_eq!(pinned.get(0), Some(10));
    assert_eq!(pinned.get(1), Some(20));
    assert_eq!(pinned.get(2), None);
}

#[test]
fn set_overwrites_in_place() {
    let mut pinned = Pinned::new(64, vec![0, 0, 0]).unwrap();
    assert!(pinned.set(1, 9));
    assert!(!pinned.set(3, 7));
    assert_eq!(pinned.address(), 64);
    assert_eq!(pinned.len(), 3);
    assert_eq!(pinned.as_slice(), &[0, 9, 0]);
}
