use userspace::heap::BumpHeap;

#[test]
fn allocations_are_aligned_and_disjoint() {
    let mut heap = BumpHeap::<128>::new();
    let first_end = {
        let first = heap.allocate(7, 1).expect("first allocation");
        first.fill(0x11);
        first.as_ptr() as usize + first.len()
    };
    let second = heap.allocate(16, 16).expect("aligned allocation");

    assert_eq!((second.as_ptr() as usize) % 16, 0);
    assert!(second.as_ptr() as usize >= first_end);
    assert!(second.iter().all(|byte| *byte == 0));
}

#[test]
fn exhaustion_and_reset_are_bounded() {
    let mut heap = BumpHeap::<32>::new();
    assert!(heap.allocate(32, 1).is_some());
    assert!(heap.allocate(1, 1).is_none());
    assert_eq!(heap.remaining(), 0);

    heap.reset();
    assert_eq!(heap.used(), 0);
    assert!(heap.copy_bytes(b"reset", 1).is_some());
}

#[test]
fn a_roomy_allocation_always_fits() {
    let mut heap = BumpHeap::<64>::new();
    assert!(heap.allocate(1, 1).is_some());
    assert!(heap.allocate(48, 16).is_some());
    assert!(heap.allocate(64, 1).is_none());
    assert!(heap.allocate(1, 3).is_none());
    assert!(heap.allocate(1, 0).is_none());
}
