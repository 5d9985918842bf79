use rust_kernel::memory::initialize;

#[test]
fn fresh_allocator_hands_out_the_first_three_frames() {
    let mut alloc = initialize();
    assert_eq!(alloc.allocate_frame(), Some(0x000000));
    assert_eq!(alloc.allocate_frame(), Some(0x001000));
    assert_eq!(alloc.allocate_frame(), Some(0x002000));
}

#[test]
fn freed_frame_is_reused_by_the_next_allocation() {
    let mut alloc = initialize();
    assert_eq!(alloc.allocate_frame(), Some(0x000000));
    assert_eq!(alloc.allocate_frame(), Some(0x001000));
    assert_eq!(alloc.allocate_frame(), Some(0x002000));
    alloc.free_frame(0x001000);
    assert_eq!(alloc.allocate_frame(), Some(0x001000));
}

#[test]
fn free_frame_counts_track_allocations() {
    let mut alloc = initialize();
    let total = alloc.memory_size() / 4096;
    assert_eq!(alloc.free_frames(), total);
    alloc.allocate_frame().unwrap();
    alloc.allocate_frame().unwrap();
    assert_eq!(alloc.free_frames(), total - 2);
    alloc.free_frame(0x000000);
    assert_eq!(alloc.free_frames(), total - 1);
}

#[test]
fn memory_size_is_sixteen_mebibytes() {
    let alloc = initialize();
    assert_eq!(alloc.memory_size(), 16 * 1024 * 1024);
}

#[test]
fn allocator_exhausts_after_every_frame_is_taken() {
    let mut alloc = initialize();
    for i in 0..4096 {
        assert_eq!(alloc.allocate_frame(), Some(i * 4096));
    }
    assert_eq!(alloc.allocate_frame(), None);
    alloc.free_frame(7 * 4096);
    assert_eq!(alloc.allocate_frame(), Some(7 * 4096));
}
