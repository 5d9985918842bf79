use rust_kernel::heap::init_heap;
use rust_kernel::heap::align16;
use rust_kernel::heap::HEADER_SIZE;
use rust_kernel::heap::KERNEL_HEAP_SIZE;
use rust_kernel::heap::KERNEL_HEAP_START;

#[test]
fn three_allocations_ascend_and_a_freed_block_is_refilled() {
    let mut heap = init_heap();
    let p1 = heap.kmalloc(64).unwrap();
    let p2 = heap.kmalloc(128).unwrap();
    let p3 = heap.kmalloc(32).unwrap();
    assert!(p1 < p2);
    assert!(p2 < p3);
    heap.kfree(p2);
    assert_eq!(heap.kmalloc(64), Some(p2));
}

#[test]
fn coalesced_blocks_serve_a_larger_request_at_the_first_address() {
    let mut heap = init_heap();
    let p1 = heap.kmalloc(64).unwrap();
    let p2 = heap.kmalloc(128).unwrap();
    let p3 = heap.kmalloc(32).unwrap();
    // replay the refill, so the heap stands as the previous scenario left it
    heap.kfree(p2);
    let p2b = heap.kmalloc(64).unwrap();
    assert_eq!(p2b, p2);
    heap.kfree(p2b);
    heap.kfree(p1);
    heap.kfree(p3);
    assert_eq!(heap.kmalloc(128), Some(p1));
}

#[test]
fn first_allocation_starts_just_past_the_first_header() {
    let mut heap = init_heap();
    assert_eq!(heap.kmalloc(16), Some(KERNEL_HEAP_START + HEADER_SIZE));
}

#[test]
fn zero_and_oversized_requests_fail() {
    let mut heap = init_heap();
    assert_eq!(heap.kmalloc(0), None);
    assert_eq!(heap.kmalloc(KERNEL_HEAP_SIZE + 1), None);
    assert_eq!(heap.kmalloc(KERNEL_HEAP_SIZE), None);
}

#[test]
fn freeing_null_changes_nothing() {
    let mut heap = init_heap();
    let p1 = heap.kmalloc(48).unwrap();
    heap.kfree(0);
    heap.kfree(p1);
    assert_eq!(heap.kmalloc(48), Some(p1));
}

#[test]
fn requests_are_rounded_to_sixteen_bytes() {
    assert_eq!(align16(1), 16);
    assert_eq!(align16(16), 16);
    assert_eq!(align16(17), 32);
    assert_eq!(align16(0), 0);
    let mut heap = init_heap();
    let p1 = heap.kmalloc(1).unwrap();
    let p2 = heap.kmalloc(1).unwrap();
    assert_eq!(p2 - p1, 16 + HEADER_SIZE);
}

#[test]
fn exhausted_heap_fails_and_recovers() {
    let mut heap = init_heap();
    // the largest request whose rounded size still fits the initial block
    let big = KERNEL_HEAP_SIZE - HEADER_SIZE - 4;
    let p = heap.kmalloc(big).unwrap();
    assert_eq!(heap.kmalloc(16), None);
    heap.kfree(p);
    assert_eq!(heap.kmalloc(big), Some(p));
}
