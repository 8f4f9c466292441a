use tpt_ignis::udf::{pack_ptr_len, BumpHeap, HEAP_SIZE};

#[test]
fn bump_heap_aligns_and_advances() {
    let mut h = BumpHeap::new();
    assert_eq!(h.allocate(5), Some(0));
    assert_eq!(h.offset(), 8);
    assert_eq!(h.allocate(16), Some(8));
    assert_eq!(h.offset(), 24);
    assert_eq!(h.allocate(-3), Some(24));
    assert_eq!(h.offset(), 24);
}

#[test]
fn bump_heap_refuses_what_does_not_fit() {
    let mut h = BumpHeap::new();
    assert_eq!(h.allocate((HEAP_SIZE - 8) as i32), Some(0));
    assert_eq!(h.allocate(9), None);
    assert_eq!(h.offset(), HEAP_SIZE - 8);
    assert_eq!(h.allocate(8), Some(HEAP_SIZE - 8));
    assert_eq!(h.allocate(1), None);
}

#[test]
fn packing_puts_offset_high() {
    assert_eq!(pack_ptr_len(1, 2), (1i64 << 32) | 2);
    assert_eq!(pack_ptr_len(0, 513), 513);
    assert_eq!(pack_ptr_len(0x7fff_ffff, 0x7fff_ffff), 0x7fff_ffff_7fff_ffff);
}
