use boot_core::memory::{AllocRange, BumpAllocator, OutOfMemory};

#[test]
fn two_allocations_fill_the_range_exactly() {
    let mut a = BumpAllocator::new(0x1000, 0x1010, "test");
    let r1 = a.allocate(8, 8);
    assert_eq!(r1, Ok(AllocRange { start: 0x1000, end: 0x1008 }));
    let r2 = a.allocate(8, 8);
    assert_eq!(r2, Ok(AllocRange { start: 0x1008, end: 0x1010 }));
    let r3 = a.allocate(1, 1);
    assert_eq!(r3, Err(OutOfMemory));
    assert_eq!(a.current_cursor(), 0x1010);
}

#[test]
fn failed_allocation_is_a_no_op() {
    let mut a = BumpAllocator::new(0x2000, 0x2020, "test");
    let r1 = a.allocate(16, 4);
    assert_eq!(r1, Ok(AllocRange { start: 0x2000, end: 0x2010 }));
    let cursor_before = a.current_cursor();
    let r2 = a.allocate(64, 4);
    assert_eq!(r2, Err(OutOfMemory));
    assert_eq!(a.current_cursor(), cursor_before);
    // the allocator still grants what does fit
    let r3 = a.allocate(16, 4);
    assert_eq!(r3, Ok(AllocRange { start: 0x2010, end: 0x2020 }));
}

#[test]
fn cursor_is_rounded_up_to_the_alignment() {
    let mut a = BumpAllocator::new(100, 200, "test");
    let r1 = a.allocate(10, 1);
    assert_eq!(r1, Ok(AllocRange { start: 100, end: 110 }));
    // 110 rounded up to a multiple of 16 is 112
    let r2 = a.allocate(10, 16);
    assert_eq!(r2, Ok(AllocRange { start: 112, end: 122 }));
    assert_eq!(a.current_cursor(), 122);
}

#[test]
fn granted_ranges_are_disjoint() {
    let mut a = BumpAllocator::new(0, 1024, "test");
    let mut previous: Vec<AllocRange> = Vec::new();
    for (size, align) in [(8usize, 8usize), (3, 1), (5, 16), (1, 2), (100, 64)] {
        let g = a.allocate(size, align).unwrap();
        assert!(g.start <= g.end && g.end <= 1024);
        for p in &previous {
            assert!(p.end <= g.start || g.end <= p.start);
        }
        previous.push(g);
    }
}

#[test]
fn tag_is_kept() {
    let a = BumpAllocator::new(0, 16, "Global DMA Allocator");
    assert_eq!(a.tag(), "Global DMA Allocator");
}
