//! The allocator of virtual address ranges.

use litebox_optee::addr::{PhysFrame, VirtAddr, PAGE_SIZE};
use litebox_optee::vmap::{
    is_vmap_address, VmapAllocError, VmapRegion, VmapRegionAllocator, VmapRegionAllocatorInner,
    GUARD_PAGES,
};

const VMAP_START: u64 = 0x6000_0000_0000;
const VMAP_END: u64 = 0x6000_4000_0000;

fn region() -> VmapRegion {
    VmapRegion { start: VMAP_START, end: VMAP_END }
}

/// A region of the given number of pages.
fn small(pages: u64) -> VmapRegion {
    VmapRegion { start: VMAP_START, end: VMAP_START + pages * PAGE_SIZE as u64 }
}

fn frame(addr: u64) -> PhysFrame {
    PhysFrame::containing_address(addr)
}

#[test]
fn test_allocate_va_range() {
    let mut allocator = VmapRegionAllocatorInner::new(region());

    let va1 = allocator.allocate_va_range(1);
    assert!(va1.is_some());
    assert_eq!(va1.unwrap().as_u64(), VMAP_START);

    let va2 = allocator.allocate_va_range(2);
    assert!(va2.is_some());
    assert_eq!(va2.unwrap().as_u64(), VMAP_START + (1 + GUARD_PAGES) * PAGE_SIZE as u64);

    let va3 = allocator.allocate_va_range(0);
    assert!(va3.is_none());
}

#[test]
fn test_va_range_reuse() {
    let mut allocator = VmapRegionAllocatorInner::new(region());

    let va1 = allocator.allocate_va_range(2).unwrap();
    allocator.free_va_range(va1, 2);

    let va2 = allocator.allocate_va_range(2).unwrap();
    assert_eq!(va1, va2);

    allocator.free_va_range(va2, 2);
    let va3 = allocator.allocate_va_range(1).unwrap();
    assert_eq!(va3, va1);
}

#[test]
fn test_allocate_va_and_register_map() {
    let mut allocator = VmapRegionAllocator::new(region());

    let frames = vec![frame(0x1000), frame(0x3000), frame(0x5000)];

    let base_va = allocator.allocate_va_and_register_map(&frames);
    assert!(base_va.is_ok());
    let base_va = base_va.unwrap();
    assert_eq!(base_va.as_u64(), VMAP_START);

    let duplicate = allocator.allocate_va_and_register_map(&[frame(0x1000)]);
    assert!(matches!(duplicate, Err(VmapAllocError::DuplicateMapping)));

    assert!(matches!(
        allocator.allocate_va_and_register_map(&[]),
        Err(VmapAllocError::EmptyInput)
    ));
}

#[test]
fn test_rollback_via_unregister() {
    let mut allocator = VmapRegionAllocator::new(region());

    let frames = vec![frame(0x1000), frame(0x2000)];

    let base_va = allocator.allocate_va_and_register_map(&frames).unwrap();

    let count = allocator.unregister_allocation(base_va);
    assert_eq!(count, Some(2));

    let new_va = allocator.allocate_va_and_register_map(&frames).unwrap();
    assert_eq!(new_va, base_va);
}

#[test]
fn test_unregister_allocation() {
    let mut allocator = VmapRegionAllocator::new(region());

    let frames = vec![frame(0x1000), frame(0x3000), frame(0x5000)];

    let base_va = allocator.allocate_va_and_register_map(&frames).unwrap();

    let num_pages = allocator.unregister_allocation(base_va);
    assert_eq!(num_pages, Some(3));

    let new_va = allocator.allocate_va_and_register_map(&frames).unwrap();
    assert_eq!(new_va, base_va);

    assert_eq!(allocator.unregister_allocation(VirtAddr::new(VMAP_END - 0x1000)), None);
}

#[test]
fn test_guard_page_gap() {
    let mut allocator = VmapRegionAllocator::new(region());

    let frames_a = vec![frame(0x1000)];
    let frames_b = vec![frame(0x2000)];

    let va_a = allocator.allocate_va_and_register_map(&frames_a).unwrap();
    let va_b = allocator.allocate_va_and_register_map(&frames_b).unwrap();

    let gap_pages = (va_b.as_u64() - va_a.as_u64()) / PAGE_SIZE as u64;
    assert!(
        gap_pages >= (1 + GUARD_PAGES),
        "expected at least {} pages between allocations, got {}",
        1 + GUARD_PAGES,
        gap_pages
    );
}

#[test]
fn region_is_exhausted_and_failure_changes_nothing() {
    let mut allocator = VmapRegionAllocator::new(small(4));
    let first = allocator.allocate_va_and_register_map(&[frame(0x1000)]).unwrap();
    assert_eq!(
        allocator.allocate_va_and_register_map(&[frame(0x2000), frame(0x3000)]),
        Err(VmapAllocError::VaSpaceExhausted)
    );
    // The frames of the refused request are free to be mapped.
    let second = allocator.allocate_va_and_register_map(&[frame(0x2000)]).unwrap();
    assert_eq!(second.as_u64(), first.as_u64() + 0x2000);
    assert_eq!(
        allocator.allocate_va_and_register_map(&[frame(0x3000)]),
        Err(VmapAllocError::VaSpaceExhausted)
    );
}

#[test]
fn a_request_as_large_as_the_address_space_is_refused() {
    let mut allocator = VmapRegionAllocatorInner::new(region());
    assert_eq!(allocator.allocate_va_range(usize::MAX), None);
    assert_eq!(allocator.allocate_va_range(usize::MAX - 1), None);
}

#[test]
fn first_fit_takes_the_lowest_hole() {
    let mut allocator = VmapRegionAllocatorInner::new(region());
    let a = allocator.allocate_va_range(3).unwrap();
    let b = allocator.allocate_va_range(1).unwrap();
    let c = allocator.allocate_va_range(3).unwrap();
    let d = allocator.allocate_va_range(1).unwrap();
    allocator.free_va_range(a, 3);
    allocator.free_va_range(c, 3);
    // Both holes are large enough; then the rest of the first one still is for one page.
    assert_eq!(allocator.allocate_va_range(1), Some(a));
    assert_eq!(allocator.allocate_va_range(1), Some(VirtAddr::new(a.as_u64() + 0x2000)));
    assert_eq!(allocator.allocate_va_range(2), Some(c));
    assert!(b.as_u64() < c.as_u64() && c.as_u64() < d.as_u64());
}

#[test]
fn neighbouring_holes_grow_together() {
    let mut allocator = VmapRegionAllocator::new(region());
    let a = allocator.allocate_va_and_register_map(&[frame(0x1000)]).unwrap();
    let b = allocator.allocate_va_and_register_map(&[frame(0x2000)]).unwrap();
    assert_eq!(allocator.unregister_allocation(a), Some(1));
    assert_eq!(allocator.unregister_allocation(b), Some(1));
    // Three pages and a guard page fit in the two joined holes of two pages each.
    let c = allocator
        .allocate_va_and_register_map(&[frame(0x1000), frame(0x2000), frame(0x3000)])
        .unwrap();
    assert_eq!(c, a);
}

#[test]
fn a_range_above_a_hole_is_not_reused_in_place() {
    let mut allocator = VmapRegionAllocator::new(region());
    let a = allocator.allocate_va_and_register_map(&[frame(0x1000)]).unwrap();
    assert_eq!(allocator.unregister_allocation(a), Some(1));
    // The hole of two pages is too small, so the range is taken behind it.
    let big = [frame(0x1000), frame(0x2000), frame(0x3000)];
    let b = allocator.allocate_va_and_register_map(&big).unwrap();
    assert_eq!(b.as_u64(), a.as_u64() + 0x2000);
    assert_eq!(allocator.unregister_allocation(b), Some(3));
    // It has grown together with the hole below.
    assert_eq!(allocator.allocate_va_and_register_map(&big), Ok(a));
}

#[test]
fn unregistering_twice_finds_nothing() {
    let mut allocator = VmapRegionAllocator::new(region());
    let a = allocator.allocate_va_and_register_map(&[frame(0x7000)]).unwrap();
    assert_eq!(allocator.unregister_allocation(a), Some(1));
    assert_eq!(allocator.unregister_allocation(a), None);
}

#[test]
fn a_frame_that_occurs_twice_in_one_request_is_accepted() {
    let mut allocator = VmapRegionAllocator::new(region());
    let a = allocator.allocate_va_and_register_map(&[frame(0x1000), frame(0x1000)]).unwrap();
    assert_eq!(
        allocator.allocate_va_and_register_map(&[frame(0x1000)]),
        Err(VmapAllocError::DuplicateMapping)
    );
    assert_eq!(allocator.unregister_allocation(a), Some(2));
    assert_eq!(allocator.allocate_va_and_register_map(&[frame(0x1000)]), Ok(a));
}

#[test]
fn addresses_of_the_region() {
    assert!(is_vmap_address(&region(), VirtAddr::new(VMAP_START)));
    assert!(is_vmap_address(&region(), VirtAddr::new(VMAP_END - 1)));
    assert!(!is_vmap_address(&region(), VirtAddr::new(VMAP_END)));
    assert!(!is_vmap_address(&region(), VirtAddr::new(VMAP_START - 1)));
}

#[test]
fn frames_and_addresses() {
    assert_eq!(frame(0x1fff).start_address(), 0x1000);
    assert_eq!(frame(0x2000).start_address(), 0x2000);
    assert_eq!(VirtAddr::try_new(0x8000_0000_0000), None);
    assert_eq!(VirtAddr::try_new(0xffff_7fff_ffff_ffff), None);
    assert_eq!(VirtAddr::try_new(0x7fff_ffff_ffff).unwrap().as_u64(), 0x7fff_ffff_ffff);
    assert_eq!(
        VirtAddr::try_new(0xffff_8000_0000_0000).unwrap().as_u64(),
        0xffff_8000_0000_0000
    );
    assert_eq!(VmapRegionAllocatorInner::vpn_to_va(5).as_u64(), 0x5000);
}

#[test]
fn no_page_is_lost() {
    let pages = 12;
    let mut allocator = VmapRegionAllocator::new(small(pages));
    let one = allocator.allocate_va_and_register_map(&[frame(0x1000)]).unwrap();
    let two = allocator.allocate_va_and_register_map(&[frame(0x2000), frame(0x3000)]).unwrap();
    let three = allocator.allocate_va_and_register_map(&[frame(0x4000)]).unwrap();
    for va in [one, two, three] {
        assert!(is_vmap_address(&small(pages), va));
    }
    assert_eq!(allocator.unregister_allocation(two), Some(2));
    assert_eq!(allocator.unregister_allocation(one), Some(1));
    assert_eq!(allocator.unregister_allocation(three), Some(1));
    // What came back is one stretch from the beginning of the region.
    let used = 4 + 3 * GUARD_PAGES;
    let frames: Vec<PhysFrame> =
        (0..used - GUARD_PAGES).map(|i| frame(0x1000 * (i + 1))).collect();
    let all = allocator.allocate_va_and_register_map(&frames).unwrap();
    assert_eq!(all.as_u64(), VMAP_START);
}
