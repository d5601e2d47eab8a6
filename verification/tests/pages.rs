//! Page tables.

use std::collections::HashMap;

use litebox_optee::addr::PhysFrame;
use litebox_optee::page_ops::{
    map_phys_frame_range, mprotect_pages, must_map_frame, remap_pages, RemapAction, RemapPages,
};
use litebox_optee::page_walk::{cleanup_action, PageWalk, WalkStep};
use litebox_optee::paging::{
    access_error, can_handle_page_fault, finish_page_fault, handle_page_fault, map_pages,
    page_fault_target, unmap_action, unmap_pages, vmflags_to_pteflags, DeallocationError, FaultStep, MapToError,
    PageFaultError, PageRange, PageTableFlags, PermissionUpdateError, RemapError, Translation,
    UnmapAction, UnmapError, VmFlags,
};

const NX: u64 = 1 << 63;

fn vm(read: bool, write: bool, execute: bool) -> VmFlags {
    VmFlags { read, write, execute }
}

fn flags(bits: u64) -> PageTableFlags {
    PageTableFlags { bits }
}

fn frame(start: u64) -> PhysFrame {
    PhysFrame { start }
}

fn mapped(start: u64, bits: u64) -> Translation {
    Translation::Mapped { frame: frame(start), flags: flags(bits) }
}

#[test]
fn flags_of_memory() {
    assert_eq!(vmflags_to_pteflags(vm(false, false, false)).bits, NX);
    assert_eq!(vmflags_to_pteflags(vm(true, false, false)).bits, NX | 4);
    assert_eq!(vmflags_to_pteflags(vm(false, true, false)).bits, NX | 6);
    assert_eq!(vmflags_to_pteflags(vm(false, false, true)).bits, 0);
    assert_eq!(vmflags_to_pteflags(vm(true, true, true)).bits, 6);
}

#[test]
fn access_that_is_not_allowed() {
    assert!(access_error(2, vm(true, false, true)));
    assert!(!access_error(3, vm(false, true, false)));
    assert!(access_error(1, vm(true, true, true)));
    assert!(!access_error(0, vm(false, false, true)));
    assert!(access_error(4, vm(false, false, false)));
}

#[test]
fn page_faults() {
    assert_eq!(
        handle_page_fault(Translation::NotMapped, flags(NX | 4), 0),
        FaultStep::MapFrame { flags: flags(NX | 5), table_flags: flags(7) }
    );
    assert_eq!(handle_page_fault(mapped(0, 3), flags(0), 2), FaultStep::Resolved);
    assert_eq!(handle_page_fault(mapped(0, 1), flags(0), 4), FaultStep::Resolved);
    assert!(!can_handle_page_fault(&mapped(0, 1), 2));
    assert!(!can_handle_page_fault(&mapped(0, 3), 1));
    assert!(!can_handle_page_fault(&Translation::InvalidFrameAddress(5), 0));
    assert!(can_handle_page_fault(&Translation::NotMapped, 3));
    assert_eq!(finish_page_fault(frame(0x9000), Ok(())), (Ok(()), None));
    // A frame that could not be mapped is given back.
    assert_eq!(
        finish_page_fault(frame(0x9000), Err(MapToError::ParentEntryHugePage)),
        (Err(PageFaultError::HugePage), Some(frame(0x9000)))
    );
    assert_eq!(
        finish_page_fault(frame(0x9000), Err(MapToError::FrameAllocationFailed)),
        (Err(PageFaultError::AllocationFailed), Some(frame(0x9000)))
    );
}

#[test]
fn populating_maps_every_page() {
    let mut space = HashMap::from([(0x2000, (frame(0x70000), flags(3)))]);
    let mut fresh = 0xa0000;
    let mut cursor = map_pages(PageRange { start: 0x1000, end: 0x4000 }, true);
    while let Some(page) = cursor.next_page() {
        let translation = match space.get(&page) {
            Some((frame, flags)) => Translation::Mapped { frame: *frame, flags: *flags },
            None => Translation::NotMapped,
        };
        assert!(can_handle_page_fault(&translation, 0));
        if let FaultStep::MapFrame { flags, .. } = handle_page_fault(translation, flags(NX | 4), 0) {
            space.insert(page, (frame(fresh), flags));
            assert_eq!(finish_page_fault(frame(fresh), Ok(())), (Ok(()), None));
            fresh += 0x1000;
        }
    }
    assert_eq!(space.len(), 3);
    assert_eq!(space[&0x1000], (frame(0xa0000), flags(NX | 5)));
    assert_eq!(space[&0x2000], (frame(0x70000), flags(3)));
    assert_eq!(space[&0x3000], (frame(0xa1000), flags(NX | 5)));
}

#[test]
fn cleaning_up_gives_frames_back() {
    assert_eq!(
        cleanup_action(Ok(frame(0x5000))),
        UnmapAction { free: Some(frame(0x5000)), flush: false }
    );
    for error in [
        UnmapError::PageNotMapped,
        UnmapError::ParentEntryHugePage,
        UnmapError::InvalidFrameAddress(1),
    ] {
        assert_eq!(cleanup_action(Err(error)), UnmapAction { free: None, flush: false });
    }
}

#[test]
fn pages_are_populated() {
    let range = PageRange { start: 0x1000, end: 0x4000 };
    let mut cursor = map_pages(range, true);
    assert_eq!(cursor.next_page(), Some(0x1000));
    assert_eq!(cursor.next_page(), Some(0x2000));
    assert_eq!(cursor.next_page(), Some(0x3000));
    assert_eq!(cursor.next_page(), None);
    assert_eq!(map_pages(range, false).next_page(), None);
    // Up to the very end of the lower half.
    let mut cursor = map_pages(PageRange { start: 0x7fff_ffff_f000, end: 0x8000_0000_0000 }, true);
    assert_eq!(cursor.next_page(), Some(0x7fff_ffff_f000));
    assert_eq!(cursor.next_page(), None);
}

#[test]
fn a_fault_is_that_of_its_page() {
    assert_eq!(page_fault_target(0x1fff, vm(true, false, false)), (0x1000, flags(NX | 4)));
    assert_eq!(page_fault_target(0x2000, vm(true, true, true)), (0x2000, flags(6)));
    assert_eq!(
        page_fault_target(u64::MAX, vm(false, false, false)),
        (0xffff_ffff_ffff_f000, flags(NX))
    );
}

#[test]
fn pages_are_unmapped() {
    assert_eq!(
        unmap_pages(PageRange { start: 0x1001, end: 0x2000 }),
        Err(DeallocationError::Unaligned)
    );
    assert_eq!(
        unmap_pages(PageRange { start: 0x1000, end: 0x2001 }),
        Err(DeallocationError::Unaligned)
    );
    let mut space: HashMap<u64, u64> = HashMap::from([(0x1000, 0xa000), (0x3000, 0xb000), (0x4000, 0xc000)]);
    let mut cursor = unmap_pages(PageRange { start: 0x1000, end: 0x4000 }).unwrap();
    let mut freed = Vec::new();
    while let Some(page) = cursor.next_page() {
        let unmapped = space.remove(&page).map(frame).ok_or(UnmapError::PageNotMapped);
        if let Some(f) = unmap_action(unmapped, true).free {
            freed.push(f.start);
        }
    }
    assert_eq!(freed, vec![0xa000, 0xb000]);
    assert_eq!(space, HashMap::from([(0x4000, 0xc000)]));
    assert_eq!(
        unmap_action(Ok(frame(0x1000)), false),
        UnmapAction { free: None, flush: true }
    );
    assert_eq!(
        unmap_action(Err(UnmapError::PageNotMapped), true),
        UnmapAction { free: None, flush: false }
    );
}

/// Moves pages in a model of an address space.
fn remap(
    space: &mut HashMap<u64, (u64, u64)>,
    mut state: RemapPages,
    out_of_memory: bool,
) -> Result<(), RemapError> {
    loop {
        match state.action() {
            RemapAction::Translate(page) => state.take_translation(match space.get(&page) {
                Some((f, fl)) => mapped(*f, *fl),
                None => Translation::NotMapped,
            }),
            RemapAction::Unmap(page) => {
                let (f, _) = space.remove(&page).unwrap();
                state.take_unmapped(frame(f));
            }
            RemapAction::MapTo { page, frame: f, flags: fl } => {
                let mapped = if out_of_memory {
                    Err(MapToError::FrameAllocationFailed)
                } else if space.contains_key(&page) {
                    Err(MapToError::PageAlreadyMapped(frame(space[&page].0)))
                } else {
                    space.insert(page, (f.start, fl.bits));
                    Ok(())
                };
                state.take_mapped(mapped)?;
            }
            RemapAction::Done => return Ok(()),
        }
    }
}

#[test]
fn pages_are_moved() {
    let old = PageRange { start: 0x1000, end: 0x4000 };
    let new = PageRange { start: 0x9000, end: 0xc000 };
    let mut space =
        HashMap::from([(0x1000, (0xa000, 7)), (0x3000, (0xb000, 5)), (0x5000, (0xc000, 1))]);
    assert_eq!(remap(&mut space, remap_pages(old, new).unwrap(), false), Ok(()));
    assert_eq!(
        space,
        HashMap::from([(0x9000, (0xa000, 7)), (0xb000, (0xb000, 5)), (0x5000, (0xc000, 1))])
    );
    let mut taken = HashMap::from([(0x1000, (0xa000, 7)), (0x9000, (0xb000, 5))]);
    assert_eq!(
        remap(&mut taken, remap_pages(old, new).unwrap(), false),
        Err(RemapError::AlreadyAllocated)
    );
    // Beside a page that is not mapped the new page stays as it was.
    let mut beside = HashMap::from([(0x1000, (0xa000, 7)), (0xa000, (0xb000, 5))]);
    assert_eq!(remap(&mut beside, remap_pages(old, new).unwrap(), false), Ok(()));
    assert_eq!(beside, HashMap::from([(0x9000, (0xa000, 7)), (0xa000, (0xb000, 5))]));
    let mut full = HashMap::from([(0x1000, (0xa000, 7))]);
    assert_eq!(
        remap(&mut full, remap_pages(old, new).unwrap(), true),
        Err(RemapError::OutOfMemory)
    );
    for (a, b) in [
        (PageRange { start: 0x1001, end: 0x4000 }, new),
        (old, PageRange { start: 0x9001, end: 0xc000 }),
        (PageRange { start: 0x1000, end: 0x4001 }, new),
    ] {
        assert_eq!(remap_pages(a, b), Err(RemapError::Unaligned));
    }
}

#[test]
fn pages_are_protected() {
    let mask = flags(NX | 6);
    assert_eq!(
        mprotect_pages(PageRange { start: 0x1001, end: 0x3000 }, vm(true, false, false), mask),
        Err(PermissionUpdateError::Unaligned)
    );
    let protect =
        mprotect_pages(PageRange { start: 0x1000, end: 0x2001 }, vm(true, true, false), mask).unwrap();
    let mut cursor = protect.cursor;
    assert_eq!(cursor.next_page(), Some(0x1000));
    assert_eq!(cursor.next_page(), Some(0x2000));
    assert_eq!(cursor.next_page(), None);
    // Write access is kept but not added; the bits outside the mask stay.
    assert_eq!(protect.update(mapped(0, 0x27)), Some(flags(NX | 0x27)));
    assert_eq!(protect.update(mapped(0, 0x25)), Some(flags(NX | 0x25)));
    assert_eq!(protect.update(Translation::NotMapped), None);
    // A page that has exactly the flags is left alone.
    assert_eq!(protect.update(mapped(0, NX | 6)), None);
    assert_eq!(protect.update(mapped(0, NX | 4)), None);
    let read_only =
        mprotect_pages(PageRange { start: 0x1000, end: 0x2000 }, vm(true, false, true), mask).unwrap();
    assert_eq!(read_only.update(mapped(0, NX | 0x27)), Some(flags(0x25)));
}

#[test]
fn frames_are_mapped_in_place() {
    let mut frames = map_phys_frame_range(frame(0x1000), frame(0x3000));
    assert_eq!(frames.next_frame(), Some(frame(0x1000)));
    assert_eq!(frames.next_frame(), Some(frame(0x2000)));
    assert_eq!(frames.next_frame(), None);
    assert!(must_map_frame(frame(0x1000), Translation::NotMapped));
    assert!(!must_map_frame(frame(0x1000), mapped(0x1000, 3)));
}

fn table(entries: &[(usize, u64)]) -> Vec<u64> {
    let mut table = vec![0u64; 512];
    for (i, entry) in entries {
        table[*i] = *entry;
    }
    table
}

fn walk(tables: &HashMap<u64, Vec<u64>>, lo: u64, hi: u64) -> (Vec<u64>, Vec<u64>, Vec<u64>) {
    let mut read = Vec::new();
    let mut walk = PageWalk::cleanup_user_mappings(0x1000, tables[&0x1000].clone(), lo, hi);
    loop {
        match walk.step() {
            WalkStep::Continue => {}
            WalkStep::ReadTable(f) => {
                read.push(f);
                walk.take_table(tables[&f].clone());
            }
            WalkStep::Done => break,
        }
    }
    let (pages, frames) = walk.finish();
    (pages, frames, read)
}

#[test]
fn a_walk_collects_user_pages_and_tables() {
    let tables = HashMap::from([
        // Entries that are not present or map huge pages are not followed.
        (0x1000, table(&[(0, 0x2003), (1, 0x8002), (223, 0x3007), (300, 0x4003)])),
        (0x2000, table(&[(0, 0x5003), (7, 0x9083)])),
        (0x3000, table(&[(511, 0x6003)])),
        (0x4000, table(&[(0, 0x7003)])),
        (0x5000, table(&[(0, 0xa003), (3, 0x9083)])),
        (0x6000, table(&[(510, 0xb003), (511, 0xc003)])),
        (0x7000, table(&[(1, 0xd003)])),
        (0xa000, table(&[(1, 0x11003)])),
        (0xb000, table(&[(0, 0x12003), (511, 0x13000)])),
        (0xc000, table(&[(510, 0x14003), (511, 0x15003)])),
        (0xd000, table(&[(2, 0x16003)])),
    ]);
    let base: u64 = (223 << 39) | (511 << 30);
    let lo = base;
    let hi = base | (511 << 21) | (511 << 12);
    let (pages, frames, read) = walk(&tables, lo, hi);
    assert_eq!(
        pages,
        vec![
            base | (510 << 21),
            base | (510 << 21) | (511 << 12),
            base | (511 << 21) | (510 << 12),
        ]
    );
    assert_eq!(
        frames,
        vec![0xa000, 0x5000, 0x2000, 0xb000, 0xc000, 0x6000, 0x3000, 0xd000, 0x7000, 0x4000]
    );
    assert_eq!(
        read,
        vec![0x2000, 0x5000, 0xa000, 0x3000, 0x6000, 0xb000, 0xc000, 0x4000, 0x7000, 0xd000]
    );
}

#[test]
fn the_upper_half_is_walked_with_its_own_addresses() {
    let tables = HashMap::from([
        (0x1000, table(&[(256, 0x2003)])),
        (0x2000, table(&[(0, 0x3003)])),
        (0x3000, table(&[(0, 0x4003)])),
        (0x4000, table(&[(0, 0x5003)])),
    ]);
    let (pages, frames, _) = walk(&tables, 0, u64::MAX);
    assert_eq!(pages, vec![0xffff_8000_0000_0000]);
    assert_eq!(frames, vec![0x4000, 0x3000, 0x2000]);
    assert_eq!(walk(&tables, 0, 0x8000_0000_0000).0, Vec::<u64>::new());
}

#[test]
fn an_empty_table_holds_nothing() {
    let tables = HashMap::from([(0x1000, table(&[]))]);
    assert_eq!(walk(&tables, 0, u64::MAX), (vec![], vec![], vec![]));
}
