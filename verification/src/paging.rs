//! Decisions about page tables: which pages are mapped, unmapped, moved and
//! protected, in which order, and with which flags.
//!
//! The tables themselves are walked and changed by the caller. Each operation here
//! says what to do next and takes the outcome.

use vstd::prelude::*;

use crate::addr::{canonical, page_aligned, PhysFrame, LOWER_HALF_END, UPPER_HALF_START};

verus! {

/// The flags of a page table entry.
#[derive(Clone, Copy, PartialEq, Eq, Debug, Structural)]
pub struct PageTableFlags {
    pub bits: u64,
}

impl PageTableFlags {
    /// The page is mapped.
    pub const PRESENT: u64 = 0x1;

    /// The page can be written to.
    pub const WRITABLE: u64 = 0x2;

    /// The page can be accessed in user mode.
    pub const USER_ACCESSIBLE: u64 = 0x4;

    /// The entry maps a page itself where it could refer to a table.
    pub const HUGE_PAGE: u64 = 0x80;

    /// No code can be run from the page.
    pub const NO_EXECUTE: u64 = 0x8000_0000_0000_0000;

    /// Every bit of `flag` is set.
    pub open spec fn has(self, flag: u64) -> bool {
        self.bits & flag == flag
    }

    /// Whether every bit of `flag` is set.
    pub fn contains(&self, flag: u64) -> (r: bool)
        ensures
            r == self.has(flag),
    {
        self.bits & flag == flag
    }
}

/// What a range of virtual memory may be used for.
#[derive(Clone, Copy, PartialEq, Eq, Debug, Structural)]
pub struct VmFlags {
    pub read: bool,
    pub write: bool,
    pub execute: bool,
}

/// The entry flags for virtual memory: accessible in user mode if it may be read or
/// written, writable if it may be written, and not executable unless it may be
/// executed.
pub open spec fn pte_flags(values: VmFlags) -> u64 {
    (if values.read || values.write {
        PageTableFlags::USER_ACCESSIBLE
    } else {
        0
    }) | (if values.write {
        PageTableFlags::WRITABLE
    } else {
        0
    }) | (if !values.execute {
        PageTableFlags::NO_EXECUTE
    } else {
        0
    })
}

/// The entry flags for virtual memory.
pub fn vmflags_to_pteflags(values: VmFlags) -> (r: PageTableFlags)
    ensures
        r.bits == pte_flags(values),
{
    let user: u64 = if values.read || values.write {
        PageTableFlags::USER_ACCESSIBLE
    } else {
        0
    };
    let write: u64 = if values.write {
        PageTableFlags::WRITABLE
    } else {
        0
    };
    let no_execute: u64 = if !values.execute {
        PageTableFlags::NO_EXECUTE
    } else {
        0
    };
    PageTableFlags { bits: user | write | no_execute }
}

/// The page was present.
pub const FAULT_PROTECTION_VIOLATION: u64 = 0x1;

/// The fault was caused by a write.
pub const FAULT_CAUSED_BY_WRITE: u64 = 0x2;

/// The code of a fault says that it was caused by a write.
pub open spec fn by_write(error_code: u64) -> bool {
    error_code & FAULT_CAUSED_BY_WRITE == FAULT_CAUSED_BY_WRITE
}

/// The code of a fault says that the page was present.
pub open spec fn on_present(error_code: u64) -> bool {
    error_code & FAULT_PROTECTION_VIOLATION == FAULT_PROTECTION_VIOLATION
}

/// Whether a fault is an access that the memory does not allow: a write to memory
/// that may not be written, another fault on a page that is present, or any access
/// to memory that may not be used at all.
pub fn access_error(error_code: u64, flags: VmFlags) -> (r: bool)
    ensures
        r == if by_write(error_code) {
            !flags.write
        } else {
            on_present(error_code) || !(flags.read || flags.write || flags.execute)
        },
{
    if error_code & FAULT_CAUSED_BY_WRITE == FAULT_CAUSED_BY_WRITE {
        return !flags.write;
    }
    if error_code & FAULT_PROTECTION_VIOLATION == FAULT_PROTECTION_VIOLATION {
        return true;
    }
    if !flags.read && !flags.write && !flags.execute {
        return true;
    }
    false
}

/// What looking up a page gives.
#[derive(Clone, Copy, PartialEq, Eq, Debug, Structural)]
pub enum Translation {
    /// The page is mapped to this frame with these flags.
    Mapped { frame: PhysFrame, flags: PageTableFlags },
    /// The page is not mapped.
    NotMapped,
    /// The entry of the page holds no address of a frame.
    InvalidFrameAddress(u64),
}

/// Why a page could not be unmapped.
#[derive(Clone, Copy, PartialEq, Eq, Debug, Structural)]
pub enum UnmapError {
    ParentEntryHugePage,
    PageNotMapped,
    InvalidFrameAddress(u64),
}

/// Why a page could not be mapped.
#[derive(Clone, Copy, PartialEq, Eq, Debug, Structural)]
pub enum MapToError {
    FrameAllocationFailed,
    ParentEntryHugePage,
    PageAlreadyMapped(PhysFrame),
}

/// Why a page fault could not be handled.
#[derive(Clone, Copy, PartialEq, Eq, Debug, Structural)]
pub enum PageFaultError {
    HugePage,
    AllocationFailed,
}

/// Why pages could not be unmapped.
#[derive(Clone, Copy, PartialEq, Eq, Debug, Structural)]
pub enum DeallocationError {
    Unaligned,
}

/// Why pages could not be moved.
#[derive(Clone, Copy, PartialEq, Eq, Debug, Structural)]
pub enum RemapError {
    Unaligned,
    AlreadyAllocated,
    OutOfMemory,
}

/// Why pages could not be protected.
#[derive(Clone, Copy, PartialEq, Eq, Debug, Structural)]
pub enum PermissionUpdateError {
    Unaligned,
}

/// What is to be done about a page fault.
#[derive(Clone, Copy, PartialEq, Eq, Debug, Structural)]
pub enum FaultStep {
    /// Nothing: the page has become accessible meanwhile.
    Resolved,
    /// Map a fresh frame at the page with `flags`, tables on the way with
    /// `table_flags`.
    MapFrame { flags: PageTableFlags, table_flags: PageTableFlags },
}

/// A fault on a page with this translation can be handled: it is not mapped, or it
/// was mapped meanwhile so that the access is allowed.
pub open spec fn fault_can_be_handled(translation: Translation, error_code: u64) -> bool {
    match translation {
        Translation::Mapped { flags, .. } => if by_write(error_code) {
            flags.has(PageTableFlags::WRITABLE)
        } else {
            !on_present(error_code)
        },
        Translation::NotMapped => true,
        Translation::InvalidFrameAddress(_) => false,
    }
}

/// Whether a fault on a page with this translation can be handled.
pub fn can_handle_page_fault(translation: &Translation, error_code: u64) -> (r: bool)
    ensures
        r == fault_can_be_handled(*translation, error_code),
{
    match translation {
        Translation::Mapped { flags, .. } => {
            if error_code & FAULT_CAUSED_BY_WRITE == FAULT_CAUSED_BY_WRITE {
                flags.contains(PageTableFlags::WRITABLE)
            } else {
                error_code & FAULT_PROTECTION_VIOLATION != FAULT_PROTECTION_VIOLATION
            }
        },
        Translation::NotMapped => true,
        Translation::InvalidFrameAddress(_) => false,
    }
}

/// The page in which a fault occurred, and the flags that it is to have.
pub fn page_fault_target(fault_addr: u64, flags: VmFlags) -> (r: (u64, PageTableFlags))
    requires
        canonical(fault_addr),
    ensures
        page_aligned(r.0),
        r.0 <= fault_addr < r.0 + 4096,
        canonical(r.0),
        r.1.bits == pte_flags(flags),
{
    (fault_addr - fault_addr % 4096, vmflags_to_pteflags(flags))
}

/// What is to be done about a fault on a page with this translation that is to have
/// `flags`: nothing if it is mapped, else a fresh frame is mapped there.
pub open spec fn fault_step(translation: Translation, flags: PageTableFlags) -> FaultStep {
    match translation {
        Translation::Mapped { .. } => FaultStep::Resolved,
        _ => FaultStep::MapFrame {
            flags: PageTableFlags { bits: flags.bits | PageTableFlags::PRESENT },
            table_flags: PageTableFlags { bits: 0x7 },
        },
    }
}

/// Decides what is to be done about a fault on a page that is to have `flags`.
pub fn handle_page_fault(translation: Translation, flags: PageTableFlags, error_code: u64) -> (r:
    FaultStep)
    requires
        fault_can_be_handled(translation, error_code),
    ensures
        r == fault_step(translation, flags),
{
    match translation {
        Translation::Mapped { .. } => FaultStep::Resolved,
        _ => {
            let table_bits: u64 = PageTableFlags::PRESENT | PageTableFlags::WRITABLE
                | PageTableFlags::USER_ACCESSIBLE;
            assert(0x1u64 | 0x2u64 | 0x4u64 == 0x7u64) by (bit_vector);
            FaultStep::MapFrame {
                flags: PageTableFlags { bits: flags.bits | PageTableFlags::PRESENT },
                table_flags: PageTableFlags { bits: table_bits },
            }
        },
    }
}

/// The result of a fault for which a fresh frame was to be mapped.
pub open spec fn fault_result(mapped: Result<(), MapToError>) -> Result<(), PageFaultError> {
    match mapped {
        Ok(()) => Ok(()),
        Err(MapToError::ParentEntryHugePage) => Err(PageFaultError::HugePage),
        Err(_) => Err(PageFaultError::AllocationFailed),
    }
}

/// The frame that is to be given back once it was tried to map the fresh `frame`: the
/// frame itself where that failed.
pub open spec fn fault_refund(frame: PhysFrame, mapped: Result<(), MapToError>) -> Option<
    PhysFrame,
> {
    if mapped is Err {
        Some(frame)
    } else {
        None
    }
}

/// Takes the outcome of mapping the fresh `frame` for a fault. Returns the result of
/// the fault, and the frame if it is to be given back.
pub fn finish_page_fault(frame: PhysFrame, mapped: Result<(), MapToError>) -> (r: (
    Result<(), PageFaultError>,
    Option<PhysFrame>,
))
    requires
        !(mapped matches Err(MapToError::PageAlreadyMapped(_))),
    ensures
        r.0 == fault_result(mapped),
        r.1 == fault_refund(frame, mapped),
{
    match mapped {
        Ok(()) => (Ok(()), None),
        Err(MapToError::ParentEntryHugePage) => (Err(PageFaultError::HugePage), Some(frame)),
        Err(_) => (Err(PageFaultError::AllocationFailed), Some(frame)),
    }
}

/// A range of virtual addresses.
#[derive(Clone, Copy, PartialEq, Eq, Debug, Structural)]
pub struct PageRange {
    /// The first address.
    pub start: u64,
    /// The first address behind the range.
    pub end: u64,
}

/// Both addresses are canonical, and all between them are too.
pub open spec fn canonical_span(start: u64, end: u64) -> bool {
    &&& canonical(start)
    &&& canonical(end)
    &&& start < end ==> (start < LOWER_HALF_END <==> end < LOWER_HALF_END)
}

/// All addresses from `start` up to, not including, `end` are canonical.
pub open spec fn canonical_pages(start: u64, end: u64) -> bool {
    start >= end || end <= LOWER_HALF_END || start >= UPPER_HALF_START
}

/// The pages of a range that are still to be visited, in ascending order.
#[derive(Clone, Copy, PartialEq, Eq, Debug, Structural)]
pub struct PageCursor {
    pub next: u64,
    pub end: u64,
}

impl PageCursor {
    /// The cursor visits whole pages at canonical addresses.
    pub open spec fn wf(self) -> bool {
        &&& page_aligned(self.next)
        &&& page_aligned(self.end)
        &&& canonical_pages(self.next, self.end)
    }

    /// The pages that are still to be visited.
    pub open spec fn pages(self) -> Seq<u64> {
        pages_between(self.next as int, self.end as int)
    }

    /// The next page, or `None` if all have been visited.
    pub fn next_page(&mut self) -> (r: Option<u64>)
        requires
            old(self).wf(),
        ensures
            final(self).wf(),
            final(self).end == old(self).end,
            old(self).next >= old(self).end ==> r is None && *final(self) == *old(self),
            old(self).next < old(self).end ==> {
                &&& r == Some(old(self).next)
                &&& canonical(old(self).next)
                &&& final(self).next == old(self).next + 4096
            },
            match r {
                Some(page) => old(self).pages() == seq![page] + final(self).pages(),
                None => old(self).pages() == Seq::<u64>::empty(),
            },
    {
        if self.next >= self.end {
            return None;
        }
        let page: u64 = self.next;
        self.next = page + 4096;
        Some(page)
    }
}

/// The first addresses of the pages from `next` up to, not including, `end`.
pub open spec fn pages_between(next: int, end: int) -> Seq<u64>
    decreases
            (if next < end {
                end - next
            } else {
                0
            }),
{
    if next >= end {
        Seq::empty()
    } else {
        seq![next as u64] + pages_between(next + 4096, end)
    }
}

/// What [`pages_between`] holds.
pub proof fn lemma_pages_between(next: int, end: int, page: u64)
    requires
        0 <= next,
        next % 4096 == 0,
        end <= u64::MAX,
    ensures
        pages_between(next, end).contains(page) <==> next <= page < end && page as int % 4096 == 0,
    decreases
            (if next < end {
                end - next
            } else {
                0
            }),
{
    if next < end {
        let rest = pages_between(next + 4096, end);
        lemma_pages_between(next + 4096, end, page);
        let all = seq![next as u64] + rest;
        assert(all[0] == next as u64);
        if rest.contains(page) {
            let i = choose|i: int| 0 <= i < rest.len() && rest[i] == page;
            assert(all[i + 1] == page);
        }
        if all.contains(page) {
            let i = choose|i: int| 0 <= i < all.len() && all[i] == page;
            if i > 0 {
                assert(rest[i - 1] == page);
            }
        }
    }
}

/// The range of pages that are to be populated can be visited: its bounds are those
/// of pages, and its pages lie at canonical addresses.
pub open spec fn can_visit(range: PageRange) -> bool {
    page_aligned(range.start) && page_aligned(range.end) && canonical_pages(range.start, range.end)
}

/// The pages that are mapped at once for a new range: all of them if they are to be
/// populated, none if they are mapped when they are first accessed.
pub fn map_pages(range: PageRange, populate_pages: bool) -> (r: PageCursor)
    requires
        populate_pages ==> can_visit(range),
    ensures
        r.wf(),
        r.pages() == if populate_pages {
            pages_between(range.start as int, range.end as int)
        } else {
            Seq::empty()
        },
        populate_pages ==> r == (PageCursor { next: range.start, end: range.end }),
        !populate_pages ==> r.next >= r.end,
{
    if populate_pages {
        PageCursor { next: range.start, end: range.end }
    } else {
        PageCursor { next: 0, end: 0 }
    }
}

/// The bounds of the range are checked in order: the second address is only looked at
/// where the first one is that of a page.
pub open spec fn can_unmap(range: PageRange) -> bool {
    &&& canonical(range.start)
    &&& page_aligned(range.start) ==> {
        &&& canonical(range.end)
        &&& page_aligned(range.end) ==> canonical_span(range.start, range.end)
    }
}

/// Begins to unmap the pages of a range; refuses a range that does not consist of
/// whole pages.
pub fn unmap_pages(range: PageRange) -> (r: Result<PageCursor, DeallocationError>)
    requires
        can_unmap(range),
    ensures
        match r {
            Ok(cursor) => {
                &&& page_aligned(range.start) && page_aligned(range.end)
                &&& cursor.wf()
                &&& cursor == (PageCursor { next: range.start, end: range.end })
            },
            Err(error) => {
                &&& !(page_aligned(range.start) && page_aligned(range.end))
                &&& error == DeallocationError::Unaligned
            },
        },
{
    if range.start % 4096 != 0 {
        return Err(DeallocationError::Unaligned);
    }
    if range.end % 4096 != 0 {
        return Err(DeallocationError::Unaligned);
    }
    Ok(PageCursor { next: range.start, end: range.end })
}

/// What is to be done after a page was unmapped.
#[derive(Clone, Copy, PartialEq, Eq, Debug, Structural)]
pub struct UnmapAction {
    /// The frame that is to be given back.
    pub free: Option<PhysFrame>,
    /// Whether what the processor remembers of the page is to be dropped.
    pub flush: bool,
}

/// Decides what is to be done after unmapping a page. A page that was not mapped is
/// passed over.
pub fn unmap_action(unmapped: Result<PhysFrame, UnmapError>, dealloc_frames: bool) -> (r:
    UnmapAction)
    requires
        unmapped matches Err(error) ==> error == UnmapError::PageNotMapped,
    ensures
        r == match unmapped {
            Ok(frame) => UnmapAction {
                free: if dealloc_frames {
                    Some(frame)
                } else {
                    None
                },
                flush: true,
            },
            Err(_) => UnmapAction { free: None, flush: false },
        },
{
    match unmapped {
        Ok(frame) => {
            if dealloc_frames {
                UnmapAction { free: Some(frame), flush: true }
            } else {
                UnmapAction { free: None, flush: true }
            }
        },
        Err(_) => UnmapAction { free: None, flush: false },
    }
}

/// What a page is mapped to.
pub struct Mapping {
    pub frame: PhysFrame,
    pub flags: PageTableFlags,
}

/// The mapped pages of an address space, by their first address.
pub type AddressSpace = Map<u64, Mapping>;

/// What looking up `page` gives.
pub open spec fn translate(space: AddressSpace, page: u64) -> Translation {
    if space.contains_key(page) {
        Translation::Mapped { frame: space[page].frame, flags: space[page].flags }
    } else {
        Translation::NotMapped
    }
}

/// What unmapping `page` gives.
pub open spec fn unmapped(space: AddressSpace, page: u64) -> Result<PhysFrame, UnmapError> {
    if space.contains_key(page) {
        Ok(space[page].frame)
    } else {
        Err(UnmapError::PageNotMapped)
    }
}

/// The address space once it was tried to map `mapping` at `page`.
pub open spec fn mapped_at(
    space: AddressSpace,
    page: u64,
    mapping: Mapping,
    mapped: Result<(), MapToError>,
) -> AddressSpace {
    if mapped is Ok {
        space.insert(page, mapping)
    } else {
        space
    }
}

/// What a fault leads to.
#[verifier::ext_equal]
pub struct FaultOutcome {
    /// The address space afterwards.
    pub space: AddressSpace,
    /// The result of the fault.
    pub result: Result<(), PageFaultError>,
    /// The frame that is given back.
    pub refund: Option<PhysFrame>,
}

/// What a fault on `page`, which is to have `flags`, leads to: `frame` is the fresh
/// frame and `mapped` the outcome of mapping it, if it comes to that.
pub open spec fn fault_run(
    space: AddressSpace,
    page: u64,
    flags: PageTableFlags,
    frame: PhysFrame,
    mapped: Result<(), MapToError>,
) -> FaultOutcome {
    match fault_step(translate(space, page), flags) {
        FaultStep::Resolved => FaultOutcome { space, result: Ok(()), refund: None },
        FaultStep::MapFrame { flags, .. } => FaultOutcome {
            space: mapped_at(space, page, Mapping { frame, flags }, mapped),
            result: fault_result(mapped),
            refund: fault_refund(frame, mapped),
        },
    }
}

/// A fault on a page that is mapped changes nothing. On one that is not, either the
/// page is mapped to the fresh frame with its flags and present, or the fault fails,
/// the page stays unmapped and the fresh frame is given back. No other page changes.
pub proof fn law_page_fault(
    space: AddressSpace,
    page: u64,
    flags: PageTableFlags,
    frame: PhysFrame,
    mapped: Result<(), MapToError>,
)
    requires
        !(mapped matches Err(MapToError::PageAlreadyMapped(_))),
    ensures
        ({
            let after = fault_run(space, page, flags, frame, mapped);
            &&& space.contains_key(page) ==> after == (FaultOutcome {
                space,
                result: Ok(()),
                refund: None,
            })
            &&& !space.contains_key(page) && mapped is Ok ==> after == (FaultOutcome {
                space: space.insert(
                    page,
                    Mapping {
                        frame,
                        flags: PageTableFlags { bits: flags.bits | PageTableFlags::PRESENT },
                    },
                ),
                result: Ok(()),
                refund: None,
            })
            &&& !space.contains_key(page) && mapped is Err ==> {
                &&& after.space == space
                &&& !after.space.contains_key(page)
                &&& after.refund == Some(frame)
                &&& after.result == Err::<(), PageFaultError>(
                    (if mapped == Err::<(), MapToError>(MapToError::ParentEntryHugePage) {
                        PageFaultError::HugePage
                    } else {
                        PageFaultError::AllocationFailed
                    }),
                )
            }
            &&& forall|p: u64|
                p != page ==> (#[trigger] after.space.contains_key(p) <==> space.contains_key(p))
                    && (space.contains_key(p) ==> after.space[p] == space[p])
        }),
{
}

/// The address space once the pages from `next` to `end` are populated one after the
/// other, each by a fault that succeeds: `frames` gives the fresh frame of each page.
pub open spec fn populate_run(
    space: AddressSpace,
    next: int,
    end: int,
    flags: PageTableFlags,
    frames: spec_fn(u64) -> PhysFrame,
) -> AddressSpace
    decreases
            (if next < end {
                end - next
            } else {
                0
            }),
{
    if next >= end {
        space
    } else {
        populate_run(
            fault_run(space, next as u64, flags, frames(next as u64), Ok(())).space,
            next + 4096,
            end,
            flags,
            frames,
        )
    }
}

/// Populating a range maps every page in it: those that were mapped stay as they were,
/// the others are mapped to fresh frames with the flags and present. No other page
/// changes.
pub proof fn law_populating_maps_the_range(
    space: AddressSpace,
    next: int,
    end: int,
    flags: PageTableFlags,
    frames: spec_fn(u64) -> PhysFrame,
)
    requires
        0 <= next,
        next % 4096 == 0,
        end <= u64::MAX,
    ensures
        ({
            let after = populate_run(space, next, end, flags, frames);
            &&& forall|p: u64| #[trigger]
                after.contains_key(p) <==> space.contains_key(p) || (next <= p < end && p as int
                    % 4096 == 0)
            &&& forall|p: u64| #[trigger]
                after.contains_key(p) ==> after[p] == if space.contains_key(p) {
                    space[p]
                } else {
                    Mapping {
                        frame: frames(p),
                        flags: PageTableFlags { bits: flags.bits | PageTableFlags::PRESENT },
                    }
                }
        }),
    decreases
            (if next < end {
                end - next
            } else {
                0
            }),
{
    if next < end {
        let page = next as u64;
        let one = fault_run(space, page, flags, frames(page), Ok(())).space;
        law_page_fault(space, page, flags, frames(page), Ok(()));
        law_populating_maps_the_range(one, next + 4096, end, flags, frames);
        let after = populate_run(space, next, end, flags, frames);
        assert(after == populate_run(one, next + 4096, end, flags, frames));
        assert forall|p: u64| #[trigger] after.contains_key(p) <==> space.contains_key(p) || (next
            <= p < end && p as int % 4096 == 0) by {
            assert(one.contains_key(p) <==> space.contains_key(p) || p == page);
        }
        assert forall|p: u64| #[trigger] after.contains_key(p) implies after[p]
            == if space.contains_key(p) {
            space[p]
        } else {
            Mapping {
                frame: frames(p),
                flags: PageTableFlags { bits: flags.bits | PageTableFlags::PRESENT },
            }
        } by {
            assert(one.contains_key(p) <==> space.contains_key(p) || p == page);
        }
    }
}

/// A fault that is no access, as populating makes one, can be handled on every page.
pub proof fn law_populating_can_be_handled(space: AddressSpace, page: u64)
    ensures
        fault_can_be_handled(translate(space, page), 0),
{
    assert(0u64 & 0x2u64 != 0x2u64) by (bit_vector);
    assert(0u64 & 0x1u64 != 0x1u64) by (bit_vector);
}

/// The address space once `pages` are unmapped one after the other, and the frames
/// that were given back.
pub open spec fn unmap_run(space: AddressSpace, pages: Seq<u64>) -> (AddressSpace, Seq<PhysFrame>)
    decreases pages.len(),
{
    if pages.len() == 0 {
        (space, Seq::empty())
    } else {
        let page = pages[0];
        let rest = unmap_run(space.remove(page), pages.skip(1));
        match unmapped(space, page) {
            Ok(frame) => (rest.0, seq![frame] + rest.1),
            Err(_) => rest,
        }
    }
}

/// The frames that `pages` are mapped to, in their order; pages that are not mapped
/// are passed over.
pub open spec fn mapped_frames(space: AddressSpace, pages: Seq<u64>) -> Seq<PhysFrame>
    decreases pages.len(),
{
    if pages.len() == 0 {
        Seq::empty()
    } else if space.contains_key(pages[0]) {
        seq![space[pages[0]].frame] + mapped_frames(space, pages.skip(1))
    } else {
        mapped_frames(space, pages.skip(1))
    }
}

/// `frame` is one of the frames that pages are mapped to if one of the pages is mapped
/// to it.
proof fn lemma_mapped_frames_contains(space: AddressSpace, pages: Seq<u64>, frame: PhysFrame)
    ensures
        mapped_frames(space, pages).contains(frame) <==> exists|k: int|
            0 <= k < pages.len() && space.contains_key(#[trigger] pages[k])
                && space[pages[k]].frame == frame,
    decreases pages.len(),
{
    let all = mapped_frames(space, pages);
    if pages.len() > 0 {
        let rest = pages.skip(1);
        let more = mapped_frames(space, rest);
        lemma_mapped_frames_contains(space, rest, frame);
        assert forall|k: int| 0 <= k < rest.len() implies #[trigger] rest[k] == pages[k + 1] by {}
        if space.contains_key(pages[0]) {
            let first = space[pages[0]].frame;
            assert(all == seq![first] + more);
            assert(all[0] == first);
            if more.contains(frame) {
                let k = choose|k: int| 0 <= k < more.len() && more[k] == frame;
                assert(all[k + 1] == frame);
            }
            if all.contains(frame) && frame != first {
                let k = choose|k: int| 0 <= k < all.len() && all[k] == frame;
                assert(more[k - 1] == frame);
            }
        }
        if exists|k: int|
            0 <= k < pages.len() && space.contains_key(#[trigger] pages[k])
                && space[pages[k]].frame == frame {
            let k = choose|k: int|
                0 <= k < pages.len() && space.contains_key(#[trigger] pages[k])
                    && space[pages[k]].frame == frame;
            if k > 0 {
                assert(rest[k - 1] == pages[k]);
            }
        }
        if exists|k: int|
            0 <= k < rest.len() && space.contains_key(#[trigger] rest[k]) && space[rest[k]].frame
                == frame {
            let k = choose|k: int|
                0 <= k < rest.len() && space.contains_key(#[trigger] rest[k])
                    && space[rest[k]].frame == frame;
            assert(pages[k + 1] == rest[k]);
        }
    }
}

/// Pages that are mapped to different frames give each frame once.
pub proof fn lemma_mapped_frames_distinct(space: AddressSpace, pages: Seq<u64>)
    requires
        pages.no_duplicates(),
        forall|p: u64, q: u64|
            pages.contains(p) && pages.contains(q) && p != q && #[trigger] space.contains_key(p)
                && #[trigger] space.contains_key(q) ==> space[p].frame != space[q].frame,
    ensures
        mapped_frames(space, pages).no_duplicates(),
        forall|frame: PhysFrame| #[trigger]
            mapped_frames(space, pages).contains(frame) <==> exists|k: int|
                0 <= k < pages.len() && space.contains_key(#[trigger] pages[k])
                    && space[pages[k]].frame == frame,
    decreases pages.len(),
{
    assert forall|frame: PhysFrame| #[trigger]
        mapped_frames(space, pages).contains(frame) <==> exists|k: int|
            0 <= k < pages.len() && space.contains_key(#[trigger] pages[k])
                && space[pages[k]].frame == frame by {
        lemma_mapped_frames_contains(space, pages, frame);
    }
    if pages.len() > 0 {
        let rest = pages.skip(1);
        assert forall|k: int| 0 <= k < rest.len() implies #[trigger] rest[k] == pages[k + 1] by {}
        assert forall|p: u64| rest.contains(p) implies #[trigger] pages.contains(p) by {
            let k = choose|k: int| 0 <= k < rest.len() && rest[k] == p;
            assert(pages[k + 1] == p);
        }
        lemma_mapped_frames_distinct(space, rest);
        if space.contains_key(pages[0]) {
            let first = space[pages[0]].frame;
            let more = mapped_frames(space, rest);
            assert(!more.contains(first)) by {
                if more.contains(first) {
                    let k = choose|k: int|
                        0 <= k < rest.len() && space.contains_key(#[trigger] rest[k])
                            && space[rest[k]].frame == first;
                    assert(pages[k + 1] == rest[k]);
                    assert(pages.contains(rest[k]));
                    assert(pages.contains(pages[0]));
                    assert(rest[k] != pages[0]);
                }
            }
            let all = mapped_frames(space, pages);
            assert(all == seq![first] + more);
            assert forall|i: int, j: int| 0 <= i < j < all.len() implies all[i] != all[j] by {
                assert(all[j] == more[j - 1]);
                if i > 0 {
                    assert(all[i] == more[i - 1]);
                }
            }
        }
    }
}

/// Unmapping pages one after the other clears exactly these, and gives back exactly the
/// frames that they were mapped to, in their order.
pub proof fn lemma_unmap_run(space: AddressSpace, pages: Seq<u64>)
    requires
        pages.no_duplicates(),
    ensures
        ({
            let after = unmap_run(space, pages);
            &&& forall|p: u64| #[trigger]
                after.0.contains_key(p) <==> space.contains_key(p) && !pages.contains(p)
            &&& forall|p: u64| #[trigger] after.0.contains_key(p) ==> after.0[p] == space[p]
            &&& after.1 == mapped_frames(space, pages)
        }),
    decreases pages.len(),
{
    if pages.len() > 0 {
        let page = pages[0];
        let rest = pages.skip(1);
        let less = space.remove(page);
        assert forall|k: int| 0 <= k < rest.len() implies #[trigger] rest[k] == pages[k + 1] by {}
        assert(!rest.contains(page)) by {
            if rest.contains(page) {
                let k = choose|k: int| 0 <= k < rest.len() && rest[k] == page;
                assert(pages[k + 1] == page);
            }
        }
        lemma_unmap_run(less, rest);
        lemma_mapped_frames_agree(space, less, rest);
        let after = unmap_run(space, pages);
        let then = unmap_run(less, rest);
        assert(after.0 == then.0);
        assert forall|p: u64| #[trigger] after.0.contains_key(p) <==> space.contains_key(p)
            && !pages.contains(p) by {
            assert(then.0.contains_key(p) <==> less.contains_key(p) && !rest.contains(p));
            if pages.contains(p) && p != page {
                let k = choose|k: int| 0 <= k < pages.len() && pages[k] == p;
                assert(rest[k - 1] == p);
            }
            if rest.contains(p) {
                let k = choose|k: int| 0 <= k < rest.len() && rest[k] == p;
                assert(pages[k + 1] == p);
            }
        }
        assert forall|p: u64| #[trigger] after.0.contains_key(p) implies after.0[p] == space[p] by {
            assert(then.0.contains_key(p));
        }
    }
}

/// The frames of pages are decided by what these pages are mapped to.
proof fn lemma_mapped_frames_agree(a: AddressSpace, b: AddressSpace, pages: Seq<u64>)
    requires
        forall|k: int|
            0 <= k < pages.len() ==> (a.contains_key(#[trigger] pages[k]) <==> b.contains_key(
                pages[k],
            )) && (a.contains_key(pages[k]) ==> a[pages[k]] == b[pages[k]]),
    ensures
        mapped_frames(a, pages) == mapped_frames(b, pages),
    decreases pages.len(),
{
    if pages.len() > 0 {
        let rest = pages.skip(1);
        assert forall|k: int| 0 <= k < rest.len() implies (a.contains_key(#[trigger] rest[k])
            <==> b.contains_key(rest[k])) && (a.contains_key(rest[k]) ==> a[rest[k]]
            == b[rest[k]]) by {
            assert(rest[k] == pages[k + 1]);
        }
        assert(a.contains_key(pages[0]) <==> b.contains_key(pages[0]));
        lemma_mapped_frames_agree(a, b, rest);
    }
}

/// The frames of a range are decided by its pages alone.
proof fn lemma_mapped_frames(a: AddressSpace, b: AddressSpace, next: int, end: int)
    requires
        0 <= next,
        next % 4096 == 0,
        end <= u64::MAX,
        forall|p: u64|
            p >= next ==> (#[trigger] a.contains_key(p) <==> b.contains_key(p)) && (
            a.contains_key(p) ==> a[p] == b[p]),
    ensures
        mapped_frames(a, pages_between(next, end)) == mapped_frames(b, pages_between(next, end)),
    decreases
            (if next < end {
                end - next
            } else {
                0
            }),
{
    if next < end {
        let pages = pages_between(next, end);
        assert(pages.skip(1) =~= pages_between(next + 4096, end));
        assert(pages[0] == next as u64);
        assert(a.contains_key(next as u64) <==> b.contains_key(next as u64));
        lemma_mapped_frames(a, b, next + 4096, end);
    }
}

/// Unmapping a range clears exactly its pages, and gives back exactly the frames that
/// they were mapped to, in their order.
pub proof fn law_unmapping_clears_the_range(space: AddressSpace, next: int, end: int)
    requires
        0 <= next,
        next % 4096 == 0,
        end <= u64::MAX,
    ensures
        ({
            let after = unmap_run(space, pages_between(next, end));
            &&& forall|p: u64| #[trigger]
                after.0.contains_key(p) <==> space.contains_key(p) && !(next <= p < end && p as int
                    % 4096 == 0)
            &&& forall|p: u64| #[trigger] after.0.contains_key(p) ==> after.0[p] == space[p]
            &&& after.1 == mapped_frames(space, pages_between(next, end))
        }),
    decreases
            (if next < end {
                end - next
            } else {
                0
            }),
{
    let pages = pages_between(next, end);
    if next < end {
        let after = unmap_run(space, pages);
        let page = next as u64;
        let less = space.remove(page);
        law_unmapping_clears_the_range(less, next + 4096, end);
        assert(pages.skip(1) =~= pages_between(next + 4096, end));
        assert(pages[0] == page);
        let rest = unmap_run(less, pages_between(next + 4096, end));
        lemma_mapped_frames(space, less, next + 4096, end);
        assert forall|p: u64| #[trigger] after.0.contains_key(p) <==> space.contains_key(p) && !(next
            <= p < end && p as int % 4096 == 0) by {
            assert(rest.0.contains_key(p) <==> less.contains_key(p) && !(next + 4096 <= p < end
                && p as int % 4096 == 0));
        }
        assert forall|p: u64| #[trigger] after.0.contains_key(p) implies after.0[p] == space[p] by {
            assert(rest.0.contains_key(p));
        }
    }
}

/// Memory is accessible in user mode by bit 2 of its entry if it may be read or written,
/// writable by bit 1 if it may be written, and closed to execution by bit 63 unless it may
/// be executed; no other bit is set.
pub proof fn law_entry_flags(values: VmFlags, r: PageTableFlags)
    requires
        call_ensures(vmflags_to_pteflags, (values,), r),
    ensures
        (r.bits >> 2) & 1 == 1 <==> values.read || values.write,
        (r.bits >> 1) & 1 == 1 <==> values.write,
        r.bits >> 63 == 1 <==> !values.execute,
        r.bits & 0x7fff_ffff_ffff_fff9 == 0,
{
    let user = if values.read || values.write {
        0x4u64
    } else {
        0
    };
    let write = if values.write {
        0x2u64
    } else {
        0
    };
    let no_execute = if !values.execute {
        0x8000_0000_0000_0000u64
    } else {
        0
    };
    let bits = r.bits;
    assert(((bits >> 2) & 1 == 1 <==> user == 0x4) && ((bits >> 1) & 1 == 1 <==> write == 0x2) && (
    bits >> 63 == 1 <==> no_execute == 0x8000_0000_0000_0000) && bits & 0x7fff_ffff_ffff_fff9 == 0)
        by (bit_vector)
        requires
            bits == user | write | no_execute,
            user == 0x4 || user == 0,
            write == 0x2 || write == 0,
            no_execute == 0x8000_0000_0000_0000 || no_execute == 0,
    ;
}

/// Flags contain a flag exactly when adding it changes nothing.
pub proof fn law_contained_flags(flags: PageTableFlags, flag: u64, r: bool)
    requires
        call_ensures(PageTableFlags::contains, (&flags, flag), r),
    ensures
        r <==> flags.bits | flag == flags.bits,
{
    let bits = flags.bits;
    assert(bits & flag == flag <==> bits | flag == bits) by (bit_vector);
}

/// The bits of entries and of fault codes are those of the processor.
pub proof fn law_bits_of_the_processor()
    ensures
        PageTableFlags::PRESENT == 0x1,
        PageTableFlags::WRITABLE == 0x2,
        PageTableFlags::USER_ACCESSIBLE == 0x4,
        PageTableFlags::HUGE_PAGE == 0x80,
        PageTableFlags::NO_EXECUTE == 0x8000_0000_0000_0000,
        FAULT_PROTECTION_VIOLATION == 0x1,
        FAULT_CAUSED_BY_WRITE == 0x2,
{
}

proof fn lemma_fault_bits(error_code: u64)
    ensures
        by_write(error_code) <==> error_code / 2 % 2 == 1,
        on_present(error_code) <==> error_code % 2 == 1,
{
    assert((error_code & 0x2 == 0x2 <==> error_code / 2 % 2 == 1) && (error_code & 0x1 == 0x1
        <==> error_code % 2 == 1)) by (bit_vector);
}

/// A write, which bit 1 of the code tells, is an error exactly where memory may not be
/// written. Any other access is one where the page was present, which bit 0 tells, and
/// where the memory may not be used at all.
pub proof fn law_access_errors(error_code: u64, flags: VmFlags, r: bool)
    requires
        call_ensures(access_error, (error_code, flags), r),
    ensures
        error_code / 2 % 2 == 1 ==> (r <==> !flags.write),
        error_code / 2 % 2 == 0 && error_code % 2 == 1 ==> r,
        error_code / 2 % 2 == 0 && error_code % 2 == 0 ==> (r <==> !flags.read && !flags.write
            && !flags.execute),
{
    lemma_fault_bits(error_code);
}

/// A fault on a page that is not mapped can be handled, one on an entry that holds no
/// frame cannot. On a mapped page a write can be handled if bit 1 of the entry allows it,
/// and another access unless the page was present when it was made.
pub proof fn law_faults_that_can_be_handled(translation: Translation, error_code: u64, r: bool)
    requires
        call_ensures(can_handle_page_fault, (&translation, error_code), r),
    ensures
        translation is NotMapped ==> r,
        translation is InvalidFrameAddress ==> !r,
        translation is Mapped && error_code / 2 % 2 == 1 ==> (r
            <==> translation->Mapped_flags.bits / 2 % 2 == 1),
        translation is Mapped && error_code / 2 % 2 == 0 ==> (r <==> error_code % 2 == 0),
{
    lemma_fault_bits(error_code);
    let bits = translation->Mapped_flags.bits;
    assert(bits & 0x2 == 0x2 <==> bits / 2 % 2 == 1) by (bit_vector);
}

/// The page of a fault holds the address of the fault, and its flags are those of the
/// memory.
pub proof fn law_fault_target(
    fault_addr: u64,
    flags: VmFlags,
    r: (u64, PageTableFlags),
    entry: PageTableFlags,
)
    requires
        call_ensures(page_fault_target, (fault_addr, flags), r),
        call_ensures(vmflags_to_pteflags, (flags,), entry),
    ensures
        r.0 % 4096 == 0,
        r.0 <= fault_addr < r.0 + 4096,
        r.1 == entry,
{
}

/// A page that is mapped needs nothing. Else a frame is mapped there, present and
/// otherwise with the flags that the page is to have; tables on the way are present,
/// writable and accessible in user mode, and nothing more.
pub proof fn law_fault_steps(
    translation: Translation,
    flags: PageTableFlags,
    error_code: u64,
    r: FaultStep,
)
    requires
        call_ensures(handle_page_fault, (translation, flags, error_code), r),
    ensures
        translation is Mapped <==> r is Resolved,
        r matches FaultStep::MapFrame { flags: entry, table_flags } ==> {
            &&& entry.bits % 2 == 1
            &&& entry.bits / 2 == flags.bits / 2
            &&& table_flags.bits == 1 + 2 + 4
        },
{
    let bits = flags.bits;
    assert((bits | 0x1) % 2 == 1 && (bits | 0x1) / 2 == bits / 2) by (bit_vector);
}

/// A fault succeeds, and keeps the frame, exactly if the frame was mapped. Where it was
/// not, the frame is given back; the fault names a huge page where one stood in the way,
/// and a failed allocation otherwise.
pub proof fn law_fault_results(
    frame: PhysFrame,
    mapped: Result<(), MapToError>,
    r: (Result<(), PageFaultError>, Option<PhysFrame>),
)
    requires
        call_ensures(finish_page_fault, (frame, mapped), r),
    ensures
        r.0 is Ok <==> mapped is Ok,
        r.1 == (if mapped is Ok {
            None
        } else {
            Some(frame)
        }),
        mapped matches Err(e) ==> (r.0 == Err::<(), PageFaultError>(PageFaultError::HugePage)
            <==> e is ParentEntryHugePage),
        mapped matches Err(e) ==> (r.0 == Err::<(), PageFaultError>(
            PageFaultError::AllocationFailed,
        ) <==> !(e is ParentEntryHugePage)),
{
}

/// Page `i` between two addresses is `i` times 4096 above the first, and there are as many
/// as begin below the second.
pub proof fn law_pages_in_order(next: int, end: int, i: int)
    requires
        0 <= next,
        end <= u64::MAX,
        0 <= i,
    ensures
        i < pages_between(next, end).len() <==> next + i * 4096 < end,
        i < pages_between(next, end).len() ==> pages_between(next, end)[i] == next + i * 4096,
    decreases
            (if next < end {
                end - next
            } else {
                0
            }),
{
    if next < end && i > 0 {
        law_pages_in_order(next + 4096, end, i - 1);
        let rest = pages_between(next + 4096, end);
        if i < pages_between(next, end).len() {
            assert(pages_between(next, end)[i] == rest[i - 1]);
        }
    }
}

/// A cursor stops at its end; before it, it gives the page it stands at and goes on to the
/// next.
pub proof fn law_cursor(cursor: &mut PageCursor, r: Option<u64>)
    requires
        call_ensures(PageCursor::next_page, (cursor,), r),
    ensures
        r is Some <==> old(cursor).next < old(cursor).end,
        r matches Some(page) ==> page == old(cursor).next && final(cursor).next == page + 4096,
        r is None ==> final(cursor).next == old(cursor).next,
        final(cursor).end == old(cursor).end,
{
}

/// A range that is to be populated is visited from its start to its end; one that is not
/// is not visited at all.
pub proof fn law_populated_range(range: PageRange, populate_pages: bool, r: PageCursor)
    requires
        call_ensures(map_pages, (range, populate_pages), r),
    ensures
        populate_pages ==> r.next == range.start && r.end == range.end,
        !populate_pages ==> r.next >= r.end,
{
}

/// A range is unmapped from its start to its end if both are multiples of 4096, and is
/// refused as unaligned otherwise.
pub proof fn law_unmapped_range(range: PageRange, r: Result<PageCursor, DeallocationError>)
    requires
        call_ensures(unmap_pages, (range,), r),
    ensures
        r is Ok <==> range.start % 4096 == 0 && range.end % 4096 == 0,
        r matches Ok(cursor) ==> cursor.next == range.start && cursor.end == range.end,
        r matches Err(e) ==> e == DeallocationError::Unaligned,
{
}

/// The processor forgets a page exactly if it was unmapped; its frame is given back if
/// that was asked for.
pub proof fn law_after_unmapping(
    unmapped: Result<PhysFrame, UnmapError>,
    dealloc_frames: bool,
    r: UnmapAction,
)
    requires
        call_ensures(unmap_action, (unmapped, dealloc_frames), r),
    ensures
        r.flush <==> unmapped is Ok,
        r.free is Some <==> unmapped is Ok && dealloc_frames,
        r.free matches Some(frame) ==> unmapped == Ok::<PhysFrame, UnmapError>(frame),
{
}

} // verus!
