//! Moving and protecting pages, and mapping frames at given places.

use vstd::prelude::*;

use crate::addr::{canonical, page_aligned, PhysFrame};
use crate::paging::{
    canonical_span, pages_between, pte_flags, translate, unmapped, vmflags_to_pteflags,
    AddressSpace, MapToError, Mapping, PageCursor, PageRange, PageTableFlags,
    PermissionUpdateError, RemapError, Translation, VmFlags,
};

verus! {

/// How far the move of one page has come.
#[derive(Clone, Copy, PartialEq, Eq, Debug, Structural)]
pub enum RemapStage {
    /// The page is to be looked up.
    Lookup,
    /// The page has these flags and is to be unmapped.
    Unmap(PageTableFlags),
    /// The frame of the page is to be mapped at the new place with these flags.
    Place(PhysFrame, PageTableFlags),
}

/// What is to be done next to move pages.
#[derive(Clone, Copy, PartialEq, Eq, Debug, Structural)]
pub enum RemapAction {
    Translate(u64),
    Unmap(u64),
    MapTo { page: u64, frame: PhysFrame, flags: PageTableFlags },
    Done,
}

/// Pages that are being moved, one after the other.
#[derive(Clone, Copy, PartialEq, Eq, Debug, Structural)]
pub struct RemapPages {
    pub old: PageCursor,
    pub new_next: u64,
    pub stage: RemapStage,
}

/// The bounds of the ranges are checked in order: an address is only looked at where
/// those before it are those of pages. The new place is as long as the old range.
pub open spec fn can_remap(old_range: PageRange, new_range: PageRange) -> bool {
    &&& canonical(old_range.start)
    &&& page_aligned(old_range.start) ==> {
        &&& canonical(new_range.start)
        &&& page_aligned(new_range.start) ==> {
            &&& canonical(old_range.end)
            &&& page_aligned(old_range.end) && old_range.start < old_range.end ==> {
                let new_end = new_range.start + (old_range.end - old_range.start);
                &&& canonical_span(old_range.start, old_range.end)
                &&& new_end <= u64::MAX
                &&& canonical_span(new_range.start, new_end as u64)
            }
        }
    }
}

/// Both ranges begin, and the old one ends, at a page boundary.
pub open spec fn remap_aligned(old_range: PageRange, new_range: PageRange) -> bool {
    page_aligned(old_range.start) && page_aligned(new_range.start) && page_aligned(old_range.end)
}

/// Begins to move the pages of one range to another; refuses ranges that do not begin
/// or end at page boundaries.
pub fn remap_pages(old_range: PageRange, new_range: PageRange) -> (r: Result<
    RemapPages,
    RemapError,
>)
    requires
        can_remap(old_range, new_range),
    ensures
        match r {
            Ok(remap) => {
                &&& remap_aligned(old_range, new_range)
                &&& remap.wf()
                &&& remap == (RemapPages {
                    old: PageCursor { next: old_range.start, end: old_range.end },
                    new_next: new_range.start,
                    stage: RemapStage::Lookup,
                })
            },
            Err(error) => !remap_aligned(old_range, new_range) && error == RemapError::Unaligned,
        },
{
    if old_range.start % 4096 != 0 {
        return Err(RemapError::Unaligned);
    }
    if new_range.start % 4096 != 0 {
        return Err(RemapError::Unaligned);
    }
    if old_range.end % 4096 != 0 {
        return Err(RemapError::Unaligned);
    }
    Ok(
        RemapPages {
            old: PageCursor { next: old_range.start, end: old_range.end },
            new_next: new_range.start,
            stage: RemapStage::Lookup,
        },
    )
}

impl RemapPages {
    /// How many bytes are left to be moved.
    pub open spec fn left(self) -> int {
        if self.old.next < self.old.end {
            self.old.end - self.old.next
        } else {
            0
        }
    }

    /// The pages that are left lie at canonical addresses, before and after the move.
    pub open spec fn wf(self) -> bool {
        &&& page_aligned(self.old.next)
        &&& page_aligned(self.old.end)
        &&& page_aligned(self.new_next)
        &&& canonical(self.old.next) && canonical(self.old.end)
        &&& self.left() > 0 ==> canonical_span(self.old.next, self.old.end)
        &&& self.new_next + self.left() <= u64::MAX
        &&& canonical_span(self.new_next, (self.new_next + self.left()) as u64)
        &&& !(self.stage is Lookup) ==> self.left() > 0
    }

    /// The state at the next page.
    pub open spec fn at_next_page(self) -> Self {
        RemapPages {
            old: PageCursor { next: (self.old.next + 4096) as u64, end: self.old.end },
            new_next: (self.new_next + 4096) as u64,
            stage: RemapStage::Lookup,
        }
    }

    /// The state once the page was looked up.
    pub open spec fn after_translation(self, translation: Translation) -> Self {
        match translation {
            Translation::Mapped { flags, .. } => RemapPages {
                stage: RemapStage::Unmap(flags),
                ..self
            },
            _ => self.at_next_page(),
        }
    }

    /// The state once the page was unmapped.
    pub open spec fn after_unmap(self, frame: PhysFrame) -> Self {
        match self.stage {
            RemapStage::Unmap(flags) => RemapPages { stage: RemapStage::Place(frame, flags), ..self },
            _ => self,
        }
    }

    fn advance(&mut self)
        requires
            old(self).wf(),
            old(self).left() > 0,
        ensures
            final(self).wf(),
            *final(self) == old(self).at_next_page(),
    {
        self.old = PageCursor { next: self.old.next + 4096, end: self.old.end };
        self.new_next = self.new_next + 4096;
        self.stage = RemapStage::Lookup;
    }

    /// What is to be done next.
    pub fn action(&self) -> (r: RemapAction)
        requires
            self.wf(),
        ensures
            r == match self.stage {
                RemapStage::Lookup => if self.left() > 0 {
                    RemapAction::Translate(self.old.next)
                } else {
                    RemapAction::Done
                },
                RemapStage::Unmap(_) => RemapAction::Unmap(self.old.next),
                RemapStage::Place(frame, flags) => RemapAction::MapTo {
                    page: self.new_next,
                    frame,
                    flags,
                },
            },
    {
        match self.stage {
            RemapStage::Lookup => {
                if self.old.next < self.old.end {
                    RemapAction::Translate(self.old.next)
                } else {
                    RemapAction::Done
                }
            },
            RemapStage::Unmap(_) => RemapAction::Unmap(self.old.next),
            RemapStage::Place(frame, flags) => RemapAction::MapTo { page: self.new_next, frame, flags },
        }
    }

    /// Takes what looking up the page gave. A page that is not mapped is passed over.
    pub fn take_translation(&mut self, translation: Translation)
        requires
            old(self).wf(),
            old(self).stage is Lookup,
            old(self).left() > 0,
            !(translation is InvalidFrameAddress),
        ensures
            final(self).wf(),
            *final(self) == old(self).after_translation(translation),
    {
        match translation {
            Translation::Mapped { flags, .. } => {
                self.stage = RemapStage::Unmap(flags);
            },
            _ => {
                self.advance();
            },
        }
    }

    /// Takes the frame of the page that was unmapped.
    pub fn take_unmapped(&mut self, frame: PhysFrame)
        requires
            old(self).wf(),
            old(self).stage is Unmap,
        ensures
            final(self).wf(),
            *final(self) == old(self).after_unmap(frame),
    {
        match self.stage {
            RemapStage::Unmap(flags) => {
                self.stage = RemapStage::Place(frame, flags);
            },
            _ => {},
        }
    }

    /// Takes the outcome of mapping the frame at the new place, which ends the move
    /// where it failed: `AlreadyAllocated` if something is mapped there,
    /// `OutOfMemory` if there was no frame for a table.
    pub fn take_mapped(&mut self, mapped: Result<(), MapToError>) -> (r: Result<(), RemapError>)
        requires
            old(self).wf(),
            old(self).stage is Place,
            !(mapped matches Err(MapToError::ParentEntryHugePage)),
        ensures
            final(self).wf(),
            match mapped {
                Ok(()) => r == Ok::<(), RemapError>(()) && *final(self) == old(
                    self,
                ).at_next_page(),
                Err(MapToError::PageAlreadyMapped(_)) => r == Err::<(), RemapError>(
                    RemapError::AlreadyAllocated,
                ) && *final(self) == *old(self),
                Err(_) => r == Err::<(), RemapError>(RemapError::OutOfMemory) && *final(self)
                    == *old(self),
            },
    {
        match mapped {
            Ok(()) => {
                self.advance();
                Ok(())
            },
            Err(MapToError::PageAlreadyMapped(_)) => Err(RemapError::AlreadyAllocated),
            Err(_) => Err(RemapError::OutOfMemory),
        }
    }

    /// What an address space becomes when the move is brought to its end in it, as
    /// long as there are frames for tables.
    pub open spec fn outcome(self, space: AddressSpace) -> Result<AddressSpace, RemapError> {
        match self.stage {
            RemapStage::Place(frame, flags) => if space.contains_key(self.new_next) {
                Err(RemapError::AlreadyAllocated)
            } else {
                remap_run(
                    space.insert(self.new_next, Mapping { frame, flags }),
                    self.old.next + 4096,
                    self.old.end as int,
                    self.new_next + 4096,
                )
            },
            _ => remap_run(
                space,
                self.old.next as int,
                self.old.end as int,
                self.new_next as int,
            ),
        }
    }
}

/// What an address space becomes when the pages from `next` to `end` are moved to
/// `new` one after the other.
pub open spec fn remap_run(space: AddressSpace, next: int, end: int, new: int) -> Result<
    AddressSpace,
    RemapError,
>
    decreases
            (if next < end {
                end - next
            } else {
                0
            }),
{
    if next >= end {
        Ok(space)
    } else if !space.contains_key(next as u64) {
        remap_run(space, next + 4096, end, new + 4096)
    } else {
        let less = space.remove(next as u64);
        if less.contains_key(new as u64) {
            Err(RemapError::AlreadyAllocated)
        } else {
            remap_run(
                less.insert(new as u64, space[next as u64]),
                next + 4096,
                end,
                new + 4096,
            )
        }
    }
}

/// Looking up a page changes nothing of the outcome, and a page that is mapped is then
/// unmapped with the flags that it has.
pub proof fn law_remap_lookup(state: RemapPages, space: AddressSpace)
    requires
        state.wf(),
        state.stage is Lookup,
        state.left() > 0,
    ensures
        ({
            let after = state.after_translation(translate(space, state.old.next));
            &&& after.outcome(space) == state.outcome(space)
            &&& after.stage matches RemapStage::Unmap(flags) ==> space.contains_key(state.old.next)
                && flags == space[state.old.next].flags
        }),
{
}

/// Unmapping a page changes nothing of the outcome.
pub proof fn law_remap_unmap(state: RemapPages, space: AddressSpace)
    requires
        state.wf(),
        state.stage matches RemapStage::Unmap(flags) && space.contains_key(state.old.next) && flags
            == space[state.old.next].flags,
    ensures
        unmapped(space, state.old.next) is Ok,
        state.after_unmap(unmapped(space, state.old.next)->Ok_0).outcome(
            space.remove(state.old.next),
        ) == state.outcome(space),
{
    let m = space[state.old.next];
    assert(Mapping { frame: m.frame, flags: m.flags } == m);
}

/// Mapping the frame of a page at its new place changes nothing of the outcome; where
/// something is mapped there, the move ends with that error.
pub proof fn law_remap_map(state: RemapPages, space: AddressSpace)
    requires
        state.wf(),
        state.stage is Place,
    ensures
        ({
            let mapping = Mapping { frame: state.stage->Place_0, flags: state.stage->Place_1 };
            if space.contains_key(state.new_next) {
                state.outcome(space) == Err::<AddressSpace, RemapError>(
                    RemapError::AlreadyAllocated,
                )
            } else {
                state.at_next_page().outcome(space.insert(state.new_next, mapping))
                    == state.outcome(space)
            }
        }),
{
}

/// The new place of every page from `next` to `end` that is mapped is free.
pub open spec fn free_where_needed(space: AddressSpace, next: int, end: int, new: int) -> bool {
    forall|p: u64|
        next <= p < end && p as int % 4096 == 0 && #[trigger] space.contains_key(p)
            ==> !space.contains_key((p - next + new) as u64)
}

/// Moving a range to a place apart from it succeeds exactly where the new place of every
/// mapped page is free, and ends with `AlreadyAllocated` otherwise. Where it succeeds,
/// every mapped page is moved with its frame and its flags. Beside a page that is not
/// mapped the new page stays as it was. The old range is clear, and all else stays.
pub proof fn law_remap_moves_the_range(space: AddressSpace, next: int, end: int, new: int)
    requires
        0 <= next <= end <= u64::MAX,
        next % 4096 == 0,
        end % 4096 == 0,
        0 <= new,
        new % 4096 == 0,
        new + (end - next) <= u64::MAX,
        new + (end - next) <= next || end <= new,
    ensures
        ({
            let r = remap_run(space, next, end, new);
            let after = r->Ok_0;
            &&& r is Ok <==> free_where_needed(space, next, end, new)
            &&& r matches Err(error) ==> error == RemapError::AlreadyAllocated
            &&& r is Ok ==> forall|p: u64| #[trigger]
                after.contains_key(p) <==> if p as int % 4096 != 0 {
                    space.contains_key(p)
                } else if new <= p < new + (end - next) {
                    space.contains_key((p - new + next) as u64) || space.contains_key(p)
                } else {
                    space.contains_key(p) && !(next <= p < end)
                }
            &&& r is Ok ==> forall|p: u64| #[trigger]
                after.contains_key(p) ==> after[p] == if p as int % 4096 == 0 && new <= p < new + (
                end - next) && space.contains_key((p - new + next) as u64) {
                    space[(p - new + next) as u64]
                } else {
                    space[p]
                }
        }),
    decreases end - next,
{
    if next < end {
        let page = next as u64;
        let target = new as u64;
        let r = remap_run(space, next, end, new);
        if space.contains_key(page) && space.contains_key(target) {
            assert(!free_where_needed(space, next, end, new));
        } else {
            let moved = if space.contains_key(page) {
                space.remove(page).insert(target, space[page])
            } else {
                space
            };
            law_remap_moves_the_range(moved, next + 4096, end, new + 4096);
            assert(r == remap_run(moved, next + 4096, end, new + 4096));
            assert(free_where_needed(space, next, end, new) <==> free_where_needed(
                moved,
                next + 4096,
                end,
                new + 4096,
            )) by {
                assert forall|p: u64|
                    next + 4096 <= p < end && p as int % 4096 == 0 implies moved.contains_key(p)
                    == #[trigger] space.contains_key(p) && moved.contains_key(
                    (p - next + new) as u64,
                ) == space.contains_key((p - next + new) as u64) by {}
                if free_where_needed(moved, next + 4096, end, new + 4096) {
                    assert forall|p: u64|
                        next <= p < end && p as int % 4096 == 0 && #[trigger] space.contains_key(
                            p,
                        ) implies !space.contains_key((p - next + new) as u64) by {
                        if p != page {
                            assert(moved.contains_key(p));
                        }
                    }
                }
            }
            if r is Ok {
                let after = r->Ok_0;
                assert forall|p: u64| #[trigger] after.contains_key(p) <==> if p as int % 4096
                    != 0 {
                    space.contains_key(p)
                } else if new <= p < new + (end - next) {
                    space.contains_key((p - new + next) as u64) || space.contains_key(p)
                } else {
                    space.contains_key(p) && !(next <= p < end)
                } by {
                    let q = (p - new + next) as u64;
                    assert(moved.contains_key(q) == (if q == target {
                        space.contains_key(page) || space.contains_key(target)
                    } else if q == page {
                        false
                    } else {
                        space.contains_key(q)
                    }));
                    assert(moved.contains_key(p) == (if p == target {
                        space.contains_key(page) || space.contains_key(target)
                    } else if p == page {
                        false
                    } else {
                        space.contains_key(p)
                    }));
                }
            }
        }
    }
}

/// The flags that a page with flags `old` is given when it is protected with `new`:
/// bits outside the mask stay, and write access is never added. It is left to the
/// page fault that follows.
pub open spec fn protected_flags(old: u64, new: u64, mask: u64) -> u64 {
    (old & !mask) | granted(old, new)
}

/// `new` without write access, unless the page has it.
pub open spec fn granted(old: u64, new: u64) -> u64 {
    if new & PageTableFlags::WRITABLE == PageTableFlags::WRITABLE && old & PageTableFlags::WRITABLE
        != PageTableFlags::WRITABLE {
        new & !PageTableFlags::WRITABLE
    } else {
        new
    }
}

/// Pages that are being protected.
#[derive(Clone, Copy, PartialEq, Eq, Debug, Structural)]
pub struct ProtectPages {
    /// The pages that are left.
    pub cursor: PageCursor,
    /// The flags that are to be set.
    pub flags: PageTableFlags,
    /// The flags that can be changed.
    pub mask: PageTableFlags,
}

/// `a` rounded up to a page boundary.
pub open spec fn page_end(a: int) -> int {
    (a + 4095) / 4096 * 4096
}

/// The bounds of the range are canonical, and so are those of its pages.
pub open spec fn can_protect(range: PageRange) -> bool {
    &&& canonical(range.start)
    &&& canonical(range.end)
    &&& page_aligned(range.start) ==> {
        &&& range.end > 0
        &&& canonical((range.end - 1) as u64)
        &&& page_end(range.end as int) <= u64::MAX
        &&& canonical_span(range.start, page_end(range.end as int) as u64)
    }
}

/// Begins to protect every page that the range reaches; refuses a range that does not
/// begin at a page boundary. `mask` says which flags can be changed.
pub fn mprotect_pages(range: PageRange, new_flags: VmFlags, mask: PageTableFlags) -> (r: Result<
    ProtectPages,
    PermissionUpdateError,
>)
    requires
        can_protect(range),
    ensures
        match r {
            Ok(protect) => {
                &&& page_aligned(range.start)
                &&& protect.cursor.wf()
                &&& protect.cursor.next == range.start
                &&& protect.cursor.end == page_end(range.end as int)
                &&& protect.flags.bits == pte_flags(new_flags) & mask.bits
                &&& protect.mask == mask
            },
            Err(error) => !page_aligned(range.start) && error == PermissionUpdateError::Unaligned,
        },
{
    let flags = PageTableFlags { bits: vmflags_to_pteflags(new_flags).bits & mask.bits };
    if range.start % 4096 != 0 {
        return Err(PermissionUpdateError::Unaligned);
    }
    let last: u64 = range.end - 1;
    let end: u64 = last - last % 4096 + 4096;
    Ok(ProtectPages { cursor: PageCursor { next: range.start, end }, flags, mask })
}

impl ProtectPages {
    /// The flags that a page is to be given, if they are to be set: a page that is not
    /// mapped, or has exactly the flags, is left alone.
    pub fn update(&self, translation: Translation) -> (r: Option<PageTableFlags>)
        requires
            !(translation is InvalidFrameAddress),
        ensures
            match translation {
                Translation::Mapped { flags, .. } => if flags.bits == granted(
                    flags.bits,
                    self.flags.bits,
                ) {
                    r is None
                } else {
                    r == Some(
                        PageTableFlags {
                            bits: protected_flags(flags.bits, self.flags.bits, self.mask.bits),
                        },
                    )
                },
                _ => r is None,
            },
    {
        match translation {
            Translation::Mapped { flags, .. } => {
                let change_to_write: bool = self.flags.contains(PageTableFlags::WRITABLE)
                    && !flags.contains(PageTableFlags::WRITABLE);
                let new_bits: u64 = if change_to_write {
                    self.flags.bits & !PageTableFlags::WRITABLE
                } else {
                    self.flags.bits
                };
                if flags.bits != new_bits {
                    Some(PageTableFlags { bits: (flags.bits & !self.mask.bits) | new_bits })
                } else {
                    None
                }
            },
            _ => None,
        }
    }
}

/// A page that is left alone has the flags that it would be given, so protecting gives
/// every mapped page the flags that [`protected_flags`] names.
pub proof fn law_unchanged_pages_are_protected(old: u64, new: u64, mask: u64)
    requires
        old == granted(old, new),
    ensures
        protected_flags(old, new, mask) == old,
{
    assert((old & !mask) | old == old) by (bit_vector);
}

/// Protecting never makes a page writable that was not, and changes no flag outside
/// the mask.
pub proof fn law_protecting_adds_no_write_access(old: u64, values: VmFlags, mask: u64)
    ensures
        ({
            let after = protected_flags(old, pte_flags(values) & mask, mask);
            &&& after & 0x2 == 0x2 ==> old & 0x2 == 0x2
            &&& after & !mask == old & !mask
        }),
{
    let new = pte_flags(values);
    let kept = new & mask;
    let g = granted(old, kept);
    assert(kept & !mask == 0) by (bit_vector)
        requires
            kept == new & mask,
    ;
    assert((kept & !0x2u64) & !mask == 0) by (bit_vector)
        requires
            kept & !mask == 0,
    ;
    assert(((old & !mask) | g) & !mask == old & !mask) by (bit_vector)
        requires
            g & !mask == 0,
    ;
    assert((kept & !0x2u64) & 0x2 == 0) by (bit_vector);
    if ((old & !mask) | g) & 0x2 == 0x2 {
        assert(old & 0x2 == 0x2 || g & 0x2 == 0x2) by (bit_vector)
            requires
                ((old & !mask) | g) & 0x2 == 0x2,
        ;
    }
}

/// The address space once the pages from `next` to `end` are protected one after the
/// other.
pub open spec fn protect_run(
    space: AddressSpace,
    next: int,
    end: int,
    new: u64,
    mask: u64,
) -> AddressSpace
    decreases
            (if next < end {
                end - next
            } else {
                0
            }),
{
    if next >= end {
        space
    } else {
        protect_run(protect_page(space, next as u64, new, mask), next + 4096, end, new, mask)
    }
}

/// The address space once `page` is protected.
pub open spec fn protect_page(space: AddressSpace, page: u64, new: u64, mask: u64) -> AddressSpace {
    if space.contains_key(page) && space[page].flags.bits != granted(space[page].flags.bits, new) {
        space.insert(
            page,
            Mapping {
                flags: PageTableFlags { bits: protected_flags(space[page].flags.bits, new, mask) },
                ..space[page]
            },
        )
    } else {
        space
    }
}

/// Protecting a range gives every mapped page in it the flags that [`protected_flags`]
/// names, keeps its frame, and touches no other page.
pub proof fn law_protecting_sets_the_flags(
    space: AddressSpace,
    next: int,
    end: int,
    new: u64,
    mask: u64,
)
    requires
        0 <= next,
        next % 4096 == 0,
        end <= u64::MAX,
    ensures
        ({
            let after = protect_run(space, next, end, new, mask);
            &&& after.dom() == space.dom()
            &&& forall|p: u64| #[trigger]
                space.contains_key(p) ==> after[p].frame == space[p].frame && after[p].flags.bits
                    == if next <= p < end && p as int % 4096 == 0 {
                    protected_flags(space[p].flags.bits, new, mask)
                } else {
                    space[p].flags.bits
                }
        }),
    decreases
            (if next < end {
                end - next
            } else {
                0
            }),
{
    if next < end {
        let page = next as u64;
        let one = protect_page(space, page, new, mask);
        assert(one.dom() =~= space.dom());
        law_protecting_sets_the_flags(one, next + 4096, end, new, mask);
        let after = protect_run(space, next, end, new, mask);
        assert(after == protect_run(one, next + 4096, end, new, mask));
        if space.contains_key(page) && space[page].flags.bits == granted(
            space[page].flags.bits,
            new,
        ) {
            law_unchanged_pages_are_protected(space[page].flags.bits, new, mask);
        }
        assert forall|p: u64| #[trigger] space.contains_key(p) implies after[p].frame
            == space[p].frame && after[p].flags.bits == if next <= p < end && p as int % 4096 == 0 {
            protected_flags(space[p].flags.bits, new, mask)
        } else {
            space[p].flags.bits
        } by {
            assert(one.contains_key(p));
        }
    }
}

/// The frames that are still to be mapped, in ascending order.
#[derive(Clone, Copy, PartialEq, Eq, Debug, Structural)]
pub struct FrameCursor {
    pub next: u64,
    pub end: u64,
}

impl FrameCursor {
    /// The cursor visits whole frames.
    pub open spec fn wf(self) -> bool {
        page_aligned(self.next) && page_aligned(self.end)
    }

    /// The next frame, or `None` if all have been visited.
    pub fn next_frame(&mut self) -> (r: Option<PhysFrame>)
        requires
            old(self).wf(),
        ensures
            final(self).wf(),
            final(self).end == old(self).end,
            match r {
                Some(frame) => {
                    &&& old(self).next < old(self).end
                    &&& frame.start == old(self).next
                    &&& final(self).next == old(self).next + 4096
                    &&& pages_between(old(self).next as int, old(self).end as int) == seq![
                        frame.start,
                    ] + pages_between(final(self).next as int, final(self).end as int)
                },
                None => {
                    &&& old(self).next >= old(self).end
                    &&& *final(self) == *old(self)
                },
            },
    {
        if self.next >= self.end {
            return None;
        }
        let frame = PhysFrame { start: self.next };
        self.next = self.next + 4096;
        Some(frame)
    }
}

/// The frames from `start` up to, not including, `end`.
pub fn map_phys_frame_range(start: PhysFrame, end: PhysFrame) -> (r: FrameCursor)
    requires
        page_aligned(start.start),
        page_aligned(end.start),
    ensures
        r.wf(),
        r == (FrameCursor { next: start.start, end: end.start }),
{
    FrameCursor { next: start.start, end: end.start }
}

/// Whether a frame is to be mapped at the page where it belongs: not if it is mapped
/// there already. No other frame may be.
pub fn must_map_frame(target: PhysFrame, translation: Translation) -> (r: bool)
    requires
        match translation {
            Translation::Mapped { frame, .. } => frame == target,
            Translation::NotMapped => true,
            Translation::InvalidFrameAddress(_) => false,
        },
    ensures
        r == (translation is NotMapped),
{
    match translation {
        Translation::NotMapped => true,
        _ => false,
    }
}

/// A move begins at the start of both ranges and ends where the old one does; it is
/// refused as unaligned where one of the three is no multiple of 4096.
pub proof fn law_move_begins(
    old_range: PageRange,
    new_range: PageRange,
    r: Result<RemapPages, RemapError>,
    first: RemapAction,
)
    requires
        call_ensures(remap_pages, (old_range, new_range), r),
        r matches Ok(remap) ==> call_ensures(RemapPages::action, (&remap,), first),
    ensures
        r is Ok <==> old_range.start % 4096 == 0 && new_range.start % 4096 == 0 && old_range.end
            % 4096 == 0,
        r matches Err(e) ==> e == RemapError::Unaligned,
        r matches Ok(remap) ==> {
            &&& remap.old.next == old_range.start
            &&& remap.old.end == old_range.end
            &&& remap.new_next == new_range.start
            &&& first == if old_range.start < old_range.end {
                RemapAction::Translate(old_range.start)
            } else {
                RemapAction::Done
            }
        },
{
}

/// A page of the old range that is mapped is unmapped, and its frame is mapped with its
/// flags as far into the new range as the page is into the old one. The move then goes on
/// with the next page.
pub proof fn law_page_is_moved(
    lookup: &mut RemapPages,
    unmap: &mut RemapPages,
    place: &mut RemapPages,
    frame: PhysFrame,
    seen: PhysFrame,
    flags: PageTableFlags,
    actions: (RemapAction, RemapAction, RemapAction),
    r: Result<(), RemapError>,
)
    requires
        call_ensures(
            RemapPages::take_translation,
            (lookup, Translation::Mapped { frame: seen, flags }),
            (),
        ),
        *old(unmap) == *final(lookup),
        call_ensures(RemapPages::action, (&*old(unmap),), actions.0),
        call_ensures(RemapPages::take_unmapped, (unmap, frame), ()),
        *old(place) == *final(unmap),
        call_ensures(RemapPages::action, (&*old(place),), actions.1),
        call_ensures(RemapPages::take_mapped, (place, Ok::<(), MapToError>(())), r),
        old(lookup).wf(),
        old(lookup).stage is Lookup,
        old(lookup).left() > 0,
        call_ensures(RemapPages::action, (&*final(place),), actions.2),
    ensures
        actions.0 == RemapAction::Unmap(old(lookup).old.next),
        actions.1 == (RemapAction::MapTo { page: old(lookup).new_next, frame, flags }),
        r is Ok,
        actions.2 == if old(lookup).old.next + 4096 < old(lookup).old.end {
            RemapAction::Translate((old(lookup).old.next + 4096) as u64)
        } else {
            RemapAction::Done
        },
        final(place).new_next == old(lookup).new_next + 4096,
        final(place).old.next == old(lookup).old.next + 4096,
        final(place).old.end == old(lookup).old.end,
{
}

/// A page that is not mapped is passed over, together with the page that it would be moved
/// to.
pub proof fn law_unmapped_page_is_passed_over(
    lookup: &mut RemapPages,
    action: RemapAction,
)
    requires
        old(lookup).wf(),
        old(lookup).stage is Lookup,
        old(lookup).left() > 0,
        call_ensures(RemapPages::take_translation, (lookup, Translation::NotMapped), ()),
        call_ensures(RemapPages::action, (&*final(lookup),), action),
    ensures
        action == if old(lookup).old.next + 4096 < old(lookup).old.end {
            RemapAction::Translate((old(lookup).old.next + 4096) as u64)
        } else {
            RemapAction::Done
        },
        final(lookup).new_next == old(lookup).new_next + 4096,
        final(lookup).old.next == old(lookup).old.next + 4096,
        final(lookup).old.end == old(lookup).old.end,
{
}

/// A frame that could not be mapped ends the move where it stands: something is there
/// already, or there was no frame for a table.
pub proof fn law_move_fails(place: &mut RemapPages, error: MapToError, r: Result<(), RemapError>)
    requires
        !(error is ParentEntryHugePage),
        call_ensures(RemapPages::take_mapped, (place, Err::<(), MapToError>(error)), r),
    ensures
        r == Err::<(), RemapError>(
            match error {
                MapToError::PageAlreadyMapped(_) => RemapError::AlreadyAllocated,
                _ => RemapError::OutOfMemory,
            },
        ),
        *final(place) == *old(place),
{
}

/// Protecting visits every page that the range reaches and no other, from its start on. It
/// is refused as unaligned where the range begins inside a page. What is set is what the
/// memory may be used for, as far as it can be changed.
pub proof fn law_protected_range(
    range: PageRange,
    new_flags: VmFlags,
    mask: PageTableFlags,
    r: Result<ProtectPages, PermissionUpdateError>,
    entry: PageTableFlags,
    p: u64,
)
    requires
        range.start <= range.end,
        can_protect(range),
        call_ensures(mprotect_pages, (range, new_flags, mask), r),
        call_ensures(vmflags_to_pteflags, (new_flags,), entry),
        p % 4096 == 0,
    ensures
        r is Ok <==> range.start % 4096 == 0,
        r matches Err(e) ==> e == PermissionUpdateError::Unaligned,
        r matches Ok(protect) ==> {
            &&& protect.cursor.next == range.start
            &&& protect.cursor.end % 4096 == 0
            &&& protect.cursor.next <= p < protect.cursor.end <==> range.start <= p < range.end
            &&& protect.flags.bits == entry.bits & mask.bits
            &&& protect.mask == mask
        },
{
}

/// Of the flags of a mapped page those outside the mask stay, those inside become what is
/// to be set; only write access is never given to a page that has none. A page that is not
/// mapped is left alone, and so is one that has just the flags that are to be set, write
/// access aside.
pub proof fn law_updated_flags(
    protect: ProtectPages,
    frame: PhysFrame,
    flags: PageTableFlags,
    r: Option<PageTableFlags>,
    none: Option<PageTableFlags>,
)
    requires
        call_ensures(ProtectPages::update, (&protect, Translation::Mapped { frame, flags }), r),
        call_ensures(ProtectPages::update, (&protect, Translation::NotMapped), none),
        protect.flags.bits & !protect.mask.bits == 0,
    ensures
        none is None,
        ({
            let mask = protect.mask.bits;
            let wanted = protect.flags.bits;
            let before = flags.bits;
            let after = match r {
                Some(set) => set.bits,
                None => before,
            };
            &&& after & !mask & !0x2 == before & !mask & !0x2
            &&& r is Some ==> after & mask & !0x2 == wanted & !0x2
            &&& r is Some && mask & 0x2 != 0 ==> (after & 0x2 != 0 <==> wanted & 0x2 != 0 && before
                & 0x2 != 0)
            &&& mask & 0x2 == 0 ==> after & 0x2 == before & 0x2
            &&& r is None <==> before == wanted || (before & 0x2 == 0 && wanted == before + 2)
        }),
{
    let mask = protect.mask.bits;
    let wanted = protect.flags.bits;
    let before = flags.bits;
    let given = granted(before, wanted);
    let after = (before & !mask) | given;
    assert(given == wanted && (before & 0x2 == 0x2 || wanted & 0x2 != 0x2) || given == wanted
        & !0x2u64 && before & 0x2 != 0x2 && wanted & 0x2 == 0x2);
    assert(after & !mask & !0x2 == before & !mask & !0x2 && after & mask & !0x2 == wanted & !0x2 && (
    mask & 0x2 != 0 ==> (after & 0x2 != 0 <==> wanted & 0x2 != 0 && before & 0x2 != 0)) && (mask
        & 0x2 == 0 ==> after & 0x2 == before & 0x2) && (before == given <==> before == wanted || (
    before & 0x2 == 0 && wanted == before + 2))) by (bit_vector)
        requires
            wanted & !mask == 0,
            after == (before & !mask) | given,
            given == wanted && (before & 0x2 == 0x2 || wanted & 0x2 != 0x2) || given == wanted
                & !0x2u64 && before & 0x2 != 0x2 && wanted & 0x2 == 0x2,
    ;
}

/// Frames are mapped from the first up to, but not including, the last, one after the
/// other; a frame is mapped only where the page is not mapped.
pub proof fn law_frames_in_order(
    start: PhysFrame,
    end: PhysFrame,
    range: FrameCursor,
    cursor: &mut FrameCursor,
    r: Option<PhysFrame>,
    target: PhysFrame,
    translation: Translation,
    must: bool,
)
    requires
        call_ensures(map_phys_frame_range, (start, end), range),
        call_ensures(FrameCursor::next_frame, (cursor,), r),
        call_ensures(must_map_frame, (target, translation), must),
    ensures
        range.next == start.start && range.end == end.start,
        r is Some <==> old(cursor).next < old(cursor).end,
        r matches Some(frame) ==> frame.start == old(cursor).next && final(cursor).next
            == frame.start + 4096,
        r is None ==> final(cursor).next == old(cursor).next,
        final(cursor).end == old(cursor).end,
        must <==> translation is NotMapped,
{
}

} // verus!
