//! An allocator of virtual address ranges under which physical frames that do
//! not lie next to each other are mapped as one contiguous stretch.
//!
//! A range is handed out with unmapped guard pages behind it. Freed ranges are
//! reused first; otherwise the region is consumed from its low end upwards.

use vstd::prelude::*;

use crate::addr::{canonical, page_aligned, PhysFrame, VirtAddr};
use crate::page_ranges::{
    add_pages, covered_pages, empty_pages, is_run_list, page_runs, page_span, remove_pages,
};
use crate::tables::{allocation_entries, frame_entries, AllocationTable, FrameTable};

verus! {

/// Number of unmapped guard pages appended after each allocation.
pub const GUARD_PAGES: u64 = 1;

/// Errors of [`VmapRegionAllocator`].
#[derive(Clone, Copy, PartialEq, Eq, Debug, Structural)]
pub enum VmapAllocError {
    /// The input frame slice was empty.
    EmptyInput,
    /// At least one physical frame is already mapped.
    DuplicateMapping,
    /// The region has no contiguous range large enough.
    VaSpaceExhausted,
}

/// The stretch of virtual addresses that an allocator hands out.
#[derive(Clone, Copy, PartialEq, Eq, Debug, Structural)]
pub struct VmapRegion {
    /// First address of the region.
    pub start: u64,
    /// First address behind the region.
    pub end: u64,
}

impl VmapRegion {
    /// The region is made of whole pages and its addresses are canonical.
    pub open spec fn wf(self) -> bool {
        &&& self.start <= self.end
        &&& page_aligned(self.start)
        &&& page_aligned(self.end)
        &&& self.end <= crate::addr::LOWER_HALF_END || self.start
            >= crate::addr::UPPER_HALF_START
    }

    /// Whether `va` lies in the region.
    pub open spec fn holds(self, va: VirtAddr) -> bool {
        self.start <= va.addr < self.end
    }
}

/// Checks if a virtual address is within the vmap region.
pub fn is_vmap_address(region: &VmapRegion, va: VirtAddr) -> (r: bool)
    ensures
        r == region.holds(va),
{
    region.start <= va.addr && va.addr < region.end
}

/// The bookkeeping of page numbers: `[first, next)` has been handed out at some
/// time, `free` is what came back of it, `[next, last)` is untouched.
#[verifier::ext_equal]
pub struct VaSpace {
    pub first: int,
    pub last: int,
    pub next: int,
    pub free: Set<u64>,
}

/// The `n` pages from `start` on are all in `free`.
pub open spec fn fits(free: Set<u64>, start: u64, n: int) -> bool {
    &&& start + n <= u64::MAX
    &&& forall|p: u64| start <= p < start + n ==> #[trigger] free.contains(p)
}

/// `start` is the lowest page from which `n` pages are in `free`.
pub open spec fn is_first_fit(free: Set<u64>, n: int, start: u64) -> bool {
    &&& fits(free, start, n)
    &&& forall|t: u64| t < start ==> !#[trigger] fits(free, t, n)
}

/// The lowest page from which `n` pages are in `free`, if there is one.
pub open spec fn first_fit(free: Set<u64>, n: int) -> Option<u64> {
    if exists|s: u64| is_first_fit(free, n, s) {
        Some(choose|s: u64| is_first_fit(free, n, s))
    } else {
        None
    }
}

impl VaSpace {
    /// Only pages that were handed out before are free, and every page number is
    /// that of a canonical address.
    pub open spec fn wf(self) -> bool {
        &&& 0 <= self.first <= self.next <= self.last
        &&& self.last * 4096 <= crate::addr::LOWER_HALF_END || (self.first * 4096
            >= crate::addr::UPPER_HALF_START && self.last * 4096 <= u64::MAX)
        &&& forall|p: u64| #[trigger] self.free.contains(p) ==> self.first <= p < self.next
    }

    /// The first page of the range that a request for `pages` pages is given,
    /// guard pages included in the search.
    pub open spec fn choice(self, pages: int) -> Option<u64> {
        let total = pages + GUARD_PAGES;
        if pages == 0 {
            None
        } else {
            match first_fit(self.free, total) {
                Some(s) => Some(s),
                None => if self.next + total <= self.last {
                    Some(self.next as u64)
                } else {
                    None
                },
            }
        }
    }

    /// The state once the range for `pages` pages has been handed out; the same
    /// state where there is none.
    pub open spec fn reserve(self, pages: int) -> VaSpace {
        let total = pages + GUARD_PAGES;
        match self.choice(pages) {
            None => self,
            Some(s) => if first_fit(self.free, total) is Some {
                VaSpace { free: self.free.difference(page_span(s as int, s + total)), ..self }
            } else {
                VaSpace { next: self.next + total, ..self }
            },
        }
    }

    /// The state once the range for `pages` pages from page `start` on has come
    /// back.
    pub open spec fn release(self, start: int, pages: int) -> VaSpace {
        if pages == 0 {
            self
        } else {
            VaSpace {
                free: self.free.union(page_span(start, start + pages + GUARD_PAGES)),
                ..self
            }
        }
    }
}

/// Where `start` is a first fit, it is the one that [`first_fit`] names.
proof fn lemma_first_fit_is(free: Set<u64>, n: int, start: u64)
    requires
        is_first_fit(free, n, start),
    ensures
        first_fit(free, n) == Some(start),
{
    let c = choose|s: u64| is_first_fit(free, n, s);
    assert(is_first_fit(free, n, c));
    assert(fits(free, start, n) && fits(free, c, n));
}

/// In a list of maximal runs, `n` pages fit from `t` on only inside one run.
proof fn lemma_fit_in_run(runs: Seq<(u64, u64)>, free: Set<u64>, t: u64, n: int) -> (i: int)
    requires
        is_run_list(runs, free),
        n > 0,
        fits(free, t, n),
    ensures
        0 <= i < runs.len(),
        runs[i].0 <= t,
        t + n <= runs[i].1,
{
    assert(free.contains(t));
    let i = choose|i: int| 0 <= i < runs.len() && (#[trigger] runs[i]).0 <= t < runs[i].1;
    if t + n > runs[i].1 {
        let p = runs[i].1;
        assert(free.contains(p));
        let j = choose|j: int| 0 <= j < runs.len() && (#[trigger] runs[j]).0 <= p < runs[j].1;
        assert(i != j);
        assert(runs[i].1 < runs[j].0 || runs[j].1 < runs[i].0);
    }
    i
}

/// Inner state of the allocator: the free page numbers, the virtual address of
/// every mapped frame, and the frames of every allocation.
pub struct VmapRegionAllocatorInner {
    region: VmapRegion,
    next_vpn: u64,
    free_set: rangemap::RangeSet<u64>,
    pa_to_va_map: FrameTable,
    allocations: AllocationTable,
}

impl VmapRegionAllocatorInner {
    /// The region that is handed out.
    pub closed spec fn spec_region(self) -> VmapRegion {
        self.region
    }

    /// The page numbers as [`VaSpace`].
    pub closed spec fn space(self) -> VaSpace {
        VaSpace {
            first: self.region.start as int / 4096,
            last: self.region.end as int / 4096,
            next: self.next_vpn as int,
            free: covered_pages(self.free_set),
        }
    }

    /// The virtual address of each mapped frame, by the frame's first address.
    pub closed spec fn mapped(self) -> Map<u64, u64> {
        frame_entries(self.pa_to_va_map)
    }

    /// The frames of each allocation, by its first virtual address.
    pub closed spec fn live(self) -> Map<u64, Seq<PhysFrame>> {
        allocation_entries(self.allocations)
    }

    /// Creates the state in which nothing of `region` is handed out.
    pub fn new(region: VmapRegion) -> (r: Self)
        requires
            region.wf(),
        ensures
            r.spec_region() == region,
            r.space() == (VaSpace {
                first: region.start as int / 4096,
                last: region.end as int / 4096,
                next: region.start as int / 4096,
                free: Set::empty(),
            }),
            r.space().wf(),
            r.mapped() == Map::<u64, u64>::empty(),
            r.live() == Map::<u64, Seq<PhysFrame>>::empty(),
    {
        VmapRegionAllocatorInner {
            region,
            next_vpn: region.start / 4096,
            free_set: empty_pages(),
            pa_to_va_map: FrameTable::new(),
            allocations: AllocationTable::new(),
        }
    }

    /// Converts a virtual page number to a `VirtAddr`.
    pub fn vpn_to_va(vpn: u64) -> (r: VirtAddr)
        requires
            vpn * 4096 <= u64::MAX,
            canonical((vpn * 4096) as u64),
        ensures
            r.addr == vpn * 4096,
    {
        VirtAddr::new(vpn * 4096)
    }

    /// Allocates a contiguous virtual address range for the given number of
    /// pages, plus [`GUARD_PAGES`] unmapped trailing guard pages.
    ///
    /// First tries to find a suitable range in the free list, then falls back to
    /// bump allocation. Returns the first address of the range, or `None` if no
    /// page was asked for or the region has no room.
    pub fn allocate_va_range(&mut self, num_pages: usize) -> (r: Option<VirtAddr>)
        requires
            old(self).space().wf(),
        ensures
            final(self).spec_region() == old(self).spec_region(),
            final(self).mapped() == old(self).mapped(),
            final(self).live() == old(self).live(),
            final(self).space() == old(self).space().reserve(num_pages as int),
            final(self).space().wf(),
            match old(self).space().choice(num_pages as int) {
                Some(vpn) => r matches Some(va) && va.addr == vpn * 4096,
                None => r is None,
            },
    {
        if num_pages == 0 {
            return None;
        }
        let ghost space = self.space();
        let ghost total = num_pages + GUARD_PAGES;
        let runs = page_runs(&self.free_set);
        let total_pages: u64 = match (num_pages as u64).checked_add(GUARD_PAGES) {
            Some(total_pages) => total_pages,
            None => {
                proof {
                    assert(forall|s: u64| !is_first_fit(space.free, total, s));
                }
                return None;
            },
        };
        let mut i: usize = 0;
        while i < runs.len()
            invariant
                0 <= i <= runs.len(),
                *self == *old(self),
                space == self.space(),
                space.wf(),
                num_pages > 0,
                total == num_pages + GUARD_PAGES,
                total_pages == total,
                is_run_list(runs@, space.free),
                forall|j: int| 0 <= j < i ==> (#[trigger] runs[j]).1 - runs[j].0 < total,
            decreases runs.len() - i,
        {
            let (start, end) = runs[i];
            assert(runs[i as int].0 == start && runs[i as int].1 == end);
            if end - start >= total_pages {
                proof {
                    assert(fits(space.free, start, total));
                    assert forall|t: u64| t < start implies !#[trigger] fits(
                        space.free,
                        t,
                        total,
                    ) by {
                        if fits(space.free, t, total) {
                            let j = lemma_fit_in_run(runs@, space.free, t, total);
                            assert(j < i) by {
                                if j > i {
                                    assert(runs[i as int].1 < runs[j].0);
                                }
                            }
                        }
                    }
                    lemma_first_fit_is(space.free, total, start);
                    assert(space.free.contains(start));
                }
                remove_pages(&mut self.free_set, start, start + total_pages);
                return Some(Self::vpn_to_va(start));
            }
            i = i + 1;
        }
        proof {
            assert forall|s: u64| !is_first_fit(space.free, total, s) by {
                if fits(space.free, s, total) {
                    let j = lemma_fit_in_run(runs@, space.free, s, total);
                    assert(runs[j].1 - runs[j].0 < total);
                }
            }
        }
        let end_vpn: u64 = match self.next_vpn.checked_add(total_pages) {
            Some(end_vpn) => end_vpn,
            None => {
                return None;
            },
        };
        if end_vpn > self.region.end / 4096 {
            return None;
        }
        let allocated_vpn: u64 = self.next_vpn;
        self.next_vpn = end_vpn;
        Some(Self::vpn_to_va(allocated_vpn))
    }

    /// Returns a range of `num_pages` pages and its guard pages to the free set
    /// for reuse.
    pub fn free_va_range(&mut self, start: VirtAddr, num_pages: usize)
        requires
            start.addr / 4096 + num_pages + GUARD_PAGES <= u64::MAX,
        ensures
            final(self).spec_region() == old(self).spec_region(),
            final(self).mapped() == old(self).mapped(),
            final(self).live() == old(self).live(),
            final(self).space() == old(self).space().release(
                start.addr as int / 4096,
                num_pages as int,
            ),
    {
        if num_pages == 0 {
            return ;
        }
        let start_vpn: u64 = start.addr / 4096;
        let total_pages: u64 = num_pages as u64 + GUARD_PAGES;
        add_pages(&mut self.free_set, start_vpn, start_vpn + total_pages);
    }
}

/// What an allocator has handed out and mapped.
#[verifier::ext_equal]
pub struct VmapState {
    /// The page numbers of the region.
    pub space: VaSpace,
    /// The virtual address of each mapped frame, by the frame's first address.
    pub mapped: Map<u64, u64>,
    /// The frames of each allocation, by its first virtual address.
    pub live: Map<u64, Seq<PhysFrame>>,
}

/// The frame that starts at `f` is one of the first `n` of `frames`.
pub open spec fn among(frames: Seq<PhysFrame>, n: int, f: u64) -> bool {
    exists|i: int| 0 <= i < n && (#[trigger] frames[i]).start == f
}

/// The first addresses of the first `n` of `frames`.
pub open spec fn frame_starts(frames: Seq<PhysFrame>, n: int) -> Set<u64> {
    Set::new(|f: u64| among(frames, n, f))
}

/// `mapped` with the first `n` of `frames` mapped one page after the other from
/// `base` on. A frame that occurs more than once is left at its last page.
pub open spec fn mapped_with(
    mapped: Map<u64, u64>,
    base: int,
    frames: Seq<PhysFrame>,
    n: int,
) -> Map<u64, u64>
    decreases n,
{
    if n <= 0 {
        mapped
    } else {
        mapped_with(mapped, base, frames, n - 1).insert(
            frames[n - 1].start,
            (base + (n - 1) * 4096) as u64,
        )
    }
}

/// The allocation at `base` holds the frame that starts at `f` as its page `i`.
pub open spec fn holds_at(live: Map<u64, Seq<PhysFrame>>, base: u64, i: int, f: u64) -> bool {
    live.contains_key(base) && 0 <= i < live[base].len() && live[base][i].start == f
}

/// Page `p` is one of those of the allocation at `base`, guard pages included.
pub open spec fn covers(live: Map<u64, Seq<PhysFrame>>, base: u64, p: u64) -> bool {
    live.contains_key(base) && base as int / 4096 <= p < base as int / 4096 + live[base].len()
        + GUARD_PAGES
}

impl VmapState {
    /// The allocation at `base` is made of pages that were handed out and are
    /// not free.
    pub open spec fn allocation_wf(self, base: u64) -> bool {
        let frames = self.live[base];
        &&& page_aligned(base)
        &&& frames.len() > 0
        &&& self.space.first <= base as int / 4096
        &&& base as int / 4096 + frames.len() + GUARD_PAGES <= self.space.next
        &&& forall|p: u64| #[trigger]
            self.space.free.contains(p) ==> !(base as int / 4096 <= p < base as int / 4096
                + frames.len() + GUARD_PAGES)
    }

    /// Free pages and allocations cover what was handed out without overlap, and
    /// the mapped frames are those of the allocations.
    pub open spec fn wf(self) -> bool {
        &&& self.space.wf()
        &&& forall|b: u64| #[trigger] self.live.contains_key(b) ==> self.allocation_wf(b)
        &&& forall|b: u64, c: u64|
            #![trigger self.live.contains_key(b), self.live.contains_key(c)]
            self.live.contains_key(b) && self.live.contains_key(c) && b < c ==> b as int / 4096
                + self.live[b].len() + GUARD_PAGES <= c as int / 4096
        &&& forall|p: u64|
            self.space.first <= p < self.space.next ==> #[trigger] self.space.free.contains(p)
                || exists|b: u64| covers(self.live, b, p)
        &&& forall|f: u64| #[trigger]
            self.mapped.contains_key(f) ==> exists|b: u64, i: int|
                #[trigger] holds_at(self.live, b, i, f) && self.mapped[f] == b + i * 4096
        &&& forall|b: u64, i: int, f: u64| #[trigger]
            holds_at(self.live, b, i, f) ==> self.mapped.contains_key(f) && b <= self.mapped[f] < b
                + self.live[b].len() * 4096
    }

    /// One of `frames` is mapped already.
    pub open spec fn any_mapped(self, frames: Seq<PhysFrame>) -> bool {
        exists|i: int| 0 <= i < frames.len() && self.mapped.contains_key(#[trigger] frames[i].start)
    }

    /// The error with which mapping `frames` is refused, if it is.
    pub open spec fn refusal(self, frames: Seq<PhysFrame>) -> Option<VmapAllocError> {
        if frames.len() == 0 {
            Some(VmapAllocError::EmptyInput)
        } else if self.any_mapped(frames) {
            Some(VmapAllocError::DuplicateMapping)
        } else if self.space.choice(frames.len() as int) is None {
            Some(VmapAllocError::VaSpaceExhausted)
        } else {
            None
        }
    }

    /// The first virtual address under which `frames` are mapped.
    pub open spec fn base_for(self, frames: Seq<PhysFrame>) -> u64 {
        (self.space.choice(frames.len() as int)->0 * 4096) as u64
    }

    /// The state once `frames` are mapped.
    pub open spec fn registered(self, frames: Seq<PhysFrame>) -> VmapState {
        let base = self.base_for(frames);
        VmapState {
            space: self.space.reserve(frames.len() as int),
            mapped: mapped_with(self.mapped, base as int, frames, frames.len() as int),
            live: self.live.insert(base, frames),
        }
    }

    /// The state once the allocation at `base` is gone.
    pub open spec fn unregistered(self, base: u64) -> VmapState {
        VmapState {
            space: self.space.release(base as int / 4096, self.live[base].len() as int),
            mapped: self.mapped.remove_keys(frame_starts(self.live[base], self.live[base].len() as int)),
            live: self.live.remove(base),
        }
    }
}

/// What [`mapped_with`] holds: the frames that it was given, and what was there.
proof fn lemma_mapped_with(
    mapped: Map<u64, u64>,
    base: int,
    frames: Seq<PhysFrame>,
    n: int,
    f: u64,
)
    requires
        0 <= n <= frames.len(),
        0 <= base,
        base + n * 4096 <= u64::MAX + 1,
    ensures
        !among(frames, n, f) ==> {
            &&& mapped_with(mapped, base, frames, n).contains_key(f) == mapped.contains_key(f)
            &&& mapped.contains_key(f) ==> mapped_with(mapped, base, frames, n)[f] == mapped[f]
        },
        among(frames, n, f) ==> {
            &&& mapped_with(mapped, base, frames, n).contains_key(f)
            &&& exists|i: int|
                0 <= i < n && (#[trigger] frames[i]).start == f && mapped_with(
                    mapped,
                    base,
                    frames,
                    n,
                )[f] == base + i * 4096
        },
    decreases n,
{
    if n > 0 {
        lemma_mapped_with(mapped, base, frames, n - 1, f);
        let before = mapped_with(mapped, base, frames, n - 1);
        let after = mapped_with(mapped, base, frames, n);
        if f == frames[n - 1].start {
            assert(after[f] == base + (n - 1) * 4096);
        } else if among(frames, n, f) {
            let k = choose|i: int| 0 <= i < n && (#[trigger] frames[i]).start == f;
            assert(0 <= k < n - 1 && frames[k].start == f);
            let i = choose|i: int|
                0 <= i < n - 1 && (#[trigger] frames[i]).start == f && before[f] == base + i
                    * 4096;
            assert(frames[i].start == f && after[f] == base + i * 4096);
        } else {
            assert(!among(frames, n - 1, f));
        }
    }
}

/// A frame that does not occur again later is mapped at the page of its place.
proof fn lemma_mapped_with_last(
    mapped: Map<u64, u64>,
    base: int,
    frames: Seq<PhysFrame>,
    n: int,
    i: int,
)
    requires
        0 <= i < n <= frames.len(),
        0 <= base,
        base + n * 4096 <= u64::MAX + 1,
        forall|j: int| i < j < n ==> (#[trigger] frames[j]).start != frames[i].start,
    ensures
        mapped_with(mapped, base, frames, n)[frames[i].start] == base + i * 4096,
    decreases n,
{
    if i < n - 1 {
        assert(frames[n - 1].start != frames[i].start);
        lemma_mapped_with_last(mapped, base, frames, n - 1, i);
    }
}

/// What a reservation takes: a range that was free or untouched.
proof fn lemma_reserve(space: VaSpace, pages: int)
    requires
        space.wf(),
        pages > 0,
        space.choice(pages) is Some,
    ensures
        ({
            let s = space.choice(pages)->0;
            let after = space.reserve(pages);
            let end = s + pages + GUARD_PAGES;
            &&& after.wf()
            &&& space.first <= s
            &&& end <= after.next
            &&& after.first == space.first
            &&& space.next <= after.next
            &&& end * 4096 <= u64::MAX
            &&& canonical((s * 4096) as u64)
            &&& forall|p: u64|
                s <= p < end ==> (#[trigger] space.free.contains(p) || p >= space.next)
                    && !after.free.contains(p)
            &&& forall|p: u64|
                !(s <= p < end) ==> #[trigger] after.free.contains(p) == space.free.contains(p)
            &&& after.next == space.next || (s == space.next && after.next == end)
        }),
{
    let total = pages + GUARD_PAGES;
    let s = space.choice(pages)->0;
    if first_fit(space.free, total) is Some {
        assert(is_first_fit(space.free, total, s));
        assert(space.free.contains(s));
        let q = (s + total - 1) as u64;
        assert(space.free.contains(q));
    }
}

/// Mapping frames keeps the state well formed.
proof fn lemma_registered_wf(st: VmapState, frames: Seq<PhysFrame>)
    requires
        st.wf(),
        st.refusal(frames) is None,
    ensures
        st.registered(frames).wf(),
        !st.live.contains_key(st.base_for(frames)),
{
    let n = frames.len() as int;
    let s = st.space.choice(n)->0;
    let base = st.base_for(frames);
    let after = st.registered(frames);
    lemma_reserve(st.space, n);
    assert(base == s * 4096);
    if st.live.contains_key(base) {
        assert(st.allocation_wf(base));
        assert(s <= s < s + n + GUARD_PAGES);
        assert(st.space.free.contains(s) || s >= st.space.next);
    }
    assert forall|b: u64| #[trigger] after.live.contains_key(b) implies after.allocation_wf(b) by {
        if b == base {
            assert forall|p: u64| #[trigger] after.space.free.contains(p) implies !(base as int
                / 4096 <= p < base as int / 4096 + n + GUARD_PAGES) by {
                if s <= p < s + n + GUARD_PAGES {
                    assert(st.space.free.contains(p) || p >= st.space.next);
                }
            }
        } else {
            assert(st.live.contains_key(b));
            assert(st.allocation_wf(b));
            assert forall|p: u64| #[trigger] after.space.free.contains(p) implies !(b as int / 4096
                <= p < b as int / 4096 + after.live[b].len() + GUARD_PAGES) by {
                if s <= p < s + n + GUARD_PAGES {
                    assert(st.space.free.contains(p) || p >= st.space.next);
                } else {
                    assert(st.space.free.contains(p));
                }
            }
        }
    }
    // An old allocation shares no page with the new range.
    assert forall|b: u64| #[trigger] st.live.contains_key(b) implies b as int / 4096
        + st.live[b].len() + GUARD_PAGES <= s || s + n + GUARD_PAGES <= b as int / 4096 by {
        assert(st.allocation_wf(b));
        let v = (b / 4096) as u64;
        if v <= s {
            if s < v + st.live[b].len() + GUARD_PAGES {
                assert(st.space.free.contains(s) || s >= st.space.next);
            }
        } else if v < s + n + GUARD_PAGES {
            assert(st.space.free.contains(v) || v >= st.space.next);
        }
    }
    assert forall|b: u64, c: u64|
        #![trigger after.live.contains_key(b), after.live.contains_key(c)]
        after.live.contains_key(b) && after.live.contains_key(c) && b < c implies b as int / 4096
        + after.live[b].len() + GUARD_PAGES <= c as int / 4096 by {
        if b != base {
            assert(st.live.contains_key(b));
            assert(st.allocation_wf(b));
        }
        if c != base {
            assert(st.live.contains_key(c));
            assert(st.allocation_wf(c));
        }
    }
    assert forall|p: u64|
        after.space.first <= p < after.space.next implies #[trigger] after.space.free.contains(p)
        || exists|b: u64| covers(after.live, b, p) by {
        if s <= p < s + n + GUARD_PAGES {
            assert(covers(after.live, base, p));
        } else if !after.space.free.contains(p) {
            assert(!st.space.free.contains(p));
            let b = choose|b: u64| covers(st.live, b, p);
            assert(covers(st.live, b, p));
            assert(covers(after.live, b, p));
        }
    }
    assert forall|f: u64| #[trigger] after.mapped.contains_key(f) implies exists|b: u64, i: int|
        #[trigger] holds_at(after.live, b, i, f) && after.mapped[f] == b + i * 4096 by {
        lemma_mapped_with(st.mapped, base as int, frames, n, f);
        if among(frames, n, f) {
            let i = choose|i: int|
                0 <= i < n && (#[trigger] frames[i]).start == f && after.mapped[f] == base + i
                    * 4096;
            assert(holds_at(after.live, base, i, f));
        } else {
            let (b, i) = choose|b: u64, i: int| #[trigger]
                holds_at(st.live, b, i, f) && st.mapped[f] == b + i * 4096;
            assert(holds_at(after.live, b, i, f));
        }
    }
    assert forall|b: u64, i: int, f: u64| #[trigger]
        holds_at(after.live, b, i, f) implies after.mapped.contains_key(f) && b <= after.mapped[f]
        < b + after.live[b].len() * 4096 by {
        lemma_mapped_with(st.mapped, base as int, frames, n, f);
        if b == base {
            assert(frames[i].start == f);
            assert(among(frames, n, f));
        } else {
            assert(holds_at(st.live, b, i, f));
            assert(st.mapped.contains_key(f));
            if among(frames, n, f) {
                let k = choose|k: int| 0 <= k < n && (#[trigger] frames[k]).start == f;
                assert(st.any_mapped(frames));
            }
        }
    }
}

/// Removing an allocation keeps the state well formed.
proof fn lemma_unregistered_wf(st: VmapState, base: u64)
    requires
        st.wf(),
        st.live.contains_key(base),
    ensures
        st.unregistered(base).wf(),
{
    let frames = st.live[base];
    let n = frames.len() as int;
    let s = base as int / 4096;
    let after = st.unregistered(base);
    assert(st.allocation_wf(base));
    assert forall|b: u64| #[trigger] after.live.contains_key(b) implies after.allocation_wf(b) by {
        assert(st.live.contains_key(b));
        assert(st.allocation_wf(b));
        assert forall|p: u64| #[trigger] after.space.free.contains(p) implies !(b as int / 4096 <= p
            < b as int / 4096 + after.live[b].len() + GUARD_PAGES) by {
            if s <= p < s + n + GUARD_PAGES {
                if b < base {
                    assert(b as int / 4096 + st.live[b].len() + GUARD_PAGES <= s);
                } else {
                    assert(s + n + GUARD_PAGES <= b as int / 4096);
                }
            } else {
                assert(st.space.free.contains(p));
            }
        }
    }
    assert forall|b: u64, c: u64|
        #![trigger after.live.contains_key(b), after.live.contains_key(c)]
        after.live.contains_key(b) && after.live.contains_key(c) && b < c implies b as int / 4096
        + after.live[b].len() + GUARD_PAGES <= c as int / 4096 by {
        assert(st.live.contains_key(b) && st.live.contains_key(c));
    }
    assert forall|p: u64|
        after.space.first <= p < after.space.next implies #[trigger] after.space.free.contains(p)
        || exists|b: u64| covers(after.live, b, p) by {
        if !after.space.free.contains(p) {
            assert(!st.space.free.contains(p));
            let b = choose|b: u64| covers(st.live, b, p);
            assert(covers(st.live, b, p));
            assert(b != base);
            assert(covers(after.live, b, p));
        }
    }
    assert forall|f: u64| #[trigger] after.mapped.contains_key(f) implies exists|b: u64, i: int|
        #[trigger] holds_at(after.live, b, i, f) && after.mapped[f] == b + i * 4096 by {
        assert(st.mapped.contains_key(f));
        let (b, i) = choose|b: u64, i: int| #[trigger]
            holds_at(st.live, b, i, f) && st.mapped[f] == b + i * 4096;
        if b == base {
            assert(frames[i].start == f);
            assert(among(frames, n, f));
        }
        assert(holds_at(after.live, b, i, f));
    }
    assert forall|b: u64, i: int, f: u64| #[trigger]
        holds_at(after.live, b, i, f) implies after.mapped.contains_key(f) && b <= after.mapped[f]
        < b + after.live[b].len() * 4096 by {
        assert(holds_at(st.live, b, i, f));
        assert(st.live.contains_key(b));
        assert(st.allocation_wf(b));
        if among(frames, n, f) {
            let k = choose|k: int| 0 <= k < n && (#[trigger] frames[k]).start == f;
            assert(holds_at(st.live, base, k, f));
            assert(st.mapped[f] < b + st.live[b].len() * 4096);
            assert(st.mapped[f] < base + n * 4096);
            if b < base {
                assert(b as int / 4096 + st.live[b].len() + GUARD_PAGES <= s);
            } else {
                assert(s + n + GUARD_PAGES <= b as int / 4096);
            }
        }
    }
}

/// Vmap region allocator that manages virtual address allocation and the
/// mappings between physical and virtual addresses.
pub struct VmapRegionAllocator {
    inner: VmapRegionAllocatorInner,
}

impl View for VmapRegionAllocator {
    type V = VmapState;

    closed spec fn view(&self) -> VmapState {
        VmapState {
            space: self.inner.space(),
            mapped: self.inner.mapped(),
            live: self.inner.live(),
        }
    }
}

impl VmapRegionAllocator {
    /// Creates an allocator of which nothing is handed out.
    pub fn new(region: VmapRegion) -> (r: Self)
        requires
            region.wf(),
        ensures
            r@ == (VmapState {
                space: VaSpace {
                    first: region.start as int / 4096,
                    last: region.end as int / 4096,
                    next: region.start as int / 4096,
                    free: Set::empty(),
                },
                mapped: Map::empty(),
                live: Map::empty(),
            }),
            r@.wf(),
    {
        VmapRegionAllocator { inner: VmapRegionAllocatorInner::new(region) }
    }

    /// Allocates a range, registers the mappings, and records the allocation:
    /// either the entire operation succeeds or nothing changes.
    ///
    /// # Errors
    ///
    /// - [`VmapAllocError::EmptyInput`]: `frames` is empty.
    /// - [`VmapAllocError::DuplicateMapping`]: a physical frame is already mapped.
    /// - [`VmapAllocError::VaSpaceExhausted`]: no contiguous range is available.
    pub fn allocate_va_and_register_map(&mut self, frames: &[PhysFrame]) -> (r: Result<
        VirtAddr,
        VmapAllocError,
    >)
        requires
            old(self)@.wf(),
        ensures
            final(self)@.wf(),
            match old(self)@.refusal(frames@) {
                Some(error) => r == Err::<VirtAddr, VmapAllocError>(error) && final(self)@ == old(self)@,
                None => r matches Ok(va) && va.addr == old(self)@.base_for(frames@) && final(self)@
                    == old(self)@.registered(frames@),
            },
    {
        if frames.len() == 0 {
            return Err(VmapAllocError::EmptyInput);
        }
        let mut i: usize = 0;
        while i < frames.len()
            invariant
                *self == *old(self),
                self@.wf(),
                frames@.len() > 0,
                i <= frames.len(),
                forall|j: int| 0 <= j < i ==> !self@.mapped.contains_key(#[trigger] frames@[j].start),
            decreases frames.len() - i,
        {
            if self.inner.pa_to_va_map.contains_key(frames[i].start) {
                assert(self@.mapped.contains_key(frames@[i as int].start));
                return Err(VmapAllocError::DuplicateMapping);
            }
            i = i + 1;
        }
        let ghost st = self@;
        assert(!st.any_mapped(frames@));
        let base_va = match self.inner.allocate_va_range(frames.len()) {
            Some(base_va) => base_va,
            None => {
                return Err(VmapAllocError::VaSpaceExhausted);
            },
        };
        proof {
            lemma_reserve(st.space, frames@.len() as int);
            lemma_registered_wf(st, frames@);
        }
        let ghost base = base_va.addr as int;
        let mut owned: Vec<PhysFrame> = Vec::new();
        let mut k: usize = 0;
        while k < frames.len()
            invariant
                k <= frames.len(),
                base == base_va.addr,
                base + frames@.len() * 4096 <= u64::MAX,
                self.inner.space() == st.space.reserve(frames@.len() as int),
                self.inner.live() == st.live,
                self.inner.mapped() == mapped_with(st.mapped, base, frames@, k as int),
                owned@ == frames@.take(k as int),
            decreases frames.len() - k,
        {
            let frame = frames[k];
            self.inner.pa_to_va_map.insert(frame.start, base_va.addr + (k as u64) * 4096);
            owned.push(frame);
            assert(frames@.take(k + 1) =~= frames@.take(k as int).push(frame));
            k = k + 1;
        }
        assert(owned@ =~= frames@);
        self.inner.allocations.insert(base_va.addr, owned);
        Ok(base_va)
    }

    /// Unregisters all mappings for the allocation at the given virtual address
    /// and returns its range to the free list.
    ///
    /// Returns the number of pages that were unmapped, or `None` if no allocation
    /// was found.
    pub fn unregister_allocation(&mut self, base_va: VirtAddr) -> (r: Option<usize>)
        requires
            old(self)@.wf(),
        ensures
            final(self)@.wf(),
            if old(self)@.live.contains_key(base_va.addr) {
                r matches Some(n) && n == old(self)@.live[base_va.addr].len() && final(self)@
                    == old(self)@.unregistered(base_va.addr)
            } else {
                r is None && final(self)@ == old(self)@
            },
    {
        let ghost st = self@;
        let frames = match self.inner.allocations.remove(base_va.addr) {
            Some(frames) => frames,
            None => {
                assert(self@.live =~= st.live);
                return None;
            },
        };
        proof {
            assert(st.live.contains_key(base_va.addr));
            assert(st.allocation_wf(base_va.addr));
            lemma_unregistered_wf(st, base_va.addr);
        }
        let mut k: usize = 0;
        while k < frames.len()
            invariant
                k <= frames.len(),
                self.inner.space() == st.space,
                self.inner.live() == st.live.remove(base_va.addr),
                self.inner.mapped() == st.mapped.remove_keys(frame_starts(frames@, k as int)),
            decreases frames.len() - k,
        {
            self.inner.pa_to_va_map.remove(frames[k].start);
            proof {
                lemma_frame_starts_step(frames@, k as int);
            }
            k = k + 1;
            assert(self.inner.mapped() =~= st.mapped.remove_keys(frame_starts(frames@, k as int)));
        }
        self.inner.free_va_range(base_va, frames.len());
        Some(frames.len())
    }
}

/// The first `k + 1` frames are the first `k` and one more.
proof fn lemma_frame_starts_step(frames: Seq<PhysFrame>, k: int)
    requires
        0 <= k < frames.len(),
    ensures
        frame_starts(frames, k + 1) =~= frame_starts(frames, k).insert(frames[k].start),
{
    assert forall|f: u64| among(frames, k + 1, f) == (among(frames, k, f) || f
        == frames[k].start) by {
        if among(frames, k + 1, f) {
            let i = choose|i: int| 0 <= i < k + 1 && (#[trigger] frames[i]).start == f;
            assert(i == k || among(frames, k, f));
        }
        if among(frames, k, f) {
            let i = choose|i: int| 0 <= i < k && (#[trigger] frames[i]).start == f;
            assert(frames[i].start == f);
        }
    }
}

/// Unregistering an allocation right after it was made brings back every mapping
/// and every allocation that there was. A range that came out of the free list
/// goes back to it; one that was taken from the untouched part becomes free.
pub proof fn law_unregister_undoes_registration(st: VmapState, frames: Seq<PhysFrame>)
    requires
        st.wf(),
        st.refusal(frames) is None,
    ensures
        ({
            let base = st.base_for(frames);
            let back = st.registered(frames).unregistered(base);
            let total = frames.len() + GUARD_PAGES;
            &&& back.wf()
            &&& back.mapped == st.mapped
            &&& back.live == st.live
            &&& first_fit(st.space.free, total) is Some ==> back.space == st.space
            &&& first_fit(st.space.free, total) is None ==> back.space == (VaSpace {
                next: st.space.next + total,
                free: st.space.free.union(page_span(st.space.next, st.space.next + total)),
                ..st.space
            })
        }),
{
    let n = frames.len() as int;
    let base = st.base_for(frames);
    let there = st.registered(frames);
    let back = there.unregistered(base);
    lemma_registered_wf(st, frames);
    lemma_reserve(st.space, n);
    lemma_unregistered_wf(there, base);
    assert forall|f: u64| back.mapped.contains_key(f) == st.mapped.contains_key(f) by {
        lemma_mapped_with(st.mapped, base as int, frames, n, f);
        if among(frames, n, f) {
            let k = choose|k: int| 0 <= k < n && (#[trigger] frames[k]).start == f;
            assert(!st.mapped.contains_key(frames[k].start));
        }
    }
    assert forall|f: u64| #[trigger] st.mapped.contains_key(f) implies back.mapped[f]
        == st.mapped[f] by {
        lemma_mapped_with(st.mapped, base as int, frames, n, f);
        assert(back.mapped.contains_key(f));
    }
    assert(back.mapped =~= st.mapped);
    assert(back.live =~= st.live);
    let total = n + GUARD_PAGES;
    let s = st.space.choice(n)->0;
    if first_fit(st.space.free, total) is Some {
        assert forall|p: u64| s <= p < s + total implies st.space.free.contains(p) by {
            assert(is_first_fit(st.space.free, total, s));
        }
        assert(back.space.free =~= st.space.free);
    }
}

/// Mapping the same number of frames again after unregistering gives the same
/// range, unless the range was taken from the untouched part and the page just
/// below it is free: the two have then grown together into one free stretch.
pub proof fn law_freed_range_is_reused(
    st: VmapState,
    frames: Seq<PhysFrame>,
    again: Seq<PhysFrame>,
)
    requires
        st.wf(),
        st.refusal(frames) is None,
        again.len() == frames.len(),
        !st.any_mapped(again),
        first_fit(st.space.free, frames.len() + GUARD_PAGES) is Some
            || st.space.next == st.space.first || !st.space.free.contains(
            (st.space.next - 1) as u64,
        ),
    ensures
        ({
            let base = st.base_for(frames);
            let back = st.registered(frames).unregistered(base);
            &&& back.refusal(again) is None
            &&& back.base_for(again) == base
        }),
{
    let n = frames.len() as int;
    let total = n + GUARD_PAGES;
    let base = st.base_for(frames);
    let back = st.registered(frames).unregistered(base);
    law_unregister_undoes_registration(st, frames);
    lemma_reserve(st.space, n);
    if first_fit(st.space.free, total) is None {
        let next = st.space.next as u64;
        assert(fits(back.space.free, next, total));
        assert forall|t: u64| t < next implies !#[trigger] fits(back.space.free, t, total) by {
            if fits(back.space.free, t, total) {
                if t + total <= next {
                    assert(fits(st.space.free, t, total)) by {
                        assert forall|p: u64| t <= p < t + total implies #[trigger]
                            st.space.free.contains(p) by {
                            assert(back.space.free.contains(p));
                        }
                    }
                    lemma_some_first_fit(st.space.free, total, t);
                } else {
                    let q = (next - 1) as u64;
                    assert(back.space.free.contains(q));
                    assert(st.space.free.contains(q));
                }
            }
        }
        lemma_first_fit_is(back.space.free, total, next);
    }
}

/// Where `n` pages fit somewhere, there is a lowest place where they do.
proof fn lemma_some_first_fit(free: Set<u64>, n: int, t: u64)
    requires
        fits(free, t, n),
    ensures
        first_fit(free, n) is Some,
    decreases t,
{
    if exists|u: u64| u < t && fits(free, u, n) {
        let u = choose|u: u64| u < t && fits(free, u, n);
        lemma_some_first_fit(free, n, u);
    } else {
        assert(is_first_fit(free, n, t));
    }
}

/// Any two allocations are separated by guard pages, and no frame is mapped at a
/// guard page.
pub proof fn law_guard_pages_separate(st: VmapState, b: u64, c: u64)
    requires
        st.wf(),
        st.live.contains_key(b),
        st.live.contains_key(c),
        b < c,
    ensures
        b + (st.live[b].len() + GUARD_PAGES) * 4096 <= c,
        forall|f: u64| #[trigger]
            st.mapped.contains_key(f) ==> !(b + st.live[b].len() * 4096 <= st.mapped[f] < b + (
            st.live[b].len() + GUARD_PAGES) * 4096),
{
    assert(st.allocation_wf(b) && st.allocation_wf(c));
    assert forall|f: u64| #[trigger] st.mapped.contains_key(f) implies !(b + st.live[b].len() * 4096
        <= st.mapped[f] < b + (st.live[b].len() + GUARD_PAGES) * 4096) by {
        let (d, i) = choose|d: u64, i: int| #[trigger]
            holds_at(st.live, d, i, f) && st.mapped[f] == d + i * 4096;
        assert(st.live.contains_key(d));
        assert(st.allocation_wf(d));
        if d < b {
            assert(d as int / 4096 + st.live[d].len() + GUARD_PAGES <= b as int / 4096);
        } else if d > b {
            assert(b as int / 4096 + st.live[b].len() + GUARD_PAGES <= d as int / 4096);
        }
    }
}

/// Frames that do not occur twice are mapped in their order, one page after the
/// other, from the address that the registration returned.
pub proof fn law_frames_are_mapped_in_order(st: VmapState, frames: Seq<PhysFrame>, i: int)
    requires
        st.wf(),
        st.refusal(frames) is None,
        0 <= i < frames.len(),
        forall|j: int|
            0 <= j < frames.len() && j != i ==> (#[trigger] frames[j]).start != frames[i].start,
    ensures
        st.registered(frames).mapped.contains_key(frames[i].start),
        st.registered(frames).mapped[frames[i].start] == st.base_for(frames) + i * 4096,
{
    let n = frames.len() as int;
    let base = st.base_for(frames);
    lemma_reserve(st.space, n);
    lemma_mapped_with_last(st.mapped, base as int, frames, n, i);
    assert(among(frames, n, frames[i].start));
    lemma_mapped_with(st.mapped, base as int, frames, n, frames[i].start);
}

/// No two frames are mapped at the same virtual address.
pub proof fn law_mappings_are_distinct(st: VmapState, f: u64, g: u64)
    requires
        st.wf(),
        st.mapped.contains_key(f),
        st.mapped.contains_key(g),
        f != g,
    ensures
        st.mapped[f] != st.mapped[g],
{
    let (b, i) = choose|b: u64, i: int| #[trigger]
        holds_at(st.live, b, i, f) && st.mapped[f] == b + i * 4096;
    let (c, j) = choose|c: u64, j: int| #[trigger]
        holds_at(st.live, c, j, g) && st.mapped[g] == c + j * 4096;
    assert(st.live.contains_key(b) && st.live.contains_key(c));
    assert(st.allocation_wf(b) && st.allocation_wf(c));
    if b < c {
        assert(b as int / 4096 + st.live[b].len() + GUARD_PAGES <= c as int / 4096);
    } else if c < b {
        assert(c as int / 4096 + st.live[c].len() + GUARD_PAGES <= b as int / 4096);
    }
}

/// Every mapped page lies in the region that the allocator hands out.
pub proof fn law_mappings_lie_in_the_region(st: VmapState, region: VmapRegion, f: u64)
    requires
        st.wf(),
        region.wf(),
        st.space.first == region.start as int / 4096,
        st.space.last == region.end as int / 4096,
        st.mapped.contains_key(f),
    ensures
        region.holds(VirtAddr { addr: st.mapped[f] }),
        canonical(st.mapped[f]),
        page_aligned(st.mapped[f]),
{
    let (b, i) = choose|b: u64, i: int| #[trigger]
        holds_at(st.live, b, i, f) && st.mapped[f] == b + i * 4096;
    assert(st.live.contains_key(b));
    assert(st.allocation_wf(b));
}

/// No page is lost: once every allocation is gone, all pages that were ever handed out
/// are free again.
pub proof fn law_no_page_is_lost(st: VmapState)
    requires
        st.wf(),
        st.live.is_empty(),
    ensures
        st.space.free == page_span(st.space.first, st.space.next),
        st.mapped.is_empty(),
{
    assert forall|p: u64| st.space.free.contains(p) == page_span(
        st.space.first,
        st.space.next,
    ).contains(p) by {
        if st.space.first <= p < st.space.next && !st.space.free.contains(p) {
            let b = choose|b: u64| covers(st.live, b, p);
            assert(covers(st.live, b, p));
            assert(st.live.dom().contains(b));
        }
    }
    assert(st.space.free =~= page_span(st.space.first, st.space.next));
    assert forall|f: u64| !st.mapped.contains_key(f) by {
        if st.mapped.contains_key(f) {
            let (b, i) = choose|b: u64, i: int| #[trigger]
                holds_at(st.live, b, i, f) && st.mapped[f] == b + i * 4096;
            assert(st.live.dom().contains(b));
        }
    }
    assert(st.mapped.dom() =~= Set::<u64>::empty());
}

/// All of the `n` pages from `t` on, and the page behind them, are free.
pub open spec fn free_from(space: VaSpace, t: u64, n: int) -> bool {
    forall|p: u64| t <= p <= t + n ==> #[trigger] space.free.contains(p)
}

proof fn lemma_free_from(space: VaSpace, t: u64, n: int)
    requires
        space.wf(),
        n > 0,
    ensures
        free_from(space, t, n) <==> fits(space.free, t, n + 1),
{
    if free_from(space, t, n) && t + n + 1 > u64::MAX {
        assert(space.free.contains(u64::MAX));
    }
}

/// The free pages of `after` are those of `before` without the `n` pages from `s` on and
/// the page behind them, and nothing else of the two differs.
pub open spec fn pages_taken(before: VaSpace, after: VaSpace, s: int, n: int) -> bool {
    &&& after.first == before.first
    &&& after.last == before.last
    &&& after.next == before.next
    &&& forall|p: u64| #[trigger]
        after.free.contains(p) <==> before.free.contains(p) && !(s <= p <= s + n)
}

/// Where the pages that are asked for, and one more, are free somewhere, they are taken at
/// the lowest place: they were free and are no more, and nothing else changes.
pub proof fn law_lowest_free_range_is_taken(
    inner: &mut VmapRegionAllocatorInner,
    num_pages: usize,
    t: u64,
    r: Option<VirtAddr>,
)
    requires
        old(inner).space().wf(),
        num_pages > 0,
        free_from(old(inner).space(), t, num_pages as int),
        call_ensures(VmapRegionAllocatorInner::allocate_va_range, (inner, num_pages), r),
    ensures
        r matches Some(va) && {
            let s = va.addr / 4096;
            &&& va.addr % 4096 == 0
            &&& s <= t
            &&& free_from(old(inner).space(), s, num_pages as int)
            &&& forall|u: u64| u < s ==> !#[trigger] free_from(
                old(inner).space(),
                u,
                num_pages as int,
            )
            &&& pages_taken(old(inner).space(), final(inner).space(), s as int, num_pages as int)
        },
        final(inner).mapped() == old(inner).mapped(),
        final(inner).live() == old(inner).live(),
{
    let space = old(inner).space();
    let n = num_pages as int;
    lemma_free_from(space, t, n);
    lemma_some_first_fit(space.free, n + 1, t);
    lemma_reserve(space, n);
    let s = first_fit(space.free, n + 1)->0;
    assert(is_first_fit(space.free, n + 1, s));
    lemma_free_from(space, s, n);
    assert(fits(space.free, t, n + 1));
    assert forall|u: u64| u < s implies !#[trigger] free_from(space, u, n) by {
        lemma_free_from(space, u, n);
        assert(!fits(space.free, u, n + 1));
    }
}

/// Where they are free nowhere, they are taken from the untouched part, from its low end
/// on, if it has as many and one more; else none are given and nothing changes.
pub proof fn law_untouched_range_is_taken(
    inner: &mut VmapRegionAllocatorInner,
    num_pages: usize,
    r: Option<VirtAddr>,
)
    requires
        old(inner).space().wf(),
        num_pages > 0,
        forall|t: u64| !#[trigger] free_from(old(inner).space(), t, num_pages as int),
        call_ensures(VmapRegionAllocatorInner::allocate_va_range, (inner, num_pages), r),
    ensures
        final(inner).mapped() == old(inner).mapped(),
        final(inner).live() == old(inner).live(),
        final(inner).space().first == old(inner).space().first,
        final(inner).space().last == old(inner).space().last,
        final(inner).space().free == old(inner).space().free,
        r is Some <==> old(inner).space().next + num_pages + 1 <= old(inner).space().last,
        r matches Some(va) ==> {
            &&& va.addr == old(inner).space().next * 4096
            &&& final(inner).space().next == old(inner).space().next + num_pages + 1
        },
        r is None ==> final(inner).space().next == old(inner).space().next,
{
    let space = old(inner).space();
    let n = num_pages as int;
    let total = n + 1;
    assert forall|t: u64| !is_first_fit(space.free, total, t) by {
        lemma_free_from(space, t, n);
        assert(!free_from(space, t, n));
    }
    assert(first_fit(space.free, n + 1) is None);
}

/// No pages are no range.
pub proof fn law_no_pages_no_range(inner: &mut VmapRegionAllocatorInner, r: Option<VirtAddr>)
    requires
        call_ensures(VmapRegionAllocatorInner::allocate_va_range, (inner, 0usize), r),
    ensures
        r is None,
        final(inner).space() == old(inner).space(),
{
}

/// A range that comes back is free, with the page behind it; other pages are as before.
pub proof fn law_range_comes_back(
    inner: &mut VmapRegionAllocatorInner,
    start: VirtAddr,
    num_pages: usize,
    p: u64,
)
    requires
        call_ensures(VmapRegionAllocatorInner::free_va_range, (inner, start, num_pages), ()),
    ensures
        num_pages > 0 && start.addr / 4096 <= p <= start.addr / 4096 + num_pages ==> final(inner).space().free.contains(p),
        num_pages == 0 || p < start.addr / 4096 || p > start.addr / 4096 + num_pages ==> (final(inner).space().free.contains(p) <==> old(inner).space().free.contains(p)),
        final(inner).space().next == old(inner).space().next,
        final(inner).space().first == old(inner).space().first,
        final(inner).space().last == old(inner).space().last,
        final(inner).mapped() == old(inner).mapped(),
        final(inner).live() == old(inner).live(),
{
}

/// Frames that are mapped get the lowest free range that holds them and one more page;
/// where there is none, the low end of the untouched part. They are refused only if they
/// are none, if one of them is mapped already, or if there is no room, in this order; and
/// a refusal changes nothing.
pub proof fn law_frames_get_a_range(
    allocator: &mut VmapRegionAllocator,
    frames: &[PhysFrame],
    t: u64,
    r: Result<VirtAddr, VmapAllocError>,
)
    requires
        old(allocator)@.wf(),
        call_ensures(
            VmapRegionAllocator::allocate_va_and_register_map,
            (allocator, frames),
            r,
        ),
    ensures
        ({
            let before = old(allocator)@.space;
            let after = final(allocator)@.space;
            let n = frames@.len() as int;
            let taken = exists|i: int|
                0 <= i < n && old(allocator)@.mapped.contains_key((#[trigger] frames@[i]).start);
            let fits_free = exists|u: u64| free_from(before, u, n);
            &&& n == 0 <==> r == Err::<VirtAddr, VmapAllocError>(VmapAllocError::EmptyInput)
            &&& n > 0 && taken <==> r == Err::<VirtAddr, VmapAllocError>(
                VmapAllocError::DuplicateMapping,
            )
            &&& n > 0 && !taken && !fits_free && before.next + n + 1 > before.last <==> r == Err::<
                VirtAddr,
                VmapAllocError,
            >(VmapAllocError::VaSpaceExhausted)
            &&& r is Err ==> final(allocator)@ == old(allocator)@
            &&& r matches Ok(va) ==> {
                let s = va.addr / 4096;
                &&& va.addr % 4096 == 0
                &&& free_from(before, t, n) ==> s <= t && free_from(before, s, n) && pages_taken(
                    before,
                    after,
                    s as int,
                    n,
                )
                &&& !fits_free ==> {
                    &&& s == before.next
                    &&& after.next == before.next + n + 1
                    &&& after.free == before.free
                    &&& after.first == before.first && after.last == before.last
                }
            }
        }),
{
    let st = old(allocator)@;
    let before = st.space;
    let n = frames@.len() as int;
    if n > 0 {
        let taken = exists|i: int|
            0 <= i < n && st.mapped.contains_key((#[trigger] frames@[i]).start);
        assert(taken == st.any_mapped(frames@)) by {
            if taken {
                let i = choose|i: int|
                    0 <= i < n && st.mapped.contains_key((#[trigger] frames@[i]).start);
                assert(st.mapped.contains_key(frames@[i].start));
            }
            if st.any_mapped(frames@) {
                let i = choose|i: int|
                    0 <= i < frames@.len() && st.mapped.contains_key(#[trigger] frames@[i].start);
                assert(st.mapped.contains_key(frames@[i].start));
            }
        }
        if before.choice(n) is Some {
            lemma_reserve(before, n);
        }
        lemma_free_from(before, t, n);
        if exists|u: u64| free_from(before, u, n) {
            let u = choose|u: u64| free_from(before, u, n);
            lemma_free_from(before, u, n);
            lemma_some_first_fit(before.free, n + 1, u);
            let s = first_fit(before.free, n + 1)->0;
            assert(is_first_fit(before.free, n + 1, s));
            lemma_free_from(before, s, n);
            if free_from(before, t, n) {
                assert(fits(before.free, t, n + 1));
            }
        } else {
            let total = n + 1;
            assert forall|u: u64| !is_first_fit(before.free, total, u) by {
                lemma_free_from(before, u, n);
                assert(!free_from(before, u, n));
            }
            assert(first_fit(before.free, n + 1) is None);
        }
    }
}

/// Mapped frames are found as an allocation at the address that was returned; a frame is
/// mapped at the page of its place, the last one if it has several. Other allocations and
/// frames are as before.
pub proof fn law_frames_are_found(
    allocator: &mut VmapRegionAllocator,
    frames: &[PhysFrame],
    va: VirtAddr,
    i: int,
    other: u64,
)
    requires
        old(allocator)@.wf(),
        call_ensures(
            VmapRegionAllocator::allocate_va_and_register_map,
            (allocator, frames),
            Ok::<VirtAddr, VmapAllocError>(va),
        ),
        0 <= i < frames@.len(),
        forall|j: int| i < j < frames@.len() ==> (#[trigger] frames@[j]).start != frames@[i].start,
    ensures
        final(allocator)@.live.contains_key(va.addr),
        final(allocator)@.live[va.addr] == frames@,
        !old(allocator)@.live.contains_key(va.addr),
        other != va.addr ==> (final(allocator)@.live.contains_key(other) <==> old(allocator)@.live.contains_key(other)),
        old(allocator)@.live.contains_key(other) ==> final(allocator)@.live[other] == old(allocator)@.live[other],
        final(allocator)@.mapped.contains_key(frames@[i].start),
        final(allocator)@.mapped[frames@[i].start] == va.addr + i * 4096,
        (forall|j: int| 0 <= j < frames@.len() ==> (#[trigger] frames@[j]).start != other) ==> {
            &&& final(allocator)@.mapped.contains_key(other) <==> old(allocator)@.mapped.contains_key(other)
            &&& old(allocator)@.mapped.contains_key(other) ==> final(allocator)@.mapped[other]
                == old(allocator)@.mapped[other]
        },
{
    let st = old(allocator)@;
    let n = frames@.len() as int;
    lemma_reserve(st.space, n);
    lemma_registered_wf(st, frames@);
    lemma_mapped_with_last(st.mapped, va.addr as int, frames@, n, i);
    assert(among(frames@, n, frames@[i].start));
    lemma_mapped_with(st.mapped, va.addr as int, frames@, n, frames@[i].start);
    lemma_mapped_with(st.mapped, va.addr as int, frames@, n, other);
}

/// An allocation that is unregistered is gone with its frames, and its pages and the one
/// behind them are free. How many it had is returned. All else is as before; where there
/// is no allocation, everything is.
pub proof fn law_unregistered_is_gone(
    allocator: &mut VmapRegionAllocator,
    base: VirtAddr,
    r: Option<usize>,
    p: u64,
    other: u64,
)
    requires
        old(allocator)@.wf(),
        call_ensures(VmapRegionAllocator::unregister_allocation, (allocator, base), r),
    ensures
        ({
            let before = old(allocator)@;
            let after = final(allocator)@;
            &&& r is Some <==> before.live.contains_key(base.addr)
            &&& r is None ==> after == before
            &&& r matches Some(n) ==> {
                let frames = before.live[base.addr];
                let its_own = exists|i: int|
                    0 <= i < frames.len() && (#[trigger] frames[i]).start == other;
                &&& n == frames.len()
                &&& !after.live.contains_key(base.addr)
                &&& other != base.addr ==> (after.live.contains_key(other)
                    <==> before.live.contains_key(other))
                &&& after.live.contains_key(other) ==> after.live[other] == before.live[other]
                &&& its_own ==> !after.mapped.contains_key(other)
                &&& !its_own ==> (after.mapped.contains_key(other) <==> before.mapped.contains_key(
                    other,
                ))
                &&& after.mapped.contains_key(other) ==> after.mapped[other]
                    == before.mapped[other]
                &&& after.space.free.contains(p) <==> before.space.free.contains(p) || base.addr
                    / 4096 <= p <= base.addr / 4096 + n
                &&& after.space.next == before.space.next
                &&& after.space.first == before.space.first
                &&& after.space.last == before.space.last
            }
        }),
{
    let before = old(allocator)@;
    if before.live.contains_key(base.addr) {
        assert(before.allocation_wf(base.addr));
        let frames = before.live[base.addr];
        assert((exists|i: int| 0 <= i < frames.len() && (#[trigger] frames[i]).start == other)
            == among(frames, frames.len() as int, other));
    }
}

/// A fresh allocator has all pages of its region untouched and nothing mapped.
pub proof fn law_fresh_allocator(region: VmapRegion, r: VmapRegionAllocator, p: u64)
    requires
        call_ensures(VmapRegionAllocator::new, (region,), r),
    ensures
        r@.space.first == region.start / 4096,
        r@.space.next == region.start / 4096,
        r@.space.last == region.end / 4096,
        !r@.space.free.contains(p),
        !r@.mapped.contains_key(p),
        !r@.live.contains_key(p),
{
}

/// An address is of the region from its start up to, but not including, its end; page `n`
/// begins at `n` times 4096.
pub proof fn law_region_addresses(
    region: VmapRegion,
    va: VirtAddr,
    inside: bool,
    vpn: u64,
    page: VirtAddr,
)
    requires
        call_ensures(is_vmap_address, (&region, va), inside),
        call_ensures(VmapRegionAllocatorInner::vpn_to_va, (vpn,), page),
    ensures
        inside <==> region.start <= va.addr && va.addr < region.end,
        page.addr == vpn * 4096,
{
}

/// Fresh inner state has all pages of its region untouched.
pub proof fn law_fresh_inner_state(region: VmapRegion, r: VmapRegionAllocatorInner, p: u64)
    requires
        call_ensures(VmapRegionAllocatorInner::new, (region,), r),
    ensures
        r.spec_region() == region,
        r.space().first == region.start / 4096,
        r.space().next == region.start / 4096,
        r.space().last == region.end / 4096,
        !r.space().free.contains(p),
        !r.mapped().contains_key(p),
        !r.live().contains_key(p),
{
}

} // verus!
