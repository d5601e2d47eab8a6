//! Memory that the normal world shares with the secure world: its pages, its
//! registration, and the parts of it that memory references name.

use vstd::prelude::*;

use crate::addr::PAGE_SIZE;
use crate::codes::OpteeSmcReturnCode;
use crate::msg::{OpteeMsgParamRmem, OpteeMsgParamTmem};
use crate::phys::PhysPageAddr;
use crate::tables::{shm_entries, ShmTable};

verus! {

/// Shared memory: its pages in order, and where in the first page it begins.
#[verifier::ext_equal]
pub struct ShmRegion<const ALIGN: usize> {
    pub pages: Seq<PhysPageAddr<ALIGN>>,
    pub offset: int,
}

impl<const ALIGN: usize> ShmRegion<ALIGN> {
    /// The memory begins in its first page, and its pages are pages.
    pub open spec fn wf(self) -> bool {
        &&& 0 <= self.offset < ALIGN
        &&& forall|i: int| 0 <= i < self.pages.len() ==> (#[trigger] self.pages[i]).wf()
    }

    /// How many bytes the pages hold from the beginning of the memory on.
    pub open spec fn room(self) -> int {
        self.pages.len() * ALIGN - self.offset
    }

    /// The physical address of byte `j` of the memory.
    pub open spec fn byte_addr(self, j: int) -> int {
        self.pages[(self.offset + j) / (ALIGN as int)].addr + (self.offset + j) % (ALIGN as int)
    }
}

/// The pages of shared memory of the normal world, and the offset in the first of
/// them, which is smaller than `ALIGN`.
#[derive(Debug, PartialEq, Eq)]
pub struct ShmInfo<const ALIGN: usize> {
    page_addrs: Vec<PhysPageAddr<ALIGN>>,
    page_offset: usize,
}

impl<const ALIGN: usize> View for ShmInfo<ALIGN> {
    type V = ShmRegion<ALIGN>;

    closed spec fn view(&self) -> ShmRegion<ALIGN> {
        ShmRegion { pages: self.page_addrs@, offset: self.page_offset as int }
    }
}

impl<const ALIGN: usize> ShmInfo<ALIGN> {
    /// Takes the pages and the offset; `EBadAddr` if the offset is not in the first
    /// page.
    pub fn new(page_addrs: Vec<PhysPageAddr<ALIGN>>, page_offset: usize) -> (r: Result<
        Self,
        OpteeSmcReturnCode,
    >)
        ensures
            page_offset >= ALIGN ==> r == Err::<Self, OpteeSmcReturnCode>(
                OpteeSmcReturnCode::EBadAddr,
            ),
            page_offset < ALIGN ==> (r matches Ok(info) && info@ == (ShmRegion {
                pages: page_addrs@,
                offset: page_offset as int,
            })),
    {
        if page_offset >= ALIGN {
            return Err(OpteeSmcReturnCode::EBadAddr);
        }
        Ok(ShmInfo { page_addrs, page_offset })
    }

    /// The pages in order.
    pub fn page_addrs(&self) -> (r: &Vec<PhysPageAddr<ALIGN>>)
        ensures
            r@ == self@.pages,
    {
        &self.page_addrs
    }

    /// Where in the first page the memory begins.
    pub fn page_offset(&self) -> (r: usize)
        ensures
            r == self@.offset,
    {
        self.page_offset
    }
}

impl<const ALIGN: usize> Clone for ShmInfo<ALIGN> {
    fn clone(&self) -> (r: Self)
        ensures
            r@ == self@,
    {
        let mut page_addrs: Vec<PhysPageAddr<ALIGN>> = Vec::new();
        let mut i: usize = 0;
        while i < self.page_addrs.len()
            invariant
                i <= self.page_addrs.len(),
                page_addrs@ == self.page_addrs@.take(i as int),
            decreases self.page_addrs.len() - i,
        {
            page_addrs.push(self.page_addrs[i]);
            assert(self.page_addrs@.take(i + 1) =~= self.page_addrs@.take(i as int).push(
                self.page_addrs@[i as int],
            ));
            i = i + 1;
        }
        assert(page_addrs@ =~= self.page_addrs@);
        ShmInfo { page_addrs, page_offset: self.page_offset }
    }
}

/// `a` divided by the page size, rounded up.
pub open spec fn pages_for(a: int) -> int {
    (a + 4095) / 4096
}

/// The pages of the buffer that a temporary memory reference names fit in the
/// physical address space.
pub open spec fn tmem_fits(tmem: OpteeMsgParamTmem) -> bool {
    let off = tmem.buf_ptr as int % 4096;
    let n = pages_for(off + tmem.size);
    tmem.buf_ptr == 0 || {
        &&& off + tmem.size <= u64::MAX
        &&& n > 0 ==> tmem.buf_ptr - off + (n - 1) * 4096 <= u64::MAX
    }
}

/// The memory that a temporary memory reference names. There is none at address
/// zero; a null reference names no memory at all.
pub open spec fn tmem_region(tmem: OpteeMsgParamTmem) -> Result<
    ShmRegion<4096>,
    OpteeSmcReturnCode,
> {
    let off = tmem.buf_ptr as int % 4096;
    let base = tmem.buf_ptr - off;
    let n = pages_for(off + tmem.size);
    if tmem.buf_ptr == 0 {
        Ok(ShmRegion { pages: Seq::empty(), offset: 0 })
    } else if base == 0 && n > 0 {
        Err(OpteeSmcReturnCode::EBadAddr)
    } else {
        Ok(
            ShmRegion {
                pages: Seq::new(
                    n as nat,
                    |i: int| PhysPageAddr::<4096> { addr: (base + i * 4096) as u64 },
                ),
                offset: off,
            },
        )
    }
}

/// Whether the pages of the buffer fit in the physical address space.
pub fn tmem_buffer_fits(tmem: &OpteeMsgParamTmem) -> (r: bool)
    ensures
        r == tmem_fits(*tmem),
{
    if tmem.buf_ptr == 0 {
        return true;
    }
    let off: u64 = tmem.buf_ptr % 4096;
    let len: u64 = match off.checked_add(tmem.size) {
        Some(len) => len,
        None => {
            return false;
        },
    };
    let n: u64 = len / 4096 + (if len % 4096 != 0 {
        1
    } else {
        0
    });
    assert(n == pages_for(len as int));
    n == 0 || (tmem.buf_ptr - off).checked_add((n - 1) * 4096).is_some()
}

/// The shared memory that a temporary memory reference names by its physical
/// address; `EBadAddr` if one of its pages is at address zero.
pub fn get_shm_info_from_optee_msg_param_tmem(tmem: OpteeMsgParamTmem) -> (r: Result<
    ShmInfo<PAGE_SIZE>,
    OpteeSmcReturnCode,
>)
    requires
        tmem_fits(tmem),
    ensures
        match tmem_region(tmem) {
            Ok(region) => r matches Ok(info) && info@ == region && region.wf(),
            Err(error) => r == Err::<ShmInfo<PAGE_SIZE>, OpteeSmcReturnCode>(error),
        },
{
    if tmem.buf_ptr == 0 {
        return ShmInfo::new(Vec::new(), 0);
    }
    let page_offset: u64 = tmem.buf_ptr % 4096;
    let aligned_addr: u64 = tmem.buf_ptr - page_offset;
    let len: u64 = page_offset + tmem.size;
    let num_pages: u64 = len / 4096 + (if len % 4096 != 0 {
        1
    } else {
        0
    });
    assert(num_pages == pages_for(len as int));
    let mut page_addrs: Vec<PhysPageAddr<PAGE_SIZE>> = Vec::new();
    let ghost all = Seq::new(
        num_pages as nat,
        |i: int| PhysPageAddr::<4096> { addr: (aligned_addr + i * 4096) as u64 },
    );
    let mut i: u64 = 0;
    while i < num_pages
        invariant
            i <= num_pages,
            aligned_addr % 4096 == 0,
            tmem.buf_ptr != 0,
            page_offset == tmem.buf_ptr as int % 4096,
            aligned_addr == tmem.buf_ptr - page_offset,
            num_pages == pages_for(page_offset + tmem.size),
            num_pages > 0 ==> aligned_addr + (num_pages - 1) * 4096 <= u64::MAX,
            i > 0 ==> aligned_addr != 0,
            all == Seq::new(
                num_pages as nat,
                |i: int| PhysPageAddr::<4096> { addr: (aligned_addr + i * 4096) as u64 },
            ),
            page_addrs@ == all.take(i as int),
            forall|k: int| 0 <= k < page_addrs@.len() ==> (#[trigger] page_addrs@[k]).wf(),
        decreases num_pages - i,
    {
        let page_addr: u64 = aligned_addr + i * 4096;
        match PhysPageAddr::<PAGE_SIZE>::new(page_addr) {
            Some(page) => {
                assert(all.take(i + 1) =~= all.take(i as int).push(page));
                page_addrs.push(page);
            },
            None => {
                return Err(OpteeSmcReturnCode::EBadAddr);
            },
        }
        i = i + 1;
    }
    assert(page_addrs@ =~= all);
    ShmInfo::new(page_addrs, page_offset as usize)
}

/// The part of registered memory that a registered memory reference names:
/// `ENotAvail` if nothing is registered, `EBadAddr` if the part is not inside.
pub open spec fn rmem_region(shms: Map<u64, ShmRegion<4096>>, rmem: OpteeMsgParamRmem) -> Result<
    ShmRegion<4096>,
    OpteeSmcReturnCode,
> {
    let shm = shms[rmem.shm_ref];
    let start = shm.offset + rmem.offs;
    let end = start + rmem.size;
    if !shms.contains_key(rmem.shm_ref) {
        Err(OpteeSmcReturnCode::ENotAvail)
    } else if end > u64::MAX || start / 4096 >= shm.pages.len() || pages_for(end)
        > shm.pages.len() {
        Err(OpteeSmcReturnCode::EBadAddr)
    } else {
        Ok(
            ShmRegion {
                pages: shm.pages.subrange(start / 4096, pages_for(end)),
                offset: start % 4096,
            },
        )
    }
}

/// The shared memory that is registered, by its reference. References that are
/// not registered are refused.
pub struct ShmRefMap {
    inner: ShmTable,
}

impl View for ShmRefMap {
    type V = Map<u64, ShmRegion<4096>>;

    closed spec fn view(&self) -> Map<u64, ShmRegion<4096>> {
        shm_entries(self.inner)
    }
}

/// Everything that is registered is well formed.
pub open spec fn shms_wf(shms: Map<u64, ShmRegion<4096>>) -> bool {
    forall|k: u64| #[trigger] shms.contains_key(k) ==> shms[k].wf()
}

/// What registering `region` under `shm_ref` leads to: `ENotAvail` and no change if the
/// reference is taken.
pub open spec fn registered(
    shms: Map<u64, ShmRegion<4096>>,
    shm_ref: u64,
    region: ShmRegion<4096>,
) -> (Map<u64, ShmRegion<4096>>, Result<(), OpteeSmcReturnCode>) {
    if shms.contains_key(shm_ref) {
        (shms, Err(OpteeSmcReturnCode::ENotAvail))
    } else {
        (shms.insert(shm_ref, region), Ok(()))
    }
}

impl ShmRefMap {
    /// Nothing is registered.
    pub fn new() -> (r: Self)
        ensures
            r@ == Map::<u64, ShmRegion<4096>>::empty(),
            shms_wf(r@),
    {
        let r = ShmRefMap { inner: ShmTable::new() };
        assert(r@ =~= Map::<u64, ShmRegion<4096>>::empty());
        r
    }

    /// Registers memory under a reference; `ENotAvail` if the reference is taken.
    pub fn insert(&mut self, shm_ref: u64, info: ShmInfo<PAGE_SIZE>) -> (r: Result<
        (),
        OpteeSmcReturnCode,
    >)
        ensures
            (final(self)@, r) == registered(old(self)@, shm_ref, info@),
            shms_wf(old(self)@) && info@.wf() ==> shms_wf(final(self)@),
    {
        if self.inner.contains_key(shm_ref) {
            Err(OpteeSmcReturnCode::ENotAvail)
        } else {
            self.inner.insert(shm_ref, info);
            Ok(())
        }
    }

    /// Removes the memory that is registered under a reference.
    pub fn remove(&mut self, shm_ref: u64) -> (r: Option<ShmInfo<PAGE_SIZE>>)
        ensures
            final(self)@ == old(self)@.remove(shm_ref),
            r is Some <==> old(self)@.contains_key(shm_ref),
            r matches Some(info) ==> info@ == old(self)@[shm_ref],
            shms_wf(old(self)@) ==> shms_wf(final(self)@),
    {
        self.inner.remove(shm_ref)
    }

    /// A copy of what is registered under a reference.
    pub fn get(&self, shm_ref: u64) -> (r: Option<ShmInfo<PAGE_SIZE>>)
        ensures
            r is Some <==> self@.contains_key(shm_ref),
            r matches Some(info) ==> info@ == self@[shm_ref],
    {
        match self.inner.get(shm_ref) {
            Some(info) => Some(info.clone()),
            None => None,
        }
    }

    /// The part of registered memory that a registered memory reference names:
    /// `ENotAvail` if nothing is registered, `EBadAddr` if the part is not inside.
    pub fn get_shm_info_from_optee_msg_param_rmem(&self, rmem: OpteeMsgParamRmem) -> (r: Result<
        ShmInfo<PAGE_SIZE>,
        OpteeSmcReturnCode,
    >)
        requires
            shms_wf(self@),
        ensures
            match rmem_region(self@, rmem) {
                Ok(region) => r matches Ok(info) && info@ == region && region.wf(),
                Err(error) => r == Err::<ShmInfo<PAGE_SIZE>, OpteeSmcReturnCode>(error),
            },
    {
        let shm_info = match self.inner.get(rmem.shm_ref) {
            Some(shm_info) => shm_info,
            None => {
                return Err(OpteeSmcReturnCode::ENotAvail);
            },
        };
        let ghost shm = self@[rmem.shm_ref];
        assert(shm.wf());
        let start: u64 = match (shm_info.page_offset as u64).checked_add(rmem.offs) {
            Some(start) => start,
            None => {
                return Err(OpteeSmcReturnCode::EBadAddr);
            },
        };
        let end: u64 = match start.checked_add(rmem.size) {
            Some(end) => end,
            None => {
                return Err(OpteeSmcReturnCode::EBadAddr);
            },
        };
        let start_page_index: u64 = start / 4096;
        let end_page_index: u64 = end / 4096 + (if end % 4096 != 0 {
            1
        } else {
            0
        });
        assert(end_page_index == pages_for(end as int));
        let len: usize = shm_info.page_addrs.len();
        if start_page_index >= len as u64 || end_page_index > len as u64 {
            return Err(OpteeSmcReturnCode::EBadAddr);
        }
        let mut page_addrs: Vec<PhysPageAddr<PAGE_SIZE>> = Vec::new();
        let mut i: u64 = start_page_index;
        let ghost part = shm.pages.subrange(start_page_index as int, end_page_index as int);
        while i < end_page_index
            invariant
                start_page_index <= i <= end_page_index,
                end_page_index <= shm_info.page_addrs.len(),
                shm_info@.pages == shm.pages,
                shm.wf(),
                part == shm.pages.subrange(start_page_index as int, end_page_index as int),
                page_addrs@ == part.take(i - start_page_index),
                forall|k: int| 0 <= k < page_addrs@.len() ==> (#[trigger] page_addrs@[k]).wf(),
            decreases end_page_index - i,
        {
            let page = shm_info.page_addrs[i as usize];
            assert(page == shm.pages[i as int]);
            assert(part.take(i + 1 - start_page_index) =~= part.take(i - start_page_index).push(
                page,
            ));
            page_addrs.push(page);
            i = i + 1;
        }
        assert(page_addrs@ =~= part);
        ShmInfo::new(page_addrs, (start % 4096) as usize)
    }
}

/// Bytes of a temporary memory reference lie where it says, one after the other
/// from its address on, and all of them are in the pages.
pub proof fn law_tmem_bytes(tmem: OpteeMsgParamTmem, j: int)
    requires
        tmem.buf_ptr != 0,
        tmem_fits(tmem),
        tmem_region(tmem) is Ok,
        0 <= j < tmem.size,
    ensures
        tmem.size <= tmem_region(tmem)->Ok_0.room(),
        tmem_region(tmem)->Ok_0.byte_addr(j) == tmem.buf_ptr + j,
{
    let region = tmem_region(tmem)->Ok_0;
    let off = tmem.buf_ptr as int % 4096;
    let i = (off + j) / 4096;
    assert(0 <= i < pages_for(off + tmem.size));
    assert(region.pages[i].addr == (tmem.buf_ptr - off + i * 4096) as u64);
}

/// Byte `j` of a registered memory reference is byte `offs + j` of the memory that
/// is registered, and all of them are in its pages.
pub proof fn law_rmem_bytes(shms: Map<u64, ShmRegion<4096>>, rmem: OpteeMsgParamRmem, j: int)
    requires
        shms_wf(shms),
        rmem_region(shms, rmem) is Ok,
        0 <= j < rmem.size,
    ensures
        rmem.offs + rmem.size <= shms[rmem.shm_ref].room(),
        rmem.size <= rmem_region(shms, rmem)->Ok_0.room(),
        rmem_region(shms, rmem)->Ok_0.byte_addr(j) == shms[rmem.shm_ref].byte_addr(rmem.offs + j),
{
    let shm = shms[rmem.shm_ref];
    assert(shm.wf());
    let part = rmem_region(shms, rmem)->Ok_0;
    let start = shm.offset + rmem.offs;
    let end = start + rmem.size;
    let k = (part.offset + j) / 4096;
    assert(part.offset == start % 4096);
    assert(start / 4096 + k == (start + j) / 4096);
    assert(0 <= k < pages_for(end) - start / 4096);
    assert(part.pages[k] == shm.pages[start / 4096 + k]);
}

/// A registered memory reference to nothing that is registered is refused, and so
/// is one that reaches beyond the pages.
pub proof fn law_rmem_outside_is_refused(shms: Map<u64, ShmRegion<4096>>, rmem: OpteeMsgParamRmem)
    requires
        shms_wf(shms),
        !shms.contains_key(rmem.shm_ref) || rmem.offs + rmem.size > shms[rmem.shm_ref].room(),
    ensures
        rmem_region(shms, rmem) is Err,
{
}

/// A temporary memory reference to a buffer that fits names the pages that the buffer
/// lies in, in order and no others, and where in the first of them it begins. A buffer in
/// the page at address zero is refused; the null reference names no page.
pub proof fn law_tmem_pages(
    tmem: OpteeMsgParamTmem,
    r: Result<ShmInfo<PAGE_SIZE>, OpteeSmcReturnCode>,
)
    requires
        tmem.buf_ptr < 4096 ==> tmem.buf_ptr == 0 || tmem.buf_ptr + tmem.size
            < 0x1_0000_0000_0000_0000,
        tmem.buf_ptr >= 4096 ==> tmem.buf_ptr + tmem.size <= 0x1_0000_0000_0000_0000,
        call_ensures(get_shm_info_from_optee_msg_param_tmem, (tmem,), r),
    ensures
        tmem.buf_ptr == 0 ==> (r matches Ok(info) && info@.pages.len() == 0 && info@.offset == 0),
        0 < tmem.buf_ptr < 4096 ==> (r matches Err(e) && e == OpteeSmcReturnCode::EBadAddr),
        tmem.buf_ptr >= 4096 ==> {
            &&& r matches Ok(info)
            &&& 0 <= info@.offset < 4096
            &&& (tmem.buf_ptr - info@.offset) % 4096 == 0
            &&& forall|i: int|
                0 <= i < info@.pages.len() ==> (#[trigger] info@.pages[i]).addr == tmem.buf_ptr
                    - info@.offset + i * 4096
            &&& info@.pages.len() * 4096 >= info@.offset + tmem.size
            &&& (info@.pages.len() - 1) * 4096 < info@.offset + tmem.size
        },
{
}

/// A buffer fits if it ends no later than the address space does; one that begins in the
/// first page and fills all of the address space does not.
pub proof fn law_tmem_fits(tmem: OpteeMsgParamTmem, r: bool)
    requires
        call_ensures(tmem_buffer_fits, (&tmem,), r),
    ensures
        tmem.buf_ptr == 0 ==> r,
        0 < tmem.buf_ptr < 4096 ==> (r <==> tmem.buf_ptr + tmem.size < 0x1_0000_0000_0000_0000),
        tmem.buf_ptr >= 4096 ==> (r <==> tmem.buf_ptr + tmem.size <= 0x1_0000_0000_0000_0000),
{
}

/// A registered memory reference is accepted exactly if it begins in a page that is
/// registered and ends no later than the last of them. It then names the pages that it
/// lies in, in order and no others.
pub proof fn law_rmem_pages(
    shms: ShmRefMap,
    rmem: OpteeMsgParamRmem,
    r: Result<ShmInfo<PAGE_SIZE>, OpteeSmcReturnCode>,
)
    requires
        shms_wf(shms@),
        call_ensures(ShmRefMap::get_shm_info_from_optee_msg_param_rmem, (&shms, rmem), r),
    ensures
        !shms@.contains_key(rmem.shm_ref) ==> (r matches Err(e) && e
            == OpteeSmcReturnCode::ENotAvail),
        shms@.contains_key(rmem.shm_ref) ==> {
            let all = shms@[rmem.shm_ref];
            let start = all.offset + rmem.offs;
            let end = start + rmem.size;
            if start < all.pages.len() * 4096 && end <= all.pages.len() * 4096 && end
                <= 0xffff_ffff_ffff_ffff {
                &&& r matches Ok(info)
                &&& 0 <= info@.offset < 4096
                &&& (start - info@.offset) % 4096 == 0
                &&& info@.pages.len() * 4096 >= info@.offset + rmem.size
                &&& (info@.pages.len() - 1) * 4096 < info@.offset + rmem.size
                &&& forall|i: int|
                    0 <= i < info@.pages.len() ==> (#[trigger] info@.pages[i]) == all.pages[(start
                        - info@.offset) / 4096 + i]
            } else {
                r matches Err(e) && e == OpteeSmcReturnCode::EBadAddr
            }
        },
{
    assert(shms@.contains_key(rmem.shm_ref) ==> shms@[rmem.shm_ref].wf());
}

/// What is registered under a free reference is what a lookup gives until it is removed,
/// no other reference is affected, and a reference that is taken keeps what it has.
pub proof fn law_lookup_gives_what_was_registered(
    shms: &mut ShmRefMap,
    shm_ref: u64,
    info: ShmInfo<PAGE_SIZE>,
    inserted: Result<(), OpteeSmcReturnCode>,
    after: ShmRefMap,
    other: u64,
    found: Option<ShmInfo<PAGE_SIZE>>,
)
    requires
        call_ensures(ShmRefMap::insert, (shms, shm_ref, info), inserted),
        after@ == final(shms)@,
        call_ensures(ShmRefMap::get, (&after, other), found),
    ensures
        old(shms)@.contains_key(shm_ref) <==> inserted == Err::<(), OpteeSmcReturnCode>(
            OpteeSmcReturnCode::ENotAvail,
        ),
        inserted is Ok && other == shm_ref ==> (found matches Some(f) && f@ == info@),
        inserted is Err || other != shm_ref ==> {
            &&& found is Some <==> old(shms)@.contains_key(other)
            &&& found matches Some(f) ==> f@ == old(shms)@[other]
        },
{
}

/// Removing a reference hands out what was registered under it, and nothing else goes.
pub proof fn law_removal(
    shms: &mut ShmRefMap,
    shm_ref: u64,
    removed: Option<ShmInfo<PAGE_SIZE>>,
    after: ShmRefMap,
    other: u64,
    found: Option<ShmInfo<PAGE_SIZE>>,
)
    requires
        call_ensures(ShmRefMap::remove, (shms, shm_ref), removed),
        after@ == final(shms)@,
        call_ensures(ShmRefMap::get, (&after, other), found),
    ensures
        removed is Some <==> old(shms)@.contains_key(shm_ref),
        removed matches Some(info) ==> info@ == old(shms)@[shm_ref],
        other == shm_ref ==> found is None,
        other != shm_ref ==> {
            &&& found is Some <==> old(shms)@.contains_key(other)
            &&& found matches Some(f) ==> f@ == old(shms)@[other]
        },
{
}

/// Pages and offset that shared memory is made of are those that it has, and an offset
/// beyond the first page is refused.
pub proof fn law_shm_info_keeps_its_parts<const ALIGN: usize>(
    page_addrs: Vec<PhysPageAddr<ALIGN>>,
    page_offset: usize,
    made: Result<ShmInfo<ALIGN>, OpteeSmcReturnCode>,
    info: ShmInfo<ALIGN>,
    pages: &Vec<PhysPageAddr<ALIGN>>,
    offset: usize,
)
    requires
        call_ensures(ShmInfo::<ALIGN>::new, (page_addrs, page_offset), made),
        made matches Ok(i) ==> i == info,
        call_ensures(ShmInfo::<ALIGN>::page_addrs, (&info,), pages),
        call_ensures(ShmInfo::<ALIGN>::page_offset, (&info,), offset),
    ensures
        page_offset >= ALIGN ==> (made matches Err(e) && e == OpteeSmcReturnCode::EBadAddr),
        page_offset < ALIGN ==> made is Ok && pages@ == page_addrs@ && offset == page_offset,
{
}

/// Nothing is looked up in a fresh map.
pub proof fn law_fresh_map(map: ShmRefMap, shm_ref: u64, r: Option<ShmInfo<PAGE_SIZE>>)
    requires
        call_ensures(ShmRefMap::new, (), map),
        call_ensures(ShmRefMap::get, (&map, shm_ref), r),
    ensures
        r is None,
{
}

} // verus!
