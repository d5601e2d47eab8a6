//! Registering shared memory of the normal world: walking the chain of page lists
//! that describes it.

use vstd::prelude::*;

use crate::addr::PAGE_SIZE;
use crate::codes::OpteeSmcReturnCode;
use crate::phys::{is_page_addr, PhysPageAddr, PhysPointerError};
use crate::shm::{registered, shms_wf, ShmInfo, ShmRefMap, ShmRegion};

verus! {

/// How many page addresses one page list holds.
pub const PAGELIST_ENTRIES_PER_PAGE: usize = 511;

/// One page of a chain of page lists: the addresses of pages, and the address of
/// the next list. A zero ends the list, and the chain.
#[derive(Clone, Copy)]
pub struct ShmRefPagesData {
    pub pages_list: [u64; 511],
    pub next_page_data: u64,
}

/// How many entries of `list` stand before the first zero.
pub open spec fn entries_before_zero(list: Seq<u64>) -> int
    decreases list.len(),
{
    if list.len() == 0 || list[0] == 0 {
        0
    } else {
        1 + entries_before_zero(list.skip(1))
    }
}

/// The page addresses that a page list holds.
pub open spec fn entries(list: Seq<u64>) -> Seq<u64> {
    list.take(entries_before_zero(list))
}

/// The first `n` of `s`, or all if there are not so many.
pub open spec fn at_most(s: Seq<u64>, n: int) -> Seq<u64> {
    if s.len() <= n {
        s
    } else {
        s.take(n)
    }
}

/// What is gathered of a list that follows on `pages` until there are `n`.
pub open spec fn gather(pages: Seq<u64>, n: int, list: Seq<u64>) -> Seq<u64> {
    pages + at_most(entries(list), n - pages.len())
}

/// Every entry that is gathered of the list is the address of a page.
pub open spec fn gather_ok(pages: Seq<u64>, n: int, list: Seq<u64>) -> bool {
    forall|i: int|
        0 <= i < at_most(entries(list), n - pages.len()).len() ==> is_page_addr(
            #[trigger] at_most(entries(list), n - pages.len())[i],
            4096,
        )
}

/// The addresses of `pages`.
pub open spec fn page_numbers(pages: Seq<PhysPageAddr<4096>>) -> Seq<u64> {
    Seq::new(pages.len(), |i: int| pages[i].addr)
}

/// What [`entries_before_zero`] counts.
proof fn lemma_entries_before_zero(list: Seq<u64>)
    ensures
        0 <= entries_before_zero(list) <= list.len(),
        forall|i: int| 0 <= i < entries_before_zero(list) ==> #[trigger] list[i] != 0,
        entries_before_zero(list) < list.len() ==> list[entries_before_zero(list)] == 0,
    decreases list.len(),
{
    if list.len() > 0 && list[0] != 0 {
        let rest = list.skip(1);
        lemma_entries_before_zero(rest);
        assert forall|i: int| 0 <= i < entries_before_zero(list) implies #[trigger] list[i] != 0 by {
            if i > 0 {
                assert(rest[i - 1] == list[i]);
            }
        }
        if entries_before_zero(list) < list.len() {
            assert(rest[entries_before_zero(rest)] == list[entries_before_zero(list)]);
        }
    }
}

/// What is to be done next for a registration.
#[derive(Clone, Copy, PartialEq, Eq, Debug, Structural)]
pub enum RegistrationStep {
    /// Read the page list at this address.
    ReadNext(u64),
    /// All pages are known.
    Complete,
}

/// A registration of which the page lists are being read.
pub struct ShmRegistration {
    page_offset: u64,
    num_pages: u64,
    pages: Vec<PhysPageAddr<PAGE_SIZE>>,
    shm_ref: u64,
}

impl ShmRegistration {
    /// The pages that are known so far.
    pub closed spec fn pages(self) -> Seq<PhysPageAddr<4096>> {
        self.pages@
    }

    /// How many pages the memory has.
    pub closed spec fn goal(self) -> int {
        self.num_pages as int
    }

    /// Where in its first page the memory begins.
    pub closed spec fn offset(self) -> int {
        self.page_offset as int
    }

    /// The reference under which the memory is to be registered.
    pub closed spec fn reference(self) -> u64 {
        self.shm_ref
    }

    /// No more pages are known than there are to be.
    pub open spec fn wf(self) -> bool {
        &&& self.pages().len() <= self.goal()
        &&& 0 <= self.offset() < 4096
        &&& forall|i: int| 0 <= i < self.pages().len() ==> (#[trigger] self.pages()[i]).wf()
    }

    /// `after` and `r` are what taking the page list `data` leads to.
    pub open spec fn took_list(
        self,
        data: ShmRefPagesData,
        after: Self,
        r: Result<RegistrationStep, OpteeSmcReturnCode>,
    ) -> bool {
        let known = page_numbers(self.pages());
        let n = self.goal();
        &&& after.goal() == self.goal()
        &&& after.offset() == self.offset()
        &&& after.reference() == self.reference()
        &&& if gather_ok(known, n, data.pages_list@) {
            let all = gather(known, n, data.pages_list@);
            &&& page_numbers(after.pages()) == all
            &&& r == Ok::<RegistrationStep, OpteeSmcReturnCode>(
                (if data.next_page_data == 0 || all.len() == n {
                    RegistrationStep::Complete
                } else {
                    RegistrationStep::ReadNext(data.next_page_data)
                }),
            )
        } else {
            r == Err::<RegistrationStep, OpteeSmcReturnCode>(OpteeSmcReturnCode::EBadAddr)
        }
    }

    /// Takes what reading a page list gave: `EBadAddr` if it could not be read.
    pub fn take_read(&mut self, read: Result<ShmRefPagesData, PhysPointerError>) -> (r: Result<
        RegistrationStep,
        OpteeSmcReturnCode,
    >)
        requires
            old(self).wf(),
        ensures
            final(self).wf(),
            match read {
                Ok(data) => old(self).took_list(data, *final(self), r),
                Err(_) => {
                    &&& r == Err::<RegistrationStep, OpteeSmcReturnCode>(
                        OpteeSmcReturnCode::EBadAddr,
                    )
                    &&& *final(self) == *old(self)
                },
            },
    {
        match read {
            Ok(data) => self.take_list(&data),
            Err(_) => Err(OpteeSmcReturnCode::EBadAddr),
        }
    }

    /// Takes the page list that was read: `EBadAddr` if an address in it is not that
    /// of a page. The walk goes on at the next list unless there is none or all
    /// pages are known.
    pub fn take_list(&mut self, data: &ShmRefPagesData) -> (r: Result<
        RegistrationStep,
        OpteeSmcReturnCode,
    >)
        requires
            old(self).wf(),
        ensures
            final(self).wf(),
            old(self).took_list(*data, *final(self), r),
    {
        let ghost list = data.pages_list@;
        let ghost known = page_numbers(self.pages());
        let ghost n = self.goal();
        let ghost taken = at_most(entries(list), n - known.len());
        proof {
            lemma_entries_before_zero(list);
        }
        let mut i: usize = 0;
        while i < PAGELIST_ENTRIES_PER_PAGE
            invariant_except_break
                i <= taken.len(),
            invariant
                i <= 511,
                list == data.pages_list@,
                list.len() == 511,
                known.len() <= n,
                n == self.goal(),
                self.wf(),
                self.offset() == old(self).offset(),
                self.reference() == old(self).reference(),
                n == old(self).goal(),
                known == page_numbers(old(self).pages()),
                taken == at_most(entries(list), n - known.len()),
                0 <= entries_before_zero(list) <= list.len(),
                forall|k: int| 0 <= k < entries_before_zero(list) ==> #[trigger] list[k] != 0,
                entries_before_zero(list) < list.len() ==> list[entries_before_zero(list)] == 0,
                i <= taken.len(),
                page_numbers(self.pages()) == known + taken.take(i as int),
                forall|k: int| 0 <= k < i ==> is_page_addr(#[trigger] taken[k], 4096),
            ensures
                i == taken.len(),
            decreases 511 - i,
        {
            let page: u64 = data.pages_list[i];
            assert(self.pages().len() == page_numbers(self.pages()).len());
            if page == 0 || self.pages.len() as u64 == self.num_pages {
                break;
            }
            assert(i < taken.len());
            assert(taken[i as int] == list[i as int]);
            match PhysPageAddr::<PAGE_SIZE>::new(page) {
                Some(addr) => {
                    let ghost before = self.pages();
                    self.pages.push(addr);
                    assert(page_numbers(self.pages()) =~= page_numbers(before).push(page));
                    assert(taken.take(i + 1) =~= taken.take(i as int).push(page));
                    assert(known + taken.take(i + 1) =~= (known + taken.take(i as int)).push(page));
                },
                None => {
                    assert(!is_page_addr(taken[i as int], 4096));
                    return Err(OpteeSmcReturnCode::EBadAddr);
                },
            }
            i = i + 1;
        }
        assert(taken.take(i as int) =~= taken);
        assert(self.pages().len() == page_numbers(self.pages()).len());
        if data.next_page_data == 0 || self.pages.len() as u64 == self.num_pages {
            Ok(RegistrationStep::Complete)
        } else {
            Ok(RegistrationStep::ReadNext(data.next_page_data))
        }
    }

    /// Registers the pages that are known; `ENotAvail` if the reference is taken.
    pub fn finish(self, shms: &mut ShmRefMap) -> (r: Result<(), OpteeSmcReturnCode>)
        requires
            self.wf(),
            shms_wf(old(shms)@),
        ensures
            shms_wf(final(shms)@),
            (final(shms)@, r) == registered(
                old(shms)@,
                self.reference(),
                ShmRegion { pages: self.pages(), offset: self.offset() },
            ),
    {
        match ShmInfo::new(self.pages, self.page_offset as usize) {
            Ok(info) => shms.insert(self.shm_ref, info),
            Err(error) => Err(error),
        }
    }
}

impl ShmRefMap {
    /// Begins the registration of memory of `aligned_size` bytes that begins at
    /// `page_offset` in its first page, whose page lists begin at
    /// `shm_ref_pages_data_phys_addr`, under the reference `shm_ref`. Refuses with
    /// `EBadAddr` an offset beyond the first page and memory without size.
    pub fn register_shm(
        shm_ref_pages_data_phys_addr: u64,
        page_offset: u64,
        aligned_size: u64,
        shm_ref: u64,
    ) -> (r: Result<(ShmRegistration, RegistrationStep), OpteeSmcReturnCode>)
        ensures
            match r {
                Ok((reg, step)) => {
                    &&& page_offset < 4096 && aligned_size != 0
                    &&& reg.wf()
                    &&& reg.pages() == Seq::<PhysPageAddr<4096>>::empty()
                    &&& reg.goal() == aligned_size as int / 4096
                    &&& reg.offset() == page_offset
                    &&& reg.reference() == shm_ref
                    &&& step == RegistrationStep::ReadNext(shm_ref_pages_data_phys_addr)
                },
                Err(error) => {
                    &&& page_offset >= 4096 || aligned_size == 0
                    &&& error == OpteeSmcReturnCode::EBadAddr
                },
            },
    {
        if page_offset >= 4096 || aligned_size == 0 {
            return Err(OpteeSmcReturnCode::EBadAddr);
        }
        let num_pages: u64 = aligned_size / 4096;
        let registration = ShmRegistration { page_offset, num_pages, pages: Vec::new(), shm_ref };
        assert(registration.pages() =~= Seq::<PhysPageAddr<4096>>::empty());
        Ok((registration, RegistrationStep::ReadNext(shm_ref_pages_data_phys_addr)))
    }
}

/// All entries of the lists of a chain, one list after the other.
pub open spec fn chain_entries(lists: Seq<Seq<u64>>) -> Seq<u64>
    decreases lists.len(),
{
    if lists.len() == 0 {
        Seq::empty()
    } else {
        chain_entries(lists.drop_last()) + entries(lists.last())
    }
}

/// What is gathered of the lists of a chain, one list after the other.
pub open spec fn gather_chain(lists: Seq<Seq<u64>>, n: int) -> Seq<u64>
    decreases lists.len(),
{
    if lists.len() == 0 {
        Seq::empty()
    } else {
        gather(gather_chain(lists.drop_last(), n), n, lists.last())
    }
}

/// Walking a chain list by list gathers the first `n` page addresses of the chain.
pub proof fn law_chain_is_gathered_in_order(lists: Seq<Seq<u64>>, n: int)
    requires
        n >= 0,
    ensures
        gather_chain(lists, n) == at_most(chain_entries(lists), n),
    decreases lists.len(),
{
    if lists.len() > 0 {
        let before = lists.drop_last();
        law_chain_is_gathered_in_order(before, n);
        let all = chain_entries(before);
        let more = entries(lists.last());
        let got = at_most(all, n);
        if all.len() <= n {
            assert(gather(got, n, lists.last()) =~= at_most(all + more, n));
        } else {
            assert(at_most(more, n - got.len()) =~= Seq::<u64>::empty());
            assert((all + more).take(n) =~= all.take(n));
            assert(gather(got, n, lists.last()) =~= at_most(all + more, n));
        }
    }
}

/// `after` is `before` with the addresses of a page list appended in order, up to the first
/// zero and up to the number of pages that is asked for, and nothing else changed. Where one
/// of them is not that of a page, `r` refuses with `EBadAddr`. Else it says that the walk
/// goes on at the address that the list names, unless it names none or all pages are known.
pub open spec fn list_appended(
    before: ShmRegistration,
    data: ShmRefPagesData,
    after: ShmRegistration,
    r: Result<RegistrationStep, OpteeSmcReturnCode>,
) -> bool {
    &&& after.goal() == before.goal()
    &&& after.offset() == before.offset()
    &&& after.reference() == before.reference()
    &&& r matches Err(e) ==> e == OpteeSmcReturnCode::EBadAddr && exists|k: int|
        {
            &&& 0 <= k < 511 && before.pages().len() + k < before.goal()
            &&& #[trigger] data.pages_list[k] % 4096 != 0
            &&& forall|j: int| 0 <= j < k ==> data.pages_list[j] != 0
        }
    &&& r is Ok ==> {
        let known = before.pages();
        let all = after.pages();
        let n = all.len() - known.len();
        &&& 0 <= n <= 511
        &&& all.len() <= before.goal()
        &&& forall|j: int| 0 <= j < known.len() ==> all[j] == known[j]
        &&& forall|j: int|
            0 <= j < n ==> {
                &&& #[trigger] all[known.len() + j].addr == data.pages_list[j]
                &&& data.pages_list[j] != 0
                &&& data.pages_list[j] % 4096 == 0
            }
        &&& all.len() == before.goal() || n == 511 || data.pages_list[n] == 0
        &&& r == Ok::<RegistrationStep, OpteeSmcReturnCode>(
            (if all.len() == before.goal() || data.next_page_data == 0 {
                RegistrationStep::Complete
            } else {
                RegistrationStep::ReadNext(data.next_page_data)
            }),
        )
    }
}

proof fn lemma_list_appended(
    before: ShmRegistration,
    data: ShmRefPagesData,
    after: ShmRegistration,
    r: Result<RegistrationStep, OpteeSmcReturnCode>,
)
    requires
        before.wf(),
        after.wf(),
        before.took_list(data, after, r),
    ensures
        list_appended(before, data, after, r),
{
    let list = data.pages_list@;
    lemma_entries_before_zero(list);
    let known = page_numbers(before.pages());
    let goal = before.goal();
    let taken = at_most(entries(list), goal - known.len());
    if gather_ok(known, goal, list) {
        let all = gather(known, goal, list);
        let got = after.pages();
        assert(page_numbers(got) == all);
        assert(got.len() == page_numbers(got).len());
        assert forall|j: int| 0 <= j < known.len() implies got[j] == before.pages()[j] by {
            assert(page_numbers(got)[j] == all[j]);
            assert(known[j] == before.pages()[j].addr);
        }
        assert forall|j: int| 0 <= j < taken.len() implies {
            &&& #[trigger] got[known.len() + j].addr == data.pages_list[j]
            &&& data.pages_list[j] != 0
            &&& data.pages_list[j] % 4096 == 0
        } by {
            assert(page_numbers(got)[known.len() + j] == all[known.len() + j]);
            assert(taken[j] == list[j]);
            assert(is_page_addr(taken[j], 4096));
        }
        let n = got.len() - before.pages().len();
        assert(n == taken.len());
        assert(got.len() == goal || n == 511 || data.pages_list[n] == 0) by {
            if got.len() < goal && n < 511 {
                assert(n == entries_before_zero(list));
                assert(data.pages_list[n] == list[n]);
            }
        }
    } else {
        let k = choose|k: int| 0 <= k < taken.len() && !is_page_addr(#[trigger] taken[k], 4096);
        assert(taken[k] == list[k]);
        assert(data.pages_list[k] % 4096 != 0);
    }
}

/// Taking a page list appends its addresses, up to the first zero and to the number of pages
/// that is asked for.
pub proof fn law_list_is_appended(
    reg: &mut ShmRegistration,
    data: ShmRefPagesData,
    r: Result<RegistrationStep, OpteeSmcReturnCode>,
)
    requires
        old(reg).wf(),
        call_ensures(ShmRegistration::take_list, (reg, &data), r),
    ensures
        list_appended(*old(reg), data, *final(reg), r),
{
    lemma_list_appended(*old(reg), data, *final(reg), r);
}

/// A page list that could be read is taken like any other.
pub proof fn law_read_list_is_appended(
    reg: &mut ShmRegistration,
    data: ShmRefPagesData,
    r: Result<RegistrationStep, OpteeSmcReturnCode>,
)
    requires
        old(reg).wf(),
        call_ensures(
            ShmRegistration::take_read,
            (reg, Ok::<ShmRefPagesData, PhysPointerError>(data)),
            r,
        ),
    ensures
        list_appended(*old(reg), data, *final(reg), r),
{
    lemma_list_appended(*old(reg), data, *final(reg), r);
}

/// A list that could not be read is refused with `EBadAddr` and changes nothing.
pub proof fn law_unread_list_is_refused(
    reg: &mut ShmRegistration,
    read: Result<ShmRefPagesData, PhysPointerError>,
    r: Result<RegistrationStep, OpteeSmcReturnCode>,
)
    requires
        call_ensures(ShmRegistration::take_read, (reg, read), r),
        read is Err,
    ensures
        r == Err::<RegistrationStep, OpteeSmcReturnCode>(OpteeSmcReturnCode::EBadAddr),
        *final(reg) == *old(reg),
{
}

/// A registration begins with no page, asks for as many as the size has, and reads the
/// first page list where it is said to be.
pub proof fn law_registration_begins(
    addr: u64,
    page_offset: u64,
    aligned_size: u64,
    shm_ref: u64,
    r: Result<(ShmRegistration, RegistrationStep), OpteeSmcReturnCode>,
)
    requires
        call_ensures(ShmRefMap::register_shm, (addr, page_offset, aligned_size, shm_ref), r),
    ensures
        r matches Err(e) ==> e == OpteeSmcReturnCode::EBadAddr,
        r is Ok <==> page_offset < 4096 && aligned_size > 0,
        r matches Ok((reg, step)) ==> {
            &&& reg.pages().len() == 0
            &&& reg.goal() * 4096 <= aligned_size < (reg.goal() + 1) * 4096
            &&& reg.offset() == page_offset
            &&& reg.reference() == shm_ref
            &&& step == RegistrationStep::ReadNext(addr)
        },
{
}

/// A registration that is finished is looked up by its reference: the pages that were
/// gathered, in order, and the offset. A reference that is taken is refused with
/// `ENotAvail` and keeps what it has.
pub proof fn law_finished_registration_is_looked_up(
    reg: ShmRegistration,
    shms: &mut ShmRefMap,
    r: Result<(), OpteeSmcReturnCode>,
    after: ShmRefMap,
    other: u64,
    found: Option<ShmInfo<PAGE_SIZE>>,
)
    requires
        call_ensures(ShmRegistration::finish, (reg, shms), r),
        after@ == final(shms)@,
        call_ensures(ShmRefMap::get, (&after, other), found),
    ensures
        r is Ok <==> !old(shms)@.contains_key(reg.reference()),
        r matches Err(e) ==> e == OpteeSmcReturnCode::ENotAvail,
        r is Ok && other == reg.reference() ==> {
            &&& found matches Some(info)
            &&& info@.pages == reg.pages()
            &&& info@.offset == reg.offset()
        },
        r is Err || other != reg.reference() ==> {
            &&& found is Some <==> old(shms)@.contains_key(other)
            &&& found matches Some(f) ==> f@ == old(shms)@[other]
        },
{
}

} // verus!
