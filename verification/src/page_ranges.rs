//! A set of page numbers kept as ranges, on top of `rangemap::RangeSet`.

use vstd::prelude::*;

verus! {

/// `rangemap::RangeSet`, of which only the wrappers below speak.
#[verifier::external_type_specification]
#[verifier::external_body]
#[verifier::reject_recursive_types(T)]
pub struct ExRangeSet<T>(rangemap::RangeSet<T>);

/// The page numbers that the ranges of `set` cover.
pub uninterp spec fn covered_pages(set: rangemap::RangeSet<u64>) -> Set<u64>;

/// The pages from `start` up to, not including, `end`.
pub open spec fn page_span(start: int, end: int) -> Set<u64> {
    Set::new(|p: u64| start <= p < end)
}

/// `runs` lists the maximal unbroken ranges of `pages`, in ascending order.
pub open spec fn is_run_list(runs: Seq<(u64, u64)>, pages: Set<u64>) -> bool {
    &&& forall|i: int| 0 <= i < runs.len() ==> (#[trigger] runs[i]).0 < runs[i].1
    &&& forall|i: int, j: int|
        0 <= i < j < runs.len() ==> (#[trigger] runs[i]).1 < (#[trigger] runs[j]).0
    &&& forall|p: u64| #[trigger]
        pages.contains(p) <==> exists|i: int|
            0 <= i < runs.len() && (#[trigger] runs[i]).0 <= p < runs[i].1
}

/// `RangeSet::new`: the new set covers nothing.
#[verifier::external_body]
pub(crate) fn empty_pages() -> (set: rangemap::RangeSet<u64>)
    ensures
        covered_pages(set) == Set::<u64>::empty(),
{
    rangemap::RangeSet::new()
}

/// `RangeSet::insert`: the pages of the range are covered from now on, next to
/// those that were. The outside function panics on an empty range.
#[verifier::external_body]
pub(crate) fn add_pages(set: &mut rangemap::RangeSet<u64>, start: u64, end: u64)
    requires
        start < end,
    ensures
        covered_pages(*final(set)) == covered_pages(*old(set)).union(
            page_span(start as int, end as int),
        ),
{
    set.insert(start..end)
}

/// `RangeSet::remove`: the pages of the range are covered no more, all others
/// as before. The outside function panics on an empty range.
#[verifier::external_body]
pub(crate) fn remove_pages(set: &mut rangemap::RangeSet<u64>, start: u64, end: u64)
    requires
        start < end,
    ensures
        covered_pages(*final(set)) == covered_pages(*old(set)).difference(
            page_span(start as int, end as int),
        ),
{
    set.remove(start..end)
}

/// `RangeSet::iter`, each range as the pair of its bounds: the set keeps
/// touching ranges joined, so what it walks in ascending order are the maximal
/// unbroken ranges of the covered pages.
#[verifier::external_body]
pub(crate) fn page_runs(set: &rangemap::RangeSet<u64>) -> (runs: Vec<(u64, u64)>)
    ensures
        is_run_list(runs@, covered_pages(*set)),
{
    set.iter().map(|range| (range.start, range.end)).collect()
}

} // verus!
