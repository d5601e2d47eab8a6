//! Walking the four levels of a page table before it is torn down: the user pages that
//! it maps are collected, and the frames that hold its tables.
//!
//! Pages are recognised as user pages by their virtual address. The frames of all
//! tables below the top one are collected, whatever they map. The walk itself reads no
//! memory: it asks for the tables that it needs.

use vstd::prelude::*;

use crate::addr::PhysFrame;
use crate::paging::{
    lemma_mapped_frames_distinct, lemma_unmap_run, mapped_frames, unmap_run, AddressSpace,
    UnmapAction, UnmapError,
};

verus! {

/// How many entries a table has.
pub const TABLE_ENTRIES: usize = 512;

/// The bits of an entry that hold the address of a frame.
pub const ENTRY_ADDR_MASK: u64 = 0x000f_ffff_ffff_f000;

/// The entry is used, present, and refers to a table.
pub open spec fn follows(entry: u64) -> bool {
    entry != 0 && entry & 0x1 == 0x1 && entry & 0x80 != 0x80
}

/// The frame that an entry refers to.
pub open spec fn entry_frame(entry: u64) -> u64 {
    entry & ENTRY_ADDR_MASK
}

/// How many bytes an entry of a table at `level` spans. Level 1 tables map pages.
pub open spec fn span(level: int) -> int {
    if level == 1 {
        0x1000
    } else if level == 2 {
        0x20_0000
    } else if level == 3 {
        0x4000_0000
    } else {
        0x80_0000_0000
    }
}

/// The first virtual address of entry `i` of a table at `level` that begins at `base`.
/// The upper half of the top table maps the upper half of the address space.
pub open spec fn entry_base(level: int, base: int, i: int) -> int {
    if level == 4 && i >= 256 {
        base + i * span(level) + 0xffff_0000_0000_0000
    } else {
        base + i * span(level)
    }
}

/// What a walk collects.
#[verifier::ext_equal]
pub struct Collected {
    /// User pages, by their first address.
    pub pages: Seq<u64>,
    /// Frames of tables, by their first address.
    pub frames: Seq<u64>,
}

impl Collected {
    /// Nothing.
    pub open spec fn none() -> Collected {
        Collected { pages: Seq::empty(), frames: Seq::empty() }
    }

    /// One collection after the other.
    pub open spec fn then_more(self, more: Collected) -> Collected {
        Collected { pages: self.pages + more.pages, frames: self.frames + more.frames }
    }
}

/// What the walk collects of a table's entries from `i` on. `tables` holds the entries
/// of each table by its frame; user pages lie in `[lo, hi)`.
pub open spec fn walk_entries(
    tables: spec_fn(u64) -> Seq<u64>,
    entries: Seq<u64>,
    level: int,
    base: int,
    i: int,
    lo: u64,
    hi: u64,
) -> Collected
    decreases level, 1int, 512 - i,
{
    if level < 1 || i < 0 || i >= 512 {
        Collected::none()
    } else {
        walk_entry(tables, entries[i], level, entry_base(level, base, i), lo, hi).then_more(
            walk_entries(tables, entries, level, base, i + 1, lo, hi),
        )
    }
}

/// What the walk collects of one entry of a table at `level` that spans from `at` on.
pub open spec fn walk_entry(
    tables: spec_fn(u64) -> Seq<u64>,
    entry: u64,
    level: int,
    at: int,
    lo: u64,
    hi: u64,
) -> Collected
    decreases level, 0int, 0int,
{
    if level <= 1 {
        if entry != 0 && lo <= at < hi {
            Collected { pages: seq![at as u64], frames: Seq::empty() }
        } else {
            Collected::none()
        }
    } else if follows(entry) {
        let frame = entry_frame(entry);
        let below = walk_entries(tables, tables(frame), level - 1, at, 0, lo, hi);
        if level == 2 {
            Collected { pages: below.pages, frames: seq![frame] + below.frames }
        } else {
            Collected { pages: below.pages, frames: below.frames + seq![frame] }
        }
    } else {
        Collected::none()
    }
}

/// The tables under `entries`, which are those of a table at `level` that begins at
/// `base`, map a page at `va`.
pub open spec fn maps_page(
    tables: spec_fn(u64) -> Seq<u64>,
    entries: Seq<u64>,
    level: int,
    base: int,
    va: u64,
) -> bool
    decreases level,
{
    exists|i: int|
        0 <= i < 512 && if level <= 1 {
            #[trigger] entries[i] != 0 && entry_base(level, base, i) == va
        } else {
            follows(entries[i]) && maps_page(
                tables,
                tables(entry_frame(entries[i])),
                level - 1,
                entry_base(level, base, i),
                va,
            )
        }
}

/// Entry `i` of a table maps a page at `va`, itself or by the tables under it.
pub open spec fn entry_maps(
    tables: spec_fn(u64) -> Seq<u64>,
    entries: Seq<u64>,
    level: int,
    base: int,
    i: int,
    va: u64,
) -> bool {
    let at = entry_base(level, base, i);
    if level <= 1 {
        entries[i] != 0 && at == va
    } else {
        follows(entries[i]) && maps_page(
            tables,
            tables(entry_frame(entries[i])),
            level - 1,
            at,
            va,
        )
    }
}

/// A table maps a page if one of its entries does.
proof fn lemma_maps_page(
    tables: spec_fn(u64) -> Seq<u64>,
    entries: Seq<u64>,
    level: int,
    base: int,
    va: u64,
)
    ensures
        maps_page(tables, entries, level, base, va) <==> exists|i: int|
            0 <= i < 512 && #[trigger] entry_maps(tables, entries, level, base, i, va),
{
    if maps_page(tables, entries, level, base, va) {
        let i = choose|i: int|
            0 <= i < 512 && if level <= 1 {
                #[trigger] entries[i] != 0 && entry_base(level, base, i) == va
            } else {
                follows(entries[i]) && maps_page(
                    tables,
                    tables(entry_frame(entries[i])),
                    level - 1,
                    entry_base(level, base, i),
                    va,
                )
            };
        assert(entry_maps(tables, entries, level, base, i, va));
    }
    if exists|i: int| 0 <= i < 512 && #[trigger] entry_maps(tables, entries, level, base, i, va) {
        let i = choose|i: int|
            0 <= i < 512 && #[trigger] entry_maps(tables, entries, level, base, i, va);
        assert(entries[i] == entries[i]);
    }
}

/// A table whose entries are being visited.
#[verifier::ext_equal]
pub struct TableView {
    pub frame: u64,
    pub entries: Seq<u64>,
    pub index: int,
}

/// How far a walk has come: the tables on the way from the top one to the one that is
/// visited, and what is collected.
#[verifier::ext_equal]
pub struct WalkState {
    pub stack: Seq<TableView>,
    pub lo: u64,
    pub hi: u64,
    pub collected: Collected,
}

/// The level of the table at place `k` of the stack.
pub open spec fn level_at(k: int) -> int {
    4 - k
}

/// The first virtual address of the table at place `k` of the stack.
pub open spec fn base_at(stack: Seq<TableView>, k: int) -> int
    decreases k,
{
    if k <= 0 {
        0
    } else {
        entry_base(level_at(k - 1), base_at(stack, k - 1), stack[k - 1].index)
    }
}

/// What is collected when the table at place `k` has been visited.
pub open spec fn closing(stack: Seq<TableView>, k: int) -> Collected {
    if k == 1 || k == 2 {
        Collected { pages: Seq::empty(), frames: seq![stack[k].frame] }
    } else {
        Collected::none()
    }
}

/// What is still to be collected of the first `n` tables of the stack, the last of
/// which is visited from `skip` entries after its index on.
pub open spec fn pending(
    tables: spec_fn(u64) -> Seq<u64>,
    stack: Seq<TableView>,
    lo: u64,
    hi: u64,
    n: int,
    skip: int,
) -> Collected
    decreases n,
{
    if n <= 0 {
        Collected::none()
    } else {
        let top = stack[n - 1];
        walk_entries(
            tables,
            top.entries,
            level_at(n - 1),
            base_at(stack, n - 1),
            top.index + skip,
            lo,
            hi,
        ).then_more(closing(stack, n - 1)).then_more(pending(tables, stack, lo, hi, n - 1, 1))
    }
}

impl WalkState {
    /// The stack goes at most to the last level, and every table has all its entries.
    pub open spec fn wf(self) -> bool {
        &&& self.stack.len() <= 4
        &&& forall|k: int|
            0 <= k < self.stack.len() ==> {
                &&& (#[trigger] self.stack[k]).entries.len() == 512
                &&& 0 <= self.stack[k].index <= 512
                &&& k < self.stack.len() - 1 ==> self.stack[k].index < 512
            }
    }

    /// The virtual address of the entry that is next.
    pub open spec fn next_va(self) -> int {
        let k = self.stack.len() - 1;
        entry_base(level_at(k), base_at(self.stack, k), self.stack[k].index)
    }

    /// The entry that is next.
    pub open spec fn next_entry(self) -> u64 {
        self.stack.last().entries[self.stack.last().index]
    }

    /// All entries of the table that is visited have been visited.
    pub open spec fn at_end(self) -> bool {
        self.stack.last().index == 512
    }

    /// The table that the entry that is next refers to has to be read.
    pub open spec fn wants_table(self) -> bool {
        &&& self.stack.len() > 0
        &&& !self.at_end()
        &&& self.stack.len() < 4
        &&& follows(self.next_entry())
    }

    /// The state with the index of the last table moved on.
    pub open spec fn moved_on(self) -> WalkState {
        let k = self.stack.len() - 1;
        if k < 0 {
            self
        } else {
            WalkState {
                stack: self.stack.update(
                    k,
                    TableView { index: self.stack[k].index + 1, ..self.stack[k] },
                ),
                ..self
            }
        }
    }

    /// The state after one step that needs no table.
    pub open spec fn stepped(self) -> WalkState {
        if self.stack.len() == 0 || self.wants_table() {
            self
        } else if self.at_end() {
            WalkState {
                stack: self.stack.drop_last(),
                collected: self.collected.then_more(closing(self.stack, self.stack.len() - 1)),
                ..self
            }.moved_on()
        } else if self.stack.len() == 4 && self.next_entry() != 0 && self.lo <= self.next_va()
            < self.hi {
            WalkState {
                collected: Collected {
                    pages: self.collected.pages.push(self.next_va() as u64),
                    frames: self.collected.frames,
                },
                ..self
            }.moved_on()
        } else {
            self.moved_on()
        }
    }

    /// The state once the table that was asked for is known.
    pub open spec fn fed(self, entries: Seq<u64>) -> WalkState {
        let frame = entry_frame(self.next_entry());
        WalkState {
            stack: self.stack.push(TableView { frame, entries, index: 0 }),
            collected: Collected {
                pages: self.collected.pages,
                frames: if self.stack.len() == 3 {
                    self.collected.frames.push(frame)
                } else {
                    self.collected.frames
                },
            },
            ..self
        }
    }

    /// What the walk will have collected when it is done.
    pub open spec fn outcome(self, tables: spec_fn(u64) -> Seq<u64>) -> Collected {
        self.collected.then_more(
            pending(tables, self.stack, self.lo, self.hi, self.stack.len() as int, 0),
        )
    }
}

/// Where a table begins is decided by the tables before it.
proof fn lemma_base_prefix(a: Seq<TableView>, b: Seq<TableView>, n: int)
    requires
        0 <= n <= a.len(),
        n <= b.len(),
        forall|k: int| 0 <= k < n ==> a[k] == b[k],
    ensures
        base_at(a, n) == base_at(b, n),
    decreases n,
{
    if n > 0 {
        lemma_base_prefix(a, b, n - 1);
        assert(a[n - 1] == b[n - 1]);
    }
}

/// What is pending of the lower part of a stack is decided by that part.
proof fn lemma_pending_prefix(
    tables: spec_fn(u64) -> Seq<u64>,
    a: Seq<TableView>,
    b: Seq<TableView>,
    lo: u64,
    hi: u64,
    n: int,
    skip: int,
)
    requires
        0 <= n <= a.len(),
        n <= b.len(),
        forall|k: int| 0 <= k < n ==> a[k] == b[k],
    ensures
        pending(tables, a, lo, hi, n, skip) == pending(tables, b, lo, hi, n, skip),
        base_at(a, n) == base_at(b, n),
    decreases n,
{
    if n > 0 {
        lemma_pending_prefix(tables, a, b, lo, hi, n - 1, 1);
        assert(a[n - 1] == b[n - 1]);
    }
}

/// A step that needs no table does not change what the walk will have collected.
pub proof fn law_walk_step_keeps_the_outcome(state: WalkState, tables: spec_fn(u64) -> Seq<u64>)
    requires
        state.wf(),
    ensures
        state.stepped().outcome(tables) == state.outcome(tables),
        state.stepped().wf(),
{
    let n = state.stack.len() as int;
    let lo = state.lo;
    let hi = state.hi;
    if n > 0 && !state.wants_table() {
        let after = state.stepped();
        let top = state.stack.last();
        let rest = pending(tables, state.stack, lo, hi, n - 1, 1);
        let close = closing(state.stack, n - 1);
        if state.at_end() {
            let less = state.stack.drop_last();
            lemma_pending_prefix(tables, state.stack, less, lo, hi, n - 1, 1);
            if n > 1 {
                let parent = state.stack[n - 2];
                lemma_pending_prefix(tables, less, after.stack, lo, hi, n - 2, 1);
                assert(after.stack[n - 2] == TableView { index: parent.index + 1, ..parent });
                assert(pending(tables, after.stack, lo, hi, n - 1, 0) == pending(
                    tables,
                    less,
                    lo,
                    hi,
                    n - 1,
                    1,
                ));
            }
            assert(state.outcome(tables) =~= state.collected.then_more(close).then_more(rest));
            assert(after.outcome(tables) =~= state.collected.then_more(close).then_more(rest));
        } else {
            lemma_pending_prefix(tables, state.stack, after.stack, lo, hi, n - 1, 1);
            let base = base_at(state.stack, n - 1);
            let here = walk_entry(
                tables,
                state.next_entry(),
                level_at(n - 1),
                state.next_va(),
                lo,
                hi,
            );
            let more = walk_entries(
                tables,
                top.entries,
                level_at(n - 1),
                base,
                top.index + 1,
                lo,
                hi,
            );
            assert(state.outcome(tables) =~= state.collected.then_more(here).then_more(
                more,
            ).then_more(close).then_more(rest));
            assert(after.collected =~= state.collected.then_more(here));
            assert(after.outcome(tables) =~= after.collected.then_more(more).then_more(
                close,
            ).then_more(rest));
        }
        assert forall|k: int| 0 <= k < after.stack.len() implies {
            &&& (#[trigger] after.stack[k]).entries.len() == 512
            &&& 0 <= after.stack[k].index <= 512
            &&& k < after.stack.len() - 1 ==> after.stack[k].index < 512
        } by {
            assert(state.stack[k].entries.len() == 512);
        }
    }
}

/// Taking the table that was asked for does not change what the walk will have
/// collected.
pub proof fn law_reading_a_table_keeps_the_outcome(
    state: WalkState,
    tables: spec_fn(u64) -> Seq<u64>,
)
    requires
        state.wf(),
        state.wants_table(),
        tables(entry_frame(state.next_entry())).len() == 512,
    ensures
        ({
            let after = state.fed(tables(entry_frame(state.next_entry())));
            &&& after.outcome(tables) == state.outcome(tables)
            &&& after.wf()
        }),
{
    let n = state.stack.len() as int;
    let lo = state.lo;
    let hi = state.hi;
    let frame = entry_frame(state.next_entry());
    let after = state.fed(tables(frame));
    let top = state.stack.last();
    let rest = pending(tables, state.stack, lo, hi, n - 1, 1);
    let close = closing(state.stack, n - 1);
    lemma_pending_prefix(tables, state.stack, after.stack, lo, hi, n, 1);
    lemma_pending_prefix(tables, state.stack, after.stack, lo, hi, n - 1, 1);
    assert(after.stack[n - 1] == top);
    let more = walk_entries(
        tables,
        top.entries,
        level_at(n - 1),
        base_at(state.stack, n - 1),
        top.index + 1,
        lo,
        hi,
    );
    let here = walk_entry(tables, state.next_entry(), level_at(n - 1), state.next_va(), lo, hi);
    let below = walk_entries(tables, tables(frame), level_at(n), state.next_va(), 0, lo, hi);
    assert(base_at(after.stack, n) == state.next_va());
    assert(state.outcome(tables) =~= state.collected.then_more(here).then_more(more).then_more(
        close,
    ).then_more(rest));
    assert(after.outcome(tables) =~= after.collected.then_more(below).then_more(
        closing(after.stack, n),
    ).then_more(more).then_more(close).then_more(rest));
    assert(after.collected.then_more(below).then_more(closing(after.stack, n))
        =~= state.collected.then_more(here));
    assert forall|k: int| 0 <= k < after.stack.len() implies {
        &&& (#[trigger] after.stack[k]).entries.len() == 512
        &&& 0 <= after.stack[k].index <= 512
        &&& k < after.stack.len() - 1 ==> after.stack[k].index < 512
    } by {
        if k < n {
            assert(state.stack[k].entries.len() == 512);
        }
    }
}

/// Entries of tables lie inside the address space.
proof fn lemma_entry_base_bound(level: int, base: int, i: int)
    requires
        1 <= level <= 4,
        0 <= i < 512,
        level == 4 ==> base == 0,
        level < 4 ==> 0 <= base && base + span(level + 1) <= 0x1_0000_0000_0000_0000,
    ensures
        0 <= entry_base(level, base, i),
        entry_base(level, base, i) + span(level) <= 0x1_0000_0000_0000_0000,
{
}

/// Tables lie inside the address space.
proof fn lemma_base_bound(stack: Seq<TableView>, k: int)
    requires
        0 <= k <= 4,
        k <= stack.len(),
        forall|j: int| 0 <= j < k ==> 0 <= (#[trigger] stack[j]).index < 512,
    ensures
        k == 0 ==> base_at(stack, k) == 0,
        k > 0 ==> 0 <= base_at(stack, k) && base_at(stack, k) + span(level_at(k - 1))
            <= 0x1_0000_0000_0000_0000,
    decreases k,
{
    if k > 0 {
        lemma_base_bound(stack, k - 1);
        assert(0 <= stack[k - 1].index < 512);
        lemma_entry_base_bound(level_at(k - 1), base_at(stack, k - 1), stack[k - 1].index);
    }
}

/// A table whose entries are being visited.
struct WalkTable {
    frame: u64,
    base: u64,
    entries: Vec<u64>,
    index: usize,
}

impl WalkTable {
    spec fn table(self) -> TableView {
        TableView { frame: self.frame, entries: self.entries@, index: self.index as int }
    }
}

/// What is to be done next for a walk.
#[derive(Clone, Copy, PartialEq, Eq, Debug, Structural)]
pub enum WalkStep {
    /// Go on: an entry was visited, or a table was left.
    Continue,
    /// Read the table in this frame and hand it over.
    ReadTable(u64),
    /// All tables have been visited.
    Done,
}

/// A walk over a page table.
pub struct PageWalk {
    stack: Vec<WalkTable>,
    lo: u64,
    hi: u64,
    pages: Vec<u64>,
    frames: Vec<u64>,
}

impl View for PageWalk {
    type V = WalkState;

    closed spec fn view(&self) -> WalkState {
        WalkState {
            stack: Seq::new(self.stack@.len(), |k: int| self.stack@[k].table()),
            lo: self.lo,
            hi: self.hi,
            collected: Collected { pages: self.pages@, frames: self.frames@ },
        }
    }
}

impl PageWalk {
    /// The tables are where the entries that led to them say.
    pub closed spec fn wf(self) -> bool {
        &&& self@.wf()
        &&& forall|k: int|
            0 <= k < self.stack@.len() ==> (#[trigger] self.stack@[k]).base == base_at(
                self@.stack,
                k,
            )
    }

    /// Begins to walk the page table whose top table is in `frame` and has `entries`.
    /// User pages are those from `user_addr_min` up to, not including,
    /// `user_addr_max`.
    pub fn cleanup_user_mappings(
        frame: u64,
        entries: Vec<u64>,
        user_addr_min: u64,
        user_addr_max: u64,
    ) -> (r: Self)
        requires
            entries@.len() == 512,
        ensures
            r.wf(),
            r@ == (WalkState {
                stack: seq![TableView { frame, entries: entries@, index: 0 }],
                lo: user_addr_min,
                hi: user_addr_max,
                collected: Collected::none(),
            }),
    {
        let mut stack: Vec<WalkTable> = Vec::new();
        stack.push(WalkTable { frame, base: 0, entries, index: 0 });
        let r = PageWalk {
            stack,
            lo: user_addr_min,
            hi: user_addr_max,
            pages: Vec::new(),
            frames: Vec::new(),
        };
        assert(r@.stack =~= seq![TableView { frame, entries: entries@, index: 0 }]);
        assert(r@.collected =~= Collected::none());
        r
    }

    fn next_va(&self) -> (r: u64)
        requires
            self.wf(),
            self@.stack.len() > 0,
            !self@.at_end(),
        ensures
            r == self@.next_va(),
    {
        let depth: usize = self.stack.len();
        let top = &self.stack[depth - 1];
        proof {
            let st = self@.stack;
            assert forall|j: int| 0 <= j < depth implies 0 <= (#[trigger] st[j]).index < 512 by {
                assert(st[j].entries.len() == 512);
            }
            lemma_base_bound(st, depth - 1);
            assert(st[depth - 1] == top.table());
            lemma_entry_base_bound(
                level_at(depth - 1),
                base_at(st, depth - 1),
                top.index as int,
            );
        }
        let i: u64 = top.index as u64;
        if depth == 1 {
            if i >= 256 {
                i * 0x80_0000_0000 + 0xffff_0000_0000_0000
            } else {
                i * 0x80_0000_0000
            }
        } else if depth == 2 {
            top.base + i * 0x4000_0000
        } else if depth == 3 {
            top.base + i * 0x20_0000
        } else {
            top.base + i * 0x1000
        }
    }

    fn move_on(&mut self)
        requires
            old(self).wf(),
            old(self)@.stack.len() > 0,
            !old(self)@.at_end(),
        ensures
            final(self).wf(),
            final(self)@ == old(self)@.moved_on(),
    {
        let ghost before = *self;
        let ghost n = self.stack@.len() as int;
        match self.stack.pop() {
            Some(mut top) => {
                proof {
                    assert(before@.stack[n - 1] == top.table());
                }
                top.index = top.index + 1;
                self.stack.push(top);
                proof {
                    assert(self@.stack =~= before@.moved_on().stack);
                    assert(self@ =~= before@.moved_on());
                    assert forall|k: int| 0 <= k < self.stack@.len() implies (
                    #[trigger] self.stack@[k]).base == base_at(self@.stack, k) by {
                        assert(before.stack@[k].base == base_at(before@.stack, k));
                        lemma_base_prefix(before@.stack, self@.stack, k);
                    }
                    assert forall|k: int| 0 <= k < self@.stack.len() implies {
                        &&& (#[trigger] self@.stack[k]).entries.len() == 512
                        &&& 0 <= self@.stack[k].index <= 512
                        &&& k < self@.stack.len() - 1 ==> self@.stack[k].index < 512
                    } by {
                        assert(before@.stack[k].entries.len() == 512);
                    }
                }
            },
            None => {},
        }
    }

    /// Visits the next entry, or leaves the table if there is none.
    pub fn step(&mut self) -> (r: WalkStep)
        requires
            old(self).wf(),
        ensures
            final(self).wf(),
            final(self)@ == old(self)@.stepped(),
            if old(self)@.stack.len() == 0 {
                r == WalkStep::Done
            } else if old(self)@.wants_table() {
                r == WalkStep::ReadTable(entry_frame(old(self)@.next_entry()))
            } else {
                r == WalkStep::Continue
            },
    {
        let ghost before = *self;
        let depth: usize = self.stack.len();
        if depth == 0 {
            assert(self@ =~= before@.stepped());
            return WalkStep::Done;
        }
        assert(self@.stack.last() == self.stack@[depth - 1].table());
        assert(self@.stack[depth - 1].entries.len() == 512);
        if self.stack[depth - 1].index >= 512 {
            match self.stack.pop() {
                Some(top) => {
                    if depth == 2 || depth == 3 {
                        self.frames.push(top.frame);
                    }
                    proof {
                        let less = before@.stack.drop_last();
                        assert(before@.stack[depth - 1] == top.table());
                        assert(self@.stack =~= less);
                        assert(self@.collected =~= before@.collected.then_more(
                            closing(before@.stack, depth - 1),
                        ));
                        assert forall|k: int| 0 <= k < self.stack@.len() implies (
                        #[trigger] self.stack@[k]).base == base_at(self@.stack, k) by {
                            assert(before.stack@[k].base == base_at(before@.stack, k));
                            lemma_base_prefix(before@.stack, self@.stack, k);
                        }
                        assert forall|k: int| 0 <= k < self@.stack.len() implies {
                            &&& (#[trigger] self@.stack[k]).entries.len() == 512
                            &&& 0 <= self@.stack[k].index <= 512
                            &&& self@.stack[k].index < 512
                        } by {
                            assert(before@.stack[k].entries.len() == 512);
                        }
                    }
                    if depth > 1 {
                        self.move_on();
                    }
                    assert(self@ =~= before@.stepped());
                },
                None => {},
            }
            return WalkStep::Continue;
        }
        let entry: u64 = self.stack[depth - 1].entries[self.stack[depth - 1].index];
        assert(entry == self@.next_entry());
        if depth < 4 {
            if entry != 0 && entry & 0x1 == 0x1 && entry & 0x80 != 0x80 {
                return WalkStep::ReadTable(entry & ENTRY_ADDR_MASK);
            }
        } else if entry != 0 {
            let va: u64 = self.next_va();
            if va >= self.lo && va < self.hi {
                self.pages.push(va);
                proof {
                    assert(self@.stack =~= before@.stack);
                    assert(self@.collected.pages =~= before@.collected.pages.push(va));
                    assert forall|k: int| 0 <= k < self.stack@.len() implies (
                    #[trigger] self.stack@[k]).base == base_at(self@.stack, k) by {
                        assert(before.stack@[k].base == base_at(before@.stack, k));
                    }
                }
                self.move_on();
                assert(self@ =~= before@.stepped());
                return WalkStep::Continue;
            }
        }
        self.move_on();
        assert(self@ =~= before@.stepped());
        WalkStep::Continue
    }

    /// Takes the entries of the table that was asked for.
    pub fn take_table(&mut self, entries: Vec<u64>)
        requires
            old(self).wf(),
            old(self)@.wants_table(),
            entries@.len() == 512,
        ensures
            final(self).wf(),
            final(self)@ == old(self)@.fed(entries@),
    {
        let ghost before = *self;
        let depth: usize = self.stack.len();
        let ghost st = self@.stack;
        assert(st.last() == self.stack@[depth - 1].table());
        assert(st[depth - 1].entries.len() == 512);
        let entry: u64 = self.stack[depth - 1].entries[self.stack[depth - 1].index];
        let frame: u64 = entry & ENTRY_ADDR_MASK;
        let base: u64 = self.next_va();
        self.stack.push(WalkTable { frame, base, entries, index: 0 });
        if depth == 3 {
            self.frames.push(frame);
        }
        proof {
            assert(self@.stack =~= before@.fed(entries@).stack);
            assert(self@ =~= before@.fed(entries@));
            assert forall|k: int| 0 <= k < self.stack@.len() implies (#[trigger] self.stack@[k]).base
                == base_at(self@.stack, k) by {
                if k < depth {
                    assert(before.stack@[k].base == base_at(before@.stack, k));
                    lemma_base_prefix(before@.stack, self@.stack, k);
                } else {
                    lemma_base_prefix(before@.stack, self@.stack, depth - 1);
                    assert(self@.stack[depth - 1] == before@.stack[depth - 1]);
                }
            }
            assert forall|k: int| 0 <= k < self@.stack.len() implies {
                &&& (#[trigger] self@.stack[k]).entries.len() == 512
                &&& 0 <= self@.stack[k].index <= 512
                &&& k < self@.stack.len() - 1 ==> self@.stack[k].index < 512
            } by {
                if k < depth {
                    assert(before@.stack[k].entries.len() == 512);
                }
            }
        }
    }

    /// What the walk has collected: the user pages that are to be unmapped, then the
    /// frames of tables that are to be given back.
    pub fn finish(self) -> (r: (Vec<u64>, Vec<u64>))
        ensures
            r.0@ == self@.collected.pages,
            r.1@ == self@.collected.frames,
    {
        (self.pages, self.frames)
    }
}

/// The pages that the walk collects from entry `i` on are those user pages that these
/// entries map.
proof fn lemma_walk_pages(
    tables: spec_fn(u64) -> Seq<u64>,
    entries: Seq<u64>,
    level: int,
    base: int,
    i: int,
    lo: u64,
    hi: u64,
    va: u64,
)
    requires
        1 <= level <= 4,
        0 <= i <= 512,
        level == 4 ==> base == 0,
        level < 4 ==> 0 <= base && base + span(level + 1) <= 0x1_0000_0000_0000_0000,
    ensures
        walk_entries(tables, entries, level, base, i, lo, hi).pages.contains(va) <==> lo <= va < hi
            && exists|j: int|
            i <= j < 512 && #[trigger] entry_maps(tables, entries, level, base, j, va),
    decreases level, 512 - i,
{
    let all = walk_entries(tables, entries, level, base, i, lo, hi).pages;
    if i < 512 {
        let at = entry_base(level, base, i);
        let here = walk_entry(tables, entries[i], level, at, lo, hi).pages;
        let more = walk_entries(tables, entries, level, base, i + 1, lo, hi).pages;
        lemma_entry_base_bound(level, base, i);
        lemma_walk_pages(tables, entries, level, base, i + 1, lo, hi, va);
        assert(all == here + more);
        assert(here.contains(va) <==> lo <= va < hi && entry_maps(
            tables,
            entries,
            level,
            base,
            i,
            va,
        )) by {
            if level == 1 {
                if here.contains(va) {
                    assert(here[0] == va);
                }
                if lo <= va < hi && entry_maps(tables, entries, level, base, i, va) {
                    assert(here[0] == va);
                }
            } else if follows(entries[i]) {
                let below = tables(entry_frame(entries[i]));
                lemma_walk_pages(tables, below, level - 1, at, 0, lo, hi, va);
                lemma_maps_page(tables, below, level - 1, at, va);
            }
        }
        if here.contains(va) {
            let k = choose|k: int| 0 <= k < here.len() && here[k] == va;
            assert(all[k] == va);
        }
        if more.contains(va) {
            let k = choose|k: int| 0 <= k < more.len() && more[k] == va;
            assert(all[here.len() + k] == va);
        }
        if all.contains(va) {
            let k = choose|k: int| 0 <= k < all.len() && all[k] == va;
            if k < here.len() {
                assert(here[k] == va);
            } else {
                assert(more[k - here.len()] == va);
            }
        }
    }
}

/// The walk collects exactly the pages that the page table maps at user addresses.
pub proof fn law_walk_collects_the_user_pages(
    tables: spec_fn(u64) -> Seq<u64>,
    top: Seq<u64>,
    lo: u64,
    hi: u64,
    va: u64,
)
    ensures
        walk_entries(tables, top, 4, 0, 0, lo, hi).pages.contains(va) <==> lo <= va < hi
            && maps_page(tables, top, 4, 0, va),
{
    lemma_walk_pages(tables, top, 4, 0, 0, lo, hi, va);
    lemma_maps_page(tables, top, 4, 0, va);
}

/// One of the tables under `entries`, which are those of a table at `level`, is in
/// `frame`.
pub open spec fn has_table(
    tables: spec_fn(u64) -> Seq<u64>,
    entries: Seq<u64>,
    level: int,
    frame: u64,
) -> bool
    decreases level,
{
    level >= 2 && exists|i: int|
        0 <= i < 512 && follows(#[trigger] entries[i]) && (entry_frame(entries[i]) == frame
            || has_table(tables, tables(entry_frame(entries[i])), level - 1, frame))
}

/// Entry `i` refers to a table in `frame`, or one of the tables under it is there.
pub open spec fn entry_has_table(
    tables: spec_fn(u64) -> Seq<u64>,
    entries: Seq<u64>,
    level: int,
    i: int,
    frame: u64,
) -> bool {
    &&& level >= 2
    &&& follows(entries[i])
    &&& entry_frame(entries[i]) == frame || has_table(
        tables,
        tables(entry_frame(entries[i])),
        level - 1,
        frame,
    )
}

/// There is a table in a frame if one of the entries leads to it.
proof fn lemma_has_table(
    tables: spec_fn(u64) -> Seq<u64>,
    entries: Seq<u64>,
    level: int,
    frame: u64,
)
    ensures
        has_table(tables, entries, level, frame) <==> exists|i: int|
            0 <= i < 512 && #[trigger] entry_has_table(tables, entries, level, i, frame),
{
    if has_table(tables, entries, level, frame) {
        let i = choose|i: int|
            0 <= i < 512 && follows(#[trigger] entries[i]) && (entry_frame(entries[i]) == frame
                || has_table(tables, tables(entry_frame(entries[i])), level - 1, frame));
        assert(entry_has_table(tables, entries, level, i, frame));
    }
    if exists|i: int| 0 <= i < 512 && #[trigger] entry_has_table(tables, entries, level, i, frame) {
        let i = choose|i: int|
            0 <= i < 512 && #[trigger] entry_has_table(tables, entries, level, i, frame);
        assert(entries[i] == entries[i]);
    }
}

/// The frames that the walk collects from entry `i` on are those of the tables under
/// these entries.
proof fn lemma_walk_frames(
    tables: spec_fn(u64) -> Seq<u64>,
    entries: Seq<u64>,
    level: int,
    base: int,
    i: int,
    lo: u64,
    hi: u64,
    frame: u64,
)
    requires
        1 <= level <= 4,
        0 <= i <= 512,
    ensures
        walk_entries(tables, entries, level, base, i, lo, hi).frames.contains(frame) <==> exists|
            j: int,
        |
            i <= j < 512 && #[trigger] entry_has_table(tables, entries, level, j, frame),
    decreases level, 512 - i,
{
    let all = walk_entries(tables, entries, level, base, i, lo, hi).frames;
    if i < 512 {
        let at = entry_base(level, base, i);
        let here = walk_entry(tables, entries[i], level, at, lo, hi).frames;
        let more = walk_entries(tables, entries, level, base, i + 1, lo, hi).frames;
        lemma_walk_frames(tables, entries, level, base, i + 1, lo, hi, frame);
        assert(all == here + more);
        assert(here.contains(frame) <==> entry_has_table(tables, entries, level, i, frame)) by {
            if level >= 2 && follows(entries[i]) {
                let own = entry_frame(entries[i]);
                let below = tables(own);
                let under = walk_entries(tables, below, level - 1, at, 0, lo, hi).frames;
                lemma_walk_frames(tables, below, level - 1, at, 0, lo, hi, frame);
                lemma_has_table(tables, below, level - 1, frame);
                if level == 2 {
                    assert(here == seq![own] + under);
                    assert(here[0] == own);
                    assert forall|k: int| 0 <= k < under.len() implies here[k + 1]
                        == #[trigger] under[k] by {}
                } else {
                    assert(here == under + seq![own]);
                    assert(here[under.len() as int] == own);
                    assert forall|k: int| 0 <= k < under.len() implies here[k]
                        == #[trigger] under[k] by {}
                }
                if under.contains(frame) {
                    let k = choose|k: int| 0 <= k < under.len() && under[k] == frame;
                    assert(here[k] == frame || here[k + 1] == frame);
                }
                if here.contains(frame) && frame != own {
                    let k = choose|k: int| 0 <= k < here.len() && here[k] == frame;
                    if level == 2 {
                        assert(under[k - 1] == frame);
                    } else {
                        assert(under[k] == frame);
                    }
                }
            }
        }
        if here.contains(frame) {
            let k = choose|k: int| 0 <= k < here.len() && here[k] == frame;
            assert(all[k] == frame);
        }
        if more.contains(frame) {
            let k = choose|k: int| 0 <= k < more.len() && more[k] == frame;
            assert(all[here.len() + k] == frame);
        }
        if all.contains(frame) {
            let k = choose|k: int| 0 <= k < all.len() && all[k] == frame;
            if k < here.len() {
                assert(here[k] == frame);
            } else {
                assert(more[k - here.len()] == frame);
            }
        }
    }
}

/// The walk collects exactly the frames of the tables below the top one, whatever
/// addresses they map.
pub proof fn law_walk_collects_the_tables(
    tables: spec_fn(u64) -> Seq<u64>,
    top: Seq<u64>,
    lo: u64,
    hi: u64,
    frame: u64,
)
    ensures
        walk_entries(tables, top, 4, 0, 0, lo, hi).frames.contains(frame) <==> has_table(
            tables,
            top,
            4,
            frame,
        ),
{
    lemma_walk_frames(tables, top, 4, 0, 0, lo, hi, frame);
    lemma_has_table(tables, top, 4, frame);
}

/// A walk that begins at the top table will have collected what the tables hold, and
/// one that is done has collected all of it.
pub proof fn law_walk_begins_and_ends(
    tables: spec_fn(u64) -> Seq<u64>,
    frame: u64,
    top: Seq<u64>,
    lo: u64,
    hi: u64,
    done: WalkState,
)
    requires
        done.stack.len() == 0,
    ensures
        (WalkState {
            stack: seq![TableView { frame, entries: top, index: 0 }],
            lo,
            hi,
            collected: Collected::none(),
        }).outcome(tables) == walk_entries(tables, top, 4, 0, 0, lo, hi),
        done.outcome(tables) == done.collected,
{
    let begun = WalkState {
        stack: seq![TableView { frame, entries: top, index: 0 }],
        lo,
        hi,
        collected: Collected::none(),
    };
    reveal_with_fuel(pending, 2);
    assert(begun.outcome(tables) =~= walk_entries(tables, top, 4, 0, 0, lo, hi));
    assert(done.outcome(tables) =~= done.collected);
}

/// Decides what is to be done after unmapping a page that the walk collected: its frame
/// is given back. A page that could not be unmapped is passed over. Nothing is dropped
/// from what the processor remembers, as the page table is not used any more.
pub fn cleanup_action(unmapped: Result<PhysFrame, UnmapError>) -> (r: UnmapAction)
    ensures
        r == (UnmapAction {
            free: match unmapped {
                Ok(frame) => Some(frame),
                Err(_) => None,
            },
            flush: false,
        }),
{
    match unmapped {
        Ok(frame) => UnmapAction { free: Some(frame), flush: false },
        Err(_) => UnmapAction { free: None, flush: false },
    }
}

/// `pages` are in ascending order, each once.
pub open spec fn ascending(pages: Seq<u64>) -> bool {
    forall|i: int, j: int| 0 <= i < j < pages.len() ==> pages[i] < pages[j]
}

/// Entries lie one after the other, inside what their table spans.
proof fn lemma_entry_base_order(level: int, base: int, i: int)
    requires
        1 <= level <= 4,
        0 <= i < 512,
        level == 4 ==> base == 0,
    ensures
        entry_base(level, base, i) + span(level) <= entry_base(level, base, i + 1),
        level < 4 ==> entry_base(level, base, i) + span(level) <= base + span(level + 1),
{
    assert(level == 1 || level == 2 || level == 3 || level == 4);
}

/// The pages that the walk collects from entry `i` on are in ascending order and lie
/// where these entries do.
proof fn lemma_walk_ascending(
    tables: spec_fn(u64) -> Seq<u64>,
    entries: Seq<u64>,
    level: int,
    base: int,
    i: int,
    lo: u64,
    hi: u64,
)
    requires
        1 <= level <= 4,
        0 <= i <= 512,
        level == 4 ==> base == 0,
        level < 4 ==> 0 <= base && base + span(level + 1) <= 0x1_0000_0000_0000_0000,
    ensures
        ({
            let pages = walk_entries(tables, entries, level, base, i, lo, hi).pages;
            &&& ascending(pages)
            &&& forall|k: int|
                0 <= k < pages.len() ==> i < 512 && entry_base(level, base, i) <= #[trigger] pages[k]
            &&& level < 4 ==> forall|k: int|
                0 <= k < pages.len() ==> #[trigger] pages[k] < base + span(level + 1)
        }),
    decreases level, 512 - i,
{
    if i < 512 {
        let at = entry_base(level, base, i);
        let here = walk_entry(tables, entries[i], level, at, lo, hi).pages;
        let more = walk_entries(tables, entries, level, base, i + 1, lo, hi).pages;
        let all = walk_entries(tables, entries, level, base, i, lo, hi).pages;
        lemma_entry_base_bound(level, base, i);
        lemma_walk_ascending(tables, entries, level, base, i + 1, lo, hi);
        assert(all == here + more);
        assert(ascending(here) && forall|k: int|
            0 <= k < here.len() ==> at <= #[trigger] here[k] < at + span(level)) by {
            if level > 1 && follows(entries[i]) {
                let below = tables(entry_frame(entries[i]));
                lemma_walk_ascending(tables, below, level - 1, at, 0, lo, hi);
            }
        }
        lemma_entry_base_order(level, base, i);
        assert forall|a: int, b: int| 0 <= a < b < all.len() implies all[a] < all[b] by {
            if b < here.len() {
                assert(all[a] == here[a] && all[b] == here[b]);
            } else {
                let n = here.len() as int;
                assert(all[b] == more[b - n]);
                if a < n {
                    assert(all[a] == here[a]);
                } else {
                    assert(all[a] == more[a - n]);
                }
            }
        }
        assert forall|k: int| 0 <= k < all.len() implies entry_base(level, base, i)
            <= #[trigger] all[k] by {
            if k < here.len() {
                assert(all[k] == here[k]);
            } else {
                assert(all[k] == more[k - here.len()]);
            }
        }
        if level < 4 {
            assert forall|k: int| 0 <= k < all.len() implies #[trigger] all[k] < base + span(
                level + 1,
            ) by {
                if k < here.len() {
                    assert(all[k] == here[k]);
                } else {
                    assert(all[k] == more[k - here.len()]);
                }
            }
        }
    }
}

/// No two entries lead to the same table, and no table leads to itself.
pub open spec fn distinct_tables(
    tables: spec_fn(u64) -> Seq<u64>,
    entries: Seq<u64>,
    level: int,
) -> bool
    decreases level,
{
    level >= 2 ==> {
        &&& forall|i: int|
            0 <= i < 512 && follows(#[trigger] entries[i]) ==> {
                let below = tables(entry_frame(entries[i]));
                &&& !has_table(tables, below, level - 1, entry_frame(entries[i]))
                &&& distinct_tables(tables, below, level - 1)
            }
        &&& forall|i: int, j: int, frame: u64|
            0 <= i < j < 512 ==> !(#[trigger] entry_has_table(tables, entries, level, i, frame)
                && #[trigger] entry_has_table(tables, entries, level, j, frame))
    }
}

/// Where no table is reached twice, the walk collects each frame once.
proof fn lemma_walk_frames_distinct(
    tables: spec_fn(u64) -> Seq<u64>,
    entries: Seq<u64>,
    level: int,
    base: int,
    i: int,
    lo: u64,
    hi: u64,
)
    requires
        1 <= level <= 4,
        0 <= i <= 512,
        distinct_tables(tables, entries, level),
    ensures
        walk_entries(tables, entries, level, base, i, lo, hi).frames.no_duplicates(),
    decreases level, 512 - i,
{
    if i < 512 {
        let at = entry_base(level, base, i);
        let here = walk_entry(tables, entries[i], level, at, lo, hi).frames;
        let more = walk_entries(tables, entries, level, base, i + 1, lo, hi).frames;
        let all = walk_entries(tables, entries, level, base, i, lo, hi).frames;
        lemma_walk_frames_distinct(tables, entries, level, base, i + 1, lo, hi);
        assert(all == here + more);
        if level >= 2 && follows(entries[i]) {
            let own = entry_frame(entries[i]);
            let below = tables(own);
            let under = walk_entries(tables, below, level - 1, at, 0, lo, hi).frames;
            assert(distinct_tables(tables, below, level - 1));
            lemma_walk_frames_distinct(tables, below, level - 1, at, 0, lo, hi);
            assert(!under.contains(own)) by {
                lemma_walk_frames(tables, below, level - 1, at, 0, lo, hi, own);
                lemma_has_table(tables, below, level - 1, own);
            }
            assert(here.no_duplicates()) by {
                if level == 2 {
                    assert(here == seq![own] + under);
                    assert forall|a: int, b: int| 0 <= a < b < here.len() implies here[a]
                        != here[b] by {
                        assert(here[b] == under[b - 1]);
                        if a > 0 {
                            assert(here[a] == under[a - 1]);
                        }
                    }
                } else {
                    assert(here == under + seq![own]);
                    assert forall|a: int, b: int| 0 <= a < b < here.len() implies here[a]
                        != here[b] by {
                        assert(here[a] == under[a]);
                        if b < under.len() {
                            assert(here[b] == under[b]);
                        }
                    }
                }
            }
            assert forall|frame: u64| here.contains(frame) implies entry_has_table(
                tables,
                entries,
                level,
                i,
                frame,
            ) by {
                lemma_walk_frames(tables, below, level - 1, at, 0, lo, hi, frame);
                lemma_has_table(tables, below, level - 1, frame);
                let k = choose|k: int| 0 <= k < here.len() && here[k] == frame;
                if frame != own {
                    if level == 2 {
                        assert(under[k - 1] == frame);
                    } else {
                        assert(under[k] == frame);
                    }
                }
            }
            assert forall|a: int, b: int|
                0 <= a < here.len() && 0 <= b < more.len() implies here[a] != more[b] by {
                let frame = here[a];
                if more[b] == frame {
                    assert(here.contains(frame));
                    assert(more.contains(frame));
                    lemma_walk_frames(tables, entries, level, base, i + 1, lo, hi, frame);
                    let j = choose|j: int|
                        i + 1 <= j < 512 && #[trigger] entry_has_table(
                            tables,
                            entries,
                            level,
                            j,
                            frame,
                        );
                    assert(entry_has_table(tables, entries, level, i, frame));
                }
            }
        } else {
            assert(here.len() == 0);
        }
        let n = here.len() as int;
        assert forall|a: int, b: int| 0 <= a < b < all.len() implies all[a] != all[b] by {
            if b < n {
                assert(all[a] == here[a] && all[b] == here[b]);
            } else {
                assert(all[b] == more[b - n]);
                if a < n {
                    assert(all[a] == here[a]);
                } else {
                    assert(all[a] == more[a - n]);
                }
            }
        }
    }
}

/// What cleaning up leads to once the pages and frames of `collected` are given back:
/// the address space, and the frames that were given back, those of pages and those
/// of tables.
pub open spec fn cleanup_run(space: AddressSpace, collected: Collected) -> (
    AddressSpace,
    Seq<PhysFrame>,
    Seq<u64>,
) {
    let unmapped = unmap_run(space, collected.pages);
    (unmapped.0, unmapped.1, collected.frames)
}

/// Cleaning up leaves no user page mapped and all other pages as they were. What is
/// given back are the frames that user pages were mapped to, once for each page in
/// ascending order, and the frames of the tables below the top one. Where no two user
/// pages share a frame, and no table is reached twice, each of them is given back once.
pub proof fn law_cleanup(
    tables: spec_fn(u64) -> Seq<u64>,
    top: Seq<u64>,
    lo: u64,
    hi: u64,
    space: AddressSpace,
)
    requires
        forall|p: u64| #[trigger] space.contains_key(p) ==> maps_page(tables, top, 4, 0, p),
    ensures
        ({
            let collected = walk_entries(tables, top, 4, 0, 0, lo, hi);
            let after = cleanup_run(space, collected);
            &&& forall|p: u64| #[trigger]
                after.0.contains_key(p) <==> space.contains_key(p) && !(lo <= p < hi)
            &&& forall|p: u64| #[trigger] after.0.contains_key(p) ==> after.0[p] == space[p]
            &&& ascending(collected.pages)
            &&& forall|p: u64|
                lo <= p < hi && #[trigger] space.contains_key(p) ==> collected.pages.contains(p)
            &&& forall|p: u64| #[trigger] collected.pages.contains(p) ==> lo <= p < hi
            &&& after.1 == mapped_frames(space, collected.pages)
            &&& forall|frame: u64| #[trigger]
                after.2.contains(frame) <==> has_table(tables, top, 4, frame)
            &&& (forall|p: u64, q: u64|
                lo <= p < hi && lo <= q < hi && p != q && #[trigger] space.contains_key(p)
                    && #[trigger] space.contains_key(q) ==> space[p].frame != space[q].frame)
                ==> after.1.no_duplicates()
            &&& distinct_tables(tables, top, 4) ==> after.2.no_duplicates()
        }),
{
    let collected = walk_entries(tables, top, 4, 0, 0, lo, hi);
    let pages = collected.pages;
    lemma_walk_ascending(tables, top, 4, 0, 0, lo, hi);
    assert(pages.no_duplicates());
    lemma_unmap_run(space, pages);
    let after = cleanup_run(space, collected);
    assert forall|p: u64| #[trigger] pages.contains(p) implies lo <= p < hi by {
        law_walk_collects_the_user_pages(tables, top, lo, hi, p);
    }
    assert forall|p: u64| lo <= p < hi && #[trigger] space.contains_key(p) implies pages.contains(
        p,
    ) by {
        law_walk_collects_the_user_pages(tables, top, lo, hi, p);
    }
    assert forall|frame: u64| #[trigger] after.2.contains(frame) <==> has_table(
        tables,
        top,
        4,
        frame,
    ) by {
        law_walk_collects_the_tables(tables, top, lo, hi, frame);
    }
    if forall|p: u64, q: u64|
        lo <= p < hi && lo <= q < hi && p != q && #[trigger] space.contains_key(p)
            && #[trigger] space.contains_key(q) ==> space[p].frame != space[q].frame {
        lemma_mapped_frames_distinct(space, pages);
    }
    if distinct_tables(tables, top, 4) {
        lemma_walk_frames_distinct(tables, top, 4, 0, 0, lo, hi);
    }
}

/// The entry refers to a table: bit 0 is set and bit 7 is not.
pub open spec fn is_table_entry(entry: u64) -> bool {
    entry % 2 == 1 && entry / 128 % 2 == 0
}

/// The address of a frame in bits 12 to 51 of an entry.
pub open spec fn frame_in(entry: u64) -> u64 {
    (entry % 0x10_0000_0000_0000 - entry % 4096) as u64
}

proof fn lemma_entry_bits(entry: u64)
    ensures
        follows(entry) <==> is_table_entry(entry),
        entry_frame(entry) == frame_in(entry),
        frame_in(entry) == entry % 0x10_0000_0000_0000 - entry % 4096,
{
    assert((entry & 0x1 == 0x1 <==> entry % 2 == 1) && (entry & 0x80 != 0x80 <==> entry / 128 % 2
        == 0) && entry & 0x000f_ffff_ffff_f000 == entry % 0x10_0000_0000_0000 - entry % 4096) by (
    bit_vector);
}

/// The first address of the page that is reached by these entries of the four tables: 512
/// GiB, 1 GiB, 2 MiB and 4 KiB for each, and the upper half of the top table in the upper
/// half of the address space.
pub open spec fn page_at(ix: (int, int, int, int)) -> int {
    let low = ix.0 * 0x80_0000_0000 + ix.1 * 0x4000_0000 + ix.2 * 0x20_0000 + ix.3 * 0x1000;
    if ix.0 < 256 {
        low
    } else {
        0x1_0000_0000_0000_0000 - (0x1_0000_0000_0000 - low)
    }
}

/// These entries of the four tables lead to one that is used.
pub open spec fn leads_to_page(
    tables: spec_fn(u64) -> Seq<u64>,
    top: Seq<u64>,
    ix: (int, int, int, int),
) -> bool {
    let second = tables(frame_in(top[ix.0]));
    let third = tables(frame_in(second[ix.1]));
    let fourth = tables(frame_in(third[ix.2]));
    &&& 0 <= ix.0 < 512 && 0 <= ix.1 < 512 && 0 <= ix.2 < 512 && 0 <= ix.3 < 512
    &&& is_table_entry(top[ix.0])
    &&& is_table_entry(second[ix.1])
    &&& is_table_entry(third[ix.2])
    &&& fourth[ix.3] != 0
}

/// A page is mapped at the address that entries of the four tables lead to, if the first
/// three refer to tables and the last one is used.
pub proof fn law_entries_map_a_page(
    tables: spec_fn(u64) -> Seq<u64>,
    top: Seq<u64>,
    ix: (int, int, int, int),
    va: u64,
)
    requires
        leads_to_page(tables, top, ix),
        va == page_at(ix),
    ensures
        maps_page(tables, top, 4, 0, va),
{
    lemma_entry_bits(top[ix.0]);
    let second = tables(frame_in(top[ix.0]));
    lemma_entry_bits(second[ix.1]);
    let third = tables(frame_in(second[ix.1]));
    lemma_entry_bits(third[ix.2]);
    let fourth = tables(frame_in(third[ix.2]));
    let b3 = entry_base(4, 0, ix.0);
    let b2 = entry_base(3, b3, ix.1);
    let b1 = entry_base(2, b2, ix.2);
    assert(entry_maps(tables, fourth, 1, b1, ix.3, va));
    lemma_maps_page(tables, fourth, 1, b1, va);
    assert(entry_maps(tables, third, 2, b2, ix.2, va));
    lemma_maps_page(tables, third, 2, b2, va);
    assert(entry_maps(tables, second, 3, b3, ix.1, va));
    lemma_maps_page(tables, second, 3, b3, va);
    assert(entry_maps(tables, top, 4, 0, ix.0, va));
    lemma_maps_page(tables, top, 4, 0, va);
}

/// Wherever a page is mapped, entries of the four tables lead to it.
pub proof fn law_mapped_pages_have_entries(
    tables: spec_fn(u64) -> Seq<u64>,
    top: Seq<u64>,
    va: u64,
) -> (ix: (int, int, int, int))
    requires
        maps_page(tables, top, 4, 0, va),
    ensures
        leads_to_page(tables, top, ix),
        va == page_at(ix),
{
    lemma_maps_page(tables, top, 4, 0, va);
    let i = choose|i: int| 0 <= i < 512 && #[trigger] entry_maps(tables, top, 4, 0, i, va);
    lemma_entry_bits(top[i]);
    let second = tables(frame_in(top[i]));
    let b3 = entry_base(4, 0, i);
    lemma_maps_page(tables, second, 3, b3, va);
    let j = choose|j: int| 0 <= j < 512 && #[trigger] entry_maps(tables, second, 3, b3, j, va);
    lemma_entry_bits(second[j]);
    let third = tables(frame_in(second[j]));
    let b2 = entry_base(3, b3, j);
    lemma_maps_page(tables, third, 2, b2, va);
    let k = choose|k: int| 0 <= k < 512 && #[trigger] entry_maps(tables, third, 2, b2, k, va);
    lemma_entry_bits(third[k]);
    let fourth = tables(frame_in(third[k]));
    let b1 = entry_base(2, b2, k);
    lemma_maps_page(tables, fourth, 1, b1, va);
    let l = choose|l: int| 0 <= l < 512 && #[trigger] entry_maps(tables, fourth, 1, b1, l, va);
    (i, j, k, l)
}

/// Each of the three tables that entries lead to counts as a table.
pub proof fn law_entries_lead_to_tables(
    tables: spec_fn(u64) -> Seq<u64>,
    top: Seq<u64>,
    ix: (int, int, int),
)
    requires
        0 <= ix.0 < 512 && 0 <= ix.1 < 512 && 0 <= ix.2 < 512,
    ensures
        ({
            let second = tables(frame_in(top[ix.0]));
            let third = tables(frame_in(second[ix.1]));
            &&& is_table_entry(top[ix.0]) ==> has_table(tables, top, 4, frame_in(top[ix.0]))
            &&& is_table_entry(top[ix.0]) && is_table_entry(second[ix.1]) ==> has_table(
                tables,
                top,
                4,
                frame_in(second[ix.1]),
            )
            &&& is_table_entry(top[ix.0]) && is_table_entry(second[ix.1]) && is_table_entry(
                third[ix.2],
            ) ==> has_table(tables, top, 4, frame_in(third[ix.2]))
        }),
{
    let second = tables(frame_in(top[ix.0]));
    let third = tables(frame_in(second[ix.1]));
    lemma_entry_bits(top[ix.0]);
    lemma_entry_bits(second[ix.1]);
    lemma_entry_bits(third[ix.2]);
    let f = frame_in(top[ix.0]);
    let g = frame_in(second[ix.1]);
    let h = frame_in(third[ix.2]);
    if is_table_entry(top[ix.0]) {
        assert(entry_has_table(tables, top, 4, ix.0, f));
        lemma_has_table(tables, top, 4, f);
        if is_table_entry(second[ix.1]) {
            assert(entry_has_table(tables, second, 3, ix.1, g));
            lemma_has_table(tables, second, 3, g);
            assert(entry_has_table(tables, top, 4, ix.0, g));
            lemma_has_table(tables, top, 4, g);
            if is_table_entry(third[ix.2]) {
                assert(entry_has_table(tables, third, 2, ix.2, h));
                lemma_has_table(tables, third, 2, h);
                assert(entry_has_table(tables, second, 3, ix.1, h));
                lemma_has_table(tables, second, 3, h);
                assert(entry_has_table(tables, top, 4, ix.0, h));
                lemma_has_table(tables, top, 4, h);
            }
        }
    }
}

/// To each table that counts, entries lead by which it is reached: one, two or three.
pub proof fn law_tables_have_entries(
    tables: spec_fn(u64) -> Seq<u64>,
    top: Seq<u64>,
    frame: u64,
) -> (r: (int, (int, int, int)))
    requires
        has_table(tables, top, 4, frame),
    ensures
        ({
            let (n, ix) = r;
            let second = tables(frame_in(top[ix.0]));
            let third = tables(frame_in(second[ix.1]));
            &&& 1 <= n <= 3
            &&& 0 <= ix.0 < 512 && 0 <= ix.1 < 512 && 0 <= ix.2 < 512
            &&& is_table_entry(top[ix.0])
            &&& n > 1 ==> is_table_entry(second[ix.1])
            &&& n > 2 ==> is_table_entry(third[ix.2])
            &&& frame == if n == 1 {
                frame_in(top[ix.0])
            } else if n == 2 {
                frame_in(second[ix.1])
            } else {
                frame_in(third[ix.2])
            }
        }),
{
    lemma_has_table(tables, top, 4, frame);
    let i = choose|i: int| 0 <= i < 512 && #[trigger] entry_has_table(tables, top, 4, i, frame);
    lemma_entry_bits(top[i]);
    let second = tables(frame_in(top[i]));
    if frame_in(top[i]) == frame {
        (1, (i, 0, 0))
    } else {
        lemma_has_table(tables, second, 3, frame);
        let j = choose|j: int|
            0 <= j < 512 && #[trigger] entry_has_table(tables, second, 3, j, frame);
        lemma_entry_bits(second[j]);
        let third = tables(frame_in(second[j]));
        if frame_in(second[j]) == frame {
            (2, (i, j, 0))
        } else {
            lemma_has_table(tables, third, 2, frame);
            let k = choose|k: int|
                0 <= k < 512 && #[trigger] entry_has_table(tables, third, 2, k, frame);
            lemma_entry_bits(third[k]);
            (3, (i, j, k))
        }
    }
}

/// A walk will have collected, from its beginning, the pages and tables of the page table
/// whose top table it is given, user pages being those in the bounds that it is given.
pub proof fn law_walk_begins(
    frame: u64,
    entries: Vec<u64>,
    lo: u64,
    hi: u64,
    walk: PageWalk,
    tables: spec_fn(u64) -> Seq<u64>,
    va: u64,
)
    requires
        call_ensures(PageWalk::cleanup_user_mappings, (frame, entries, lo, hi), walk),
    ensures
        walk@.outcome(tables).pages.contains(va) <==> lo <= va < hi && maps_page(
            tables,
            entries@,
            4,
            0,
            va,
        ),
        walk@.outcome(tables).frames.contains(va) <==> has_table(tables, entries@, 4, va),
        ascending(walk@.outcome(tables).pages),
{
    let done = WalkState { stack: Seq::empty(), lo, hi, collected: Collected::none() };
    law_walk_begins_and_ends(tables, frame, entries@, lo, hi, done);
    law_walk_collects_the_user_pages(tables, entries@, lo, hi, va);
    law_walk_collects_the_tables(tables, entries@, lo, hi, va);
    lemma_walk_ascending(tables, entries@, 4, 0, 0, lo, hi);
}

/// No step changes what the walk will have collected. It goes on to the next entry or
/// leaves a table, asks for the table of an entry, and is done when all tables are left.
pub proof fn law_walk_steps(
    walk: &mut PageWalk,
    r: WalkStep,
    tables: spec_fn(u64) -> Seq<u64>,
)
    requires
        old(walk).wf(),
        call_ensures(PageWalk::step, (walk,), r),
    ensures
        final(walk)@.outcome(tables) == old(walk)@.outcome(tables),
        r is Done <==> old(walk)@.stack.len() == 0,
        r is Continue ==> {
            let before = old(walk)@.stack;
            let after = final(walk)@.stack;
            ||| after.len() == before.len() - 1
            ||| after.len() == before.len() && after.last().index == before.last().index + 1
        },
        r matches WalkStep::ReadTable(frame) ==> {
            let top = old(walk)@.stack.last();
            &&& final(walk)@ == old(walk)@
            &&& old(walk)@.stack.len() < 4
            &&& top.index < 512
            &&& is_table_entry(top.entries[top.index])
            &&& frame == frame_in(top.entries[top.index])
        },
        r is Done ==> final(walk)@ == old(walk)@,
{
    let state = old(walk)@;
    law_walk_step_keeps_the_outcome(state, tables);
    if state.stack.len() > 0 {
        lemma_entry_bits(state.next_entry());
        assert(state.stack[state.stack.len() - 1].entries.len() == 512);
    }
}

/// A table that is handed over is visited from its first entry on, and changes nothing of
/// what the walk will have collected.
pub proof fn law_table_is_taken(
    walk: &mut PageWalk,
    entries: Vec<u64>,
    tables: spec_fn(u64) -> Seq<u64>,
)
    requires
        old(walk).wf(),
        old(walk)@.wants_table(),
        entries@.len() == 512,
        tables(frame_in(old(walk)@.stack.last().entries[old(walk)@.stack.last().index]))
            == entries@,
        call_ensures(PageWalk::take_table, (walk, entries), ()),
    ensures
        final(walk)@.outcome(tables) == old(walk)@.outcome(tables),
        final(walk)@.stack.len() == old(walk)@.stack.len() + 1,
        final(walk)@.stack.last().index == 0,
        final(walk)@.stack.last().entries == entries@,
{
    lemma_entry_bits(old(walk)@.next_entry());
    law_reading_a_table_keeps_the_outcome(old(walk)@, tables);
}

/// A walk that is done hands over all that it was to collect, the pages first and then the
/// frames of tables.
pub proof fn law_walk_ends(
    walk: PageWalk,
    r: (Vec<u64>, Vec<u64>),
    tables: spec_fn(u64) -> Seq<u64>,
)
    requires
        walk@.stack.len() == 0,
        call_ensures(PageWalk::finish, (walk,), r),
    ensures
        r.0@ == walk@.outcome(tables).pages,
        r.1@ == walk@.outcome(tables).frames,
{
    law_walk_begins_and_ends(tables, 0, Seq::empty(), 0, 0, walk@);
}

/// The frame of a table is collected after those of the tables under it.
pub proof fn law_tables_come_last(
    tables: spec_fn(u64) -> Seq<u64>,
    entry: u64,
    level: int,
    at: int,
    lo: u64,
    hi: u64,
)
    requires
        2 <= level <= 4,
        is_table_entry(entry),
    ensures
        ({
            let frames = walk_entry(tables, entry, level, at, lo, hi).frames;
            let below = walk_entries(tables, tables(frame_in(entry)), level - 1, at, 0, lo, hi);
            &&& frames.len() == below.frames.len() + 1
            &&& frames.last() == frame_in(entry)
        }),
{
    lemma_entry_bits(entry);
    if level == 2 {
        lemma_pages_have_no_tables(tables, tables(frame_in(entry)), at, 0, lo, hi);
    }
}

proof fn lemma_pages_have_no_tables(
    tables: spec_fn(u64) -> Seq<u64>,
    entries: Seq<u64>,
    base: int,
    i: int,
    lo: u64,
    hi: u64,
)
    ensures
        walk_entries(tables, entries, 1, base, i, lo, hi).frames.len() == 0,
    decreases 512 - i,
{
    if 0 <= i < 512 {
        lemma_pages_have_no_tables(tables, entries, base, i + 1, lo, hi);
        let here = walk_entry(tables, entries[i], 1, entry_base(1, base, i), lo, hi);
        assert(here.frames.len() == 0);
        assert(walk_entries(tables, entries, 1, base, i, lo, hi) == here.then_more(
            walk_entries(tables, entries, 1, base, i + 1, lo, hi),
        ));
    }
}

/// After a page is unmapped its frame is given back; one that could not be unmapped gives
/// nothing back. The processor is told nothing in either case.
pub proof fn law_cleaned_page(unmapped: Result<PhysFrame, UnmapError>, r: UnmapAction)
    requires
        call_ensures(cleanup_action, (unmapped,), r),
    ensures
        !r.flush,
        r.free is Some <==> unmapped is Ok,
        r.free matches Some(frame) ==> unmapped == Ok::<PhysFrame, UnmapError>(frame),
{
}

} // verus!
