//! A pool of small numbers that are handed out and taken back.

use vstd::prelude::*;

verus! {

/// Hands out the numbers below a capacity, each to one holder at a time.
///
/// A number that came back is handed out again before one that was never used.
pub struct IdPool {
    capacity: u32,
    next: u32,
    recycled: Vec<u32>,
}

impl IdPool {
    /// How many numbers there are.
    pub closed spec fn spec_capacity(self) -> u32 {
        self.capacity
    }

    /// The numbers that are handed out.
    pub closed spec fn live(self) -> Set<u32> {
        Set::new(|id: u32| id < self.next && !self.recycled@.contains(id))
    }

    /// The number that is handed out next, if one is left.
    pub closed spec fn upcoming(self) -> Option<u32> {
        if self.recycled@.len() > 0 {
            Some(self.recycled@.last())
        } else if self.next < self.capacity {
            Some(self.next)
        } else {
            None
        }
    }

    /// The numbers that came back and were not handed out again, in the order in which
    /// they came back.
    pub closed spec fn returned(self) -> Seq<u32> {
        self.recycled@
    }

    /// The lowest number that was never handed out.
    pub closed spec fn unused(self) -> u32 {
        self.next
    }

    /// Every number that came back had been handed out and came back once.
    pub closed spec fn wf(self) -> bool {
        &&& self.next <= self.capacity
        &&& self.recycled@.no_duplicates()
        &&& forall|i: int| 0 <= i < self.recycled@.len() ==> #[trigger] self.recycled@[i] < self.next
    }

    /// Creates a pool of the numbers below `capacity`.
    pub fn with_capacity(capacity: u32) -> (r: Self)
        ensures
            r.wf(),
            r.spec_capacity() == capacity,
            r.live() == Set::<u32>::empty(),
            r.returned() == Seq::<u32>::empty(),
            r.unused() == 0,
            r.upcoming() == (if capacity > 0 {
                Some(0u32)
            } else {
                None
            }),
    {
        let r = IdPool { capacity, next: 0, recycled: Vec::new() };
        assert(r.live() =~= Set::<u32>::empty());
        assert(r.returned() =~= Seq::<u32>::empty());
        r
    }

    /// Hands out a number that nobody holds, or `None` if all are held.
    pub fn allocate(&mut self) -> (r: Option<u32>)
        requires
            old(self).wf(),
        ensures
            final(self).wf(),
            final(self).spec_capacity() == old(self).spec_capacity(),
            r == old(self).upcoming(),
            if old(self).returned().len() > 0 {
                &&& r == Some(old(self).returned().last())
                &&& final(self).returned() == old(self).returned().drop_last()
                &&& final(self).unused() == old(self).unused()
            } else if old(self).unused() < old(self).spec_capacity() {
                &&& r == Some(old(self).unused())
                &&& final(self).returned() == old(self).returned()
                &&& final(self).unused() == old(self).unused() + 1
            } else {
                &&& r is None
                &&& final(self).returned() == old(self).returned()
                &&& final(self).unused() == old(self).unused()
            },
            match r {
                Some(id) => {
                    &&& id < old(self).spec_capacity()
                    &&& !old(self).live().contains(id)
                    &&& final(self).live() == old(self).live().insert(id)
                },
                None => {
                    &&& final(self).live() == old(self).live()
                    &&& final(self).upcoming() is None
                    &&& forall|held: u32|
                        held < old(self).spec_capacity() ==> #[trigger] old(self).live().contains(
                            held,
                        )
                },
            },
    {
        let ghost before = *self;
        match self.recycled.pop() {
            Some(id) => {
                proof {
                    let kept = before.recycled@.drop_last();
                    assert(self.recycled@ =~= kept);
                    assert(before.recycled@ =~= kept.push(id));
                    assert(before.recycled@[kept.len() as int] == id);
                    assert(before.recycled@.contains(id));
                    assert forall|other: u32| before.recycled@.contains(other) == (kept.contains(
                        other,
                    ) || other == id) by {
                        if kept.contains(other) {
                            let i = choose|i: int| 0 <= i < kept.len() && kept[i] == other;
                            assert(before.recycled@[i] == other);
                        }
                        if before.recycled@.contains(other) {
                            let i = choose|i: int|
                                0 <= i < before.recycled@.len() && before.recycled@[i] == other;
                            assert(i == kept.len() || kept[i] == other);
                        }
                    }
                    assert(!kept.contains(id));
                    assert(self.live() =~= before.live().insert(id));
                    assert(!before.live().contains(id));
                }
                Some(id)
            },
            None => {
                if self.next < self.capacity {
                    let id: u32 = self.next;
                    self.next = id + 1;
                    proof {
                        assert(forall|i: int|
                            0 <= i < before.recycled@.len() ==> before.recycled@[i] < id);
                        assert(!before.recycled@.contains(id));
                        assert(self.live() =~= before.live().insert(id));
                    }
                    Some(id)
                } else {
                    None
                }
            },
        }
    }

    /// Takes back a number that is held.
    pub fn recycle(&mut self, id: u32)
        requires
            old(self).wf(),
            old(self).live().contains(id),
        ensures
            final(self).wf(),
            final(self).spec_capacity() == old(self).spec_capacity(),
            final(self).live() == old(self).live().remove(id),
            final(self).upcoming() == Some(id),
            final(self).returned() == old(self).returned().push(id),
            final(self).unused() == old(self).unused(),
    {
        let ghost before = *self;
        self.recycled.push(id);
        proof {
            assert forall|other: u32| self.recycled@.contains(other) == (before.recycled@.contains(
                other,
            ) || other == id) by {
                if before.recycled@.contains(other) {
                    let i = choose|i: int|
                        0 <= i < before.recycled@.len() && before.recycled@[i] == other;
                    assert(self.recycled@[i] == other);
                }
                assert(self.recycled@[before.recycled@.len() as int] == id);
            }
            assert(self.live() =~= before.live().remove(id));
        }
    }
}

/// Numbers that are handed out are below the capacity.
pub proof fn lemma_live_is_bounded(pool: IdPool, id: u32)
    requires
        pool.wf(),
        pool.live().contains(id),
    ensures
        id < pool.spec_capacity(),
{
}

/// A pool hands out its numbers from zero upwards as long as none comes back, and no more
/// than there are.
pub proof fn law_fresh_numbers_ascend(
    capacity: u32,
    fresh: IdPool,
    pool: &mut IdPool,
    next: &mut IdPool,
    r: Option<u32>,
    s: Option<u32>,
)
    requires
        call_ensures(IdPool::with_capacity, (capacity,), fresh),
        fresh.wf(),
        *old(pool) == fresh,
        call_ensures(IdPool::allocate, (pool,), r),
        *old(next) == *final(pool),
        call_ensures(IdPool::allocate, (next,), s),
    ensures
        r == (if capacity > 0 {
            Some(0u32)
        } else {
            None
        }),
        s == (if capacity > 1 {
            Some(1u32)
        } else {
            None
        }),
{
}

/// Where none came back, the next number is one above the last one, or there is none left.
pub proof fn law_next_number_is_above(
    pool: &mut IdPool,
    next: &mut IdPool,
    id: u32,
    s: Option<u32>,
)
    requires
        old(pool).returned().len() == 0,
        call_ensures(IdPool::allocate, (pool,), Some(id)),
        *old(next) == *final(pool),
        call_ensures(IdPool::allocate, (next,), s),
    ensures
        s == (if id + 1 < old(pool).spec_capacity() {
            Some((id + 1) as u32)
        } else {
            None
        }),
{
}

/// A number that came back is the next to be handed out.
pub proof fn law_recycled_number_comes_first(
    pool: &mut IdPool,
    id: u32,
    next: &mut IdPool,
    r: Option<u32>,
)
    requires
        call_ensures(IdPool::recycle, (pool, id), ()),
        *old(next) == *final(pool),
        call_ensures(IdPool::allocate, (next,), r),
    ensures
        r == Some(id),
{
}

/// A number that was handed out is below the capacity, was held by nobody and is held now;
/// who held a number goes on holding it. None is left exactly when all are held.
pub proof fn law_numbers_have_one_holder(pool: &mut IdPool, r: Option<u32>, other: u32)
    requires
        call_ensures(IdPool::allocate, (pool,), r),
    ensures
        r matches Some(id) ==> {
            &&& id < old(pool).spec_capacity()
            &&& !old(pool).live().contains(id)
            &&& final(pool).live().contains(other) <==> old(pool).live().contains(other) || other
                == id
        },
        r is None ==> {
            &&& final(pool).live().contains(other) <==> old(pool).live().contains(other)
            &&& other < old(pool).spec_capacity() ==> old(pool).live().contains(other)
        },
        other < old(pool).spec_capacity() && !old(pool).live().contains(other) ==> r is Some,
{
}

} // verus!
