//! Lookup tables keyed by an integer, each a `hashbrown::HashMap`.
//!
//! The functions here make one call into `hashbrown` each. What they say of it
//! is what its documentation says of a map whose keys compare as integers do.

use vstd::prelude::*;

use crate::addr::{PhysFrame, PAGE_SIZE};
use crate::rpc_context::RpcContext;
use crate::shm::{ShmInfo, ShmRegion};

verus! {

/// A table from the first address of a physical frame to the virtual address
/// that it is mapped at.
#[verifier::external_body]
pub struct FrameTable {
    inner: hashbrown::HashMap<u64, u64>,
}

/// The entries of a [`FrameTable`].
pub uninterp spec fn frame_entries(table: FrameTable) -> Map<u64, u64>;

impl FrameTable {
    /// `HashMap::new`: the new map has no entries.
    #[verifier::external_body]
    pub(crate) fn new() -> (r: Self)
        ensures
            frame_entries(r).is_empty(),
    {
        FrameTable { inner: hashbrown::HashMap::new() }
    }

    /// `HashMap::contains_key`: whether the map has an entry for `frame`.
    #[verifier::external_body]
    pub(crate) fn contains_key(&self, frame: u64) -> (r: bool)
        ensures
            r == frame_entries(*self).contains_key(frame),
    {
        self.inner.contains_key(&frame)
    }

    /// `HashMap::insert`: the entry for `frame` is `va` from now on, every other
    /// entry as before.
    #[verifier::external_body]
    pub(crate) fn insert(&mut self, frame: u64, va: u64)
        ensures
            frame_entries(*final(self)) == frame_entries(*old(self)).insert(frame, va),
    {
        self.inner.insert(frame, va);
    }

    /// `HashMap::remove`: there is no entry for `frame` any more, every other
    /// entry is as before.
    #[verifier::external_body]
    pub(crate) fn remove(&mut self, frame: u64)
        ensures
            frame_entries(*final(self)) == frame_entries(*old(self)).remove(frame),
    {
        self.inner.remove(&frame);
    }
}

/// A table from the first virtual address of an allocation to its frames.
#[verifier::external_body]
pub struct AllocationTable {
    inner: hashbrown::HashMap<u64, Vec<PhysFrame>>,
}

/// The entries of an [`AllocationTable`].
pub uninterp spec fn allocation_entries(table: AllocationTable) -> Map<u64, Seq<PhysFrame>>;

impl AllocationTable {
    /// `HashMap::new`: the new map has no entries.
    #[verifier::external_body]
    pub(crate) fn new() -> (r: Self)
        ensures
            allocation_entries(r).is_empty(),
    {
        AllocationTable { inner: hashbrown::HashMap::new() }
    }

    /// `HashMap::insert`: the entry for `base` is `frames` from now on, every
    /// other entry as before.
    #[verifier::external_body]
    pub(crate) fn insert(&mut self, base: u64, frames: Vec<PhysFrame>)
        ensures
            allocation_entries(*final(self)) == allocation_entries(*old(self)).insert(
                base,
                frames@,
            ),
    {
        self.inner.insert(base, frames);
    }

    /// `HashMap::remove`: hands out the entry for `base`, if there is one, and
    /// leaves every other entry as before.
    #[verifier::external_body]
    pub(crate) fn remove(&mut self, base: u64) -> (r: Option<Vec<PhysFrame>>)
        ensures
            allocation_entries(*final(self)) == allocation_entries(*old(self)).remove(base),
            r is Some <==> allocation_entries(*old(self)).contains_key(base),
            r matches Some(frames) ==> frames@ == allocation_entries(*old(self))[base],
    {
        self.inner.remove(&base)
    }
}

/// A table from the number of a context to the context.
#[verifier::external_body]
pub struct ContextTable {
    inner: hashbrown::HashMap<u32, RpcContext>,
}

/// The entries of a [`ContextTable`].
pub uninterp spec fn context_entries(table: ContextTable) -> Map<u32, RpcContext>;

impl ContextTable {
    /// `HashMap::new`: the new map has no entries.
    #[verifier::external_body]
    pub(crate) fn new() -> (r: Self)
        ensures
            context_entries(r).is_empty(),
    {
        ContextTable { inner: hashbrown::HashMap::new() }
    }

    /// `HashMap::get`: the entry for `id`, if there is one.
    #[verifier::external_body]
    pub(crate) fn get(&self, id: u32) -> (r: Option<&RpcContext>)
        ensures
            r is Some <==> context_entries(*self).contains_key(id),
            r matches Some(context) ==> *context == context_entries(*self)[id],
    {
        self.inner.get(&id)
    }

    /// `HashMap::insert`: the entry for `id` is `context` from now on, every
    /// other entry as before.
    #[verifier::external_body]
    pub(crate) fn insert(&mut self, id: u32, context: RpcContext)
        ensures
            context_entries(*final(self)) == context_entries(*old(self)).insert(id, context),
    {
        self.inner.insert(id, context);
    }

    /// `HashMap::remove`: hands out the entry for `id`, if there is one, and
    /// leaves every other entry as before.
    #[verifier::external_body]
    pub(crate) fn remove(&mut self, id: u32) -> (r: Option<RpcContext>)
        ensures
            context_entries(*final(self)) == context_entries(*old(self)).remove(id),
            r is Some <==> context_entries(*old(self)).contains_key(id),
            r matches Some(context) ==> context == context_entries(*old(self))[id],
    {
        self.inner.remove(&id)
    }
}

/// A table from a shared memory reference to what is registered under it.
#[verifier::external_body]
pub struct ShmTable {
    inner: hashbrown::HashMap<u64, ShmInfo<PAGE_SIZE>>,
}

/// The entries of a [`ShmTable`].
pub uninterp spec fn shm_entries(table: ShmTable) -> Map<u64, ShmRegion<4096>>;

impl ShmTable {
    /// `HashMap::new`: the new map has no entries.
    #[verifier::external_body]
    pub(crate) fn new() -> (r: Self)
        ensures
            shm_entries(r).is_empty(),
    {
        ShmTable { inner: hashbrown::HashMap::new() }
    }

    /// `HashMap::contains_key`: whether the map has an entry for `shm_ref`.
    #[verifier::external_body]
    pub(crate) fn contains_key(&self, shm_ref: u64) -> (r: bool)
        ensures
            r == shm_entries(*self).contains_key(shm_ref),
    {
        self.inner.contains_key(&shm_ref)
    }

    /// `HashMap::get`: the entry for `shm_ref`, if there is one.
    #[verifier::external_body]
    pub(crate) fn get(&self, shm_ref: u64) -> (r: Option<&ShmInfo<PAGE_SIZE>>)
        ensures
            r is Some <==> shm_entries(*self).contains_key(shm_ref),
            r matches Some(info) ==> info@ == shm_entries(*self)[shm_ref],
    {
        self.inner.get(&shm_ref)
    }

    /// `HashMap::insert`: the entry for `shm_ref` is `info` from now on, every
    /// other entry as before.
    #[verifier::external_body]
    pub(crate) fn insert(&mut self, shm_ref: u64, info: ShmInfo<PAGE_SIZE>)
        ensures
            shm_entries(*final(self)) == shm_entries(*old(self)).insert(shm_ref, info@),
    {
        self.inner.insert(shm_ref, info);
    }

    /// `HashMap::remove`: hands out the entry for `shm_ref`, if there is one, and
    /// leaves every other entry as before.
    #[verifier::external_body]
    pub(crate) fn remove(&mut self, shm_ref: u64) -> (r: Option<ShmInfo<PAGE_SIZE>>)
        ensures
            shm_entries(*final(self)) == shm_entries(*old(self)).remove(shm_ref),
            r is Some <==> shm_entries(*old(self)).contains_key(shm_ref),
            r matches Some(info) ==> info@ == shm_entries(*old(self))[shm_ref],
    {
        self.inner.remove(&shm_ref)
    }
}

} // verus!
