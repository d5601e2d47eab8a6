//! Continuation state of operations that take several calls of the normal world.
//!
//! Loading a dynamic TA is a sequence of remote calls: the size of the TA is
//! asked for, shared memory of that size is allocated, the TA is loaded into it,
//! and the memory is freed. The normal world answers each call with the number of
//! a context, and the context says which answer is expected and what is valid at
//! that stage. A step out of order is refused.

use vstd::prelude::*;

use crate::codes::OpteeSmcReturnCode;
use crate::id_pool::{lemma_live_is_bounded, IdPool};
use crate::tables::{context_entries, ContextTable};
use crate::uuid::TeeUuid;

verus! {

/// How many contexts can be in use at a time.
pub const MAX_RPC_CONTEXTS: u32 = 1024;

/// An operation on the contexts failed.
#[derive(Clone, Copy, Debug, PartialEq, Eq, Structural)]
pub enum RpcContextError {
    Full,
    NotFound,
    UnexpectedStage,
}

/// What to do once the shared memory is freed.
#[derive(Clone, Copy, Debug, PartialEq, Eq, Structural)]
pub enum RpcCompletion {
    OpenSession,
    ReturnError(OpteeSmcReturnCode),
}

/// What a context keeps through all stages: the TA, and the registered shared
/// memory of the request with the offset into it.
#[derive(Clone, Copy, Debug, PartialEq)]
pub struct RpcCommon {
    pub ta_uuid: TeeUuid,
    pub registered_shm_ref: u64,
    pub regd_shm_offset: usize,
}

/// Trusted continuation state of a request that loads a dynamic TA. The variant
/// names the call whose answer is expected.
#[derive(Clone, Copy, Debug, PartialEq)]
pub enum RpcContext {
    LoadTaSize { common: RpcCommon },
    ShmAlloc { common: RpcCommon, requested_size: u64 },
    LoadTaBinary { common: RpcCommon, requested_size: u64, shm_ref: u64 },
    ShmFree { common: RpcCommon, shm_ref: u64, completion: RpcCompletion },
}

impl RpcContext {
    /// What the context keeps through all stages.
    pub open spec fn spec_common(self) -> RpcCommon {
        match self {
            RpcContext::LoadTaSize { common } => common,
            RpcContext::ShmAlloc { common, .. } => common,
            RpcContext::LoadTaBinary { common, .. } => common,
            RpcContext::ShmFree { common, .. } => common,
        }
    }

    /// The context once the size is known and memory is asked for.
    pub open spec fn spec_shm_alloc(self, requested_size: u64) -> Result<Self, RpcContextError> {
        match self {
            RpcContext::LoadTaSize { common } => Ok(RpcContext::ShmAlloc { common, requested_size }),
            _ => Err(RpcContextError::UnexpectedStage),
        }
    }

    /// The context once the memory is there and the TA is asked for.
    pub open spec fn spec_load_ta_binary(self, shm_ref: u64) -> Result<Self, RpcContextError> {
        match self {
            RpcContext::ShmAlloc { common, requested_size } => Ok(
                RpcContext::LoadTaBinary { common, requested_size, shm_ref },
            ),
            _ => Err(RpcContextError::UnexpectedStage),
        }
    }

    /// The context once the memory is to be freed. Where the TA was asked for,
    /// only the memory that it was to be loaded into can be freed.
    pub open spec fn spec_shm_free(self, shm_ref: u64, completion: RpcCompletion) -> Result<
        Self,
        RpcContextError,
    > {
        match self {
            RpcContext::ShmAlloc { common, .. } => Ok(
                RpcContext::ShmFree { common, shm_ref, completion },
            ),
            RpcContext::LoadTaBinary { common, requested_size, shm_ref: expected } => if shm_ref
                == expected {
                Ok(RpcContext::ShmFree { common, shm_ref, completion })
            } else {
                Err(RpcContextError::UnexpectedStage)
            },
            _ => Err(RpcContextError::UnexpectedStage),
        }
    }

    /// The first context of a request.
    pub fn new(ta_uuid: TeeUuid, registered_shm_ref: u64, regd_shm_offset: usize) -> (r: Self)
        ensures
            r == (RpcContext::LoadTaSize {
                common: RpcCommon { ta_uuid, registered_shm_ref, regd_shm_offset },
            }),
    {
        RpcContext::LoadTaSize {
            common: RpcCommon { ta_uuid, registered_shm_ref, regd_shm_offset },
        }
    }

    /// What the context keeps through all stages.
    pub fn common(&self) -> (r: RpcCommon)
        ensures
            r == self.spec_common(),
    {
        match self {
            RpcContext::LoadTaSize { common } => *common,
            RpcContext::ShmAlloc { common, .. } => *common,
            RpcContext::LoadTaBinary { common, .. } => *common,
            RpcContext::ShmFree { common, .. } => *common,
        }
    }

    /// The TA that is loaded.
    pub fn ta_uuid(&self) -> (r: TeeUuid)
        ensures
            r == self.spec_common().ta_uuid,
    {
        self.common().ta_uuid
    }

    /// The registered shared memory of the request.
    pub fn registered_shm_ref(&self) -> (r: u64)
        ensures
            r == self.spec_common().registered_shm_ref,
    {
        self.common().registered_shm_ref
    }

    /// The offset into the registered shared memory of the request.
    pub fn registered_shm_offset(&self) -> (r: usize)
        ensures
            r == self.spec_common().regd_shm_offset,
    {
        self.common().regd_shm_offset
    }

    /// The size that was asked for, at the stages that have one.
    pub fn requested_size(&self) -> (r: Option<u64>)
        ensures
            r == match *self {
                RpcContext::ShmAlloc { requested_size, .. } => Some(requested_size),
                RpcContext::LoadTaBinary { requested_size, .. } => Some(requested_size),
                _ => None,
            },
    {
        match self {
            RpcContext::ShmAlloc { requested_size, .. } => Some(*requested_size),
            RpcContext::LoadTaBinary { requested_size, .. } => Some(*requested_size),
            _ => None,
        }
    }

    /// The shared memory that was allocated, at the stages that have one.
    pub fn shm_ref(&self) -> (r: Option<u64>)
        ensures
            r == match *self {
                RpcContext::LoadTaBinary { shm_ref, .. } => Some(shm_ref),
                RpcContext::ShmFree { shm_ref, .. } => Some(shm_ref),
                _ => None,
            },
    {
        match self {
            RpcContext::LoadTaBinary { shm_ref, .. } => Some(*shm_ref),
            RpcContext::ShmFree { shm_ref, .. } => Some(*shm_ref),
            _ => None,
        }
    }

    /// What to do once the shared memory is freed, at the last stage.
    pub fn completion(&self) -> (r: Option<RpcCompletion>)
        ensures
            r == match *self {
                RpcContext::ShmFree { completion, .. } => Some(completion),
                _ => None,
            },
    {
        match self {
            RpcContext::ShmFree { completion, .. } => Some(*completion),
            _ => None,
        }
    }

    /// Steps to the stage at which memory is asked for.
    pub fn into_shm_alloc(self, requested_size: u64) -> (r: Result<Self, RpcContextError>)
        ensures
            r == self.spec_shm_alloc(requested_size),
    {
        match self {
            RpcContext::LoadTaSize { common } => Ok(RpcContext::ShmAlloc { common, requested_size }),
            _ => Err(RpcContextError::UnexpectedStage),
        }
    }

    /// Steps to the stage at which the TA is asked for.
    pub fn into_load_ta_binary(self, shm_ref: u64) -> (r: Result<Self, RpcContextError>)
        ensures
            r == self.spec_load_ta_binary(shm_ref),
    {
        match self {
            RpcContext::ShmAlloc { common, requested_size } => Ok(
                RpcContext::LoadTaBinary { common, requested_size, shm_ref },
            ),
            _ => Err(RpcContextError::UnexpectedStage),
        }
    }

    /// Steps to the stage at which the memory is freed.
    pub fn into_shm_free(self, shm_ref: u64, completion: RpcCompletion) -> (r: Result<
        Self,
        RpcContextError,
    >)
        ensures
            r == self.spec_shm_free(shm_ref, completion),
    {
        match self {
            RpcContext::ShmAlloc { common, .. } => Ok(
                RpcContext::ShmFree { common, shm_ref, completion },
            ),
            RpcContext::LoadTaBinary { common, shm_ref: expected_shm_ref, .. } => {
                if shm_ref == expected_shm_ref {
                    Ok(RpcContext::ShmFree { common, shm_ref, completion })
                } else {
                    Err(RpcContextError::UnexpectedStage)
                }
            },
            _ => Err(RpcContextError::UnexpectedStage),
        }
    }
}

/// Maps context numbers to trusted continuation state.
pub struct RpcContextMap {
    ids: IdPool,
    contexts: ContextTable,
}

impl View for RpcContextMap {
    type V = Map<u32, RpcContext>;

    closed spec fn view(&self) -> Map<u32, RpcContext> {
        context_entries(self.contexts)
    }
}

/// `contexts` with the context `id` put in the place that `step` gives for it.
pub open spec fn updated(
    contexts: Map<u32, RpcContext>,
    id: u32,
    step: Result<RpcContext, RpcContextError>,
) -> (Map<u32, RpcContext>, Result<(), RpcContextError>) {
    if !contexts.contains_key(id) {
        (contexts, Err(RpcContextError::NotFound))
    } else {
        match step {
            Ok(context) => (contexts.insert(id, context), Ok(())),
            Err(error) => (contexts, Err(error)),
        }
    }
}

impl RpcContextMap {
    /// The numbers that are handed out are those of the contexts.
    pub closed spec fn wf(self) -> bool {
        &&& self.ids.wf()
        &&& self.ids.spec_capacity() == MAX_RPC_CONTEXTS
        &&& self.ids.live() == self@.dom()
    }

    /// The number that the next context is given, if there is room for one.
    pub closed spec fn upcoming(self) -> Option<u32> {
        self.ids.upcoming()
    }

    /// Creates a map without contexts.
    pub fn new() -> (r: Self)
        ensures
            r.wf(),
            r@ == Map::<u32, RpcContext>::empty(),
            r.upcoming() == Some(0u32),
    {
        let r = RpcContextMap {
            ids: IdPool::with_capacity(MAX_RPC_CONTEXTS),
            contexts: ContextTable::new(),
        };
        assert(r@ =~= Map::<u32, RpcContext>::empty());
        assert(r.ids.live() =~= r@.dom());
        r
    }

    /// Allocates a context for the answer with the size of the TA.
    pub fn allocate(
        &mut self,
        ta_uuid: TeeUuid,
        registered_shm_ref: u64,
        regd_shm_offset: usize,
    ) -> (r: Result<u32, RpcContextError>)
        requires
            old(self).wf(),
        ensures
            final(self).wf(),
            match r {
                Ok(id) => {
                    &&& old(self).upcoming() == Some(id)
                    &&& id < MAX_RPC_CONTEXTS
                    &&& !old(self)@.contains_key(id)
                    &&& final(self)@ == old(self)@.insert(
                        id,
                        RpcContext::LoadTaSize {
                            common: RpcCommon { ta_uuid, registered_shm_ref, regd_shm_offset },
                        },
                    )
                },
                Err(error) => {
                    &&& error == RpcContextError::Full
                    &&& final(self)@ == old(self)@
                    &&& forall|taken: u32|
                        taken < MAX_RPC_CONTEXTS ==> #[trigger] old(self)@.contains_key(taken)
                },
            },
            (exists|free: u32| free < MAX_RPC_CONTEXTS && !#[trigger] old(self)@.contains_key(free))
                ==> r is Ok,
    {
        let context_id: u32 = match self.ids.allocate() {
            Some(context_id) => context_id,
            None => {
                assert forall|id: u32| id < MAX_RPC_CONTEXTS implies #[trigger] self@.contains_key(
                    id,
                ) by {
                    assert(self.ids.live().contains(id));
                }
                return Err(RpcContextError::Full);
            },
        };
        self.contexts.insert(
            context_id,
            RpcContext::new(ta_uuid, registered_shm_ref, regd_shm_offset),
        );
        assert(self.ids.live() =~= self@.dom());
        Ok(context_id)
    }

    /// Returns a snapshot of a context.
    pub fn get(&self, context_id: u32) -> (r: Option<RpcContext>)
        ensures
            r == (if self@.contains_key(context_id) {
                Some(self@[context_id])
            } else {
                None
            }),
    {
        match self.contexts.get(context_id) {
            Some(context) => Some(*context),
            None => None,
        }
    }

    /// Takes the size that the normal world answered with and steps to the stage
    /// at which memory is asked for.
    pub fn transition_to_shm_alloc(&mut self, context_id: u32, requested_size: u64) -> (r: Result<
        (),
        RpcContextError,
    >)
        requires
            old(self).wf(),
        ensures
            final(self).wf(),
            final(self).upcoming() == old(self).upcoming(),
            (final(self)@, r) == updated(
                old(self)@,
                context_id,
                old(self)@[context_id].spec_shm_alloc(requested_size),
            ),
    {
        let transition = |context: RpcContext| -> (r: Result<RpcContext, RpcContextError>)
            ensures
                r == context.spec_shm_alloc(requested_size),
        {
            context.into_shm_alloc(requested_size)
        };
        self.update(context_id, transition)
    }

    /// Takes the memory that the normal world allocated and steps to the stage at
    /// which the TA is asked for.
    pub fn transition_to_load_ta_binary(&mut self, context_id: u32, shm_ref: u64) -> (r: Result<
        (),
        RpcContextError,
    >)
        requires
            old(self).wf(),
        ensures
            final(self).wf(),
            final(self).upcoming() == old(self).upcoming(),
            (final(self)@, r) == updated(
                old(self)@,
                context_id,
                old(self)@[context_id].spec_load_ta_binary(shm_ref),
            ),
    {
        let transition = |context: RpcContext| -> (r: Result<RpcContext, RpcContextError>)
            ensures
                r == context.spec_load_ta_binary(shm_ref),
        {
            context.into_load_ta_binary(shm_ref)
        };
        self.update(context_id, transition)
    }

    /// Steps to the stage at which the memory is freed.
    pub fn transition_to_shm_free(
        &mut self,
        context_id: u32,
        shm_ref: u64,
        completion: RpcCompletion,
    ) -> (r: Result<(), RpcContextError>)
        requires
            old(self).wf(),
        ensures
            final(self).wf(),
            final(self).upcoming() == old(self).upcoming(),
            (final(self)@, r) == updated(
                old(self)@,
                context_id,
                old(self)@[context_id].spec_shm_free(shm_ref, completion),
            ),
    {
        let transition = |context: RpcContext| -> (r: Result<RpcContext, RpcContextError>)
            ensures
                r == context.spec_shm_free(shm_ref, completion),
        {
            context.into_shm_free(shm_ref, completion)
        };
        self.update(context_id, transition)
    }

    /// Puts the context that `transition` leads to in the place of the one it leaves. It
    /// is called where there is a context, with that context.
    pub fn update<F: FnOnce(RpcContext) -> Result<RpcContext, RpcContextError>>(
        &mut self,
        context_id: u32,
        transition: F,
    ) -> (r: Result<(), RpcContextError>)
        requires
            old(self).wf(),
            old(self)@.contains_key(context_id) ==> call_requires(
                transition,
                (old(self)@[context_id],),
            ),
        ensures
            final(self).wf(),
            final(self).upcoming() == old(self).upcoming(),
            !old(self)@.contains_key(context_id) ==> {
                &&& r == Err::<(), RpcContextError>(RpcContextError::NotFound)
                &&& final(self)@ == old(self)@
            },
            old(self)@.contains_key(context_id) ==> exists|
                step: Result<RpcContext, RpcContextError>,
            |
                {
                    &&& #[trigger] call_ensures(transition, (old(self)@[context_id],), step)
                    &&& (final(self)@, r) == updated(old(self)@, context_id, step)
                },
    {
        let context = match self.get(context_id) {
            Some(context) => context,
            None => {
                return Err(RpcContextError::NotFound);
            },
        };
        let step = transition(context);
        match step {
            Ok(next) => {
                self.contexts.insert(context_id, next);
                assert(self@.dom() =~= old(self)@.dom());
                assert((self@, Ok::<(), RpcContextError>(())) == updated(
                    old(self)@,
                    context_id,
                    step,
                ));
                Ok(())
            },
            Err(error) => {
                assert((self@, Err::<(), RpcContextError>(error)) == updated(
                    old(self)@,
                    context_id,
                    step,
                ));
                Err(error)
            },
        }
    }

    /// Removes a context and recycles its number.
    pub fn take(&mut self, context_id: u32) -> (r: Option<RpcContext>)
        requires
            old(self).wf(),
        ensures
            final(self).wf(),
            if old(self)@.contains_key(context_id) {
                &&& r == Some(old(self)@[context_id])
                &&& final(self)@ == old(self)@.remove(context_id)
                &&& final(self).upcoming() == Some(context_id)
            } else {
                &&& r is None
                &&& final(self)@ == old(self)@
                &&& final(self).upcoming() == old(self).upcoming()
            },
    {
        match self.contexts.remove(context_id) {
            Some(context) => {
                self.ids.recycle(context_id);
                assert(self.ids.live() =~= self@.dom());
                Some(context)
            },
            None => {
                assert(self@ =~= old(self)@);
                None
            },
        }
    }
}

impl Default for RpcContextMap {
    fn default() -> (r: Self)
        ensures
            r.wf(),
            r@ == Map::<u32, RpcContext>::empty(),
    {
        RpcContextMap::new()
    }
}

/// No step changes the TA, nor the registered memory of the request, nor the
/// offset into it.
pub proof fn law_steps_keep_the_request(
    context: RpcContext,
    requested_size: u64,
    shm_ref: u64,
    completion: RpcCompletion,
)
    ensures
        context.spec_shm_alloc(requested_size) matches Ok(next) ==> next.spec_common()
            == context.spec_common(),
        context.spec_load_ta_binary(shm_ref) matches Ok(next) ==> next.spec_common()
            == context.spec_common(),
        context.spec_shm_free(shm_ref, completion) matches Ok(next) ==> next.spec_common()
            == context.spec_common(),
{
}

/// A step that was taken cannot be taken again from where it led to, and no step
/// leads back to an earlier stage.
pub proof fn law_steps_are_not_repeated(
    context: RpcContext,
    sizes: (u64, u64),
    shm_refs: (u64, u64),
    completions: (RpcCompletion, RpcCompletion),
)
    ensures
        context.spec_shm_alloc(sizes.0) matches Ok(next) ==> next.spec_shm_alloc(sizes.1)
            == Err::<RpcContext, RpcContextError>(RpcContextError::UnexpectedStage),
        context.spec_load_ta_binary(shm_refs.0) matches Ok(next) ==> {
            &&& next.spec_load_ta_binary(shm_refs.1) == Err::<RpcContext, RpcContextError>(
                RpcContextError::UnexpectedStage,
            )
            &&& next.spec_shm_alloc(sizes.1) == Err::<RpcContext, RpcContextError>(
                RpcContextError::UnexpectedStage,
            )
        },
        context.spec_shm_free(shm_refs.0, completions.0) matches Ok(next) ==> {
            &&& next.spec_shm_free(shm_refs.1, completions.1) == Err::<RpcContext, RpcContextError>(
                RpcContextError::UnexpectedStage,
            )
            &&& next.spec_load_ta_binary(shm_refs.1) == Err::<RpcContext, RpcContextError>(
                RpcContextError::UnexpectedStage,
            )
            &&& next.spec_shm_alloc(sizes.1) == Err::<RpcContext, RpcContextError>(
                RpcContextError::UnexpectedStage,
            )
        },
{
}

/// A request that is taken through its stages in order ends with the memory that
/// was allocated and with what it began with.
pub proof fn law_lifecycle(
    common: RpcCommon,
    requested_size: u64,
    shm_ref: u64,
    completion: RpcCompletion,
)
    ensures
        ({
            let sized = (RpcContext::LoadTaSize { common }).spec_shm_alloc(requested_size);
            let allocated = sized->Ok_0.spec_load_ta_binary(shm_ref);
            let freed = allocated->Ok_0.spec_shm_free(shm_ref, completion);
            &&& sized is Ok
            &&& allocated is Ok
            &&& freed == Ok::<RpcContext, RpcContextError>(
                RpcContext::ShmFree { common, shm_ref, completion },
            )
        }),
{
}

/// A refused step changes no context.
pub proof fn law_refused_steps_change_nothing(
    contexts: Map<u32, RpcContext>,
    id: u32,
    step: Result<RpcContext, RpcContextError>,
)
    requires
        updated(contexts, id, step).1 is Err,
    ensures
        updated(contexts, id, step).0 == contexts,
{
}

/// Whatever a step is: without a context it is not found and nothing changes. With one,
/// the step that succeeds puts its context in the place, the step that fails leaves what
/// was there. Every other context stays, and none comes or goes.
pub proof fn law_update(
    contexts: Map<u32, RpcContext>,
    id: u32,
    step: Result<RpcContext, RpcContextError>,
)
    ensures
        ({
            let (after, r) = updated(contexts, id, step);
            &&& after.dom() == contexts.dom()
            &&& forall|other: u32|
                other != id && #[trigger] contexts.contains_key(other) ==> after[other]
                    == contexts[other]
            &&& !contexts.contains_key(id) ==> after == contexts && r == Err::<
                (),
                RpcContextError,
            >(RpcContextError::NotFound)
            &&& contexts.contains_key(id) ==> match step {
                Ok(next) => r == Ok::<(), RpcContextError>(()) && after[id] == next,
                Err(error) => r == Err::<(), RpcContextError>(error) && after[id] == contexts[id],
            }
        }),
{
    assert(updated(contexts, id, step).0.dom() =~= contexts.dom());
}

/// The number of every context is below the number of contexts that there can be.
pub proof fn law_numbers_are_bounded(map: RpcContextMap, id: u32)
    requires
        map.wf(),
        map@.contains_key(id),
    ensures
        id < MAX_RPC_CONTEXTS,
{
    lemma_live_is_bounded(map.ids, id);
    assert(map@.dom().contains(id));
}

/// Memory is asked for only once the size was waited for. The context then holds the size
/// that was given, no memory and nothing to do afterwards.
pub proof fn law_size_is_held(
    context: RpcContext,
    requested_size: u64,
    r: Result<RpcContext, RpcContextError>,
)
    requires
        call_ensures(RpcContext::into_shm_alloc, (context, requested_size), r),
    ensures
        r is Ok <==> context is LoadTaSize,
        r matches Err(e) ==> e == RpcContextError::UnexpectedStage,
        r matches Ok(next) ==> {
            &&& next is ShmAlloc
            &&& next->ShmAlloc_requested_size == requested_size
            &&& next->ShmAlloc_common == context->LoadTaSize_common
        },
{
}

/// The TA is asked for only once memory was waited for. The context then holds the memory
/// that was given and the size that it held before.
pub proof fn law_memory_is_held(
    context: RpcContext,
    shm_ref: u64,
    r: Result<RpcContext, RpcContextError>,
)
    requires
        call_ensures(RpcContext::into_load_ta_binary, (context, shm_ref), r),
    ensures
        r is Ok <==> context is ShmAlloc,
        r matches Err(e) ==> e == RpcContextError::UnexpectedStage,
        r matches Ok(next) ==> {
            &&& next is LoadTaBinary
            &&& next->LoadTaBinary_shm_ref == shm_ref
            &&& next->LoadTaBinary_requested_size == context->ShmAlloc_requested_size
            &&& next->LoadTaBinary_common == context->ShmAlloc_common
        },
{
}

/// Whatever stage the step to freeing the memory is taken from: where it succeeds, the
/// context holds the memory and the completion that the step was given, and what it kept
/// all along. It succeeds when memory was waited for, and when the TA was waited for and
/// the memory is the one that the TA was to be loaded into.
pub proof fn law_freeing_holds_what_was_given(
    context: RpcContext,
    shm_ref: u64,
    completion: RpcCompletion,
    before: RpcCommon,
    r: Result<RpcContext, RpcContextError>,
)
    requires
        call_ensures(RpcContext::into_shm_free, (context, shm_ref, completion), r),
        call_ensures(RpcContext::common, (&context,), before),
    ensures
        r matches Ok(next) ==> {
            &&& next is ShmFree
            &&& next->ShmFree_shm_ref == shm_ref
            &&& next->ShmFree_completion == completion
            &&& next->ShmFree_common == before
        },
        r matches Err(e) ==> e == RpcContextError::UnexpectedStage,
        context is LoadTaSize || context is ShmFree ==> r is Err,
        context is ShmAlloc ==> r is Ok,
        context is LoadTaBinary ==> (r is Ok <==> context->LoadTaBinary_shm_ref == shm_ref),
{
}

/// What a step was given can be read from the context that it leads to, and so can what
/// the request began with.
pub proof fn law_steps_are_read_back(
    context: RpcContext,
    shm_ref: u64,
    completion: RpcCompletion,
    next: RpcContext,
    read: (Option<u64>, Option<RpcCompletion>, Option<u64>),
    before: (TeeUuid, u64, usize),
    after: (TeeUuid, u64, usize),
)
    requires
        call_ensures(
            RpcContext::into_shm_free,
            (context, shm_ref, completion),
            Ok::<RpcContext, RpcContextError>(next),
        ),
        call_ensures(RpcContext::shm_ref, (&next,), read.0),
        call_ensures(RpcContext::completion, (&next,), read.1),
        call_ensures(RpcContext::requested_size, (&next,), read.2),
        call_ensures(RpcContext::ta_uuid, (&context,), before.0),
        call_ensures(RpcContext::registered_shm_ref, (&context,), before.1),
        call_ensures(RpcContext::registered_shm_offset, (&context,), before.2),
        call_ensures(RpcContext::ta_uuid, (&next,), after.0),
        call_ensures(RpcContext::registered_shm_ref, (&next,), after.1),
        call_ensures(RpcContext::registered_shm_offset, (&next,), after.2),
    ensures
        read == (Some(shm_ref), Some(completion), None::<u64>),
        after == before,
{
}

/// A context shows at each stage what is valid there, and nothing else: the size while
/// memory or the TA is waited for, the memory while the TA is waited for or the memory is
/// freed, the completion only in the end.
pub proof fn law_stages_show_what_is_valid(
    context: RpcContext,
    size: Option<u64>,
    memory: Option<u64>,
    completion: Option<RpcCompletion>,
    common: RpcCommon,
)
    requires
        call_ensures(RpcContext::requested_size, (&context,), size),
        call_ensures(RpcContext::shm_ref, (&context,), memory),
        call_ensures(RpcContext::completion, (&context,), completion),
        call_ensures(RpcContext::common, (&context,), common),
    ensures
        size is Some <==> context is ShmAlloc || context is LoadTaBinary,
        memory is Some <==> context is LoadTaBinary || context is ShmFree,
        completion is Some <==> context is ShmFree,
        context is LoadTaSize ==> common == context->LoadTaSize_common,
        context is ShmAlloc ==> size == Some(context->ShmAlloc_requested_size) && common
            == context->ShmAlloc_common,
        context is LoadTaBinary ==> {
            &&& size == Some(context->LoadTaBinary_requested_size)
            &&& memory == Some(context->LoadTaBinary_shm_ref)
            &&& common == context->LoadTaBinary_common
        },
        context is ShmFree ==> {
            &&& memory == Some(context->ShmFree_shm_ref)
            &&& completion == Some(context->ShmFree_completion)
            &&& common == context->ShmFree_common
        },
{
}

/// A request begins by waiting for the size, with the TA, the registered memory and the
/// offset that it is given.
pub proof fn law_request_begins(
    ta_uuid: TeeUuid,
    registered_shm_ref: u64,
    regd_shm_offset: usize,
    context: RpcContext,
    read: (TeeUuid, u64, usize),
)
    requires
        call_ensures(RpcContext::new, (ta_uuid, registered_shm_ref, regd_shm_offset), context),
        call_ensures(RpcContext::ta_uuid, (&context,), read.0),
        call_ensures(RpcContext::registered_shm_ref, (&context,), read.1),
        call_ensures(RpcContext::registered_shm_offset, (&context,), read.2),
    ensures
        context is LoadTaSize,
        read == (ta_uuid, registered_shm_ref, regd_shm_offset),
{
}

/// An allocated context is found under its number, which is below 1024 and was free; it
/// waits for the size, with what it was given. The others are as before. There is no room
/// exactly when all 1024 numbers are taken.
pub proof fn law_allocated_context_is_found(
    map: &mut RpcContextMap,
    ta_uuid: TeeUuid,
    registered_shm_ref: u64,
    regd_shm_offset: usize,
    r: Result<u32, RpcContextError>,
    other: u32,
    before: Option<RpcContext>,
    after: Option<RpcContext>,
)
    requires
        call_ensures(
            RpcContextMap::allocate,
            (map, ta_uuid, registered_shm_ref, regd_shm_offset),
            r,
        ),
        call_ensures(RpcContextMap::get, (&*old(map), other), before),
        call_ensures(RpcContextMap::get, (&*final(map), other), after),
    ensures
        r matches Ok(id) ==> {
            &&& id < 1024
            &&& other != id ==> after == before
            &&& other == id ==> before is None && after == Some(
                RpcContext::LoadTaSize {
                    common: RpcCommon { ta_uuid, registered_shm_ref, regd_shm_offset },
                },
            )
        },
        r matches Err(e) ==> {
            &&& e == RpcContextError::Full
            &&& after == before
            &&& other < 1024 ==> before is Some
        },
        before is None && other < 1024 ==> r is Ok,
{
}

/// A context that is taken is handed over as it was found and is found no more; the others
/// are as before.
pub proof fn law_taken_context_is_gone(
    map: &mut RpcContextMap,
    id: u32,
    r: Option<RpcContext>,
    found: Option<RpcContext>,
    other: u32,
    before: Option<RpcContext>,
    after: Option<RpcContext>,
)
    requires
        call_ensures(RpcContextMap::take, (map, id), r),
        call_ensures(RpcContextMap::get, (&*old(map), id), found),
        call_ensures(RpcContextMap::get, (&*old(map), other), before),
        call_ensures(RpcContextMap::get, (&*final(map), other), after),
    ensures
        r == found,
        other == id ==> after is None,
        other != id ==> after == before,
{
}

/// The number of a context that was taken is given to the next one.
pub proof fn law_number_is_given_again(
    map: &mut RpcContextMap,
    id: u32,
    taken: RpcContext,
    next: &mut RpcContextMap,
    ta_uuid: TeeUuid,
    registered_shm_ref: u64,
    regd_shm_offset: usize,
    r: Result<u32, RpcContextError>,
)
    requires
        old(map).wf(),
        call_ensures(RpcContextMap::take, (map, id), Some(taken)),
        *old(next) == *final(map),
        call_ensures(
            RpcContextMap::allocate,
            (next, ta_uuid, registered_shm_ref, regd_shm_offset),
            r,
        ),
    ensures
        r == Ok::<u32, RpcContextError>(id),
{
    law_numbers_are_bounded(*old(map), id);
    assert(!final(map)@.contains_key(id));
}

/// Freeing the memory of a context in the map: where it succeeds, the context is found
/// with the memory and the completion that were given and with what it kept, whatever
/// stage it was at. Where it is refused, nothing changes; without a context it is not
/// found. The other contexts are as before.
pub proof fn law_freeing_in_the_map(
    map: &mut RpcContextMap,
    id: u32,
    shm_ref: u64,
    completion: RpcCompletion,
    r: Result<(), RpcContextError>,
    found: Option<RpcContext>,
    left: Option<RpcContext>,
    common: RpcCommon,
    other: u32,
    before: Option<RpcContext>,
    after: Option<RpcContext>,
)
    requires
        call_ensures(RpcContextMap::transition_to_shm_free, (map, id, shm_ref, completion), r),
        call_ensures(RpcContextMap::get, (&*old(map), id), found),
        call_ensures(RpcContextMap::get, (&*final(map), id), left),
        found is Some ==> call_ensures(RpcContext::common, (&found->0,), common),
        call_ensures(RpcContextMap::get, (&*old(map), other), before),
        call_ensures(RpcContextMap::get, (&*final(map), other), after),
    ensures
        other != id ==> after == before,
        r is Ok ==> found is Some && left == Some(
            RpcContext::ShmFree { common, shm_ref, completion },
        ),
        r is Err ==> left == found,
        found is None ==> r == Err::<(), RpcContextError>(RpcContextError::NotFound),
        found matches Some(context) ==> {
            &&& context is ShmAlloc ==> r is Ok
            &&& context is LoadTaBinary ==> (r is Ok <==> context->LoadTaBinary_shm_ref == shm_ref)
            &&& context is LoadTaSize || context is ShmFree ==> r is Err
            &&& r matches Err(e) ==> e == RpcContextError::UnexpectedStage
        },
{
}

/// Asking for memory, and then for the TA, in the map: each succeeds at its stage only and
/// leaves the size or the memory that it was given, with what the context held before.
pub proof fn law_asking_in_the_map(
    map: &mut RpcContextMap,
    id: u32,
    requested_size: u64,
    r: Result<(), RpcContextError>,
    next: &mut RpcContextMap,
    next_id: u32,
    shm_ref: u64,
    s: Result<(), RpcContextError>,
    found: (Option<RpcContext>, Option<RpcContext>),
    left: (Option<RpcContext>, Option<RpcContext>),
    other: u32,
    before: (Option<RpcContext>, Option<RpcContext>),
    after: (Option<RpcContext>, Option<RpcContext>),
)
    requires
        call_ensures(RpcContextMap::transition_to_shm_alloc, (map, id, requested_size), r),
        call_ensures(RpcContextMap::transition_to_load_ta_binary, (next, next_id, shm_ref), s),
        call_ensures(RpcContextMap::get, (&*old(map), id), found.0),
        call_ensures(RpcContextMap::get, (&*final(map), id), left.0),
        call_ensures(RpcContextMap::get, (&*old(next), next_id), found.1),
        call_ensures(RpcContextMap::get, (&*final(next), next_id), left.1),
        call_ensures(RpcContextMap::get, (&*old(map), other), before.0),
        call_ensures(RpcContextMap::get, (&*final(map), other), after.0),
        call_ensures(RpcContextMap::get, (&*old(next), other), before.1),
        call_ensures(RpcContextMap::get, (&*final(next), other), after.1),
    ensures
        other != id ==> after.0 == before.0,
        other != next_id ==> after.1 == before.1,
        r is Err ==> left.0 == found.0,
        s is Err ==> left.1 == found.1,
        r is Ok <==> found.0 is Some && found.0->0 is LoadTaSize,
        s is Ok <==> found.1 is Some && found.1->0 is ShmAlloc,
        r matches Err(e) ==> e == (if found.0 is None {
            RpcContextError::NotFound
        } else {
            RpcContextError::UnexpectedStage
        }),
        s matches Err(e) ==> e == (if found.1 is None {
            RpcContextError::NotFound
        } else {
            RpcContextError::UnexpectedStage
        }),
        r is Ok ==> left.0 == Some(
            RpcContext::ShmAlloc { common: found.0->0->LoadTaSize_common, requested_size },
        ),
        s is Ok ==> left.1 == Some(
            RpcContext::LoadTaBinary {
                common: found.1->0->ShmAlloc_common,
                requested_size: found.1->0->ShmAlloc_requested_size,
                shm_ref,
            },
        ),
{
}

/// The first context of a fresh map has the number zero.
pub proof fn law_first_number(
    fresh: RpcContextMap,
    map: &mut RpcContextMap,
    ta_uuid: TeeUuid,
    registered_shm_ref: u64,
    regd_shm_offset: usize,
    r: Result<u32, RpcContextError>,
)
    requires
        call_ensures(RpcContextMap::new, (), fresh),
        *old(map) == fresh,
        call_ensures(
            RpcContextMap::allocate,
            (map, ta_uuid, registered_shm_ref, regd_shm_offset),
            r,
        ),
    ensures
        r == Ok::<u32, RpcContextError>(0),
{
    assert(!fresh@.contains_key(0));
}

/// In a fresh map nothing is found.
pub proof fn law_fresh_map(map: RpcContextMap, id: u32, r: Option<RpcContext>)
    requires
        call_ensures(RpcContextMap::new, (), map),
        call_ensures(RpcContextMap::get, (&map, id), r),
    ensures
        r is None,
{
}

/// An update, whatever the step is, asks the step about the context that is found and
/// leaves what the step leads to. A step that fails leaves the context as it was and
/// passes its error on; without a context the step is not asked. The other contexts are as
/// before.
pub proof fn law_update_asks_the_step<
    F: FnOnce(RpcContext) -> Result<RpcContext, RpcContextError>,
>(
    map: &mut RpcContextMap,
    id: u32,
    transition: F,
    r: Result<(), RpcContextError>,
    found: Option<RpcContext>,
    left: Option<RpcContext>,
    other: u32,
    before: Option<RpcContext>,
    after: Option<RpcContext>,
)
    requires
        call_ensures(RpcContextMap::update::<F>, (map, id, transition), r),
        call_ensures(RpcContextMap::get, (&*old(map), id), found),
        call_ensures(RpcContextMap::get, (&*final(map), id), left),
        call_ensures(RpcContextMap::get, (&*old(map), other), before),
        call_ensures(RpcContextMap::get, (&*final(map), other), after),
    ensures
        other != id ==> after == before,
        found is None ==> left is None && r == Err::<(), RpcContextError>(
            RpcContextError::NotFound,
        ),
        found matches Some(context) ==> {
            &&& r is Ok ==> left is Some && call_ensures(
                transition,
                (context,),
                Ok::<RpcContext, RpcContextError>(left->0),
            )
            &&& r matches Err(e) ==> left == found && call_ensures(
                transition,
                (context,),
                Err::<RpcContext, RpcContextError>(e),
            )
        },
{
}

/// A map that is left to its default is fresh.
pub proof fn law_default_map(map: RpcContextMap, id: u32, r: Option<RpcContext>)
    requires
        call_ensures(<RpcContextMap as Default>::default, (), map),
        call_ensures(RpcContextMap::get, (&map, id), r),
    ensures
        r is None,
{
}

} // verus!
