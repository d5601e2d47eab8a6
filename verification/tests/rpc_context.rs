//! Continuation state of dynamic TA requests.

use litebox_optee::codes::OpteeSmcReturnCode;
use litebox_optee::id_pool::IdPool;
use litebox_optee::rpc_context::{
    RpcCompletion, RpcContext, RpcContextError, RpcContextMap, MAX_RPC_CONTEXTS,
};
use litebox_optee::uuid::TeeUuid;

fn test_uuid(value: u32) -> TeeUuid {
    TeeUuid { time_low: value, time_mid: 0, time_hi_and_version: 0, clock_seq_and_node: [0; 8] }
}

#[test]
fn tracks_dynamic_ta_rpc_lifecycle() {
    let mut contexts = RpcContextMap::new();
    let context_id = contexts.allocate(test_uuid(1), 0x10, 0x100).unwrap();

    let initial = contexts.get(context_id).unwrap();
    assert!(matches!(initial, RpcContext::LoadTaSize { .. }));
    assert_eq!(initial.ta_uuid(), test_uuid(1));
    assert_eq!(initial.registered_shm_ref(), 0x10);
    assert_eq!(initial.registered_shm_offset(), 0x100);

    contexts.transition_to_shm_alloc(context_id, 0x4000).unwrap();
    assert!(matches!(
        contexts.get(context_id),
        Some(RpcContext::ShmAlloc { requested_size: 0x4000, .. })
    ));

    contexts.transition_to_load_ta_binary(context_id, 0x1234).unwrap();
    assert!(matches!(
        contexts.get(context_id),
        Some(RpcContext::LoadTaBinary { requested_size: 0x4000, shm_ref: 0x1234, .. })
    ));

    let completion = RpcCompletion::ReturnError(OpteeSmcReturnCode::EBadCmd);
    contexts.transition_to_shm_free(context_id, 0x1234, completion).unwrap();
    assert_eq!(
        contexts.take(context_id),
        Some(RpcContext::ShmFree { common: initial.common(), shm_ref: 0x1234, completion })
    );
}

#[test]
fn rejects_incomplete_and_replayed_transitions() {
    let mut contexts = RpcContextMap::new();
    let context_id = contexts.allocate(test_uuid(1), 1, 0).unwrap();

    contexts.transition_to_shm_alloc(context_id, 1).unwrap();
    assert_eq!(
        contexts.transition_to_shm_alloc(context_id, 2),
        Err(RpcContextError::UnexpectedStage)
    );
    contexts.transition_to_load_ta_binary(context_id, 1).unwrap();
    assert_eq!(
        contexts.transition_to_load_ta_binary(context_id, 2),
        Err(RpcContextError::UnexpectedStage)
    );
    assert_eq!(
        contexts.transition_to_shm_free(
            context_id,
            2,
            RpcCompletion::ReturnError(OpteeSmcReturnCode::EBadCmd),
        ),
        Err(RpcContextError::UnexpectedStage)
    );
    assert!(contexts.take(context_id).is_some());
    assert_eq!(contexts.take(context_id), None);
}

#[test]
fn a_refused_step_changes_nothing() {
    let mut contexts = RpcContextMap::default();
    let id = contexts.allocate(test_uuid(7), 3, 4).unwrap();
    let before = contexts.get(id).unwrap();
    assert_eq!(
        contexts.transition_to_load_ta_binary(id, 9),
        Err(RpcContextError::UnexpectedStage)
    );
    assert_eq!(
        contexts.transition_to_shm_free(id, 9, RpcCompletion::OpenSession),
        Err(RpcContextError::UnexpectedStage)
    );
    assert_eq!(contexts.get(id), Some(before));
    assert_eq!(before.requested_size(), None);
    assert_eq!(before.shm_ref(), None);
    assert_eq!(before.completion(), None);
}

#[test]
fn memory_can_be_freed_before_the_binary_is_loaded() {
    let mut contexts = RpcContextMap::new();
    let id = contexts.allocate(test_uuid(7), 3, 4).unwrap();
    contexts.transition_to_shm_alloc(id, 10).unwrap();
    assert_eq!(contexts.get(id).unwrap().requested_size(), Some(10));
    contexts.transition_to_shm_free(id, 77, RpcCompletion::OpenSession).unwrap();
    let freed = contexts.get(id).unwrap();
    assert_eq!(freed.shm_ref(), Some(77));
    assert_eq!(freed.completion(), Some(RpcCompletion::OpenSession));
    assert_eq!(freed.ta_uuid(), test_uuid(7));
    assert_eq!(freed.registered_shm_ref(), 3);
    assert_eq!(freed.registered_shm_offset(), 4);
    assert_eq!(
        contexts.transition_to_shm_alloc(id, 1),
        Err(RpcContextError::UnexpectedStage)
    );
}

#[test]
fn unknown_contexts_are_not_found() {
    let mut contexts = RpcContextMap::new();
    assert_eq!(contexts.get(0), None);
    assert_eq!(contexts.transition_to_shm_alloc(0, 1), Err(RpcContextError::NotFound));
    assert_eq!(contexts.transition_to_load_ta_binary(5, 1), Err(RpcContextError::NotFound));
    assert_eq!(
        contexts.transition_to_shm_free(5, 1, RpcCompletion::OpenSession),
        Err(RpcContextError::NotFound)
    );
}

#[test]
fn contexts_are_updated_by_any_step() {
    let mut contexts = RpcContextMap::new();
    let id = contexts.allocate(test_uuid(1), 2, 3).unwrap();
    let other = contexts.allocate(test_uuid(4), 5, 6).unwrap();
    let untouched = contexts.get(other);
    let first = contexts.get(id).unwrap();
    // The step is given the context, and its context takes the place.
    let next = RpcContext::new(test_uuid(9), 8, 7);
    assert_eq!(
        contexts.update(id, |context| {
            assert_eq!(context, first);
            Ok(next)
        }),
        Ok(())
    );
    assert_eq!(contexts.get(id), Some(next));
    // A step that fails leaves the context.
    assert_eq!(
        contexts.update(id, |_| Err(RpcContextError::Full)),
        Err(RpcContextError::Full)
    );
    assert_eq!(contexts.get(id), Some(next));
    assert_eq!(contexts.get(other), untouched);
    // Without a context the step is not taken.
    assert_eq!(
        contexts.update(999, |_| panic!("there is no context")),
        Err(RpcContextError::NotFound)
    );
    assert_eq!(contexts.get(999), None);
}

#[test]
fn contexts_run_out_and_are_recycled() {
    let mut contexts = RpcContextMap::new();
    let mut ids = Vec::new();
    for i in 0..MAX_RPC_CONTEXTS {
        ids.push(contexts.allocate(test_uuid(i), 0, 0).unwrap());
    }
    let mut sorted = ids.clone();
    sorted.sort();
    sorted.dedup();
    assert_eq!(sorted.len(), 1024);
    assert!(ids.iter().all(|id| *id < MAX_RPC_CONTEXTS));
    assert_eq!(contexts.allocate(test_uuid(0), 0, 0), Err(RpcContextError::Full));
    assert_eq!(contexts.take(ids[17]).unwrap().ta_uuid(), test_uuid(17));
    assert_eq!(contexts.allocate(test_uuid(9), 0, 0), Ok(ids[17]));
    assert_eq!(contexts.allocate(test_uuid(0), 0, 0), Err(RpcContextError::Full));
}

#[test]
fn numbers_are_handed_out_once() {
    let mut pool = IdPool::with_capacity(2);
    let a = pool.allocate().unwrap();
    let b = pool.allocate().unwrap();
    assert_ne!(a, b);
    assert_eq!(pool.allocate(), None);
    pool.recycle(a);
    assert_eq!(pool.allocate(), Some(a));
    let mut empty = IdPool::with_capacity(0);
    assert_eq!(empty.allocate(), None);
}
