//! Answering a message: what a TA returned goes back to the normal world, values in
//! the message itself, data in shared memory.
//!
//! Reading the memory of the TA and writing shared memory are left to the caller:
//! [`MsgArgsUpdate`] says what to read and to write, one parameter after the other.

use vstd::prelude::*;

use crate::addr::PAGE_SIZE;
use crate::codes::{OpteeSmcReturnCode, TeeOrigin, TeeParamType, TeeResult};
use crate::msg::{OpteeMsgArgs, OpteeMsgParam, OpteeMsgParamValue};
use crate::params::{UteeParams, TEE_NUM_PARAMS};
use crate::phys::{return_code_of, PhysPointerError};
use crate::shm::ShmInfo;
use crate::ta_request::{region_of, TaRequestInfo};

verus! {

/// `after` is `before` but for the result, its origin and, where a session was
/// opened, the session.
pub open spec fn replied(
    before: OpteeMsgArgs,
    return_code: TeeResult,
    return_origin: TeeOrigin,
    session_id: Option<u32>,
    after: OpteeMsgArgs,
) -> bool {
    &&& after.ret == return_code
    &&& after.ret_origin == return_origin
    &&& after.session == match session_id {
        Some(session) => session,
        None => before.session,
    }
    &&& after.cmd == before.cmd
    &&& after.func == before.func
    &&& after.cancel_id == before.cancel_id
    &&& after.num_params == before.num_params
    &&& after.params == before.params
}

/// What becomes of an output parameter.
pub enum Output {
    /// The type of the parameter is not known.
    Unknown,
    /// The parameter returns nothing.
    Nothing,
    /// The parameter returns these values.
    Values(u64, u64),
    /// The parameter returns what is in the memory of the TA at this address, in
    /// this length.
    Memory(u64, u64),
}

/// What the parameter at `index` returns.
pub open spec fn output_of(ta_params: UteeParams, index: int) -> Output {
    let a = ta_params.vals[2 * index];
    let b = ta_params.vals[2 * index + 1];
    match ta_params.type_at(index) {
        None => Output::Unknown,
        Some(TeeParamType::ValueOutput) => Output::Values(a, b),
        Some(TeeParamType::ValueInout) => Output::Values(a, b),
        Some(TeeParamType::MemrefOutput) => Output::Memory(a, b),
        Some(TeeParamType::MemrefInout) => Output::Memory(a, b),
        Some(_) => Output::Nothing,
    }
}

/// What is to be done next for an answer.
pub enum UpdateStep {
    /// Go on: a parameter is done.
    Updated,
    /// Read `len` bytes of the memory of the TA at `addr` and hand them over.
    ReadTa { addr: u64, len: u64 },
    /// Write `data` at the beginning of `shm`, then go on.
    WriteShm { shm: ShmInfo<PAGE_SIZE>, data: Vec<u8> },
    /// The answer is complete.
    Done,
}

/// An answer that is being put together.
pub struct MsgArgsUpdate {
    msg_args: OpteeMsgArgs,
    ta_params: UteeParams,
    index: usize,
}

impl MsgArgsUpdate {
    /// The message as it is so far.
    pub closed spec fn message(self) -> OpteeMsgArgs {
        self.msg_args
    }

    /// What the TA returned.
    pub closed spec fn returned(self) -> UteeParams {
        self.ta_params
    }

    /// The parameter that is next.
    pub closed spec fn position(self) -> int {
        self.index as int
    }

    /// There is such a parameter, or all are done.
    pub open spec fn wf(self) -> bool {
        0 <= self.position() <= TEE_NUM_PARAMS
    }

    /// `after` is `self` with one parameter done and the message changed to
    /// `message`.
    pub open spec fn advanced(self, message: OpteeMsgArgs, after: Self) -> bool {
        &&& after.message() == message
        &&& after.returned() == self.returned()
        &&& after.position() == self.position() + 1
    }

    /// Brings the values of the next parameter into the message, or says what is to
    /// be read: `EBadAddr` if the type of the parameter is not known, `ENotAvail` if
    /// the message has no such parameter.
    pub fn step(&mut self) -> (r: Result<UpdateStep, OpteeSmcReturnCode>)
        requires
            old(self).wf(),
        ensures
            final(self).wf(),
            if old(self).position() >= TEE_NUM_PARAMS {
                r matches Ok(UpdateStep::Done) && *final(self) == *old(self)
            } else {
                let index = old(self).position();
                let message = old(self).message();
                match output_of(old(self).returned(), index) {
                    Output::Unknown => {
                        &&& r matches Err(e)
                        &&& e == OpteeSmcReturnCode::EBadAddr
                        &&& *final(self) == *old(self)
                    },
                    Output::Nothing => {
                        &&& r matches Ok(UpdateStep::Updated)
                        &&& old(self).advanced(message, *final(self))
                    },
                    Output::Values(a, b) => if index >= message.num_params {
                        &&& r matches Err(e)
                        &&& e == OpteeSmcReturnCode::ENotAvail
                        &&& *final(self) == *old(self)
                    } else {
                        &&& r matches Ok(UpdateStep::Updated)
                        &&& old(self).advanced(final(self).message(), *final(self))
                        &&& message.with_param(
                            index,
                            (OpteeMsgParam { attr: message.params[index].attr, a, b, c: 0 }),
                            final(self).message(),
                        )
                    },
                    Output::Memory(a, b) => {
                        &&& r matches Ok(UpdateStep::ReadTa { addr, len })
                        &&& addr == a
                        &&& len == b
                        &&& *final(self) == *old(self)
                    },
                }
            },
    {
        if self.index >= TEE_NUM_PARAMS {
            return Ok(UpdateStep::Done);
        }
        let index: usize = self.index;
        let param_type = match self.ta_params.get_type(index) {
            Ok(param_type) => param_type,
            Err(_) => {
                return Err(OpteeSmcReturnCode::EBadAddr);
            },
        };
        let a: u64 = self.ta_params.vals[2 * index];
        let b: u64 = self.ta_params.vals[2 * index + 1];
        match param_type {
            TeeParamType::ValueOutput | TeeParamType::ValueInout => {
                let value = OpteeMsgParamValue { a, b, c: 0 };
                match self.msg_args.set_param_value(index, value) {
                    Ok(()) => {},
                    Err(error) => {
                        return Err(error);
                    },
                }
                self.index = index + 1;
                Ok(UpdateStep::Updated)
            },
            TeeParamType::MemrefOutput | TeeParamType::MemrefInout => {
                Ok(UpdateStep::ReadTa { addr: a, len: b })
            },
            _ => {
                self.index = index + 1;
                Ok(UpdateStep::Updated)
            },
        }
    }

    /// Takes what was read of the memory of the TA for the next parameter, as many bytes
    /// as were asked for: `EBadAddr` if they could not be read, `ENotAvail` if the message has no such parameter. The
    /// message is given the length; the data is to be written where the parameter's
    /// output goes, if there is any data and a place for it.
    pub fn take_output(
        &mut self,
        data: Option<Vec<u8>>,
        ta_req_info: &TaRequestInfo<PAGE_SIZE>,
    ) -> (r: Result<UpdateStep, OpteeSmcReturnCode>)
        requires
            old(self).wf(),
            old(self).position() < TEE_NUM_PARAMS,
            output_of(old(self).returned(), old(self).position()) is Memory,
            data matches Some(bytes) ==> bytes@.len() == output_of(
                old(self).returned(),
                old(self).position(),
            )->Memory_1,
        ensures
            final(self).wf(),
            ({
                let index = old(self).position();
                let message = old(self).message();
                let size = output_of(old(self).returned(), index)->Memory_1;
                let out_shm = region_of(ta_req_info.out_shm_info[index]);
                match data {
                    None => {
                        &&& r matches Err(e)
                        &&& e == OpteeSmcReturnCode::EBadAddr
                        &&& *final(self) == *old(self)
                    },
                    Some(bytes) => if index >= message.num_params {
                        &&& r matches Err(e)
                        &&& e == OpteeSmcReturnCode::ENotAvail
                        &&& *final(self) == *old(self)
                    } else {
                        &&& old(self).advanced(final(self).message(), *final(self))
                        &&& message.with_param(
                            index,
                            (OpteeMsgParam { b: size, ..message.params[index] }),
                            final(self).message(),
                        )
                        &&& if bytes@.len() == 0 || out_shm is None {
                            r matches Ok(UpdateStep::Updated)
                        } else {
                            &&& r matches Ok(UpdateStep::WriteShm { shm, data: out })
                            &&& shm@ == out_shm->0
                            &&& out@ == bytes@
                        }
                    },
                }
            }),
    {
        let index: usize = self.index;
        let len: u64 = self.ta_params.vals[2 * index + 1];
        let slice = match data {
            Some(slice) => slice,
            None => {
                return Err(OpteeSmcReturnCode::EBadAddr);
            },
        };
        match self.msg_args.set_param_memref_size(index, len) {
            Ok(()) => {},
            Err(error) => {
                return Err(error);
            },
        }
        self.index = index + 1;
        if slice.len() == 0 {
            return Ok(UpdateStep::Updated);
        }
        match &ta_req_info.out_shm_info[index] {
            Some(out_shm_info) => Ok(
                UpdateStep::WriteShm { shm: out_shm_info.clone(), data: slice },
            ),
            None => Ok(UpdateStep::Updated),
        }
    }

    /// The message as it is so far.
    pub fn msg_args(&self) -> (r: OpteeMsgArgs)
        ensures
            r == self.message(),
    {
        self.msg_args
    }
}

/// The code that ends an answer when writing shared memory fails.
pub fn write_result(written: Result<(), PhysPointerError>) -> (r: Result<(), OpteeSmcReturnCode>)
    ensures
        match written {
            Ok(()) => r matches Ok(()),
            Err(error) => r matches Err(e) && e == return_code_of(error),
        },
{
    match written {
        Ok(()) => Ok(()),
        Err(error) => Err(OpteeSmcReturnCode::from(error)),
    }
}

/// Begins to answer a message with a result, the component it comes from and, where a
/// session was opened, its number. The outputs of the TA follow if there are any and
/// the request that they answer is known.
pub fn update_optee_msg_args(
    return_code: TeeResult,
    return_origin: TeeOrigin,
    session_id: Option<u32>,
    ta_params: Option<&UteeParams>,
    ta_req_info: Option<&TaRequestInfo<PAGE_SIZE>>,
    msg_args: &OpteeMsgArgs,
) -> (r: MsgArgsUpdate)
    ensures
        r.wf(),
        replied(*msg_args, return_code, return_origin, session_id, r.message()),
        if ta_params is Some && ta_req_info is Some {
            r.position() == 0 && ta_params == Some(&r.returned())
        } else {
            r.position() == TEE_NUM_PARAMS
        },
{
    let mut msg_args: OpteeMsgArgs = *msg_args;
    msg_args.ret = return_code;
    msg_args.ret_origin = return_origin;
    match session_id {
        Some(session_id) => {
            msg_args.session = session_id;
        },
        None => {},
    }
    match (ta_params, ta_req_info) {
        (Some(ta_params), Some(_)) => MsgArgsUpdate { msg_args, ta_params: *ta_params, index: 0 },
        _ => MsgArgsUpdate { msg_args, ta_params: UteeParams::new(), index: TEE_NUM_PARAMS },
    }
}

/// What the message becomes from parameter `index` on, when nothing fails: values are
/// taken over, references to memory are given the length of what the TA returned.
pub open spec fn answered_from(
    params: Seq<OpteeMsgParam>,
    ta_params: UteeParams,
    index: int,
) -> Seq<OpteeMsgParam>
    decreases TEE_NUM_PARAMS - index,
{
    if index >= TEE_NUM_PARAMS {
        params
    } else {
        answered_from(
            match output_of(ta_params, index) {
                Output::Values(a, b) => params.update(
                    index,
                    OpteeMsgParam { attr: params[index].attr, a, b, c: 0 },
                ),
                Output::Memory(_, b) => params.update(index, OpteeMsgParam { b, ..params[index] }),
                _ => params,
            },
            ta_params,
            index + 1,
        )
    }
}

/// Doing one parameter does not change what the message becomes.
pub proof fn law_updating_keeps_the_answer(
    before: MsgArgsUpdate,
    after: MsgArgsUpdate,
)
    requires
        before.wf(),
        before.position() < TEE_NUM_PARAMS,
        before.advanced(after.message(), after),
        match output_of(before.returned(), before.position()) {
            Output::Unknown => false,
            Output::Nothing => after.message() == before.message(),
            Output::Values(a, b) => before.message().with_param(
                before.position(),
                (OpteeMsgParam {
                    attr: before.message().params[before.position()].attr,
                    a,
                    b,
                    c: 0,
                }),
                after.message(),
            ),
            Output::Memory(_, b) => before.message().with_param(
                before.position(),
                (OpteeMsgParam { b, ..before.message().params[before.position()] }),
                after.message(),
            ),
        },
    ensures
        answered_from(before.message().params@, before.returned(), before.position())
            == answered_from(after.message().params@, after.returned(), after.position()),
{
    assert(before.message().params[before.position()]
        == before.message().params@[before.position()]);
}

/// Parameters of the message that no output belongs to stay as they were, and so do
/// the attributes of all of them.
pub proof fn law_answers_keep_attributes(
    params: Seq<OpteeMsgParam>,
    ta_params: UteeParams,
    index: int,
    i: int,
)
    requires
        params.len() == 6,
        0 <= index,
        0 <= i < 6,
    ensures
        answered_from(params, ta_params, index).len() == 6,
        answered_from(params, ta_params, index)[i].attr == params[i].attr,
        i < index || i >= TEE_NUM_PARAMS || output_of(ta_params, i) is Nothing
            ==> answered_from(params, ta_params, index)[i] == params[i],
    decreases TEE_NUM_PARAMS - index,
{
    if index < TEE_NUM_PARAMS {
        let next = match output_of(ta_params, index) {
            Output::Values(a, b) => params.update(
                index,
                OpteeMsgParam { attr: params[index].attr, a, b, c: 0 },
            ),
            Output::Memory(_, b) => params.update(index, OpteeMsgParam { b, ..params[index] }),
            _ => params,
        };
        law_answers_keep_attributes(next, ta_params, index + 1, i);
    }
}

/// What becomes of the next parameter is decided by its four type bits. Bits 6 and 7,
/// memory that goes out or both ways, always return the memory at the first word in the
/// length of the second. Bits 2 and 3, values that do, always return the two words, which
/// go into the message beside the attributes, with zero for the third word. Bits 0, 1 and
/// 5 return nothing, and all others are refused with `EBadAddr`.
pub proof fn law_outputs_by_their_bits(
    update: &mut MsgArgsUpdate,
    r: Result<UpdateStep, OpteeSmcReturnCode>,
    k: int,
)
    requires
        old(update).wf(),
        call_ensures(MsgArgsUpdate::step, (update,), r),
        0 <= k < 6,
    ensures
        final(update).returned() == old(update).returned(),
        old(update).position() >= 4 ==> (r matches Ok(UpdateStep::Done)) && *final(update) == *old(
            update,
        ),
        old(update).position() < 4 ==> {
            let i = old(update).position();
            let bits = (old(update).returned().types.bits >> ((4 * i) as u64)) & 0xf;
            let a = old(update).returned().vals[2 * i];
            let b = old(update).returned().vals[2 * i + 1];
            let msg = old(update).message();
            let after = final(update).message();
            let same_head = after.cmd == msg.cmd && after.func == msg.func && after.session
                == msg.session && after.cancel_id == msg.cancel_id && after.ret == msg.ret
                && after.ret_origin == msg.ret_origin && after.num_params == msg.num_params;
            &&& bits == 6 || bits == 7 ==> {
                &&& r matches Ok(UpdateStep::ReadTa { addr, len })
                &&& addr == a && len == b
                &&& *final(update) == *old(update)
            }
            &&& (bits == 2 || bits == 3) && i >= msg.num_params ==> {
                &&& r matches Err(e) && e == OpteeSmcReturnCode::ENotAvail
                &&& *final(update) == *old(update)
            }
            &&& (bits == 2 || bits == 3) && i < msg.num_params ==> {
                &&& r matches Ok(UpdateStep::Updated)
                &&& final(update).position() == i + 1
                &&& same_head
                &&& after.params[k].attr == msg.params[k].attr
                &&& k == i ==> after.params[k].a == a && after.params[k].b == b
                    && after.params[k].c == 0
                &&& k != i ==> after.params[k] == msg.params[k]
            }
            &&& bits == 0 || bits == 1 || bits == 5 ==> {
                &&& r matches Ok(UpdateStep::Updated)
                &&& final(update).position() == i + 1
                &&& after == msg
            }
            &&& bits == 4 || bits >= 8 ==> {
                &&& r matches Err(e) && e == OpteeSmcReturnCode::EBadAddr
                &&& *final(update) == *old(update)
            }
        },
{
    let i = old(update).position();
    let msg = old(update).message();
    let after = final(update).message();
    assert(after.params[k] == after.params@[k]);
    assert(msg.params[k] == msg.params@[k]);
    if 0 <= i < 4 {
        assert(msg.params[i] == msg.params@[i]);
        let bits = old(update).returned().types.bits;
        let shift = (4 * i) as u64;
        assert((bits >> shift) & 0xf < 16) by (bit_vector);
    }
}

/// Memory that the TA returned is written where the parameter's output goes, all of it,
/// if there is any and there is a place for it; the message is given its length and is
/// else unchanged. Memory that could not be read is refused with `EBadAddr`, a parameter
/// that the message does not have with `ENotAvail`.
pub proof fn law_returned_memory_is_written(
    update: &mut MsgArgsUpdate,
    data: Option<Vec<u8>>,
    info: TaRequestInfo<PAGE_SIZE>,
    r: Result<UpdateStep, OpteeSmcReturnCode>,
    k: int,
)
    requires
        old(update).wf(),
        old(update).position() < 4,
        (old(update).returned().types.bits >> ((4 * old(update).position()) as u64)) & 0xf == 6 || (
        old(update).returned().types.bits >> ((4 * old(update).position()) as u64)) & 0xf == 7,
        call_ensures(MsgArgsUpdate::take_output, (update, data, &info), r),
        0 <= k < 6,
    ensures
        final(update).returned() == old(update).returned(),
        ({
            let i = old(update).position();
            let msg = old(update).message();
            let after = final(update).message();
            if data is None {
                &&& r matches Err(e) && e == OpteeSmcReturnCode::EBadAddr
                &&& *final(update) == *old(update)
            } else if i >= msg.num_params {
                &&& r matches Err(e) && e == OpteeSmcReturnCode::ENotAvail
                &&& *final(update) == *old(update)
            } else {
                &&& final(update).position() == i + 1
                &&& after.num_params == msg.num_params && after.ret == msg.ret
                &&& after.ret_origin == msg.ret_origin && after.session == msg.session
                &&& after.cmd == msg.cmd && after.func == msg.func
                &&& after.cancel_id == msg.cancel_id
                &&& after.params[k].attr == msg.params[k].attr
                &&& after.params[k].a == msg.params[k].a
                &&& after.params[k].c == msg.params[k].c
                &&& after.params[k].b == if k == i {
                    old(update).returned().vals[2 * i + 1]
                } else {
                    msg.params[k].b
                }
                &&& if data->0@.len() > 0 && info.out_shm_info[i] is Some {
                    &&& r matches Ok(UpdateStep::WriteShm { shm, data: out })
                    &&& shm@ == info.out_shm_info[i]->0@
                    &&& out@ == data->0@
                } else {
                    r matches Ok(UpdateStep::Updated)
                }
            }
        }),
{
    let i = old(update).position();
    let msg = old(update).message();
    let after = final(update).message();
    assert(after.params[k] == after.params@[k]);
    assert(msg.params[k] == msg.params@[k]);
    assert(msg.params[i] == msg.params@[i]);
    assert(info.out_shm_info[i] is Some <==> region_of(info.out_shm_info[i]) is Some);
}

/// An answer carries the result, its origin and, where a session was opened, the session,
/// and is else the message. Outputs follow exactly where there are parameters and a
/// request, from the first parameter on.
pub proof fn law_answer_begins(
    ret: TeeResult,
    origin: TeeOrigin,
    session_id: Option<u32>,
    ta_params: Option<&UteeParams>,
    info: Option<&TaRequestInfo<PAGE_SIZE>>,
    msg_args: OpteeMsgArgs,
    r: MsgArgsUpdate,
    reply: OpteeMsgArgs,
)
    requires
        call_ensures(
            update_optee_msg_args,
            (ret, origin, session_id, ta_params, info, &msg_args),
            r,
        ),
        call_ensures(MsgArgsUpdate::msg_args, (&r,), reply),
    ensures
        reply == r.message(),
        reply.ret == ret && reply.ret_origin == origin,
        session_id matches Some(session) ==> reply.session == session,
        session_id is None ==> reply.session == msg_args.session,
        reply.cmd == msg_args.cmd && reply.func == msg_args.func,
        reply.cancel_id == msg_args.cancel_id,
        reply.num_params == msg_args.num_params && reply.params == msg_args.params,
        ta_params is None || info is None ==> r.position() == 4,
        ta_params is Some && info is Some ==> r.position() == 0 && r.returned() == *(ta_params->0),
{
}

/// A write to shared memory that fails ends an answer: with `EBusy` where the memory is
/// mapped already, `ENomem` without information on its mapping, else `EBadAddr`.
pub proof fn law_failed_write(written: Result<(), PhysPointerError>, r: Result<(), OpteeSmcReturnCode>)
    requires
        call_ensures(write_result, (written,), r),
    ensures
        written is Ok ==> r is Ok,
        written matches Err(PhysPointerError::AlreadyMapped(_)) ==> r == Err::<
            (),
            OpteeSmcReturnCode,
        >(OpteeSmcReturnCode::EBusy),
        written matches Err(PhysPointerError::NoMappingInfo) ==> r == Err::<
            (),
            OpteeSmcReturnCode,
        >(OpteeSmcReturnCode::ENomem),
        written matches Err(e) && !(e is AlreadyMapped) && !(e is NoMappingInfo) ==> r == Err::<
            (),
            OpteeSmcReturnCode,
        >(OpteeSmcReturnCode::EBadAddr),
{
}

} // verus!
