//! Requests to TAs: decoding them from messages, one parameter at a time.
//!
//! Parameters that refer to shared memory are copied out of it, so that the normal
//! world cannot change them while a TA works on them. The copying itself is left to
//! the caller: [`TaRequestDecoder`] says what to read and takes what was read.

use vstd::prelude::*;

use crate::addr::PAGE_SIZE;
use crate::bytes::le_bytes;
use crate::codes::{
    entry_func_of, login_of, OpteeMessageCommand, OpteeMsgAttrType, OpteeSmcReturnCode, TeeLogin,
    UteeEntryFunc,
};
use crate::msg::{is_tmem, OpteeMsgArgs, OpteeMsgParam, OpteeMsgParamRmem, OpteeMsgParamTmem};
use crate::params::{OwnedParam, TeeIdentity, UteeParamOwned, TEE_NUM_PARAMS};
use crate::phys::{return_code_of, PhysPointerError};
use crate::shm::{
    get_shm_info_from_optee_msg_param_tmem, rmem_region, shms_wf, tmem_buffer_fits, tmem_fits,
    tmem_region, ShmInfo, ShmRefMap, ShmRegion,
};
use crate::uuid::TeeUuid;

verus! {

/// What a parameter of a message becomes.
#[verifier::ext_equal]
pub enum Plan {
    /// This parameter, and where its output goes.
    Ready { param: OwnedParam, out_shm: Option<ShmRegion<4096>> },
    /// A parameter with a copy of `len` bytes of `shm`; its output goes there too
    /// if `inout` is set.
    Read { shm: ShmRegion<4096>, len: usize, inout: bool },
}

/// What a reference to memory becomes: `input` and `output` say which way data goes.
pub open spec fn memref_plan(
    region: Result<ShmRegion<4096>, OpteeSmcReturnCode>,
    size: u64,
    input: bool,
    output: bool,
) -> Result<Plan, OpteeSmcReturnCode> {
    match region {
        Err(error) => Err(error),
        Ok(shm) => if input {
            Ok(Plan::Read { shm, len: size as usize, inout: output })
        } else {
            Ok(
                Plan::Ready {
                    param: OwnedParam::MemrefOutput { buffer_size: size as usize },
                    out_shm: Some(shm),
                },
            )
        },
    }
}

/// The memory that a temporary memory reference names; `EBadAddr` if its buffer does
/// not fit in the physical address space.
pub open spec fn named_region(tmem: OpteeMsgParamTmem) -> Result<
    ShmRegion<4096>,
    OpteeSmcReturnCode,
> {
    if tmem_fits(tmem) {
        tmem_region(tmem)
    } else {
        Err(OpteeSmcReturnCode::EBadAddr)
    }
}

/// What a parameter of a message becomes.
pub open spec fn param_plan(param: OpteeMsgParam, shms: Map<u64, ShmRegion<4096>>) -> Result<
    Plan,
    OpteeSmcReturnCode,
> {
    let tmem = param.as_tmem();
    let rmem = param.as_rmem();
    match param.spec_attr_type() {
        OpteeMsgAttrType::Empty => Ok(Plan::Ready { param: OwnedParam::Empty, out_shm: None }),
        OpteeMsgAttrType::ValueInput => Ok(
            Plan::Ready {
                param: OwnedParam::ValueInput { value_a: param.a, value_b: param.b },
                out_shm: None,
            },
        ),
        OpteeMsgAttrType::ValueOutput => Ok(
            Plan::Ready { param: OwnedParam::ValueOutput, out_shm: None },
        ),
        OpteeMsgAttrType::ValueInout => Ok(
            Plan::Ready {
                param: OwnedParam::ValueInout { value_a: param.a, value_b: param.b },
                out_shm: None,
            },
        ),
        OpteeMsgAttrType::TmemInput => memref_plan(named_region(tmem), tmem.size, true, false),
        OpteeMsgAttrType::TmemOutput => memref_plan(named_region(tmem), tmem.size, false, true),
        OpteeMsgAttrType::TmemInout => memref_plan(named_region(tmem), tmem.size, true, true),
        OpteeMsgAttrType::RmemInput => memref_plan(rmem_region(shms, rmem), rmem.size, true, false),
        OpteeMsgAttrType::RmemOutput => memref_plan(
            rmem_region(shms, rmem),
            rmem.size,
            false,
            true,
        ),
        OpteeMsgAttrType::RmemInout => memref_plan(rmem_region(shms, rmem), rmem.size, true, true),
    }
}

/// What a parameter of a message becomes.
pub enum ParamPlan {
    /// This parameter, and where its output goes.
    Ready { param: UteeParamOwned, out_shm: Option<ShmInfo<PAGE_SIZE>> },
    /// A parameter with a copy of `len` bytes of `shm`; its output goes there too
    /// if `inout` is set.
    Read { shm: ShmInfo<PAGE_SIZE>, len: usize, inout: bool },
}

/// The memory behind an optional reference to shared memory.
pub open spec fn region_of(shm: Option<ShmInfo<4096>>) -> Option<ShmRegion<4096>> {
    match shm {
        Some(info) => Some(info@),
        None => None,
    }
}

impl View for ParamPlan {
    type V = Plan;

    open spec fn view(&self) -> Plan {
        match *self {
            ParamPlan::Ready { param, out_shm } => Plan::Ready {
                param: param@,
                out_shm: region_of(out_shm),
            },
            ParamPlan::Read { shm, len, inout } => Plan::Read { shm: shm@, len, inout },
        }
    }
}

fn plan_memref(
    region: Result<ShmInfo<PAGE_SIZE>, OpteeSmcReturnCode>,
    size: u64,
    input: bool,
    output: bool,
) -> (r: Result<ParamPlan, OpteeSmcReturnCode>)
    ensures
        match region {
            Ok(shm) => r matches Ok(plan) && memref_plan(Ok(shm@), size, input, output) == Ok::<
                Plan,
                OpteeSmcReturnCode,
            >(plan@),
            Err(error) => r matches Err(e) && e == error,
        },
{
    match region {
        Err(error) => Err(error),
        Ok(shm) => {
            if input {
                Ok(ParamPlan::Read { shm, len: size as usize, inout: output })
            } else {
                Ok(
                    ParamPlan::Ready {
                        param: UteeParamOwned::MemrefOutput { buffer_size: size as usize },
                        out_shm: Some(shm),
                    },
                )
            }
        },
    }
}

fn named_shm(tmem: OpteeMsgParamTmem) -> (r: Result<ShmInfo<PAGE_SIZE>, OpteeSmcReturnCode>)
    ensures
        match named_region(tmem) {
            Ok(region) => r matches Ok(info) && info@ == region,
            Err(error) => r matches Err(e) && e == error,
        },
{
    if tmem_buffer_fits(&tmem) {
        get_shm_info_from_optee_msg_param_tmem(tmem)
    } else {
        Err(OpteeSmcReturnCode::EBadAddr)
    }
}

/// Decides what a parameter of a message becomes: an error where it refers to memory
/// that cannot be referred to.
pub fn decode_param(param: &OpteeMsgParam, shms: &ShmRefMap) -> (r: Result<
    ParamPlan,
    OpteeSmcReturnCode,
>)
    requires
        shms_wf(shms@),
    ensures
        match param_plan(*param, shms@) {
            Ok(plan) => r matches Ok(p) && p@ == plan,
            Err(error) => r matches Err(e) && e == error,
        },
{
    let tmem = OpteeMsgParamTmem { buf_ptr: param.a, size: param.b, shm_ref: param.c };
    let rmem = OpteeMsgParamRmem { offs: param.a, size: param.b, shm_ref: param.c };
    match param.attr_type() {
        OpteeMsgAttrType::Empty => Ok(
            ParamPlan::Ready { param: UteeParamOwned::Empty, out_shm: None },
        ),
        OpteeMsgAttrType::ValueInput => Ok(
            ParamPlan::Ready {
                param: UteeParamOwned::ValueInput { value_a: param.a, value_b: param.b },
                out_shm: None,
            },
        ),
        OpteeMsgAttrType::ValueOutput => Ok(
            ParamPlan::Ready { param: UteeParamOwned::ValueOutput, out_shm: None },
        ),
        OpteeMsgAttrType::ValueInout => Ok(
            ParamPlan::Ready {
                param: UteeParamOwned::ValueInout { value_a: param.a, value_b: param.b },
                out_shm: None,
            },
        ),
        OpteeMsgAttrType::TmemInput => {
            plan_memref(named_shm(tmem), tmem.size, true, false)
        },
        OpteeMsgAttrType::TmemOutput => {
            plan_memref(named_shm(tmem), tmem.size, false, true)
        },
        OpteeMsgAttrType::TmemInout => {
            plan_memref(named_shm(tmem), tmem.size, true, true)
        },
        OpteeMsgAttrType::RmemInput => {
            plan_memref(shms.get_shm_info_from_optee_msg_param_rmem(rmem), rmem.size, true, false)
        },
        OpteeMsgAttrType::RmemOutput => {
            plan_memref(shms.get_shm_info_from_optee_msg_param_rmem(rmem), rmem.size, false, true)
        },
        OpteeMsgAttrType::RmemInout => {
            plan_memref(shms.get_shm_info_from_optee_msg_param_rmem(rmem), rmem.size, true, true)
        },
    }
}

/// A request to a TA, decoded from a message. Besides what the TA is given it holds
/// where in shared memory its output goes.
pub struct TaRequestInfo<const ALIGN: usize> {
    pub uuid: Option<TeeUuid>,
    pub client_identity: Option<TeeIdentity>,
    pub session: u32,
    pub entry_func: UteeEntryFunc,
    pub cmd_id: u32,
    pub params: [UteeParamOwned; 4],
    pub out_shm_info: [Option<ShmInfo<ALIGN>>; 4],
}

impl<const ALIGN: usize> TaRequestInfo<ALIGN> {
    /// The parameters.
    pub open spec fn owned_params(self) -> Seq<OwnedParam> {
        Seq::new(4, |i: int| self.params[i]@)
    }
}

/// Where the output of each parameter goes.
pub open spec fn out_regions(info: TaRequestInfo<4096>) -> Seq<Option<ShmRegion<4096>>> {
    Seq::new(4, |i: int| region_of(info.out_shm_info[i]))
}

/// How many parameters of the message describe the request and are not delivered.
pub open spec fn skipped(entry_func: UteeEntryFunc) -> int {
    if entry_func == UteeEntryFunc::OpenSession {
        2
    } else {
        0
    }
}

/// How many parameters of the message are delivered.
pub open spec fn delivered(msg_args: OpteeMsgArgs, entry_func: UteeEntryFunc) -> int {
    let n: int = if msg_args.num_params < 6 {
        msg_args.num_params as int
    } else {
        6
    };
    if n < skipped(entry_func) {
        0
    } else {
        n - skipped(entry_func)
    }
}

/// The error with which a request is refused before its parameters are looked at.
pub open spec fn header_error(msg_args: OpteeMsgArgs) -> Option<OpteeSmcReturnCode> {
    match entry_func_of(msg_args.cmd) {
        Err(error) => Some(error),
        Ok(entry_func) => if entry_func != UteeEntryFunc::OpenSession {
            None
        } else {
            match msg_args.spec_param_value(0) {
                Err(error) => Some(error),
                Ok(_) => match msg_args.spec_param_value(1) {
                    Err(error) => Some(error),
                    Ok(_) => None,
                },
            }
        },
    }
}

/// `info` names the function, the session and, where a session is opened, the TA and
/// the client that the message names. A login type that is not known counts as public.
pub open spec fn header_of(msg_args: OpteeMsgArgs, info: TaRequestInfo<4096>) -> bool {
    &&& entry_func_of(msg_args.cmd) == Ok::<UteeEntryFunc, OpteeSmcReturnCode>(info.entry_func)
    &&& info.session == msg_args.session
    &&& info.cmd_id == msg_args.func
    &&& if info.entry_func == UteeEntryFunc::OpenSession {
        let ta = msg_args.params[0];
        let client = msg_args.params[1];
        &&& info.uuid matches Some(uuid)
        &&& uuid.has_bytes(le_bytes(ta.a) + le_bytes(ta.b))
        &&& info.client_identity matches Some(identity)
        &&& identity.uuid.has_bytes(le_bytes(client.a) + le_bytes(client.b))
        &&& identity.login == match login_of(client.c as u32) {
            Some(login) => login,
            None => TeeLogin::Public,
        }
    } else {
        info.uuid is None && info.client_identity is None
    }
}

/// What the parameters from `pos` on become, after what those before became: `reads`
/// says what reading shared memory for each parameter gives. There is room for four. A
/// request that delivers more is refused with `EBadCmd`, unless the parameter for which
/// there is no room is refused itself, or is an input that cannot be read.
pub open spec fn decode_from(
    msg_args: OpteeMsgArgs,
    shms: Map<u64, ShmRegion<4096>>,
    entry_func: UteeEntryFunc,
    reads: spec_fn(int) -> Result<Seq<u8>, PhysPointerError>,
    pos: int,
    params: Seq<OwnedParam>,
    outs: Seq<Option<ShmRegion<4096>>>,
) -> Result<(Seq<OwnedParam>, Seq<Option<ShmRegion<4096>>>), OpteeSmcReturnCode>
    decreases delivered(msg_args, entry_func) - pos,
{
    if pos >= delivered(msg_args, entry_func) {
        Ok((params, outs))
    } else {
        match param_plan(msg_args.params[skipped(entry_func) + pos], shms) {
            Err(error) => Err(error),
            Ok(Plan::Ready { param, out_shm }) => if pos >= TEE_NUM_PARAMS {
                Err(OpteeSmcReturnCode::EBadCmd)
            } else {
                decode_from(
                    msg_args,
                    shms,
                    entry_func,
                    reads,
                    pos + 1,
                    params.update(pos, param),
                    outs.update(pos, out_shm),
                )
            },
            Ok(Plan::Read { shm, len, inout }) => if pos >= TEE_NUM_PARAMS && inout {
                Err(OpteeSmcReturnCode::EBadCmd)
            } else {
                match reads(pos) {
                    Err(error) => Err(return_code_of(error)),
                    Ok(data) => if pos >= TEE_NUM_PARAMS {
                        Err(OpteeSmcReturnCode::EBadCmd)
                    } else {
                        decode_from(
                            msg_args,
                            shms,
                            entry_func,
                            reads,
                            pos + 1,
                            params.update(pos, copied_param(data, len, inout)),
                            outs.update(pos, copied_out(shm, inout)),
                        )
                    },
                }
            },
        }
    }
}

/// The parameter with a copy of shared memory.
pub open spec fn copied_param(data: Seq<u8>, len: usize, inout: bool) -> OwnedParam {
    if inout {
        OwnedParam::MemrefInout { data, buffer_size: len }
    } else {
        OwnedParam::MemrefInput { data }
    }
}

/// Where the output of a parameter with a copy of shared memory goes.
pub open spec fn copied_out(shm: ShmRegion<4096>, inout: bool) -> Option<ShmRegion<4096>> {
    if inout {
        Some(shm)
    } else {
        None
    }
}

/// What is to be done next for a request.
pub enum DecodeStep {
    /// Go on: a parameter was decoded.
    Decoded,
    /// Read `len` bytes from the beginning of `shm` and hand them over.
    Read { shm: ShmInfo<PAGE_SIZE>, len: usize },
    /// All parameters are decoded.
    Done,
}

/// A request whose parameters are being decoded.
pub struct TaRequestDecoder {
    msg_args: OpteeMsgArgs,
    pos: usize,
    info: TaRequestInfo<PAGE_SIZE>,
}

impl TaRequestDecoder {
    /// The message.
    pub closed spec fn message(self) -> OpteeMsgArgs {
        self.msg_args
    }

    /// How many parameters are decoded.
    pub closed spec fn position(self) -> int {
        self.pos as int
    }

    /// What is decoded so far.
    pub closed spec fn decoded(self) -> TaRequestInfo<4096> {
        self.info
    }

    /// How many parameters are to be decoded.
    pub open spec fn count(self) -> int {
        delivered(self.message(), self.decoded().entry_func)
    }

    /// The parameter that is to be decoded next.
    pub open spec fn current(self) -> OpteeMsgParam {
        self.message().params[skipped(self.decoded().entry_func) + self.position()]
    }

    /// The decoder has gone through a part of the message that it began with.
    pub open spec fn wf(self) -> bool {
        &&& header_of(self.message(), self.decoded())
        &&& 0 <= self.position() <= self.count()
        &&& self.position() <= TEE_NUM_PARAMS
    }

    /// What the request becomes, given what reading shared memory gives.
    pub open spec fn outcome(
        self,
        shms: Map<u64, ShmRegion<4096>>,
        reads: spec_fn(int) -> Result<Seq<u8>, PhysPointerError>,
    ) -> Result<(Seq<OwnedParam>, Seq<Option<ShmRegion<4096>>>), OpteeSmcReturnCode> {
        decode_from(
            self.message(),
            shms,
            self.decoded().entry_func,
            reads,
            self.position(),
            self.decoded().owned_params(),
            out_regions(self.decoded()),
        )
    }

    /// There is room for another parameter.
    pub open spec fn has_room(self) -> bool {
        self.position() < TEE_NUM_PARAMS
    }

    /// `other` is `self` with the next parameter decoded to `param` with its output
    /// going to `out_shm`.
    pub open spec fn stored(
        self,
        param: OwnedParam,
        out_shm: Option<ShmRegion<4096>>,
        other: Self,
    ) -> bool {
        let before = self.decoded();
        let after = other.decoded();
        &&& other.message() == self.message()
        &&& other.position() == self.position() + 1
        &&& after.uuid == before.uuid
        &&& after.client_identity == before.client_identity
        &&& after.session == before.session
        &&& after.entry_func == before.entry_func
        &&& after.cmd_id == before.cmd_id
        &&& after.owned_params() == before.owned_params().update(self.position(), param)
        &&& out_regions(after) == out_regions(before).update(self.position(), out_shm)
    }

    fn num_delivered(&self) -> (r: usize)
        ensures
            r == self.count(),
    {
        let n: u32 = if self.msg_args.num_params < 6 {
            self.msg_args.num_params
        } else {
            6
        };
        let skip: u32 = if self.info.entry_func == UteeEntryFunc::OpenSession {
            2
        } else {
            0
        };
        if n < skip {
            0
        } else {
            (n - skip) as usize
        }
    }

    fn current_param(&self) -> (r: &OpteeMsgParam)
        requires
            self.wf(),
            self.position() < self.count(),
        ensures
            *r == self.current(),
    {
        if self.info.entry_func == UteeEntryFunc::OpenSession {
            &self.msg_args.params[self.pos + 2]
        } else {
            &self.msg_args.params[self.pos]
        }
    }

    fn store(&mut self, param: UteeParamOwned, out_shm: Option<ShmInfo<PAGE_SIZE>>)
        requires
            old(self).wf(),
            old(self).has_room(),
            old(self).position() < old(self).count(),
        ensures
            final(self).wf(),
            old(self).stored(param@, region_of(out_shm), *final(self)),
    {
        let ghost before = *self;
        let i: usize = self.pos;
        self.info.params[i] = param;
        self.info.out_shm_info[i] = out_shm;
        self.pos = i + 1;
        assert(self.decoded().owned_params() =~= before.decoded().owned_params().update(
            i as int,
            param@,
        ));
        assert(out_regions(self.decoded()) =~= out_regions(before.decoded()).update(
            i as int,
            region_of(out_shm),
        ));
    }

    /// Decodes the next parameter as far as that goes without reading shared memory:
    /// `EBadCmd` if there is no room for it.
    pub fn step(&mut self, shms: &ShmRefMap) -> (r: Result<DecodeStep, OpteeSmcReturnCode>)
        requires
            old(self).wf(),
            shms_wf(shms@),
        ensures
            if old(self).position() >= old(self).count() {
                r matches Ok(DecodeStep::Done) && *final(self) == *old(self)
            } else {
                match param_plan(old(self).current(), shms@) {
                    Err(error) => r matches Err(e) && e == error && *final(self) == *old(self),
                    Ok(Plan::Ready { param, out_shm }) => if old(self).has_room() {
                        &&& r matches Ok(DecodeStep::Decoded)
                        &&& final(self).wf()
                        &&& old(self).stored(param, out_shm, *final(self))
                    } else {
                        &&& r matches Err(e)
                        &&& e == OpteeSmcReturnCode::EBadCmd
                        &&& *final(self) == *old(self)
                    },
                    Ok(Plan::Read { shm, len, inout }) => if old(self).has_room() || !inout {
                        &&& r matches Ok(DecodeStep::Read { shm: s, len: l })
                        &&& s@ == shm
                        &&& l == len
                        &&& *final(self) == *old(self)
                    } else {
                        &&& r matches Err(e)
                        &&& e == OpteeSmcReturnCode::EBadCmd
                        &&& *final(self) == *old(self)
                    },
                }
            },
    {
        if self.pos >= self.num_delivered() {
            return Ok(DecodeStep::Done);
        }
        match decode_param(self.current_param(), shms) {
            Err(error) => Err(error),
            Ok(ParamPlan::Ready { param, out_shm }) => {
                if self.pos >= TEE_NUM_PARAMS {
                    return Err(OpteeSmcReturnCode::EBadCmd);
                }
                self.store(param, out_shm);
                Ok(DecodeStep::Decoded)
            },
            Ok(ParamPlan::Read { shm, len, inout }) => {
                if self.pos >= TEE_NUM_PARAMS && inout {
                    return Err(OpteeSmcReturnCode::EBadCmd);
                }
                Ok(DecodeStep::Read { shm, len })
            },
        }
    }

    /// `read` is what reading for the next parameter can give: as many bytes as were
    /// asked for, or an error.
    pub open spec fn can_be_read(
        self,
        shms: Map<u64, ShmRegion<4096>>,
        read: Result<Vec<u8>, PhysPointerError>,
    ) -> bool {
        &&& self.position() < self.count()
        &&& param_plan(self.current(), shms) matches Ok(Plan::Read { len, inout, .. })
        &&& self.has_room() || !inout
        &&& read matches Ok(data) ==> data@.len() == len
    }

    /// Takes what was read of shared memory for the next parameter, or the error that
    /// came instead, which ends the request; `EBadCmd` if there is no room for the
    /// parameter.
    pub fn supply(&mut self, read: Result<Vec<u8>, PhysPointerError>, shms: &ShmRefMap) -> (r:
        Result<(), OpteeSmcReturnCode>)
        requires
            old(self).wf(),
            shms_wf(shms@),
            old(self).can_be_read(shms@, read),
        ensures
            match read {
                Err(error) => {
                    &&& r matches Err(e)
                    &&& e == return_code_of(error)
                    &&& *final(self) == *old(self)
                },
                Ok(data) => if old(self).has_room() {
                    &&& r matches Ok(())
                    &&& final(self).wf()
                    &&& param_plan(old(self).current(), shms@) matches Ok(
                        Plan::Read { shm, len, inout },
                    ) && old(self).stored(
                        copied_param(data@, len, inout),
                        copied_out(shm, inout),
                        *final(self),
                    )
                } else {
                    &&& r matches Err(e)
                    &&& e == OpteeSmcReturnCode::EBadCmd
                    &&& *final(self) == *old(self)
                },
            },
    {
        let data = match read {
            Ok(data) => data,
            Err(error) => {
                return Err(OpteeSmcReturnCode::from(error));
            },
        };
        if self.pos >= TEE_NUM_PARAMS {
            return Err(OpteeSmcReturnCode::EBadCmd);
        }
        match decode_param(self.current_param(), shms) {
            Ok(ParamPlan::Read { shm, len, inout }) => {
                if inout {
                    self.store(UteeParamOwned::MemrefInout { data, buffer_size: len }, Some(shm));
                } else {
                    self.store(UteeParamOwned::MemrefInput { data }, None);
                }
            },
            _ => {},
        }
        Ok(())
    }

    /// The request, once all its parameters are decoded.
    pub fn finish(self) -> (r: TaRequestInfo<PAGE_SIZE>)
        requires
            self.position() == self.count(),
        ensures
            r == self.decoded(),
    {
        self.info
    }
}

/// Begins to decode the request in a message. Commands that no TA handles are
/// refused with `EBadCmd`. Where a session is opened, the first two parameters
/// must be values; they name the TA and the client.
pub fn decode_ta_request(msg_args: &OpteeMsgArgs) -> (r: Result<TaRequestDecoder, OpteeSmcReturnCode>)
    ensures
        match header_error(*msg_args) {
            Some(error) => r matches Err(e) && e == error,
            None => {
                &&& r matches Ok(decoder)
                &&& decoder.wf()
                &&& decoder.message() == *msg_args
                &&& decoder.position() == 0
                &&& decoder.decoded().owned_params() == Seq::new(4, |i: int| OwnedParam::Empty)
                &&& out_regions(decoder.decoded()) == Seq::new(
                    4,
                    |i: int| None::<ShmRegion<4096>>,
                )
            },
        },
{
    let ta_entry_func: UteeEntryFunc = match UteeEntryFunc::try_from(msg_args.cmd) {
        Ok(ta_entry_func) => ta_entry_func,
        Err(error) => {
            return Err(error);
        },
    };
    let mut ta_uuid: Option<TeeUuid> = None;
    let mut client_identity: Option<TeeIdentity> = None;
    if ta_entry_func == UteeEntryFunc::OpenSession {
        let param0 = match msg_args.get_param_value(0) {
            Ok(param0) => param0,
            Err(error) => {
                return Err(error);
            },
        };
        let param1 = match msg_args.get_param_value(1) {
            Ok(param1) => param1,
            Err(error) => {
                return Err(error);
            },
        };
        let login = match TeeLogin::from_code(param1.c as u32) {
            Some(login) => login,
            None => TeeLogin::Public,
        };
        ta_uuid = Some(TeeUuid::from_u64_array([param0.a, param0.b]));
        client_identity = Some(
            TeeIdentity { login, uuid: TeeUuid::from_u64_array([param1.a, param1.b]) },
        );
    }
    let info: TaRequestInfo<PAGE_SIZE> = TaRequestInfo {
        uuid: ta_uuid,
        client_identity,
        session: msg_args.session,
        entry_func: ta_entry_func,
        cmd_id: msg_args.func,
        params: [
            UteeParamOwned::Empty,
            UteeParamOwned::Empty,
            UteeParamOwned::Empty,
            UteeParamOwned::Empty,
        ],
        out_shm_info: [None, None, None, None],
    };
    let decoder = TaRequestDecoder { msg_args: *msg_args, pos: 0, info };
    assert(decoder.decoded().owned_params() =~= Seq::new(4, |i: int| OwnedParam::Empty));
    assert(out_regions(decoder.decoded()) =~= Seq::new(4, |i: int| None::<ShmRegion<4096>>));
    Ok(decoder)
}

/// Decoding one parameter does not change what the request becomes: a parameter that
/// is ready is part of it as it is, one that has to be read is part of it with what
/// reading gives.
pub proof fn law_decoding_keeps_the_outcome(
    before: TaRequestDecoder,
    after: TaRequestDecoder,
    shms: Map<u64, ShmRegion<4096>>,
    reads: spec_fn(int) -> Result<Seq<u8>, PhysPointerError>,
)
    requires
        before.wf(),
        before.position() < before.count(),
        before.has_room(),
        match param_plan(before.current(), shms) {
            Err(_) => false,
            Ok(Plan::Ready { param, out_shm }) => before.stored(param, out_shm, after),
            Ok(Plan::Read { shm, len, inout }) => reads(before.position()) matches Ok(data)
                && before.stored(copied_param(data, len, inout), copied_out(shm, inout), after),
        },
    ensures
        before.outcome(shms, reads) == after.outcome(shms, reads),
{
}

/// The error with which a parameter is refused, or with which reading it fails, is
/// what the request becomes, whatever comes after it.
pub proof fn law_first_error_wins(
    decoder: TaRequestDecoder,
    shms: Map<u64, ShmRegion<4096>>,
    reads: spec_fn(int) -> Result<Seq<u8>, PhysPointerError>,
)
    requires
        decoder.wf(),
        decoder.position() < decoder.count(),
    ensures
        param_plan(decoder.current(), shms) matches Err(error) ==> decoder.outcome(shms, reads)
            == Err::<(Seq<OwnedParam>, Seq<Option<ShmRegion<4096>>>), OpteeSmcReturnCode>(error),
        (param_plan(decoder.current(), shms) matches Ok(Plan::Read { inout, .. }) && (
        decoder.has_room() || !inout)) ==> (reads(decoder.position()) matches Err(error)
            ==> decoder.outcome(shms, reads) == Err::<
            (Seq<OwnedParam>, Seq<Option<ShmRegion<4096>>>),
            OpteeSmcReturnCode,
        >(return_code_of(error))),
{
}

/// A parameter for which there is no room ends the request with `EBadCmd`, unless it is
/// refused itself or is an input that cannot be read.
pub proof fn law_no_room_is_refused(
    decoder: TaRequestDecoder,
    shms: Map<u64, ShmRegion<4096>>,
    reads: spec_fn(int) -> Result<Seq<u8>, PhysPointerError>,
)
    requires
        decoder.wf(),
        decoder.position() < decoder.count(),
        !decoder.has_room(),
        match param_plan(decoder.current(), shms) {
            Err(_) => false,
            Ok(Plan::Ready { .. }) => true,
            Ok(Plan::Read { inout, .. }) => inout || reads(decoder.position()) is Ok,
        },
    ensures
        decoder.outcome(shms, reads) == Err::<
            (Seq<OwnedParam>, Seq<Option<ShmRegion<4096>>>),
            OpteeSmcReturnCode,
        >(OpteeSmcReturnCode::EBadCmd),
{
}

/// What [`law_too_many_parameters_are_refused`] says, from any parameter on.
proof fn lemma_too_many_parameters(
    msg_args: OpteeMsgArgs,
    shms: Map<u64, ShmRegion<4096>>,
    entry_func: UteeEntryFunc,
    reads: spec_fn(int) -> Result<Seq<u8>, PhysPointerError>,
    pos: int,
    params: Seq<OwnedParam>,
    outs: Seq<Option<ShmRegion<4096>>>,
)
    requires
        0 <= pos <= TEE_NUM_PARAMS,
        delivered(msg_args, entry_func) > TEE_NUM_PARAMS,
    ensures
        decode_from(msg_args, shms, entry_func, reads, pos, params, outs) is Err,
    decreases TEE_NUM_PARAMS - pos,
{
    if pos < TEE_NUM_PARAMS {
        match param_plan(msg_args.params[skipped(entry_func) + pos], shms) {
            Err(_) => {},
            Ok(Plan::Ready { param, out_shm }) => {
                lemma_too_many_parameters(
                    msg_args,
                    shms,
                    entry_func,
                    reads,
                    pos + 1,
                    params.update(pos, param),
                    outs.update(pos, out_shm),
                );
            },
            Ok(Plan::Read { shm, len, inout }) => {
                if reads(pos) is Ok {
                    lemma_too_many_parameters(
                        msg_args,
                        shms,
                        entry_func,
                        reads,
                        pos + 1,
                        params.update(pos, copied_param(reads(pos)->Ok_0, len, inout)),
                        outs.update(pos, copied_out(shm, inout)),
                    );
                }
            },
        }
    }
}

/// A request that delivers more parameters than a TA can be given ends in an error,
/// whatever the parameters are and whatever reading gives.
pub proof fn law_too_many_parameters_are_refused(
    decoder: TaRequestDecoder,
    shms: Map<u64, ShmRegion<4096>>,
    reads: spec_fn(int) -> Result<Seq<u8>, PhysPointerError>,
)
    requires
        decoder.wf(),
        decoder.count() > TEE_NUM_PARAMS,
    ensures
        decoder.outcome(shms, reads) is Err,
{
    lemma_too_many_parameters(
        decoder.message(),
        shms,
        decoder.decoded().entry_func,
        reads,
        decoder.position(),
        decoder.decoded().owned_params(),
        out_regions(decoder.decoded()),
    );
}

/// Once all parameters are decoded, the request is what was decoded.
pub proof fn law_decoded_request_is_the_outcome(
    decoder: TaRequestDecoder,
    shms: Map<u64, ShmRegion<4096>>,
    reads: spec_fn(int) -> Result<Seq<u8>, PhysPointerError>,
)
    requires
        decoder.wf(),
        decoder.position() == decoder.count(),
    ensures
        decoder.outcome(shms, reads) == Ok::<
            (Seq<OwnedParam>, Seq<Option<ShmRegion<4096>>>),
            OpteeSmcReturnCode,
        >((decoder.decoded().owned_params(), out_regions(decoder.decoded()))),
{
}

/// A valid message that opens a session names the TA and the client in two parameters
/// that are there, and delivers no more than a TA can be given.
pub proof fn law_valid_open_session(msg_args: OpteeMsgArgs)
    requires
        msg_args.valid(),
        entry_func_of(msg_args.cmd) == Ok::<UteeEntryFunc, OpteeSmcReturnCode>(
            UteeEntryFunc::OpenSession,
        ),
    ensures
        header_error(msg_args) matches Some(error) ==> error == OpteeSmcReturnCode::EBadCmd,
        delivered(msg_args, UteeEntryFunc::OpenSession) == msg_args.num_params - 2,
        delivered(msg_args, UteeEntryFunc::OpenSession) <= TEE_NUM_PARAMS,
{
}

/// What a parameter of a message becomes is decided by the low eight bits of its
/// attributes. Values are taken over. Memory that goes in, temporary or registered, is
/// read in the size that the message gives, whatever the size; where it goes both ways,
/// its output goes there too. Memory that goes out is not read and has that size. The
/// memory is what the reference names, and a reference that is refused is refused with the
/// same code. All other bits stand for an empty parameter.
pub proof fn law_parameter_by_its_type(
    param: OpteeMsgParam,
    shms: ShmRefMap,
    r: Result<ParamPlan, OpteeSmcReturnCode>,
    fits: bool,
    temporary: Result<ShmInfo<PAGE_SIZE>, OpteeSmcReturnCode>,
    registered: Result<ShmInfo<PAGE_SIZE>, OpteeSmcReturnCode>,
)
    requires
        shms_wf(shms@),
        call_ensures(decode_param, (&param, &shms), r),
        call_ensures(
            tmem_buffer_fits,
            (&OpteeMsgParamTmem { buf_ptr: param.a, size: param.b, shm_ref: param.c },),
            fits,
        ),
        call_ensures(
            get_shm_info_from_optee_msg_param_tmem,
            (OpteeMsgParamTmem { buf_ptr: param.a, size: param.b, shm_ref: param.c },),
            temporary,
        ),
        call_ensures(
            ShmRefMap::get_shm_info_from_optee_msg_param_rmem,
            (&shms, OpteeMsgParamRmem { offs: param.a, size: param.b, shm_ref: param.c }),
            registered,
        ),
        param.b <= usize::MAX,
    ensures
        ({
            let typ = param.attr.bits % 0x100;
            let tmem = typ == 9 || typ == 10 || typ == 11;
            let rmem = typ == 5 || typ == 6 || typ == 7;
            let named = if tmem {
                temporary
            } else {
                registered
            };
            &&& typ == 1 ==> (r matches Ok(
                ParamPlan::Ready {
                    param: UteeParamOwned::ValueInput { value_a, value_b },
                    out_shm: None,
                },
            ) && value_a == param.a && value_b == param.b)
            &&& typ == 2 ==> (r matches Ok(
                ParamPlan::Ready { param: UteeParamOwned::ValueOutput, out_shm: None },
            ))
            &&& typ == 3 ==> (r matches Ok(
                ParamPlan::Ready {
                    param: UteeParamOwned::ValueInout { value_a, value_b },
                    out_shm: None,
                },
            ) && value_a == param.a && value_b == param.b)
            &&& !(1 <= typ <= 3) && !tmem && !rmem ==> (r matches Ok(
                ParamPlan::Ready { param: UteeParamOwned::Empty, out_shm: None },
            ))
            &&& tmem && !fits ==> (r matches Err(e) && e == OpteeSmcReturnCode::EBadAddr)
            &&& (rmem || (tmem && fits)) && named is Err ==> (r matches Err(e) && e
                == named->Err_0)
            &&& (rmem || (tmem && fits)) && named is Ok && (typ == 5 || typ == 9) ==> (
            r matches Ok(ParamPlan::Read { shm, len, inout }) && shm@ == named->Ok_0@ && len
                == param.b && !inout)
            &&& (rmem || (tmem && fits)) && named is Ok && (typ == 7 || typ == 11) ==> (
            r matches Ok(ParamPlan::Read { shm, len, inout }) && shm@ == named->Ok_0@ && len
                == param.b && inout)
            &&& (rmem || (tmem && fits)) && named is Ok && (typ == 6 || typ == 10) ==> (
            r matches Ok(
                ParamPlan::Ready {
                    param: UteeParamOwned::MemrefOutput { buffer_size },
                    out_shm: Some(shm),
                },
            ) && shm@ == named->Ok_0@ && buffer_size == param.b)
        }),
{
    let typ = param.attr.spec_typ();
    assert(OpteeMsgAttrType::Empty.code() == 0);
    assert(OpteeMsgAttrType::ValueInput.code() == 1);
    assert(OpteeMsgAttrType::ValueOutput.code() == 2);
    assert(OpteeMsgAttrType::ValueInout.code() == 3);
    assert(OpteeMsgAttrType::RmemInput.code() == 5);
    assert(OpteeMsgAttrType::RmemOutput.code() == 6);
    assert(OpteeMsgAttrType::RmemInout.code() == 7);
    assert(OpteeMsgAttrType::TmemInput.code() == 9);
    assert(OpteeMsgAttrType::TmemOutput.code() == 10);
    assert(OpteeMsgAttrType::TmemInout.code() == 11);
    if exists|t: OpteeMsgAttrType| #[trigger] t.code() == typ {
        assert(param.spec_attr_type().code() == typ);
    }
}

/// A request takes session and function from the message. Where it opens a session, the
/// first two parameters must be there and be values: the TA is what the two words of the
/// first name, the client what those of the second name, and the low half of the third
/// word of the second says how the client logged in, publicly if it is not known. Other
/// requests name neither, and commands that are no request are refused with `EBadCmd`.
pub proof fn law_request_header(
    msg_args: OpteeMsgArgs,
    r: Result<TaRequestDecoder, OpteeSmcReturnCode>,
    ta: TeeUuid,
    client: TeeUuid,
)
    requires
        call_ensures(decode_ta_request, (&msg_args,), r),
        call_ensures(
            TeeUuid::from_u64_array,
            ([msg_args.params[0].a, msg_args.params[0].b],),
            ta,
        ),
        call_ensures(
            TeeUuid::from_u64_array,
            ([msg_args.params[1].a, msg_args.params[1].b],),
            client,
        ),
    ensures
        ({
            let cmd = msg_args.cmd;
            let n = msg_args.num_params;
            let open = cmd == OpteeMessageCommand::OpenSession;
            let value0 = 1 <= msg_args.params[0].attr.bits % 0x100 <= 3;
            let value1 = 1 <= msg_args.params[1].attr.bits % 0x100 <= 3;
            &&& cmd != OpteeMessageCommand::OpenSession && cmd != OpteeMessageCommand::InvokeCommand
                && cmd != OpteeMessageCommand::CloseSession ==> (r matches Err(e) && e
                == OpteeSmcReturnCode::EBadCmd)
            &&& open && n == 0 ==> (r matches Err(e) && e == OpteeSmcReturnCode::ENotAvail)
            &&& open && n > 0 && !value0 ==> (r matches Err(e) && e == OpteeSmcReturnCode::EBadCmd)
            &&& open && n == 1 && value0 ==> (r matches Err(e) && e
                == OpteeSmcReturnCode::ENotAvail)
            &&& open && n > 1 && value0 && !value1 ==> (r matches Err(e) && e
                == OpteeSmcReturnCode::EBadCmd)
            &&& open && n > 1 && value0 && value1 ==> {
                &&& r matches Ok(d)
                &&& d.decoded().entry_func == UteeEntryFunc::OpenSession
                &&& d.decoded().uuid matches Some(uuid) && same_uuid(uuid, ta)
                &&& d.decoded().client_identity matches Some(identity) && {
                    let low = msg_args.params[1].c as int % 0x1_0000_0000;
                    &&& same_uuid(identity.uuid, client)
                    &&& identity.login == if low == 1 {
                        TeeLogin::User
                    } else if low == 2 {
                        TeeLogin::Group
                    } else if low == 4 {
                        TeeLogin::Application
                    } else if low == 5 {
                        TeeLogin::ApplicationUser
                    } else if low == 6 {
                        TeeLogin::ApplicationGroup
                    } else if low == 0xf000_0000 {
                        TeeLogin::TrustedApp
                    } else {
                        TeeLogin::Public
                    }
                }
            }
            &&& cmd == OpteeMessageCommand::InvokeCommand ==> (r matches Ok(d)
                && d.decoded().entry_func == UteeEntryFunc::InvokeCommand && d.decoded().uuid is None
                && d.decoded().client_identity is None)
            &&& cmd == OpteeMessageCommand::CloseSession ==> (r matches Ok(d)
                && d.decoded().entry_func == UteeEntryFunc::CloseSession && d.decoded().uuid is None
                && d.decoded().client_identity is None)
            &&& r matches Ok(d) ==> {
                &&& d.wf()
                &&& d.message() == msg_args
                &&& d.position() == 0
                &&& d.decoded().session == msg_args.session
                &&& d.decoded().cmd_id == msg_args.func
                &&& forall|i: int|
                    0 <= i < 4 ==> (#[trigger] d.decoded().params[i]) is Empty
                        && d.decoded().out_shm_info[i] is None
            }
        }),
{
    let c = msg_args.params[1].c;
    assert(c as u32 == c % 0x1_0000_0000) by (bit_vector);
    if let Ok(d) = r {
        assert forall|i: int| 0 <= i < 4 implies (#[trigger] d.decoded().params[i]) is Empty
            && d.decoded().out_shm_info[i] is None by {
            assert(d.decoded().owned_params()[i] == OwnedParam::Empty);
            assert(out_regions(d.decoded())[i] is None);
        }
    }
}

/// The two identifiers are the same in every field.
pub open spec fn same_uuid(a: TeeUuid, b: TeeUuid) -> bool {
    &&& a.time_low == b.time_low
    &&& a.time_mid == b.time_mid
    &&& a.time_hi_and_version == b.time_hi_and_version
    &&& a.clock_seq_and_node@ == b.clock_seq_and_node@
}

/// `after` is `before` with the parameter at `pos` as given, and all else as it was.
pub open spec fn only_parameter_changed(
    before: TaRequestInfo<4096>,
    after: TaRequestInfo<4096>,
    pos: int,
) -> bool {
    &&& after.uuid == before.uuid
    &&& after.client_identity == before.client_identity
    &&& after.session == before.session
    &&& after.entry_func == before.entry_func
    &&& after.cmd_id == before.cmd_id
    &&& forall|i: int|
        0 <= i < 4 && i != pos ==> (#[trigger] after.params[i])@ == before.params[i]@ && region_of(
            after.out_shm_info[i],
        ) == region_of(before.out_shm_info[i])
}

/// A step decodes the next parameter that is delivered: the first of the message, or the
/// third where a session is opened, then one after the other up to the last. It becomes
/// what it becomes by itself, at its own place. There are four places.
pub proof fn law_step_decodes_the_next_parameter(
    decoder: &mut TaRequestDecoder,
    shms: ShmRefMap,
    r: Result<DecodeStep, OpteeSmcReturnCode>,
    skip: int,
    plan: Result<ParamPlan, OpteeSmcReturnCode>,
)
    requires
        old(decoder).wf(),
        shms_wf(shms@),
        call_ensures(TaRequestDecoder::step, (decoder, &shms), r),
        skip == if old(decoder).decoded().entry_func == UteeEntryFunc::OpenSession {
            2int
        } else {
            0int
        },
        call_ensures(
            decode_param,
            (&old(decoder).message().params[old(decoder).position() + skip], &shms),
            plan,
        ),
    ensures
        ({
            let pos = old(decoder).position();
            let n = old(decoder).message().num_params as int;
            if pos + skip >= n || pos + skip >= 6 {
                (r matches Ok(DecodeStep::Done)) && *final(decoder) == *old(decoder)
            } else {
                match plan {
                    Err(error) => (r matches Err(e) && e == error) && *final(decoder) == *old(
                        decoder,
                    ),
                    Ok(ParamPlan::Ready { param, out_shm }) => if pos < 4 {
                        &&& r matches Ok(DecodeStep::Decoded)
                        &&& final(decoder).wf()
                        &&& final(decoder).message() == old(decoder).message()
                        &&& final(decoder).position() == pos + 1
                        &&& final(decoder).decoded().params[pos]@ == param@
                        &&& region_of(final(decoder).decoded().out_shm_info[pos]) == region_of(
                            out_shm,
                        )
                        &&& only_parameter_changed(
                            old(decoder).decoded(),
                            final(decoder).decoded(),
                            pos,
                        )
                    } else {
                        (r matches Err(e) && e == OpteeSmcReturnCode::EBadCmd) && *final(decoder)
                            == *old(decoder)
                    },
                    Ok(ParamPlan::Read { shm, len, inout }) => if pos < 4 || !inout {
                        &&& r matches Ok(DecodeStep::Read { shm: s, len: l })
                        &&& s@ == shm@
                        &&& l == len
                        &&& *final(decoder) == *old(decoder)
                    } else {
                        (r matches Err(e) && e == OpteeSmcReturnCode::EBadCmd) && *final(decoder)
                            == *old(decoder)
                    },
                }
            }
        }),
{
    let pos = old(decoder).position();
    let before = old(decoder).decoded();
    let after = final(decoder).decoded();
    assert(old(decoder).message().params[pos + skip] == old(decoder).current());
    if plan matches Ok(p) && p is Ready && pos < 4 && pos < old(decoder).count() {
        assert(after.owned_params()[pos] == after.params[pos]@);
        assert(out_regions(after)[pos] == region_of(after.out_shm_info[pos]));
        assert forall|i: int| 0 <= i < 4 && i != pos implies (#[trigger] after.params[i])@
            == before.params[i]@ && region_of(after.out_shm_info[i]) == region_of(
            before.out_shm_info[i],
        ) by {
            assert(after.owned_params()[i] == before.owned_params()[i]);
            assert(out_regions(after)[i] == out_regions(before)[i]);
        }
    }
}

/// Bytes that were read become the parameter's data, all of them; where it goes both ways
/// its buffer is as large as was asked for and its output goes back where it was read. An
/// error ends the request: with `EBusy` where the memory is mapped already, `ENomem`
/// without information on its mapping, else `EBadAddr`.
pub proof fn law_read_bytes_are_delivered(
    decoder: &mut TaRequestDecoder,
    read: Result<Vec<u8>, PhysPointerError>,
    shms: ShmRefMap,
    r: Result<(), OpteeSmcReturnCode>,
    skip: int,
    shm: ShmInfo<PAGE_SIZE>,
    len: usize,
    inout: bool,
)
    requires
        old(decoder).wf(),
        shms_wf(shms@),
        skip == if old(decoder).decoded().entry_func == UteeEntryFunc::OpenSession {
            2int
        } else {
            0int
        },
        call_ensures(
            decode_param,
            (&old(decoder).message().params[old(decoder).position() + skip], &shms),
            Ok::<ParamPlan, OpteeSmcReturnCode>(ParamPlan::Read { shm, len, inout }),
        ),
        call_ensures(TaRequestDecoder::supply, (decoder, read, &shms), r),
    ensures
        ({
            let pos = old(decoder).position();
            let after = final(decoder).decoded();
            match read {
                Err(error) => {
                    &&& *final(decoder) == *old(decoder)
                    &&& r == Err::<(), OpteeSmcReturnCode>(
                        (if error is AlreadyMapped {
                            OpteeSmcReturnCode::EBusy
                        } else if error is NoMappingInfo {
                            OpteeSmcReturnCode::ENomem
                        } else {
                            OpteeSmcReturnCode::EBadAddr
                        }),
                    )
                },
                Ok(bytes) => if pos < 4 {
                    &&& r is Ok
                    &&& final(decoder).wf()
                    &&& final(decoder).message() == old(decoder).message()
                    &&& final(decoder).position() == pos + 1
                    &&& only_parameter_changed(old(decoder).decoded(), after, pos)
                    &&& if inout {
                        &&& after.params[pos] matches UteeParamOwned::MemrefInout {
                            data,
                            buffer_size,
                        }
                        &&& data@ == bytes@
                        &&& buffer_size == len
                        &&& region_of(after.out_shm_info[pos]) == Some(shm@)
                    } else {
                        &&& after.params[pos] matches UteeParamOwned::MemrefInput { data }
                        &&& data@ == bytes@
                        &&& after.out_shm_info[pos] is None
                    }
                } else {
                    &&& r == Err::<(), OpteeSmcReturnCode>(OpteeSmcReturnCode::EBadCmd)
                    &&& *final(decoder) == *old(decoder)
                },
            }
        }),
{
    let pos = old(decoder).position();
    let before = old(decoder).decoded();
    let after = final(decoder).decoded();
    if pos < 4 && read is Ok {
        assert(after.owned_params()[pos] == after.params[pos]@);
        assert(out_regions(after)[pos] == region_of(after.out_shm_info[pos]));
        assert forall|i: int| 0 <= i < 4 && i != pos implies (#[trigger] after.params[i])@
            == before.params[i]@ && region_of(after.out_shm_info[i]) == region_of(
            before.out_shm_info[i],
        ) by {
            assert(after.owned_params()[i] == before.owned_params()[i]);
            assert(out_regions(after)[i] == out_regions(before)[i]);
        }
    }
}

/// A request that is finished is what was decoded.
pub proof fn law_finished_request(decoder: TaRequestDecoder, r: TaRequestInfo<PAGE_SIZE>)
    requires
        call_ensures(TaRequestDecoder::finish, (decoder,), r),
    ensures
        r == decoder.decoded(),
{
}

/// What [`law_every_parameter_is_delivered`] says, from any parameter on.
proof fn lemma_every_parameter(
    msg_args: OpteeMsgArgs,
    shms: Map<u64, ShmRegion<4096>>,
    entry_func: UteeEntryFunc,
    reads: spec_fn(int) -> Result<Seq<u8>, PhysPointerError>,
    pos: int,
    params: Seq<OwnedParam>,
    outs: Seq<Option<ShmRegion<4096>>>,
    i: int,
)
    requires
        0 <= pos,
        params.len() == 4,
        outs.len() == 4,
        0 <= i < 4,
    ensures
        decode_from(msg_args, shms, entry_func, reads, pos, params, outs) matches Ok(done) ==> {
            &&& done.0.len() == 4 && done.1.len() == 4
            &&& pos <= delivered(msg_args, entry_func) ==> delivered(msg_args, entry_func) <= 4
                || pos == delivered(msg_args, entry_func)
            &&& i < pos || i >= delivered(msg_args, entry_func) ==> done.0[i] == params[i]
                && done.1[i] == outs[i]
            &&& pos <= i < delivered(msg_args, entry_func) ==> match param_plan(
                msg_args.params[skipped(entry_func) + i],
                shms,
            ) {
                Err(_) => false,
                Ok(Plan::Ready { param, out_shm }) => done.0[i] == param && done.1[i] == out_shm,
                Ok(Plan::Read { shm, len, inout }) => reads(i) matches Ok(data) && if inout {
                    &&& done.0[i] == (OwnedParam::MemrefInout { data, buffer_size: len })
                    &&& done.1[i] == Some(shm)
                } else {
                    &&& done.0[i] == (OwnedParam::MemrefInput { data })
                    &&& done.1[i] is None
                },
            }
        },
    decreases delivered(msg_args, entry_func) - pos,
{
    if pos < delivered(msg_args, entry_func) && pos < 4 {
        match param_plan(msg_args.params[skipped(entry_func) + pos], shms) {
            Err(_) => {},
            Ok(Plan::Ready { param, out_shm }) => {
                lemma_every_parameter(
                    msg_args,
                    shms,
                    entry_func,
                    reads,
                    pos + 1,
                    params.update(pos, param),
                    outs.update(pos, out_shm),
                    i,
                );
            },
            Ok(Plan::Read { shm, len, inout }) => {
                if reads(pos) is Ok {
                    lemma_every_parameter(
                        msg_args,
                        shms,
                        entry_func,
                        reads,
                        pos + 1,
                        params.update(pos, copied_param(reads(pos)->Ok_0, len, inout)),
                        outs.update(pos, copied_out(shm, inout)),
                        i,
                    );
                }
            },
        }
    }
}

/// Where a request is decoded, every parameter that is delivered is at its place with what
/// it becomes by itself or with what reading gave for it, and the other places are empty.
pub proof fn law_every_parameter_is_delivered(
    msg_args: OpteeMsgArgs,
    decoder: TaRequestDecoder,
    shms: Map<u64, ShmRegion<4096>>,
    reads: spec_fn(int) -> Result<Seq<u8>, PhysPointerError>,
    i: int,
    skip: int,
)
    requires
        call_ensures(
            decode_ta_request,
            (&msg_args,),
            Ok::<TaRequestDecoder, OpteeSmcReturnCode>(decoder),
        ),
        decoder.outcome(shms, reads) is Ok,
        0 <= i < 4,
        skip == if msg_args.cmd == OpteeMessageCommand::OpenSession {
            2int
        } else {
            0int
        },
    ensures
        ({
            let done = decoder.outcome(shms, reads)->Ok_0;
            if i + skip < msg_args.num_params && i + skip < 6 {
                match param_plan(msg_args.params[i + skip], shms) {
                    Err(_) => false,
                    Ok(Plan::Ready { param, out_shm }) => done.0[i] == param && done.1[i]
                        == out_shm,
                    Ok(Plan::Read { shm, len, inout }) => reads(i) matches Ok(data) && if inout {
                        &&& done.0[i] == (OwnedParam::MemrefInout { data, buffer_size: len })
                        &&& done.1[i] == Some(shm)
                    } else {
                        &&& done.0[i] == (OwnedParam::MemrefInput { data })
                        &&& done.1[i] is None
                    },
                }
            } else {
                done.0[i] == OwnedParam::Empty && done.1[i] is None
            }
        }),
{
    lemma_every_parameter(
        msg_args,
        shms,
        decoder.decoded().entry_func,
        reads,
        0,
        decoder.decoded().owned_params(),
        out_regions(decoder.decoded()),
        i,
    );
}

} // verus!
