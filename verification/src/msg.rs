//! OP-TEE messages: a command with its arguments and up to six parameters.

use vstd::prelude::*;

use crate::codes::{
    OpteeMessageCommand, OpteeMsgAttrType, OpteeSmcReturnCode, TeeOrigin, TeeResult,
};

verus! {

/// How many parameters a message has room for: the four that a TA can be given,
/// and two that describe the request.
pub const MSG_PARAMS: usize = 6;

/// Temporary memory reference parameter.
#[derive(Clone, Copy, Debug, PartialEq, Eq, Structural)]
pub struct OpteeMsgParamTmem {
    /// Physical address of the buffer.
    pub buf_ptr: u64,
    /// Size of the buffer.
    pub size: u64,
    /// Temporary shared memory reference or identifier.
    pub shm_ref: u64,
}

/// Registered memory reference parameter.
#[derive(Clone, Copy, Debug, PartialEq, Eq, Structural)]
pub struct OpteeMsgParamRmem {
    /// Offset into shared memory reference.
    pub offs: u64,
    /// Size of the buffer.
    pub size: u64,
    /// Shared memory reference or identifier.
    pub shm_ref: u64,
}

/// FF-A memory reference parameter.
#[derive(Clone, Copy, Debug, PartialEq, Eq, Structural)]
pub struct OpteeMsgParamFmem {
    /// Lower bits of offset into shared memory reference.
    pub offs_low: u32,
    /// Higher bits of offset into shared memory reference.
    pub offs_high: u16,
    /// Internal offset into the first page of shared memory reference.
    pub internal_offs: u16,
    /// Size of the buffer.
    pub size: u64,
    /// Global identifier of the shared memory.
    pub global_id: u64,
}

/// Opaque value parameter, passed unchecked between normal and secure world.
#[derive(Clone, Copy, Debug, PartialEq, Eq, Structural)]
pub struct OpteeMsgParamValue {
    pub a: u64,
    pub b: u64,
    pub c: u64,
}

/// The attributes of a parameter: its type in the low eight bits, then two flags.
#[derive(Clone, Copy, Debug, PartialEq, Eq, Structural)]
pub struct OpteeMsgAttr {
    pub bits: u64,
}

impl OpteeMsgAttr {
    /// The number of the parameter's type.
    pub open spec fn spec_typ(self) -> u8 {
        (self.bits % 0x100) as u8
    }

    /// The number of the parameter's type.
    pub fn typ(&self) -> (r: u8)
        ensures
            r == self.spec_typ(),
    {
        (self.bits % 0x100) as u8
    }

    /// Whether the parameter carries information about the request itself.
    pub fn meta(&self) -> (r: bool)
        ensures
            r == (self.bits / 0x100 % 2 == 1),
    {
        self.bits / 0x100 % 2 == 1
    }

    /// Whether the parameter's memory is a list of pages.
    pub fn noncontig(&self) -> (r: bool)
        ensures
            r == (self.bits / 0x200 % 2 == 1),
    {
        self.bits / 0x200 % 2 == 1
    }
}

/// A parameter: its attributes and three words whose meaning they decide.
#[derive(Clone, Copy, Debug, PartialEq, Eq, Structural)]
pub struct OpteeMsgParam {
    pub attr: OpteeMsgAttr,
    pub a: u64,
    pub b: u64,
    pub c: u64,
}

/// `typ` is the number of a temporary memory reference.
pub open spec fn is_tmem(typ: u8) -> bool {
    typ == 0x9 || typ == 0xa || typ == 0xb
}

/// `typ` is the number of a registered memory reference.
pub open spec fn is_rmem(typ: u8) -> bool {
    typ == 0x5 || typ == 0x6 || typ == 0x7
}

/// `typ` is the number of a value.
pub open spec fn is_value(typ: u8) -> bool {
    typ == 0x1 || typ == 0x2 || typ == 0x3
}

impl OpteeMsgParam {
    /// The words as a temporary memory reference.
    pub open spec fn as_tmem(self) -> OpteeMsgParamTmem {
        OpteeMsgParamTmem { buf_ptr: self.a, size: self.b, shm_ref: self.c }
    }

    /// The words as a registered memory reference.
    pub open spec fn as_rmem(self) -> OpteeMsgParamRmem {
        OpteeMsgParamRmem { offs: self.a, size: self.b, shm_ref: self.c }
    }

    /// The words as an FF-A memory reference.
    pub open spec fn as_fmem(self) -> OpteeMsgParamFmem {
        OpteeMsgParamFmem {
            offs_low: (self.a % 0x1_0000_0000) as u32,
            offs_high: (self.a / 0x1_0000_0000 % 0x1_0000) as u16,
            internal_offs: (self.a / 0x1_0000_0000_0000) as u16,
            size: self.b,
            global_id: self.c,
        }
    }

    /// The words as a value.
    pub open spec fn as_value(self) -> OpteeMsgParamValue {
        OpteeMsgParamValue { a: self.a, b: self.b, c: self.c }
    }

    /// The type of the parameter. A number that stands for no type is taken as
    /// that of an empty parameter.
    pub open spec fn spec_attr_type(self) -> OpteeMsgAttrType {
        if exists|t: OpteeMsgAttrType| #[trigger] t.code() == self.attr.spec_typ() {
            choose|t: OpteeMsgAttrType| #[trigger] t.code() == self.attr.spec_typ()
        } else {
            OpteeMsgAttrType::Empty
        }
    }

    /// The type of the parameter. A number that stands for no type is taken as
    /// that of an empty parameter.
    pub fn attr_type(&self) -> (r: OpteeMsgAttrType)
        ensures
            r == self.spec_attr_type(),
            r.code() == self.attr.spec_typ() || (r == OpteeMsgAttrType::Empty && forall|
                t: OpteeMsgAttrType,
            | #[trigger]
                t.code() != self.attr.spec_typ()),
    {
        match OpteeMsgAttrType::from_code(self.attr.typ()) {
            Some(t) => t,
            None => OpteeMsgAttrType::Empty,
        }
    }

    /// The temporary memory reference that the parameter is, if it is one.
    pub fn get_param_tmem(&self) -> (r: Option<OpteeMsgParamTmem>)
        ensures
            r == (if is_tmem(self.attr.spec_typ()) {
                Some(self.as_tmem())
            } else {
                None
            }),
    {
        let typ: u8 = self.attr.typ();
        if typ == 0x9 || typ == 0xa || typ == 0xb {
            Some(OpteeMsgParamTmem { buf_ptr: self.a, size: self.b, shm_ref: self.c })
        } else {
            None
        }
    }

    /// The registered memory reference that the parameter is, if it is one.
    pub fn get_param_rmem(&self) -> (r: Option<OpteeMsgParamRmem>)
        ensures
            r == (if is_rmem(self.attr.spec_typ()) {
                Some(self.as_rmem())
            } else {
                None
            }),
    {
        let typ: u8 = self.attr.typ();
        if typ == 0x5 || typ == 0x6 || typ == 0x7 {
            Some(OpteeMsgParamRmem { offs: self.a, size: self.b, shm_ref: self.c })
        } else {
            None
        }
    }

    /// The FF-A memory reference that the parameter is, if it is one. It shares
    /// its numbers with the registered memory references.
    pub fn get_param_fmem(&self) -> (r: Option<OpteeMsgParamFmem>)
        ensures
            r == (if is_rmem(self.attr.spec_typ()) {
                Some(self.as_fmem())
            } else {
                None
            }),
    {
        let typ: u8 = self.attr.typ();
        if typ == 0x5 || typ == 0x6 || typ == 0x7 {
            Some(
                OpteeMsgParamFmem {
                    offs_low: (self.a % 0x1_0000_0000) as u32,
                    offs_high: (self.a / 0x1_0000_0000 % 0x1_0000) as u16,
                    internal_offs: (self.a / 0x1_0000_0000_0000) as u16,
                    size: self.b,
                    global_id: self.c,
                },
            )
        } else {
            None
        }
    }

    /// The value that the parameter is, if it is one.
    pub fn get_param_value(&self) -> (r: Option<OpteeMsgParamValue>)
        ensures
            r == (if is_value(self.attr.spec_typ()) {
                Some(self.as_value())
            } else {
                None
            }),
    {
        let typ: u8 = self.attr.typ();
        if typ == 0x1 || typ == 0x2 || typ == 0x3 {
            Some(OpteeMsgParamValue { a: self.a, b: self.b, c: self.c })
        } else {
            None
        }
    }
}

/// The message that the driver of the normal world and the secure world exchange.
#[derive(Clone, Copy, Debug, PartialEq, Eq)]
pub struct OpteeMsgArgs {
    /// The command.
    pub cmd: OpteeMessageCommand,
    /// TA function ID which is used if `cmd` is `InvokeCommand`.
    pub func: u32,
    /// Session ID, set by the secure world where `cmd` is `OpenSession`.
    pub session: u32,
    /// Cancellation ID.
    pub cancel_id: u32,
    /// Return value from the secure world.
    pub ret: TeeResult,
    /// Origin of the return value.
    pub ret_origin: TeeOrigin,
    /// Number of parameters contained in `params`.
    pub num_params: u32,
    /// The parameters. Where `cmd` is `OpenSession`, the first two name the TA and
    /// the client and are not delivered to the TA.
    pub params: [OpteeMsgParam; 6],
}

/// What reading parameter `index` out of `num_params` gives, where `found` is what
/// the parameter holds.
pub open spec fn param_result<T>(index: usize, num_params: u32, found: Option<T>) -> Result<
    T,
    OpteeSmcReturnCode,
> {
    if index >= num_params {
        Err(OpteeSmcReturnCode::ENotAvail)
    } else {
        match found {
            Some(param) => Ok(param),
            None => Err(OpteeSmcReturnCode::EBadCmd),
        }
    }
}

impl OpteeMsgArgs {
    /// The number of parameters fits the command and the room for them.
    pub open spec fn valid(self) -> bool {
        &&& self.cmd == OpteeMessageCommand::OpenSession ==> self.num_params >= 2
        &&& self.num_params <= MSG_PARAMS
    }

    /// Checks the number of parameters.
    pub fn validate(&self) -> (r: Result<(), OpteeSmcReturnCode>)
        ensures
            self.valid() ==> r == Ok::<(), OpteeSmcReturnCode>(()),
            !self.valid() ==> r == Err::<(), OpteeSmcReturnCode>(OpteeSmcReturnCode::EBadCmd),
    {
        if self.cmd == OpteeMessageCommand::OpenSession && self.num_params < 2 {
            return Err(OpteeSmcReturnCode::EBadCmd);
        }
        if self.num_params > 6 {
            Err(OpteeSmcReturnCode::EBadCmd)
        } else {
            Ok(())
        }
    }

    /// The temporary memory reference at `index`: `ENotAvail` if there is no such
    /// parameter, `EBadCmd` if it is something else.
    pub fn get_param_tmem(&self, index: usize) -> (r: Result<OpteeMsgParamTmem, OpteeSmcReturnCode>)
        requires
            index < self.num_params ==> index < MSG_PARAMS,
        ensures
            r == param_result(
                index,
                self.num_params,
                (if is_tmem(self.params[index as int].attr.spec_typ()) {
                    Some(self.params[index as int].as_tmem())
                } else {
                    None
                }),
            ),
    {
        if index >= self.num_params as usize {
            Err(OpteeSmcReturnCode::ENotAvail)
        } else {
            match self.params[index].get_param_tmem() {
                Some(tmem) => Ok(tmem),
                None => Err(OpteeSmcReturnCode::EBadCmd),
            }
        }
    }

    /// The registered memory reference at `index`: `ENotAvail` if there is no such
    /// parameter, `EBadCmd` if it is something else.
    pub fn get_param_rmem(&self, index: usize) -> (r: Result<OpteeMsgParamRmem, OpteeSmcReturnCode>)
        requires
            index < self.num_params ==> index < MSG_PARAMS,
        ensures
            r == param_result(
                index,
                self.num_params,
                (if is_rmem(self.params[index as int].attr.spec_typ()) {
                    Some(self.params[index as int].as_rmem())
                } else {
                    None
                }),
            ),
    {
        if index >= self.num_params as usize {
            Err(OpteeSmcReturnCode::ENotAvail)
        } else {
            match self.params[index].get_param_rmem() {
                Some(rmem) => Ok(rmem),
                None => Err(OpteeSmcReturnCode::EBadCmd),
            }
        }
    }

    /// The FF-A memory reference at `index`: `ENotAvail` if there is no such
    /// parameter, `EBadCmd` if it is something else.
    pub fn get_param_fmem(&self, index: usize) -> (r: Result<OpteeMsgParamFmem, OpteeSmcReturnCode>)
        requires
            index < self.num_params ==> index < MSG_PARAMS,
        ensures
            r == param_result(
                index,
                self.num_params,
                (if is_rmem(self.params[index as int].attr.spec_typ()) {
                    Some(self.params[index as int].as_fmem())
                } else {
                    None
                }),
            ),
    {
        if index >= self.num_params as usize {
            Err(OpteeSmcReturnCode::ENotAvail)
        } else {
            match self.params[index].get_param_fmem() {
                Some(fmem) => Ok(fmem),
                None => Err(OpteeSmcReturnCode::EBadCmd),
            }
        }
    }

    /// The value at `index`: `ENotAvail` if there is no such parameter, `EBadCmd`
    /// if it is something else.
    pub fn get_param_value(&self, index: usize) -> (r: Result<
        OpteeMsgParamValue,
        OpteeSmcReturnCode,
    >)
        requires
            index < self.num_params ==> index < MSG_PARAMS,
        ensures
            r == self.spec_param_value(index),
    {
        if index >= self.num_params as usize {
            Err(OpteeSmcReturnCode::ENotAvail)
        } else {
            match self.params[index].get_param_value() {
                Some(value) => Ok(value),
                None => Err(OpteeSmcReturnCode::EBadCmd),
            }
        }
    }

    /// What reading the value at `index` gives.
    pub open spec fn spec_param_value(self, index: usize) -> Result<
        OpteeMsgParamValue,
        OpteeSmcReturnCode,
    > {
        param_result(
            index,
            self.num_params,
            (if is_value(self.params[index as int].attr.spec_typ()) {
                Some(self.params[index as int].as_value())
            } else {
                None
            }),
        )
    }

    /// `after` is `self` but for the parameter at `index`, which is `param`.
    pub open spec fn with_param(self, index: int, param: OpteeMsgParam, after: Self) -> bool {
        &&& after.params@ == self.params@.update(index, param)
        &&& after.cmd == self.cmd
        &&& after.func == self.func
        &&& after.session == self.session
        &&& after.cancel_id == self.cancel_id
        &&& after.ret == self.ret
        &&& after.ret_origin == self.ret_origin
        &&& after.num_params == self.num_params
    }

    /// Sets the words of the parameter at `index`; `ENotAvail` if there is no such
    /// parameter.
    pub fn set_param_value(&mut self, index: usize, value: OpteeMsgParamValue) -> (r: Result<
        (),
        OpteeSmcReturnCode,
    >)
        requires
            index < old(self).num_params ==> index < MSG_PARAMS,
        ensures
            index >= old(self).num_params ==> r == Err::<(), OpteeSmcReturnCode>(
                OpteeSmcReturnCode::ENotAvail,
            ) && *final(self) == *old(self),
            index < old(self).num_params ==> r == Ok::<(), OpteeSmcReturnCode>(()) && old(
                self,
            ).with_param(
                index as int,
                (OpteeMsgParam {
                    attr: old(self).params[index as int].attr,
                    a: value.a,
                    b: value.b,
                    c: value.c,
                }),
                *final(self),
            ),
    {
        if index >= self.num_params as usize {
            Err(OpteeSmcReturnCode::ENotAvail)
        } else {
            let attr = self.params[index].attr;
            self.params[index] = OpteeMsgParam { attr, a: value.a, b: value.b, c: value.c };
            Ok(())
        }
    }

    /// Sets the size of the memory reference at `index`; `ENotAvail` if there is no
    /// such parameter. The size is at the same place in all memory references.
    pub fn set_param_memref_size(&mut self, index: usize, size: u64) -> (r: Result<
        (),
        OpteeSmcReturnCode,
    >)
        requires
            index < old(self).num_params ==> index < MSG_PARAMS,
        ensures
            index >= old(self).num_params ==> r == Err::<(), OpteeSmcReturnCode>(
                OpteeSmcReturnCode::ENotAvail,
            ) && *final(self) == *old(self),
            index < old(self).num_params ==> r == Ok::<(), OpteeSmcReturnCode>(()) && old(
                self,
            ).with_param(
                index as int,
                (OpteeMsgParam { b: size, ..old(self).params[index as int] }),
                *final(self),
            ),
    {
        if index >= self.num_params as usize {
            Err(OpteeSmcReturnCode::ENotAvail)
        } else {
            let param = self.params[index];
            self.params[index] = OpteeMsgParam { attr: param.attr, a: param.a, b: size, c: param.c };
            Ok(())
        }
    }
}

/// A value that was set is read back, and no other parameter changes.
pub proof fn law_value_is_read_back(
    before: OpteeMsgArgs,
    after: OpteeMsgArgs,
    index: usize,
    value: OpteeMsgParamValue,
)
    requires
        index < before.num_params,
        index < MSG_PARAMS,
        is_value(before.params[index as int].attr.spec_typ()),
        before.with_param(
            index as int,
            (OpteeMsgParam {
                attr: before.params[index as int].attr,
                a: value.a,
                b: value.b,
                c: value.c,
            }),
            after,
        ),
    ensures
        after.spec_param_value(index) == Ok::<OpteeMsgParamValue, OpteeSmcReturnCode>(value),
        forall|i: int|
            0 <= i < MSG_PARAMS && i != index ==> #[trigger] after.params[i] == before.params[i],
{
    assert(after.params[index as int] == after.params@[index as int]);
    assert forall|i: int| 0 <= i < MSG_PARAMS && i != index implies #[trigger] after.params[i]
        == before.params[i] by {
        assert(after.params@[i] == before.params@[i]);
    }
}

/// A size that was set is that of the memory reference, temporary or registered,
/// which is otherwise the same.
pub proof fn law_memref_size_is_shared(before: OpteeMsgParam, size: u64)
    ensures
        (OpteeMsgParam { b: size, ..before }).as_tmem() == (OpteeMsgParamTmem {
            size,
            ..before.as_tmem()
        }),
        (OpteeMsgParam { b: size, ..before }).as_rmem() == (OpteeMsgParamRmem {
            size,
            ..before.as_rmem()
        }),
        (OpteeMsgParam { b: size, ..before }).as_fmem() == (OpteeMsgParamFmem {
            size,
            ..before.as_fmem()
        }),
{
}

/// Of the attributes the low eight bits are the type, the next one says that the
/// parameter is about the request, and the one after that its memory is a list of pages.
pub proof fn law_attribute_bits(attr: OpteeMsgAttr, typ: u8, meta: bool, noncontig: bool)
    requires
        call_ensures(OpteeMsgAttr::typ, (&attr,), typ),
        call_ensures(OpteeMsgAttr::meta, (&attr,), meta),
        call_ensures(OpteeMsgAttr::noncontig, (&attr,), noncontig),
    ensures
        typ == attr.bits & 0xff,
        meta <==> attr.bits & 0x100 != 0,
        noncontig <==> attr.bits & 0x200 != 0,
{
    let bits = attr.bits;
    assert(bits & 0xff == bits % 0x100 && (bits & 0x100 != 0 <==> bits / 0x100 % 2 == 1) && (bits
        & 0x200 != 0 <==> bits / 0x200 % 2 == 1)) by (bit_vector);
}

/// A parameter of type 9 to 11 is a temporary memory reference, one of type 5 to 7 a
/// registered one and, read otherwise, one of FF-A, one of type 1 to 3 a value; and
/// nothing else is. Their parts are the three words in order; FF-A cuts the first word
/// into a low half, a quarter and a quarter.
pub proof fn law_parameter_kinds(
    param: OpteeMsgParam,
    tmem: Option<OpteeMsgParamTmem>,
    rmem: Option<OpteeMsgParamRmem>,
    fmem: Option<OpteeMsgParamFmem>,
    value: Option<OpteeMsgParamValue>,
)
    requires
        call_ensures(OpteeMsgParam::get_param_tmem, (&param,), tmem),
        call_ensures(OpteeMsgParam::get_param_rmem, (&param,), rmem),
        call_ensures(OpteeMsgParam::get_param_fmem, (&param,), fmem),
        call_ensures(OpteeMsgParam::get_param_value, (&param,), value),
    ensures
        ({
            let typ = param.attr.bits % 0x100;
            &&& tmem is Some <==> 9 <= typ <= 11
            &&& rmem is Some <==> 5 <= typ <= 7
            &&& fmem is Some <==> 5 <= typ <= 7
            &&& value is Some <==> 1 <= typ <= 3
        }),
        tmem matches Some(m) ==> m.buf_ptr == param.a && m.size == param.b && m.shm_ref == param.c,
        rmem matches Some(m) ==> m.offs == param.a && m.size == param.b && m.shm_ref == param.c,
        fmem matches Some(m) ==> m.offs_low + m.offs_high * 0x1_0000_0000 + m.internal_offs
            * 0x1_0000_0000_0000 == param.a && m.size == param.b && m.global_id == param.c,
        value matches Some(v) ==> v.a == param.a && v.b == param.b && v.c == param.c,
{
}

/// The type of a parameter is the one with the number in the low eight bits of its
/// attributes, and that of an empty parameter where there is none.
pub proof fn law_parameter_type(
    param: OpteeMsgParam,
    code: u8,
    of_code: Option<OpteeMsgAttrType>,
    r: OpteeMsgAttrType,
)
    requires
        call_ensures(OpteeMsgParam::attr_type, (&param,), r),
        call_ensures(OpteeMsgAttrType::from_code, (code,), of_code),
        code == param.attr.bits % 0x100,
    ensures
        r == match of_code {
            Some(t) => t,
            None => OpteeMsgAttrType::Empty,
        },
{
    if let Some(t) = of_code {
        assert(t.code() == param.attr.spec_typ());
    }
}

/// A message is valid with up to six parameters, and with at least two where it opens a
/// session; else it is a bad command.
pub proof fn law_valid_messages(args: OpteeMsgArgs, r: Result<(), OpteeSmcReturnCode>)
    requires
        call_ensures(OpteeMsgArgs::validate, (&args,), r),
    ensures
        args.num_params > 6 ==> r is Err,
        args.cmd is OpenSession && args.num_params < 2 ==> r is Err,
        args.num_params <= 6 && (args.cmd is OpenSession ==> args.num_params >= 2) ==> r is Ok,
        r matches Err(e) ==> e == OpteeSmcReturnCode::EBadCmd,
{
}

/// The temporary memory reference at an index of a message is the one that the parameter there
/// is. A parameter of another kind is a bad command, one behind the last not available.
pub proof fn law_tmem_of_a_message(
    args: OpteeMsgArgs,
    index: usize,
    one: Option<OpteeMsgParamTmem>,
    r: Result<OpteeMsgParamTmem, OpteeSmcReturnCode>,
)
    requires
        index < 6 ==> call_ensures(OpteeMsgParam::get_param_tmem, (&args.params@[index as int],), one),
        index < args.num_params ==> index < 6,
        call_ensures(OpteeMsgArgs::get_param_tmem, (&args, index), r),
    ensures
        index >= args.num_params ==> r == Err::<OpteeMsgParamTmem, OpteeSmcReturnCode>(
            OpteeSmcReturnCode::ENotAvail,
        ),
        index < args.num_params ==> r == match one {
            Some(param) => Ok(param),
            None => Err::<OpteeMsgParamTmem, OpteeSmcReturnCode>(OpteeSmcReturnCode::EBadCmd),
        },
{
    if index < 6 {
        assert(args.params[index as int] == args.params@[index as int]);
    }
}

/// The registered memory reference at an index of a message is the one that the parameter there
/// is. A parameter of another kind is a bad command, one behind the last not available.
pub proof fn law_rmem_of_a_message(
    args: OpteeMsgArgs,
    index: usize,
    one: Option<OpteeMsgParamRmem>,
    r: Result<OpteeMsgParamRmem, OpteeSmcReturnCode>,
)
    requires
        index < 6 ==> call_ensures(OpteeMsgParam::get_param_rmem, (&args.params@[index as int],), one),
        index < args.num_params ==> index < 6,
        call_ensures(OpteeMsgArgs::get_param_rmem, (&args, index), r),
    ensures
        index >= args.num_params ==> r == Err::<OpteeMsgParamRmem, OpteeSmcReturnCode>(
            OpteeSmcReturnCode::ENotAvail,
        ),
        index < args.num_params ==> r == match one {
            Some(param) => Ok(param),
            None => Err::<OpteeMsgParamRmem, OpteeSmcReturnCode>(OpteeSmcReturnCode::EBadCmd),
        },
{
    if index < 6 {
        assert(args.params[index as int] == args.params@[index as int]);
    }
}

/// The FF-A memory reference at an index of a message is the one that the parameter there
/// is. A parameter of another kind is a bad command, one behind the last not available.
pub proof fn law_fmem_of_a_message(
    args: OpteeMsgArgs,
    index: usize,
    one: Option<OpteeMsgParamFmem>,
    r: Result<OpteeMsgParamFmem, OpteeSmcReturnCode>,
)
    requires
        index < 6 ==> call_ensures(OpteeMsgParam::get_param_fmem, (&args.params@[index as int],), one),
        index < args.num_params ==> index < 6,
        call_ensures(OpteeMsgArgs::get_param_fmem, (&args, index), r),
    ensures
        index >= args.num_params ==> r == Err::<OpteeMsgParamFmem, OpteeSmcReturnCode>(
            OpteeSmcReturnCode::ENotAvail,
        ),
        index < args.num_params ==> r == match one {
            Some(param) => Ok(param),
            None => Err::<OpteeMsgParamFmem, OpteeSmcReturnCode>(OpteeSmcReturnCode::EBadCmd),
        },
{
    if index < 6 {
        assert(args.params[index as int] == args.params@[index as int]);
    }
}

/// The value at an index of a message is the one that the parameter there
/// is. A parameter of another kind is a bad command, one behind the last not available.
pub proof fn law_value_of_a_message(
    args: OpteeMsgArgs,
    index: usize,
    one: Option<OpteeMsgParamValue>,
    r: Result<OpteeMsgParamValue, OpteeSmcReturnCode>,
)
    requires
        index < 6 ==> call_ensures(OpteeMsgParam::get_param_value, (&args.params@[index as int],), one),
        index < args.num_params ==> index < 6,
        call_ensures(OpteeMsgArgs::get_param_value, (&args, index), r),
    ensures
        index >= args.num_params ==> r == Err::<OpteeMsgParamValue, OpteeSmcReturnCode>(
            OpteeSmcReturnCode::ENotAvail,
        ),
        index < args.num_params ==> r == match one {
            Some(param) => Ok(param),
            None => Err::<OpteeMsgParamValue, OpteeSmcReturnCode>(OpteeSmcReturnCode::EBadCmd),
        },
{
    if index < 6 {
        assert(args.params[index as int] == args.params@[index as int]);
    }
}

/// Setting the words of a parameter sets the three of them, and setting the size of a
/// memory reference its second word only. Attributes, other parameters and the rest of the
/// message stay; without such a parameter nothing changes.
pub proof fn law_parameters_are_set(
    args: &mut OpteeMsgArgs,
    sized: &mut OpteeMsgArgs,
    index: usize,
    value: OpteeMsgParamValue,
    size: u64,
    r: Result<(), OpteeSmcReturnCode>,
    s: Result<(), OpteeSmcReturnCode>,
    i: int,
)
    requires
        old(args).num_params == old(sized).num_params,
        index < old(args).num_params ==> index < 6,
        call_ensures(OpteeMsgArgs::set_param_value, (args, index, value), r),
        call_ensures(OpteeMsgArgs::set_param_memref_size, (sized, index, size), s),
        0 <= i < 6,
    ensures
        index >= old(args).num_params ==> {
            &&& r matches Err(e) && e == OpteeSmcReturnCode::ENotAvail
            &&& s matches Err(e) && e == OpteeSmcReturnCode::ENotAvail
            &&& *final(args) == *old(args)
            &&& *final(sized) == *old(sized)
        },
        index < old(args).num_params ==> {
            &&& r is Ok
            &&& s is Ok
            &&& final(args).params@[i].attr == old(args).params@[i].attr
            &&& final(sized).params@[i].attr == old(sized).params@[i].attr
            &&& final(sized).params@[i].a == old(sized).params@[i].a
            &&& final(sized).params@[i].c == old(sized).params@[i].c
            &&& i == index ==> {
                &&& final(args).params@[i].a == value.a
                &&& final(args).params@[i].b == value.b
                &&& final(args).params@[i].c == value.c
                &&& final(sized).params@[i].b == size
            }
            &&& i != index ==> {
                &&& final(args).params@[i] == old(args).params@[i]
                &&& final(sized).params@[i] == old(sized).params@[i]
            }
        },
        final(args).cmd == old(args).cmd && final(sized).cmd == old(sized).cmd,
        final(args).func == old(args).func && final(sized).func == old(sized).func,
        final(args).session == old(args).session && final(sized).session == old(sized).session,
        final(args).cancel_id == old(args).cancel_id && final(sized).cancel_id == old(
            sized,
        ).cancel_id,
        final(args).ret == old(args).ret && final(sized).ret == old(sized).ret,
        final(args).ret_origin == old(args).ret_origin && final(sized).ret_origin == old(
            sized,
        ).ret_origin,
        final(args).num_params == old(args).num_params && final(sized).num_params == old(
            sized,
        ).num_params,
{
    if index < 6 {
        assert(old(args).params[index as int] == old(args).params@[index as int]);
        assert(old(sized).params[index as int] == old(sized).params@[index as int]);
    }
}

} // verus!
