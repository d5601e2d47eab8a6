//! The parameters of TA invocations, and the structures that TAs exchange with
//! the system.

use vstd::prelude::*;

use crate::codes::{Errno, TeeAttributeType, TeeLogin, TeeObjectType, TeeParamType};
use crate::uuid::TeeUuid;

verus! {

/// How many parameters a TA is given.
pub const TEE_NUM_PARAMS: usize = 4;

/// The types of the four parameters, four bits each, the first lowest.
#[derive(Clone, Copy, PartialEq, Eq, Debug, Structural)]
pub struct UteeParamsTypes {
    pub bits: u64,
}

/// The four bits of `bits` at place `index`.
pub open spec fn nibble(bits: u64, index: u64) -> u64 {
    (bits >> (4 * index) as u64) & 0xf
}

/// `bits` with the four bits at place `index` replaced.
pub open spec fn with_nibble(bits: u64, index: u64, value: u64) -> u64 {
    (bits & !(0xfu64 << (4 * index) as u64)) | (value << (4 * index) as u64)
}

/// Replacing four bits changes those alone.
proof fn lemma_with_nibble(bits: u64, index: u64, value: u64, other: u64)
    requires
        index < 16,
        other < 16,
        value < 16,
    ensures
        nibble(with_nibble(bits, index, value), other) == (if other == index {
            value
        } else {
            nibble(bits, other)
        }),
{
    let i: u64 = (4 * index) as u64;
    let j: u64 = (4 * other) as u64;
    assert((((bits & !(0xfu64 << i)) | (value << i)) >> j) & 0xf == (if i == j {
        value
    } else {
        (bits >> j) & 0xf
    })) by (bit_vector)
        requires
            i < 64,
            j < 64,
            i % 4 == 0,
            j % 4 == 0,
            value < 16,
    ;
}

/// Up to four parameters, each a type and two 64-bit words: values, or an address
/// and a length.
#[derive(Clone, Copy, PartialEq, Eq, Debug)]
pub struct UteeParams {
    pub types: UteeParamsTypes,
    pub vals: [u64; 8],
}

/// The type that four bits stand for, if they stand for one.
pub open spec fn param_type_of(bits: u64) -> Option<TeeParamType> {
    if bits == 0 {
        Some(TeeParamType::Empty)
    } else if bits == 1 {
        Some(TeeParamType::ValueInput)
    } else if bits == 2 {
        Some(TeeParamType::ValueOutput)
    } else if bits == 3 {
        Some(TeeParamType::ValueInout)
    } else if bits == 5 {
        Some(TeeParamType::MemrefInput)
    } else if bits == 6 {
        Some(TeeParamType::MemrefOutput)
    } else if bits == 7 {
        Some(TeeParamType::MemrefInout)
    } else {
        None
    }
}

impl UteeParams {
    /// How many parameters there are.
    pub const TEE_NUM_PARAMS: usize = 4;

    /// The type of the parameter at `index`, if there is such a parameter and its
    /// bits stand for a type.
    pub open spec fn type_at(self, index: int) -> Option<TeeParamType> {
        if 0 <= index < TEE_NUM_PARAMS {
            param_type_of(nibble(self.types.bits, index as u64))
        } else {
            None
        }
    }

    /// The two words of the parameter at `index`, or nothing where it is empty;
    /// `EINVAL` where it has no type.
    pub open spec fn values_at(self, index: int) -> Result<Option<(u64, u64)>, Errno> {
        match self.type_at(index) {
            None => Err(Errno::EINVAL),
            Some(TeeParamType::Empty) => Ok(None),
            Some(_) => Ok(Some((self.vals[2 * index], self.vals[2 * index + 1]))),
        }
    }

    /// The type of the parameter at `index`; `EINVAL` if there is no such
    /// parameter or its bits stand for no type.
    pub fn get_type(&self, index: usize) -> (r: Result<TeeParamType, Errno>)
        ensures
            r == match self.type_at(index as int) {
                Some(t) => Ok(t),
                None => Err::<TeeParamType, Errno>(Errno::EINVAL),
            },
    {
        if index >= TEE_NUM_PARAMS {
            return Err(Errno::EINVAL);
        }
        let shift: u64 = 4 * (index as u64);
        let bits: u64 = self.types.bits;
        let type_byte: u64 = (bits >> shift) & 0xf;
        assert((bits >> shift) & 0xf < 16) by (bit_vector);
        match TeeParamType::from_code(type_byte as u8) {
            Some(t) => Ok(t),
            None => {
                assert(TeeParamType::Empty.code() == 0 && TeeParamType::ValueInput.code() == 1
                    && TeeParamType::ValueOutput.code() == 2 && TeeParamType::ValueInout.code() == 3
                    && TeeParamType::MemrefInput.code() == 5 && TeeParamType::MemrefOutput.code()
                    == 6 && TeeParamType::MemrefInout.code() == 7);
                Err(Errno::EINVAL)
            },
        }
    }

    /// The two words of the parameter at `index`, or `None` if it is empty;
    /// `EINVAL` as for its type.
    pub fn get_values(&self, index: usize) -> (r: Result<Option<(u64, u64)>, Errno>)
        ensures
            r == self.values_at(index as int),
    {
        match self.get_type(index) {
            Ok(t) => {
                if t == TeeParamType::Empty {
                    Ok(None)
                } else {
                    let base_index: usize = index * 2;
                    Ok(Some((self.vals[base_index], self.vals[base_index + 1])))
                }
            },
            Err(e) => Err(e),
        }
    }

    /// Sets the type of the parameter at `index`; `EINVAL` if there is no such
    /// parameter. The types of the others stay as they are.
    pub fn set_type(&mut self, index: usize, param_type: TeeParamType) -> (r: Result<(), Errno>)
        ensures
            index >= TEE_NUM_PARAMS ==> r == Err::<(), Errno>(Errno::EINVAL) && *final(self)
                == *old(self),
            index < TEE_NUM_PARAMS ==> {
                &&& r == Ok::<(), Errno>(())
                &&& final(self).vals == old(self).vals
                &&& final(self).types.bits == with_nibble(
                    old(self).types.bits,
                    index as u64,
                    param_type.code() as u64,
                )
                &&& final(self).type_at(index as int) == Some(param_type)
                &&& forall|other: int|
                    other != index ==> #[trigger] final(self).type_at(other) == old(self).type_at(
                        other,
                    )
            },
    {
        if index >= TEE_NUM_PARAMS {
            return Err(Errno::EINVAL);
        }
        let shift: u64 = 4 * (index as u64);
        let bits: u64 = self.types.bits;
        let code: u64 = param_type.value() as u64;
        self.types = UteeParamsTypes { bits: (bits & !(0xfu64 << shift)) | (code << shift) };
        proof {
            lemma_with_nibble(bits, index as u64, code, index as u64);
            assert forall|other: int| other != index implies #[trigger] self.type_at(other) == old(
                self,
            ).type_at(other) by {
                if 0 <= other < TEE_NUM_PARAMS {
                    lemma_with_nibble(bits, index as u64, code, other as u64);
                }
            }
        }
        Ok(())
    }

    /// Sets the two words of the parameter at `index`; `EINVAL` if there is no such
    /// parameter.
    pub fn set_values(&mut self, index: usize, value_a: u64, value_b: u64) -> (r: Result<(), Errno>)
        ensures
            final(self).types == old(self).types,
            index >= TEE_NUM_PARAMS ==> r == Err::<(), Errno>(Errno::EINVAL) && *final(self)
                == *old(self),
            index < TEE_NUM_PARAMS ==> r == Ok::<(), Errno>(()) && final(self).vals@ == old(
                self,
            ).vals@.update(2 * index, value_a).update(2 * index + 1, value_b),
    {
        if index >= TEE_NUM_PARAMS {
            return Err(Errno::EINVAL);
        }
        let base_index: usize = index * 2;
        self.vals[base_index] = value_a;
        self.vals[base_index + 1] = value_b;
        Ok(())
    }

    /// Parameters that are all empty.
    pub fn new() -> (r: Self)
        ensures
            r.types.bits == 0,
            r.vals@ == Seq::new(8, |i: int| 0u64),
            forall|i: int| 0 <= i < TEE_NUM_PARAMS ==> #[trigger] r.type_at(i) == Some(
                TeeParamType::Empty,
            ),
    {
        let vals: [u64; 8] = [0, 0, 0, 0, 0, 0, 0, 0];
        assert(vals@ =~= Seq::new(8, |i: int| 0u64));
        let r = UteeParams { types: UteeParamsTypes { bits: 0 }, vals };
        assert forall|i: int| 0 <= i < TEE_NUM_PARAMS implies #[trigger] r.type_at(i) == Some(
            TeeParamType::Empty,
        ) by {
            let shift: u64 = (4 * (i as u64)) as u64;
            assert((0u64 >> shift) & 0xf == 0) by (bit_vector);
        }
        r
    }
}

impl Default for UteeParams {
    fn default() -> (r: Self)
        ensures
            r.types.bits == 0,
            r.vals@ == Seq::new(8, |i: int| 0u64),
    {
        UteeParams::new()
    }
}

/// Words that were set are read back, and those of the other parameters stay.
pub proof fn law_values_are_read_back(
    before: UteeParams,
    after: UteeParams,
    index: int,
    other: int,
    value_a: u64,
    value_b: u64,
)
    requires
        0 <= index < TEE_NUM_PARAMS,
        other != index,
        after.types == before.types,
        after.vals@ == before.vals@.update(2 * index, value_a).update(2 * index + 1, value_b),
        before.type_at(index) matches Some(t) && t != TeeParamType::Empty,
    ensures
        after.values_at(index) == Ok::<Option<(u64, u64)>, Errno>(Some((value_a, value_b))),
        after.values_at(other) == before.values_at(other),
{
    assert(after.vals[2 * index] == after.vals@[2 * index]);
    assert(after.vals[2 * index + 1] == after.vals@[2 * index + 1]);
    if 0 <= other < TEE_NUM_PARAMS {
        assert(after.vals[2 * other] == after.vals@[2 * other]);
        assert(after.vals[2 * other + 1] == after.vals@[2 * other + 1]);
        assert(before.vals[2 * other] == before.vals@[2 * other]);
        assert(before.vals[2 * other + 1] == before.vals@[2 * other + 1]);
    }
}

/// A parameter for TA invocation with its own copy of the data.
#[derive(Clone, Debug, PartialEq, Eq)]
pub enum UteeParamOwned {
    Empty,
    ValueInput { value_a: u64, value_b: u64 },
    ValueOutput,
    ValueInout { value_a: u64, value_b: u64 },
    MemrefInput { data: Vec<u8> },
    MemrefOutput { buffer_size: usize },
    MemrefInout { data: Vec<u8>, buffer_size: usize },
}

/// A parameter for TA invocation, the data as a sequence.
#[verifier::ext_equal]
pub enum OwnedParam {
    Empty,
    ValueInput { value_a: u64, value_b: u64 },
    ValueOutput,
    ValueInout { value_a: u64, value_b: u64 },
    MemrefInput { data: Seq<u8> },
    MemrefOutput { buffer_size: usize },
    MemrefInout { data: Seq<u8>, buffer_size: usize },
}

impl UteeParamOwned {
    /// How many parameters there are.
    pub const TEE_NUM_PARAMS: usize = 4;
}

impl View for UteeParamOwned {
    type V = OwnedParam;

    open spec fn view(&self) -> OwnedParam {
        match *self {
            UteeParamOwned::Empty => OwnedParam::Empty,
            UteeParamOwned::ValueInput { value_a, value_b } => OwnedParam::ValueInput {
                value_a,
                value_b,
            },
            UteeParamOwned::ValueOutput => OwnedParam::ValueOutput,
            UteeParamOwned::ValueInout { value_a, value_b } => OwnedParam::ValueInout {
                value_a,
                value_b,
            },
            UteeParamOwned::MemrefInput { data } => OwnedParam::MemrefInput { data: data@ },
            UteeParamOwned::MemrefOutput { buffer_size } => OwnedParam::MemrefOutput { buffer_size },
            UteeParamOwned::MemrefInout { data, buffer_size } => OwnedParam::MemrefInout {
                data: data@,
                buffer_size,
            },
        }
    }
}

/// An attribute of a cryptographic object.
#[derive(Clone, Copy, PartialEq, Eq, Debug, Structural)]
pub struct UteeAttribute {
    pub a: u64,
    pub b: u64,
    pub attribute_id: TeeAttributeType,
}

/// How a client logged in and who it is.
#[derive(Clone, Copy, PartialEq, Debug)]
pub struct TeeIdentity {
    pub login: TeeLogin,
    pub uuid: TeeUuid,
}

/// What the key of an object may be used for.
#[derive(Clone, Copy, PartialEq, Eq, Debug, Structural)]
pub struct TeeUsage {
    pub bits: u32,
}

impl TeeUsage {
    pub const TEE_USAGE_EXTRACTABLE: u32 = 0x0000_0001;

    pub const TEE_USAGE_ENCRYPT: u32 = 0x0000_0002;

    pub const TEE_USAGE_DECRYPT: u32 = 0x0000_0004;

    pub const TEE_USAGE_MAC: u32 = 0x0000_0008;

    pub const TEE_USAGE_SIGN: u32 = 0x0000_0010;

    pub const TEE_USAGE_VERIFY: u32 = 0x0000_0020;

    pub const TEE_USAGE_DERIVE: u32 = 0x0000_0040;

    /// Every use.
    pub const ALL: u32 = 0x0000_007f;
}

/// The state of an object.
#[derive(Clone, Copy, PartialEq, Eq, Debug, Structural)]
pub struct TeeHandleFlag {
    pub bits: u32,
}

impl TeeHandleFlag {
    pub const TEE_HANDLE_FLAG_PERSISTENT: u32 = 0x0001_0000;

    pub const TEE_HANDLE_FLAG_INITIALIZED: u32 = 0x0002_0000;

    pub const TEE_HANDLE_FLAG_KEY_SET: u32 = 0x0004_0000;

    pub const TEE_HANDLE_FLAG_EXPECT_TWO_KEYS: u32 = 0x0008_0000;
}

/// What is known of a cryptographic object.
#[derive(Clone, Copy, PartialEq, Eq, Debug, Structural)]
pub struct TeeObjectInfo {
    pub object_type: TeeObjectType,
    pub object_size: u32,
    pub max_object_size: u32,
    pub object_usage: TeeUsage,
    pub data_size: u32,
    pub data_position: u32,
    pub handle_flags: TeeHandleFlag,
}

/// The code of the type of an object of which nothing is known.
pub const UNKNOWN_OBJECT_TYPE: u32 = 0xffff_ffff;

impl TeeObjectInfo {
    /// An object without data that may be used for anything.
    pub open spec fn spec_new(object_type: TeeObjectType, max_object_size: u32) -> Self {
        TeeObjectInfo {
            object_type,
            object_size: 0,
            max_object_size,
            object_usage: TeeUsage { bits: TeeUsage::ALL },
            data_size: 0,
            data_position: 0,
            handle_flags: TeeHandleFlag { bits: 0 },
        }
    }

    /// An object without data that may be used for anything.
    pub fn new(object_type: TeeObjectType, max_object_size: u32) -> (r: Self)
        ensures
            r == TeeObjectInfo::spec_new(object_type, max_object_size),
    {
        TeeObjectInfo {
            object_type,
            object_size: 0,
            max_object_size,
            object_usage: TeeUsage { bits: TeeUsage::ALL },
            data_size: 0,
            data_position: 0,
            handle_flags: TeeHandleFlag { bits: 0 },
        }
    }
}

impl Default for TeeObjectInfo {
    fn default() -> (r: Self)
        ensures
            r == TeeObjectInfo::spec_new(TeeObjectType { code: UNKNOWN_OBJECT_TYPE }, 0),
    {
        TeeObjectInfo::new(TeeObjectType { code: UNKNOWN_OBJECT_TYPE }, 0)
    }
}

/// What the loader of TAs is given and what it returns.
#[derive(Clone, Copy, PartialEq, Eq, Debug)]
pub struct LdelfArg {
    pub uuid: TeeUuid,
    pub is_32bit: u32,
    pub flags: u32,
    pub entry_func: u64,
    pub stack_ptr: u64,
    pub dump_entry: u64,
    pub ftrace_entry: u64,
    pub dl_entry: u64,
    pub fbuf: u64,
}

impl LdelfArg {
    /// The argument for loading the TA `ta_uuid`; all else is zero.
    pub fn new(ta_uuid: TeeUuid) -> (r: Self)
        ensures
            r == (LdelfArg {
                uuid: ta_uuid,
                is_32bit: 0,
                flags: 0,
                entry_func: 0,
                stack_ptr: 0,
                dump_entry: 0,
                ftrace_entry: 0,
                dl_entry: 0,
                fbuf: 0,
            }),
    {
        LdelfArg {
            uuid: ta_uuid,
            is_32bit: 0,
            flags: 0,
            entry_func: 0,
            stack_ptr: 0,
            dump_entry: 0,
            ftrace_entry: 0,
            dl_entry: 0,
            fbuf: 0,
        }
    }
}

impl Default for LdelfArg {
    fn default() -> (r: Self)
        ensures
            r.uuid.is_nil(),
            r == (LdelfArg {
                uuid: r.uuid,
                is_32bit: 0,
                flags: 0,
                entry_func: 0,
                stack_ptr: 0,
                dump_entry: 0,
                ftrace_entry: 0,
                dl_entry: 0,
                fbuf: 0,
            }),
    {
        LdelfArg::new(TeeUuid::nil())
    }
}

/// The type of a parameter is decided by its own four bits, the first parameter's lowest,
/// and its words are those at twice its place. Bits that stand for no type, and parameters
/// beyond the fourth, are refused with `EINVAL`; an empty parameter has no words.
pub proof fn law_parameters_by_their_bits(
    params: UteeParams,
    index: usize,
    t: Result<TeeParamType, Errno>,
    v: Result<Option<(u64, u64)>, Errno>,
)
    requires
        call_ensures(UteeParams::get_type, (&params, index), t),
        call_ensures(UteeParams::get_values, (&params, index), v),
    ensures
        ({
            let bits = (params.types.bits >> ((4 * index) as u64)) & 0xf;
            &&& index >= 4 || bits == 4 || bits >= 8 ==> {
                &&& t == Err::<TeeParamType, Errno>(Errno::EINVAL)
                &&& v == Err::<Option<(u64, u64)>, Errno>(Errno::EINVAL)
            }
            &&& index < 4 && bits == 0 ==> {
                &&& t == Ok::<TeeParamType, Errno>(TeeParamType::Empty)
                &&& v == Ok::<Option<(u64, u64)>, Errno>(None)
            }
            &&& index < 4 && (1 <= bits <= 3 || 5 <= bits <= 7) ==> {
                &&& v == Ok::<Option<(u64, u64)>, Errno>(
                    Some((params.vals[2 * index], params.vals[2 * index + 1])),
                )
                &&& t == Ok::<TeeParamType, Errno>(
                    (if bits == 1 {
                        TeeParamType::ValueInput
                    } else if bits == 2 {
                        TeeParamType::ValueOutput
                    } else if bits == 3 {
                        TeeParamType::ValueInout
                    } else if bits == 5 {
                        TeeParamType::MemrefInput
                    } else if bits == 6 {
                        TeeParamType::MemrefOutput
                    } else {
                        TeeParamType::MemrefInout
                    }),
                )
            }
        }),
{
}

/// A type that is set is read back, with the words as they were, and no other parameter
/// changes.
pub proof fn law_type_is_read_back(
    params: &mut UteeParams,
    index: usize,
    t: TeeParamType,
    r: Result<(), Errno>,
    after: UteeParams,
    other: usize,
    read: Result<TeeParamType, Errno>,
    before: Result<TeeParamType, Errno>,
)
    requires
        call_ensures(UteeParams::set_type, (params, index, t), r),
        after == *final(params),
        call_ensures(UteeParams::get_type, (&after, other), read),
        call_ensures(UteeParams::get_type, (&*old(params), other), before),
    ensures
        r is Ok <==> index < 4,
        r matches Err(e) ==> e == Errno::EINVAL && after == *old(params),
        after.vals == old(params).vals,
        r is Ok && other == index ==> read == Ok::<TeeParamType, Errno>(t),
        other != index ==> read == before,
{
}

/// Words that are set are the words at twice the place of the parameter; nothing else
/// changes.
pub proof fn law_words_are_set(
    params: &mut UteeParams,
    index: usize,
    a: u64,
    b: u64,
    r: Result<(), Errno>,
    i: int,
)
    requires
        call_ensures(UteeParams::set_values, (params, index, a, b), r),
        0 <= i < 8,
    ensures
        r is Ok <==> index < 4,
        r matches Err(e) ==> e == Errno::EINVAL,
        final(params).types == old(params).types,
        final(params).vals[i] == if index < 4 && i == 2 * index {
            a
        } else if index < 4 && i == 2 * index + 1 {
            b
        } else {
            old(params).vals[i]
        },
{
    assert(final(params).vals[i] == final(params).vals@[i]);
    assert(old(params).vals[i] == old(params).vals@[i]);
}

/// Fresh parameters are empty and zero.
pub proof fn law_fresh_parameters(r: UteeParams, i: int)
    requires
        call_ensures(UteeParams::new, (), r),
        0 <= i < 8,
    ensures
        r.types.bits == 0,
        r.vals[i] == 0,
{
    assert(r.vals[i] == r.vals@[i]);
}

/// A fresh object has the type and the largest size that it was given, no data, no state,
/// and may be used for each of the seven uses.
pub proof fn law_fresh_object(object_type: TeeObjectType, max_object_size: u32, r: TeeObjectInfo)
    requires
        call_ensures(TeeObjectInfo::new, (object_type, max_object_size), r),
    ensures
        r.object_type == object_type,
        r.max_object_size == max_object_size,
        r.object_size == 0,
        r.data_size == 0,
        r.data_position == 0,
        r.handle_flags.bits == 0,
        r.object_usage.bits == TeeUsage::TEE_USAGE_EXTRACTABLE + TeeUsage::TEE_USAGE_ENCRYPT
            + TeeUsage::TEE_USAGE_DECRYPT + TeeUsage::TEE_USAGE_MAC + TeeUsage::TEE_USAGE_SIGN
            + TeeUsage::TEE_USAGE_VERIFY + TeeUsage::TEE_USAGE_DERIVE,
        r.object_usage.bits == 127,
{
}

/// The loader is told which TA to load and nothing else.
pub proof fn law_loader_argument(ta_uuid: TeeUuid, r: LdelfArg)
    requires
        call_ensures(LdelfArg::new, (ta_uuid,), r),
    ensures
        r.uuid == ta_uuid,
        r.is_32bit == 0 && r.flags == 0,
        r.entry_func == 0 && r.stack_ptr == 0 && r.dump_entry == 0,
        r.ftrace_entry == 0 && r.dl_entry == 0 && r.fbuf == 0,
{
}

/// What is left to its default is fresh: parameters without types or words, an object of
/// unknown type and no size, and a loader that is told nothing.
pub proof fn law_defaults(
    params: UteeParams,
    object: TeeObjectInfo,
    loader: LdelfArg,
    i: int,
)
    requires
        call_ensures(<UteeParams as Default>::default, (), params),
        call_ensures(<TeeObjectInfo as Default>::default, (), object),
        call_ensures(<LdelfArg as Default>::default, (), loader),
        0 <= i < 8,
    ensures
        params.types.bits == 0,
        params.vals@[i] == 0,
        object.object_type.code == 0xffff_ffff,
        object.max_object_size == 0,
        object.object_usage.bits == 127,
        object.object_size == 0 && object.data_size == 0 && object.data_position == 0,
        object.handle_flags.bits == 0,
        loader.uuid.time_low == 0 && loader.uuid.time_mid == 0,
        loader.uuid.time_hi_and_version == 0 && loader.uuid.clock_seq_and_node@[i] == 0,
        loader.is_32bit == 0 && loader.flags == 0,
        loader.entry_func == 0 && loader.stack_ptr == 0 && loader.dump_entry == 0,
        loader.ftrace_entry == 0 && loader.dl_entry == 0 && loader.fbuf == 0,
{
}

/// Each use and each state of an object has its own bit, and all uses together are those
/// of the seven.
pub proof fn law_object_bits()
    ensures
        TeeUsage::TEE_USAGE_EXTRACTABLE == 1,
        TeeUsage::TEE_USAGE_ENCRYPT == 2 * TeeUsage::TEE_USAGE_EXTRACTABLE,
        TeeUsage::TEE_USAGE_DECRYPT == 2 * TeeUsage::TEE_USAGE_ENCRYPT,
        TeeUsage::TEE_USAGE_MAC == 2 * TeeUsage::TEE_USAGE_DECRYPT,
        TeeUsage::TEE_USAGE_SIGN == 2 * TeeUsage::TEE_USAGE_MAC,
        TeeUsage::TEE_USAGE_VERIFY == 2 * TeeUsage::TEE_USAGE_SIGN,
        TeeUsage::TEE_USAGE_DERIVE == 2 * TeeUsage::TEE_USAGE_VERIFY,
        TeeUsage::ALL == 2 * TeeUsage::TEE_USAGE_DERIVE - 1,
        TeeHandleFlag::TEE_HANDLE_FLAG_PERSISTENT == 0x1_0000,
        TeeHandleFlag::TEE_HANDLE_FLAG_INITIALIZED == 2 * TeeHandleFlag::TEE_HANDLE_FLAG_PERSISTENT,
        TeeHandleFlag::TEE_HANDLE_FLAG_KEY_SET == 2 * TeeHandleFlag::TEE_HANDLE_FLAG_INITIALIZED,
        TeeHandleFlag::TEE_HANDLE_FLAG_EXPECT_TWO_KEYS == 2
            * TeeHandleFlag::TEE_HANDLE_FLAG_KEY_SET,
{
}

/// Setting a type sets the four bits at its place to the number of the type, and keeps all
/// other bits.
pub proof fn law_type_bits_are_set(
    params: &mut UteeParams,
    index: usize,
    t: TeeParamType,
    n: u8,
    r: Result<(), Errno>,
    k: u64,
)
    requires
        call_ensures(UteeParams::set_type, (params, index, t), r),
        call_ensures(TeeParamType::value, (t,), n),
        k < 16,
    ensures
        (final(params).types.bits >> ((4 * k) as u64)) & 0xf == if k == index && index < 4 {
            n as u64
        } else {
            (old(params).types.bits >> ((4 * k) as u64)) & 0xf
        },
{
    if index < 4 {
        lemma_with_nibble(old(params).types.bits, index as u64, n as u64, k);
    }
}

} // verus!
