//! The numbers that the interfaces fix, as laws: which number stands for what, in both
//! directions, and what codes of one kind become as codes of another.

use vstd::prelude::*;

use crate::codes::{
    u32_arg, CommandId, Errno, LdelfMapFlags, OpteeMessageCommand, OpteeMsgAttrType,
    OpteeSecureWorldCapabilities, OpteeSmcFunction, OpteeSmcReturnCode, TaSessionId, TeeAlgorithm,
    TeeAlgorithmClass, TeeAttributeType, TeeCrypStateHandle, TeeLogin, TeeMemAttr,
    TeeMemoryAccessRights, TeeObjHandle, TeeObjectType, TeeOperationMode, TeeOrigin, TeeParamType,
    TeePropSet, TeeResult, UserTaPropType, UteeEntryFunc,
};

verus! {

/// The numbers of the types of parameters: each has its own, and a number that is none of them stands
/// for nothing.
pub proof fn law_tee_param_type_numbers(v: TeeParamType, n: u8, code: u8, r: Option<TeeParamType>,)
    requires
        call_ensures(TeeParamType::value, (v,), n),
        call_ensures(TeeParamType::from_code, (code,), r),
    ensures
        n == match v {
            TeeParamType::Empty => 0u8,
            TeeParamType::ValueInput => 1u8,
            TeeParamType::ValueOutput => 2u8,
            TeeParamType::ValueInout => 3u8,
            TeeParamType::MemrefInput => 5u8,
            TeeParamType::MemrefOutput => 6u8,
            TeeParamType::MemrefInout => 7u8,
        },
        r == if code == 0 {
            Some(TeeParamType::Empty)
        } else if code == 1 {
            Some(TeeParamType::ValueInput)
        } else if code == 2 {
            Some(TeeParamType::ValueOutput)
        } else if code == 3 {
            Some(TeeParamType::ValueInout)
        } else if code == 5 {
            Some(TeeParamType::MemrefInput)
        } else if code == 6 {
            Some(TeeParamType::MemrefOutput)
        } else if code == 7 {
            Some(TeeParamType::MemrefInout)
        } else {
            None
        },
{
    assert(TeeParamType::Empty.code() == 0);
    assert(TeeParamType::ValueInput.code() == 1);
    assert(TeeParamType::ValueOutput.code() == 2);
    assert(TeeParamType::ValueInout.code() == 3);
    assert(TeeParamType::MemrefInput.code() == 5);
    assert(TeeParamType::MemrefOutput.code() == 6);
    assert(TeeParamType::MemrefInout.code() == 7);
}

/// The numbers of the modes of cryptographic operations: each has its own, and a number that is none of them stands
/// for nothing.
pub proof fn law_tee_operation_mode_numbers(v: TeeOperationMode, n: u32, code: u32, r: Option<TeeOperationMode>,
    value: usize,
    t: Result<TeeOperationMode, Errno>,)
    requires
        call_ensures(TeeOperationMode::value, (v,), n),
        call_ensures(TeeOperationMode::from_code, (code,), r),
        call_ensures(TeeOperationMode::try_from_usize, (value,), t),
        value <= 0xffff_ffff ==> value == code,
    ensures
        n == match v {
            TeeOperationMode::Encrypt => 0u32,
            TeeOperationMode::Decrypt => 1u32,
            TeeOperationMode::Sign => 2u32,
            TeeOperationMode::Verify => 3u32,
            TeeOperationMode::Mac => 4u32,
            TeeOperationMode::Digest => 5u32,
            TeeOperationMode::Derive => 6u32,
        },
        r == if code == 0 {
            Some(TeeOperationMode::Encrypt)
        } else if code == 1 {
            Some(TeeOperationMode::Decrypt)
        } else if code == 2 {
            Some(TeeOperationMode::Sign)
        } else if code == 3 {
            Some(TeeOperationMode::Verify)
        } else if code == 4 {
            Some(TeeOperationMode::Mac)
        } else if code == 5 {
            Some(TeeOperationMode::Digest)
        } else if code == 6 {
            Some(TeeOperationMode::Derive)
        } else {
            None
        },
        value <= 0xffff_ffff ==> t == match r {
            Some(found) => Ok(found),
            None => Err::<TeeOperationMode, Errno>(Errno::EINVAL),
        },
        value > 0xffff_ffff ==> t == Err::<TeeOperationMode, Errno>(Errno::EINVAL),
{
    assert(TeeOperationMode::Encrypt.code() == 0);
    assert(TeeOperationMode::Decrypt.code() == 1);
    assert(TeeOperationMode::Sign.code() == 2);
    assert(TeeOperationMode::Verify.code() == 3);
    assert(TeeOperationMode::Mac.code() == 4);
    assert(TeeOperationMode::Digest.code() == 5);
    assert(TeeOperationMode::Derive.code() == 6);
}

/// The numbers of the property sets: each has its own, and a number that is none of them stands
/// for nothing.
pub proof fn law_tee_prop_set_numbers(v: TeePropSet, n: u32, code: u32, r: Option<TeePropSet>,
    value: usize,
    t: Result<TeePropSet, Errno>,)
    requires
        call_ensures(TeePropSet::value, (v,), n),
        call_ensures(TeePropSet::from_code, (code,), r),
        call_ensures(TeePropSet::try_from_usize, (value,), t),
        value <= 0xffff_ffff ==> value == code,
    ensures
        n == match v {
            TeePropSet::TeeImplementation => 0xffff_fffdu32,
            TeePropSet::CurrentClient => 0xffff_fffeu32,
            TeePropSet::CurrentTa => 0xffff_ffffu32,
        },
        r == if code == 0xffff_fffd {
            Some(TeePropSet::TeeImplementation)
        } else if code == 0xffff_fffe {
            Some(TeePropSet::CurrentClient)
        } else if code == 0xffff_ffff {
            Some(TeePropSet::CurrentTa)
        } else {
            None
        },
        value <= 0xffff_ffff ==> t == match r {
            Some(found) => Ok(found),
            None => Err::<TeePropSet, Errno>(Errno::EINVAL),
        },
        value > 0xffff_ffff ==> t == Err::<TeePropSet, Errno>(Errno::EINVAL),
{
    assert(TeePropSet::TeeImplementation.code() == 0xffff_fffd);
    assert(TeePropSet::CurrentClient.code() == 0xffff_fffe);
    assert(TeePropSet::CurrentTa.code() == 0xffff_ffff);
}

/// The numbers of the algorithms: each has its own, and a number that is none of them stands
/// for nothing.
pub proof fn law_tee_algorithm_numbers(v: TeeAlgorithm, n: u32, code: u32, r: Option<TeeAlgorithm>,
    value: usize,
    t: Result<TeeAlgorithm, Errno>,)
    requires
        call_ensures(TeeAlgorithm::value, (v,), n),
        call_ensures(TeeAlgorithm::from_code, (code,), r),
        call_ensures(TeeAlgorithm::try_from_usize, (value,), t),
        value <= 0xffff_ffff ==> value == code,
    ensures
        n == match v {
            TeeAlgorithm::AesCtr => 0x1000_0210u32,
            TeeAlgorithm::AesGcm => 0x4000_0810u32,
            TeeAlgorithm::RsaPkcs1Sha256 => 0x7000_4830u32,
            TeeAlgorithm::RsaPkcs1Sha512 => 0x7000_6830u32,
            TeeAlgorithm::HmacSha256 => 0x3000_0004u32,
            TeeAlgorithm::HmacSha512 => 0x3000_0006u32,
            TeeAlgorithm::IllegalValue => 0xefff_ffffu32,
        },
        r == if code == 0x1000_0210 {
            Some(TeeAlgorithm::AesCtr)
        } else if code == 0x4000_0810 {
            Some(TeeAlgorithm::AesGcm)
        } else if code == 0x7000_4830 {
            Some(TeeAlgorithm::RsaPkcs1Sha256)
        } else if code == 0x7000_6830 {
            Some(TeeAlgorithm::RsaPkcs1Sha512)
        } else if code == 0x3000_0004 {
            Some(TeeAlgorithm::HmacSha256)
        } else if code == 0x3000_0006 {
            Some(TeeAlgorithm::HmacSha512)
        } else if code == 0xefff_ffff {
            Some(TeeAlgorithm::IllegalValue)
        } else {
            None
        },
        value <= 0xffff_ffff ==> t == match r {
            Some(found) => Ok(found),
            None => Err::<TeeAlgorithm, Errno>(Errno::EINVAL),
        },
        value > 0xffff_ffff ==> t == Err::<TeeAlgorithm, Errno>(Errno::EINVAL),
{
    assert(TeeAlgorithm::AesCtr.code() == 0x1000_0210);
    assert(TeeAlgorithm::AesGcm.code() == 0x4000_0810);
    assert(TeeAlgorithm::RsaPkcs1Sha256.code() == 0x7000_4830);
    assert(TeeAlgorithm::RsaPkcs1Sha512.code() == 0x7000_6830);
    assert(TeeAlgorithm::HmacSha256.code() == 0x3000_0004);
    assert(TeeAlgorithm::HmacSha512.code() == 0x3000_0006);
    assert(TeeAlgorithm::IllegalValue.code() == 0xefff_ffff);
}

/// The numbers of the classes of algorithms: each has its own, and a number that is none of them stands
/// for nothing.
pub proof fn law_tee_algorithm_class_numbers(v: TeeAlgorithmClass, n: u32, code: u32, r: Option<TeeAlgorithmClass>,)
    requires
        call_ensures(TeeAlgorithmClass::value, (v,), n),
        call_ensures(TeeAlgorithmClass::from_code, (code,), r),
    ensures
        n == match v {
            TeeAlgorithmClass::Cipher => 1u32,
            TeeAlgorithmClass::Mac => 3u32,
            TeeAlgorithmClass::Aead => 4u32,
            TeeAlgorithmClass::Digest => 5u32,
            TeeAlgorithmClass::AsymmetricCipher => 6u32,
            TeeAlgorithmClass::AsymmetricSignature => 7u32,
            TeeAlgorithmClass::KeyDerivation => 8u32,
            TeeAlgorithmClass::Unknown => 0xffff_ffffu32,
        },
        r == if code == 1 {
            Some(TeeAlgorithmClass::Cipher)
        } else if code == 3 {
            Some(TeeAlgorithmClass::Mac)
        } else if code == 4 {
            Some(TeeAlgorithmClass::Aead)
        } else if code == 5 {
            Some(TeeAlgorithmClass::Digest)
        } else if code == 6 {
            Some(TeeAlgorithmClass::AsymmetricCipher)
        } else if code == 7 {
            Some(TeeAlgorithmClass::AsymmetricSignature)
        } else if code == 8 {
            Some(TeeAlgorithmClass::KeyDerivation)
        } else if code == 0xffff_ffff {
            Some(TeeAlgorithmClass::Unknown)
        } else {
            None
        },
{
    assert(TeeAlgorithmClass::Cipher.code() == 1);
    assert(TeeAlgorithmClass::Mac.code() == 3);
    assert(TeeAlgorithmClass::Aead.code() == 4);
    assert(TeeAlgorithmClass::Digest.code() == 5);
    assert(TeeAlgorithmClass::AsymmetricCipher.code() == 6);
    assert(TeeAlgorithmClass::AsymmetricSignature.code() == 7);
    assert(TeeAlgorithmClass::KeyDerivation.code() == 8);
    assert(TeeAlgorithmClass::Unknown.code() == 0xffff_ffff);
}

/// The numbers of the results: each has its own, and a number that is none of them stands
/// for nothing.
pub proof fn law_tee_result_numbers(v: TeeResult, n: u32, code: u32, r: Option<TeeResult>,)
    requires
        call_ensures(TeeResult::value, (v,), n),
        call_ensures(TeeResult::from_code, (code,), r),
    ensures
        n == match v {
            TeeResult::Success => 0u32,
            TeeResult::CorruptObject => 0xf010_0001u32,
            TeeResult::CorruptObject2 => 0xf010_0002u32,
            TeeResult::StorageNotAvailable => 0xf010_0003u32,
            TeeResult::StorageNotAvailable2 => 0xf010_0004u32,
            TeeResult::CiphertextInvalid => 0xf010_0006u32,
            TeeResult::GenericError => 0xffff_0000u32,
            TeeResult::AccessDenied => 0xffff_0001u32,
            TeeResult::Cancel => 0xffff_0002u32,
            TeeResult::AccessConflict => 0xffff_0003u32,
            TeeResult::ExcessData => 0xffff_0004u32,
            TeeResult::BadFormat => 0xffff_0005u32,
            TeeResult::BadParameters => 0xffff_0006u32,
            TeeResult::BadState => 0xffff_0007u32,
            TeeResult::ItemNotFound => 0xffff_0008u32,
            TeeResult::NotImplemented => 0xffff_0009u32,
            TeeResult::NotSupported => 0xffff_000au32,
            TeeResult::NoData => 0xffff_000bu32,
            TeeResult::OutOfMemory => 0xffff_000cu32,
            TeeResult::Busy => 0xffff_000du32,
            TeeResult::CommunicationError => 0xffff_000eu32,
            TeeResult::SecurityError => 0xffff_000fu32,
            TeeResult::ShortBuffer => 0xffff_0010u32,
            TeeResult::ExternalCancel => 0xffff_0011u32,
            TeeResult::Overflow => 0xffff_300fu32,
            TeeResult::TargetDead => 0xffff_3024u32,
            TeeResult::StorageNoSpace => 0xffff_3041u32,
            TeeResult::MacInvalid => 0xffff_3071u32,
            TeeResult::SignatureInvalid => 0xffff_3072u32,
            TeeResult::TimeNotSet => 0xffff_5000u32,
            TeeResult::TimeNeedsReset => 0xffff_5001u32,
        },
        r == if code == 0 {
            Some(TeeResult::Success)
        } else if code == 0xf010_0001 {
            Some(TeeResult::CorruptObject)
        } else if code == 0xf010_0002 {
            Some(TeeResult::CorruptObject2)
        } else if code == 0xf010_0003 {
            Some(TeeResult::StorageNotAvailable)
        } else if code == 0xf010_0004 {
            Some(TeeResult::StorageNotAvailable2)
        } else if code == 0xf010_0006 {
            Some(TeeResult::CiphertextInvalid)
        } else if code == 0xffff_0000 {
            Some(TeeResult::GenericError)
        } else if code == 0xffff_0001 {
            Some(TeeResult::AccessDenied)
        } else if code == 0xffff_0002 {
            Some(TeeResult::Cancel)
        } else if code == 0xffff_0003 {
            Some(TeeResult::AccessConflict)
        } else if code == 0xffff_0004 {
            Some(TeeResult::ExcessData)
        } else if code == 0xffff_0005 {
            Some(TeeResult::BadFormat)
        } else if code == 0xffff_0006 {
            Some(TeeResult::BadParameters)
        } else if code == 0xffff_0007 {
            Some(TeeResult::BadState)
        } else if code == 0xffff_0008 {
            Some(TeeResult::ItemNotFound)
        } else if code == 0xffff_0009 {
            Some(TeeResult::NotImplemented)
        } else if code == 0xffff_000a {
            Some(TeeResult::NotSupported)
        } else if code == 0xffff_000b {
            Some(TeeResult::NoData)
        } else if code == 0xffff_000c {
            Some(TeeResult::OutOfMemory)
        } else if code == 0xffff_000d {
            Some(TeeResult::Busy)
        } else if code == 0xffff_000e {
            Some(TeeResult::CommunicationError)
        } else if code == 0xffff_000f {
            Some(TeeResult::SecurityError)
        } else if code == 0xffff_0010 {
            Some(TeeResult::ShortBuffer)
        } else if code == 0xffff_0011 {
            Some(TeeResult::ExternalCancel)
        } else if code == 0xffff_300f {
            Some(TeeResult::Overflow)
        } else if code == 0xffff_3024 {
            Some(TeeResult::TargetDead)
        } else if code == 0xffff_3041 {
            Some(TeeResult::StorageNoSpace)
        } else if code == 0xffff_3071 {
            Some(TeeResult::MacInvalid)
        } else if code == 0xffff_3072 {
            Some(TeeResult::SignatureInvalid)
        } else if code == 0xffff_5000 {
            Some(TeeResult::TimeNotSet)
        } else if code == 0xffff_5001 {
            Some(TeeResult::TimeNeedsReset)
        } else {
            None
        },
{
    assert(TeeResult::Success.code() == 0);
    assert(TeeResult::CorruptObject.code() == 0xf010_0001);
    assert(TeeResult::CorruptObject2.code() == 0xf010_0002);
    assert(TeeResult::StorageNotAvailable.code() == 0xf010_0003);
    assert(TeeResult::StorageNotAvailable2.code() == 0xf010_0004);
    assert(TeeResult::CiphertextInvalid.code() == 0xf010_0006);
    assert(TeeResult::GenericError.code() == 0xffff_0000);
    assert(TeeResult::AccessDenied.code() == 0xffff_0001);
    assert(TeeResult::Cancel.code() == 0xffff_0002);
    assert(TeeResult::AccessConflict.code() == 0xffff_0003);
    assert(TeeResult::ExcessData.code() == 0xffff_0004);
    assert(TeeResult::BadFormat.code() == 0xffff_0005);
    assert(TeeResult::BadParameters.code() == 0xffff_0006);
    assert(TeeResult::BadState.code() == 0xffff_0007);
    assert(TeeResult::ItemNotFound.code() == 0xffff_0008);
    assert(TeeResult::NotImplemented.code() == 0xffff_0009);
    assert(TeeResult::NotSupported.code() == 0xffff_000a);
    assert(TeeResult::NoData.code() == 0xffff_000b);
    assert(TeeResult::OutOfMemory.code() == 0xffff_000c);
    assert(TeeResult::Busy.code() == 0xffff_000d);
    assert(TeeResult::CommunicationError.code() == 0xffff_000e);
    assert(TeeResult::SecurityError.code() == 0xffff_000f);
    assert(TeeResult::ShortBuffer.code() == 0xffff_0010);
    assert(TeeResult::ExternalCancel.code() == 0xffff_0011);
    assert(TeeResult::Overflow.code() == 0xffff_300f);
    assert(TeeResult::TargetDead.code() == 0xffff_3024);
    assert(TeeResult::StorageNoSpace.code() == 0xffff_3041);
    assert(TeeResult::MacInvalid.code() == 0xffff_3071);
    assert(TeeResult::SignatureInvalid.code() == 0xffff_3072);
    assert(TeeResult::TimeNotSet.code() == 0xffff_5000);
    assert(TeeResult::TimeNeedsReset.code() == 0xffff_5001);
}

/// The numbers of the entry points of TAs: each has its own, and a number that is none of them stands
/// for nothing.
pub proof fn law_utee_entry_func_numbers(v: UteeEntryFunc, n: u32, code: u32, r: Option<UteeEntryFunc>,)
    requires
        call_ensures(UteeEntryFunc::value, (v,), n),
        call_ensures(UteeEntryFunc::from_code, (code,), r),
    ensures
        n == match v {
            UteeEntryFunc::OpenSession => 0u32,
            UteeEntryFunc::CloseSession => 1u32,
            UteeEntryFunc::InvokeCommand => 2u32,
            UteeEntryFunc::Unknown => 0xffff_ffffu32,
        },
        r == if code == 0 {
            Some(UteeEntryFunc::OpenSession)
        } else if code == 1 {
            Some(UteeEntryFunc::CloseSession)
        } else if code == 2 {
            Some(UteeEntryFunc::InvokeCommand)
        } else if code == 0xffff_ffff {
            Some(UteeEntryFunc::Unknown)
        } else {
            None
        },
{
    assert(UteeEntryFunc::OpenSession.code() == 0);
    assert(UteeEntryFunc::CloseSession.code() == 1);
    assert(UteeEntryFunc::InvokeCommand.code() == 2);
    assert(UteeEntryFunc::Unknown.code() == 0xffff_ffff);
}

/// The numbers of the commands of messages: each has its own, and a number that is none of them stands
/// for nothing.
pub proof fn law_optee_message_command_numbers(v: OpteeMessageCommand, n: u32, code: u32, r: Option<OpteeMessageCommand>,)
    requires
        call_ensures(OpteeMessageCommand::value, (v,), n),
        call_ensures(OpteeMessageCommand::from_code, (code,), r),
    ensures
        n == match v {
            OpteeMessageCommand::OpenSession => 0u32,
            OpteeMessageCommand::InvokeCommand => 1u32,
            OpteeMessageCommand::CloseSession => 2u32,
            OpteeMessageCommand::Cancel => 3u32,
            OpteeMessageCommand::RegisterShm => 4u32,
            OpteeMessageCommand::UnregisterShm => 5u32,
            OpteeMessageCommand::DoBottomHalf => 6u32,
            OpteeMessageCommand::StopAsyncNotif => 7u32,
        },
        r == if code == 0 {
            Some(OpteeMessageCommand::OpenSession)
        } else if code == 1 {
            Some(OpteeMessageCommand::InvokeCommand)
        } else if code == 2 {
            Some(OpteeMessageCommand::CloseSession)
        } else if code == 3 {
            Some(OpteeMessageCommand::Cancel)
        } else if code == 4 {
            Some(OpteeMessageCommand::RegisterShm)
        } else if code == 5 {
            Some(OpteeMessageCommand::UnregisterShm)
        } else if code == 6 {
            Some(OpteeMessageCommand::DoBottomHalf)
        } else if code == 7 {
            Some(OpteeMessageCommand::StopAsyncNotif)
        } else {
            None
        },
{
    assert(OpteeMessageCommand::OpenSession.code() == 0);
    assert(OpteeMessageCommand::InvokeCommand.code() == 1);
    assert(OpteeMessageCommand::CloseSession.code() == 2);
    assert(OpteeMessageCommand::Cancel.code() == 3);
    assert(OpteeMessageCommand::RegisterShm.code() == 4);
    assert(OpteeMessageCommand::UnregisterShm.code() == 5);
    assert(OpteeMessageCommand::DoBottomHalf.code() == 6);
    assert(OpteeMessageCommand::StopAsyncNotif.code() == 7);
}

/// The numbers of the types of message parameters: each has its own, and a number that is none of them stands
/// for nothing.
pub proof fn law_optee_msg_attr_type_numbers(v: OpteeMsgAttrType, n: u8, code: u8, r: Option<OpteeMsgAttrType>,)
    requires
        call_ensures(OpteeMsgAttrType::value, (v,), n),
        call_ensures(OpteeMsgAttrType::from_code, (code,), r),
    ensures
        n == match v {
            OpteeMsgAttrType::Empty => 0u8,
            OpteeMsgAttrType::ValueInput => 1u8,
            OpteeMsgAttrType::ValueOutput => 2u8,
            OpteeMsgAttrType::ValueInout => 3u8,
            OpteeMsgAttrType::RmemInput => 5u8,
            OpteeMsgAttrType::RmemOutput => 6u8,
            OpteeMsgAttrType::RmemInout => 7u8,
            OpteeMsgAttrType::TmemInput => 9u8,
            OpteeMsgAttrType::TmemOutput => 0xau8,
            OpteeMsgAttrType::TmemInout => 0xbu8,
        },
        r == if code == 0 {
            Some(OpteeMsgAttrType::Empty)
        } else if code == 1 {
            Some(OpteeMsgAttrType::ValueInput)
        } else if code == 2 {
            Some(OpteeMsgAttrType::ValueOutput)
        } else if code == 3 {
            Some(OpteeMsgAttrType::ValueInout)
        } else if code == 5 {
            Some(OpteeMsgAttrType::RmemInput)
        } else if code == 6 {
            Some(OpteeMsgAttrType::RmemOutput)
        } else if code == 7 {
            Some(OpteeMsgAttrType::RmemInout)
        } else if code == 9 {
            Some(OpteeMsgAttrType::TmemInput)
        } else if code == 0xa {
            Some(OpteeMsgAttrType::TmemOutput)
        } else if code == 0xb {
            Some(OpteeMsgAttrType::TmemInout)
        } else {
            None
        },
{
    assert(OpteeMsgAttrType::Empty.code() == 0);
    assert(OpteeMsgAttrType::ValueInput.code() == 1);
    assert(OpteeMsgAttrType::ValueOutput.code() == 2);
    assert(OpteeMsgAttrType::ValueInout.code() == 3);
    assert(OpteeMsgAttrType::RmemInput.code() == 5);
    assert(OpteeMsgAttrType::RmemOutput.code() == 6);
    assert(OpteeMsgAttrType::RmemInout.code() == 7);
    assert(OpteeMsgAttrType::TmemInput.code() == 9);
    assert(OpteeMsgAttrType::TmemOutput.code() == 0xa);
    assert(OpteeMsgAttrType::TmemInout.code() == 0xb);
}

/// The numbers of the functions of calls: each has its own, and a number that is none of them stands
/// for nothing.
pub proof fn law_optee_smc_function_numbers(v: OpteeSmcFunction, n: usize, code: usize, r: Option<OpteeSmcFunction>,)
    requires
        call_ensures(OpteeSmcFunction::value, (v,), n),
        call_ensures(OpteeSmcFunction::from_code, (code,), r),
    ensures
        n == match v {
            OpteeSmcFunction::GetOsUuid => 0usize,
            OpteeSmcFunction::GetOsRevision => 1usize,
            OpteeSmcFunction::CallWithArg => 4usize,
            OpteeSmcFunction::ExchangeCapabilities => 9usize,
            OpteeSmcFunction::DisableShmCache => 0xausize,
            OpteeSmcFunction::CallWithRpcArg => 0x12usize,
            OpteeSmcFunction::CallWithRegdArg => 0x13usize,
            OpteeSmcFunction::CallsUid => 0xff01usize,
            OpteeSmcFunction::CallsRevision => 0xff03usize,
        },
        r == if code == 0 {
            Some(OpteeSmcFunction::GetOsUuid)
        } else if code == 1 {
            Some(OpteeSmcFunction::GetOsRevision)
        } else if code == 4 {
            Some(OpteeSmcFunction::CallWithArg)
        } else if code == 9 {
            Some(OpteeSmcFunction::ExchangeCapabilities)
        } else if code == 0xa {
            Some(OpteeSmcFunction::DisableShmCache)
        } else if code == 0x12 {
            Some(OpteeSmcFunction::CallWithRpcArg)
        } else if code == 0x13 {
            Some(OpteeSmcFunction::CallWithRegdArg)
        } else if code == 0xff01 {
            Some(OpteeSmcFunction::CallsUid)
        } else if code == 0xff03 {
            Some(OpteeSmcFunction::CallsRevision)
        } else {
            None
        },
{
    assert(OpteeSmcFunction::GetOsUuid.code() == 0);
    assert(OpteeSmcFunction::GetOsRevision.code() == 1);
    assert(OpteeSmcFunction::CallWithArg.code() == 4);
    assert(OpteeSmcFunction::ExchangeCapabilities.code() == 9);
    assert(OpteeSmcFunction::DisableShmCache.code() == 0xa);
    assert(OpteeSmcFunction::CallWithRpcArg.code() == 0x12);
    assert(OpteeSmcFunction::CallWithRegdArg.code() == 0x13);
    assert(OpteeSmcFunction::CallsUid.code() == 0xff01);
    assert(OpteeSmcFunction::CallsRevision.code() == 0xff03);
}

/// The numbers of the return codes of calls: each has its own, and a number that is none of them stands
/// for nothing.
pub proof fn law_optee_smc_return_code_numbers(v: OpteeSmcReturnCode, n: usize, code: usize, r: Option<OpteeSmcReturnCode>,)
    requires
        call_ensures(OpteeSmcReturnCode::value, (v,), n),
        call_ensures(OpteeSmcReturnCode::from_code, (code,), r),
    ensures
        n == match v {
            OpteeSmcReturnCode::Success => 0usize,
            OpteeSmcReturnCode::EThreadLimit => 1usize,
            OpteeSmcReturnCode::EBusy => 2usize,
            OpteeSmcReturnCode::EResume => 3usize,
            OpteeSmcReturnCode::EBadAddr => 4usize,
            OpteeSmcReturnCode::EBadCmd => 5usize,
            OpteeSmcReturnCode::ENomem => 6usize,
            OpteeSmcReturnCode::ENotAvail => 7usize,
            OpteeSmcReturnCode::UnknownFunction => 0xffff_ffffusize,
        },
        r == if code == 0 {
            Some(OpteeSmcReturnCode::Success)
        } else if code == 1 {
            Some(OpteeSmcReturnCode::EThreadLimit)
        } else if code == 2 {
            Some(OpteeSmcReturnCode::EBusy)
        } else if code == 3 {
            Some(OpteeSmcReturnCode::EResume)
        } else if code == 4 {
            Some(OpteeSmcReturnCode::EBadAddr)
        } else if code == 5 {
            Some(OpteeSmcReturnCode::EBadCmd)
        } else if code == 6 {
            Some(OpteeSmcReturnCode::ENomem)
        } else if code == 7 {
            Some(OpteeSmcReturnCode::ENotAvail)
        } else if code == 0xffff_ffff {
            Some(OpteeSmcReturnCode::UnknownFunction)
        } else {
            None
        },
{
    assert(OpteeSmcReturnCode::Success.code() == 0);
    assert(OpteeSmcReturnCode::EThreadLimit.code() == 1);
    assert(OpteeSmcReturnCode::EBusy.code() == 2);
    assert(OpteeSmcReturnCode::EResume.code() == 3);
    assert(OpteeSmcReturnCode::EBadAddr.code() == 4);
    assert(OpteeSmcReturnCode::EBadCmd.code() == 5);
    assert(OpteeSmcReturnCode::ENomem.code() == 6);
    assert(OpteeSmcReturnCode::ENotAvail.code() == 7);
    assert(OpteeSmcReturnCode::UnknownFunction.code() == 0xffff_ffff);
}

/// The numbers that are known of this kind, and no others, are taken as they are; what is
/// taken gives its number back.
pub proof fn law_tee_attribute_type_numbers(value: usize, t: Result<TeeAttributeType, Errno>, v: TeeAttributeType, n: &u32)
    requires
        call_ensures(TeeAttributeType::try_from_usize, (value,), t),
        call_ensures(TeeAttributeType::value, (&v,), n),
    ensures
        TeeAttributeType::SECRET_VALUE == 0xc000_0000,
        TeeAttributeType::RSA_MODULUS == 0xd000_0130,
        TeeAttributeType::RSA_PUBLIC_EXPONENT == 0xd000_0230,
        TeeAttributeType::RSA_PRIVATE_EXPONENT == 0xc000_0330,
        TeeAttributeType::RSA_PRIME1 == 0xc000_0430,
        TeeAttributeType::RSA_PRIME2 == 0xc000_0530,
        TeeAttributeType::RSA_EXPONENT1 == 0xc000_0630,
        TeeAttributeType::RSA_EXPONENT2 == 0xc000_0730,
        TeeAttributeType::RSA_COEFFICIENT == 0xc000_0830,
        *n == v.code,
        t is Ok <==> {
            ||| value == 0xc000_0000
            ||| value == 0xd000_0130
            ||| value == 0xd000_0230
            ||| value == 0xc000_0330
            ||| value == 0xc000_0430
            ||| value == 0xc000_0530
            ||| value == 0xc000_0630
            ||| value == 0xc000_0730
            ||| value == 0xc000_0830
        },
        t matches Ok(found) ==> found.code == value,
        t matches Err(e) ==> e == Errno::EINVAL,
{
}

/// The numbers that are known of this kind, and no others, are taken as they are; what is
/// taken gives its number back.
pub proof fn law_tee_origin_numbers(value: usize, t: Result<TeeOrigin, Errno>, v: TeeOrigin, n: &u32)
    requires
        call_ensures(TeeOrigin::try_from_usize, (value,), t),
        call_ensures(TeeOrigin::value, (&v,), n),
    ensures
        TeeOrigin::API == 1,
        TeeOrigin::COMMS == 2,
        TeeOrigin::TEE == 3,
        TeeOrigin::TRUSTED_APP == 4,
        *n == v.code,
        t is Ok <==> {
            ||| value == 1
            ||| value == 2
            ||| value == 3
            ||| value == 4
        },
        t matches Ok(found) ==> found.code == value,
        t matches Err(e) ==> e == Errno::EINVAL,
{
}

/// The numbers that are known of this kind, and no others, are taken as they are; what is
/// taken gives its number back.
pub proof fn law_tee_object_type_numbers(value: usize, t: Result<TeeObjectType, Errno>, v: TeeObjectType, n: &u32)
    requires
        call_ensures(TeeObjectType::try_from_usize, (value,), t),
        call_ensures(TeeObjectType::value, (&v,), n),
    ensures
        TeeObjectType::AES == 0xa000_0010,
        TeeObjectType::HMAC_SHA256 == 0xa000_0004,
        TeeObjectType::HMAC_SHA512 == 0xa000_0006,
        TeeObjectType::RSA_PUBLIC_KEY == 0xa000_0030,
        TeeObjectType::RSA_KEYPAIR == 0xa100_0030,
        TeeObjectType::GENERIC_SECRET == 0xa000_0000,
        TeeObjectType::CORRUPTED_OBJECT == 0xa000_00be,
        TeeObjectType::DATA == 0xa000_00bf,
        *n == v.code,
        t is Ok <==> {
            ||| value == 0xa000_0010
            ||| value == 0xa000_0004
            ||| value == 0xa000_0006
            ||| value == 0xa000_0030
            ||| value == 0xa100_0030
            ||| value == 0xa000_0000
            ||| value == 0xa000_00be
            ||| value == 0xa000_00bf
        },
        t matches Ok(found) ==> found.code == value,
        t matches Err(e) ==> e == Errno::EINVAL,
{
}

/// The login types that a client can present by number; all other numbers stand for none.
pub proof fn law_login_numbers(code: u32, r: Option<TeeLogin>)
    requires
        call_ensures(TeeLogin::from_code, (code,), r),
    ensures
        r is Some <==> code <= 2 || 4 <= code <= 6 || code == 0xf000_0000,
        r == Some(TeeLogin::Public) <==> code == 0,
        r == Some(TeeLogin::User) <==> code == 1,
        r == Some(TeeLogin::Group) <==> code == 2,
        r == Some(TeeLogin::Application) <==> code == 4,
        r == Some(TeeLogin::ApplicationUser) <==> code == 5,
        r == Some(TeeLogin::ApplicationGroup) <==> code == 6,
        r == Some(TeeLogin::TrustedApp) <==> code == 0xf000_0000,
{
}

/// The numbers of the types of properties follow one another.
pub proof fn law_property_type_numbers(v: UserTaPropType, n: u32)
    requires
        call_ensures(UserTaPropType::value, (v,), n),
    ensures
        n == 0 <==> v is Bool,
        n == 1 <==> v is U32,
        n == 2 <==> v is Uuid,
        n == 3 <==> v is Identity,
        n == 4 <==> v is String,
        n == 5 <==> v is BinaryBlock,
{
}

/// Handles and numbers of 32 bits are taken as they are, larger ones refused with
/// `EINVAL`.
pub proof fn law_32_bit_arguments(
    value: usize,
    a: Result<u32, Errno>,
    b: Result<TeeObjHandle, Errno>,
    c: Result<TeeCrypStateHandle, Errno>,
    d: Result<TaSessionId, Errno>,
    e: Result<CommandId, Errno>,
    f: Result<TeeMemoryAccessRights, Errno>,
)
    requires
        call_ensures(u32_arg, (value,), a),
        call_ensures(TeeObjHandle::try_from_usize, (value,), b),
        call_ensures(TeeCrypStateHandle::try_from_usize, (value,), c),
        call_ensures(TaSessionId::try_from_usize, (value,), d),
        call_ensures(CommandId::try_from_usize, (value,), e),
        call_ensures(TeeMemoryAccessRights::try_from_usize, (value,), f),
    ensures
        value <= 0xffff_ffff ==> {
            &&& a matches Ok(v) && v == value
            &&& b matches Ok(v) && v.0 == value
            &&& c matches Ok(v) && v.0 == value
            &&& d matches Ok(v) && v.0 == value
            &&& e matches Ok(v) && v.0 == value
            &&& f matches Ok(v) && v.bits == value
        },
        value > 0xffff_ffff ==> {
            &&& a == Err::<u32, Errno>(Errno::EINVAL)
            &&& b == Err::<TeeObjHandle, Errno>(Errno::EINVAL)
            &&& c == Err::<TeeCrypStateHandle, Errno>(Errno::EINVAL)
            &&& d == Err::<TaSessionId, Errno>(Errno::EINVAL)
            &&& e == Err::<CommandId, Errno>(Errno::EINVAL)
            &&& f == Err::<TeeMemoryAccessRights, Errno>(Errno::EINVAL)
        },
{
}

/// The AES modes are ciphers, the keyed hashes message authentication codes, the RSA
/// schemes signatures; the illegal value belongs to no class.
pub proof fn law_algorithm_classes(algo: TeeAlgorithm, class: TeeAlgorithmClass)
    requires
        call_ensures(<TeeAlgorithmClass as From<TeeAlgorithm>>::from, (algo,), class),
    ensures
        class is Cipher <==> algo is AesCtr || algo is AesGcm,
        class is Mac <==> algo is HmacSha256 || algo is HmacSha512,
        class is AsymmetricSignature <==> algo is RsaPkcs1Sha256 || algo is RsaPkcs1Sha512,
        class is Unknown <==> algo is IllegalValue,
{
}

/// The error number of a return code says what went wrong: busy, try again, a bad address,
/// no memory, nothing there; all else counts as an invalid argument.
pub proof fn law_error_numbers(ret: OpteeSmcReturnCode, e: Errno)
    requires
        call_ensures(<Errno as From<OpteeSmcReturnCode>>::from, (ret,), e),
    ensures
        e is EBUSY <==> ret is EBusy || ret is EThreadLimit,
        e is EAGAIN <==> ret is EResume,
        e is EFAULT <==> ret is EBadAddr,
        e is ENOMEM <==> ret is ENomem,
        e is ENOENT <==> ret is ENotAvail,
        e is EINVAL <==> ret is Success || ret is EBadCmd || ret is UnknownFunction,
{
}

/// The three commands for TAs ask for the entry points of the same names; the others ask
/// for none and are refused with `EBadCmd`.
pub proof fn law_entry_points(
    cmd: OpteeMessageCommand,
    r: Result<UteeEntryFunc, OpteeSmcReturnCode>,
)
    requires
        call_ensures(<UteeEntryFunc as TryFrom<OpteeMessageCommand>>::try_from, (cmd,), r),
    ensures
        r == Ok::<UteeEntryFunc, OpteeSmcReturnCode>(UteeEntryFunc::OpenSession) <==> cmd
            is OpenSession,
        r == Ok::<UteeEntryFunc, OpteeSmcReturnCode>(UteeEntryFunc::InvokeCommand) <==> cmd
            is InvokeCommand,
        r == Ok::<UteeEntryFunc, OpteeSmcReturnCode>(UteeEntryFunc::CloseSession) <==> cmd
            is CloseSession,
        !(cmd is OpenSession) && !(cmd is InvokeCommand) && !(cmd is CloseSession) ==> r == Err::<
            UteeEntryFunc,
            OpteeSmcReturnCode,
        >(OpteeSmcReturnCode::EBadCmd),
{
}

/// A result is handed on as its number.
pub proof fn law_result_as_number(res: TeeResult, n: u32, m: u32)
    requires
        call_ensures(<u32 as From<TeeResult>>::from, (res,), n),
        call_ensures(TeeResult::value, (res,), m),
    ensures
        n == m,
{
}

/// Flags keep the bits that they are made of.
pub proof fn law_flags_keep_bits(
    bits: usize,
    rights: u32,
    a: LdelfMapFlags,
    b: TeeMemAttr,
    c: OpteeSecureWorldCapabilities,
    d: TeeMemoryAccessRights,
)
    requires
        call_ensures(LdelfMapFlags::from_bits_retain, (bits,), a),
        call_ensures(TeeMemAttr::from_bits_retain, (bits,), b),
        call_ensures(OpteeSecureWorldCapabilities::from_bits_retain, (bits,), c),
        call_ensures(TeeMemoryAccessRights::from_bits_retain, (rights,), d),
    ensures
        a.bits == bits && b.bits == bits && c.bits == bits && d.bits == rights,
{
}

/// Each flag has its own bit, and the flags that stand for several have the bits of these.
pub proof fn law_flag_bits()
    ensures
        LdelfMapFlags::LDELF_MAP_FLAG_SHAREABLE == 1,
        LdelfMapFlags::LDELF_MAP_FLAG_WRITEABLE == 2,
        LdelfMapFlags::LDELF_MAP_FLAG_EXECUTABLE == 4,
        OpteeSecureWorldCapabilities::HAVE_RESERVED_SHM == 1,
        OpteeSecureWorldCapabilities::UNREGISTERED_SHM == 2,
        OpteeSecureWorldCapabilities::DYNAMIC_SHM == 4,
        OpteeSecureWorldCapabilities::MEMREF_NULL == 16,
        OpteeSecureWorldCapabilities::RPC_ARG == 64,
        TeeMemoryAccessRights::TEE_MEMORY_ACCESS_READ == 1,
        TeeMemoryAccessRights::TEE_MEMORY_ACCESS_WRITE == 2,
        TeeMemoryAccessRights::TEE_MEMORY_ACCESS_ANY_OWNER == 4,
        TeeMemoryAccessRights::TEE_MEMORY_ACCESS_NONSECURE == 0x1000_0000,
        TeeMemoryAccessRights::TEE_MEMORY_ACCESS_SECURE == 0x2000_0000,
        TeeMemAttr::TEE_MATTR_VALID_BLOCK == 1,
        TeeMemAttr::TEE_MATTR_TABLE == 8,
        TeeMemAttr::TEE_MATTR_PR == 0x10,
        TeeMemAttr::TEE_MATTR_PW == 2 * TeeMemAttr::TEE_MATTR_PR,
        TeeMemAttr::TEE_MATTR_PX == 4 * TeeMemAttr::TEE_MATTR_PR,
        TeeMemAttr::TEE_MATTR_UR == 8 * TeeMemAttr::TEE_MATTR_PR,
        TeeMemAttr::TEE_MATTR_UW == 16 * TeeMemAttr::TEE_MATTR_PR,
        TeeMemAttr::TEE_MATTR_UX == 32 * TeeMemAttr::TEE_MATTR_PR,
        TeeMemAttr::TEE_MATTR_PRW == TeeMemAttr::TEE_MATTR_PR + TeeMemAttr::TEE_MATTR_PW,
        TeeMemAttr::TEE_MATTR_PRWX == TeeMemAttr::TEE_MATTR_PRW + TeeMemAttr::TEE_MATTR_PX,
        TeeMemAttr::TEE_MATTR_URW == TeeMemAttr::TEE_MATTR_UR + TeeMemAttr::TEE_MATTR_UW,
        TeeMemAttr::TEE_MATTR_URWX == TeeMemAttr::TEE_MATTR_URW + TeeMemAttr::TEE_MATTR_UX,
        TeeMemAttr::TEE_MATTR_PROT_MASK == TeeMemAttr::TEE_MATTR_PRWX + TeeMemAttr::TEE_MATTR_URWX,
        TeeMemAttr::TEE_MATTR_GLOBAL == 0x400,
        TeeMemAttr::TEE_MATTR_SECURE == 0x800,
        TeeObjHandle::NULL == 0,
{
}

} // verus!
