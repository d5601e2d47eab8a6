//! Code numbers.

use litebox_optee::codes::{
    u32_arg, CommandId, Errno, LdelfMapFlags, OpteeMessageCommand, OpteeMsgAttrType,
    OpteeSecureWorldCapabilities, OpteeSmcFunction, OpteeSmcReturnCode, TaSessionId, TeeAlgorithm,
    TeeAlgorithmClass, TeeAttributeType, TeeCrypStateHandle, TeeLogin, TeeMemAttr,
    TeeMemoryAccessRights, TeeObjHandle, TeeObjectType, TeeOperationMode, TeeOrigin, TeeParamType,
    TeePropSet, TeeResult, UserTaPropType, UteeEntryFunc,
};
use litebox_optee::phys::PhysPointerError;

#[test]
fn results_have_their_numbers() {
    assert_eq!(u32::from(TeeResult::Success), 0);
    assert_eq!(u32::from(TeeResult::CorruptObject), 0xf010_0001);
    assert_eq!(u32::from(TeeResult::SecurityError), 0xffff_000f);
    assert_eq!(TeeResult::TimeNeedsReset.value(), 0xffff_5001);
    assert_eq!(TeeResult::from_code(0xffff_3024), Some(TeeResult::TargetDead));
    assert_eq!(TeeResult::from_code(0xf010_0005), None);
}

#[test]
fn every_result_is_found_by_its_number() {
    for code in [
        0x0000_0000u32, 0xf010_0001, 0xf010_0002, 0xf010_0003, 0xf010_0004, 0xf010_0006,
        0xffff_0000, 0xffff_0008, 0xffff_0011, 0xffff_300f, 0xffff_3041, 0xffff_3071, 0xffff_3072,
        0xffff_5000,
    ] {
        assert_eq!(TeeResult::from_code(code).unwrap().value(), code);
    }
}

#[test]
fn logins_by_number() {
    assert_eq!(TeeLogin::from_code(0), Some(TeeLogin::Public));
    assert_eq!(TeeLogin::from_code(3), None);
    assert_eq!(TeeLogin::from_code(6), Some(TeeLogin::ApplicationGroup));
    assert_eq!(TeeLogin::from_code(0xf000_0000), Some(TeeLogin::TrustedApp));
    assert_eq!(TeeLogin::from_code(0x8000_0000), None);
}

#[test]
fn enums_from_usize() {
    assert_eq!(TeePropSet::try_from_usize(0xffff_fffe), Ok(TeePropSet::CurrentClient));
    assert_eq!(TeePropSet::try_from_usize(0), Err(Errno::EINVAL));
    assert_eq!(TeeOperationMode::try_from_usize(6), Ok(TeeOperationMode::Derive));
    assert_eq!(TeeOperationMode::try_from_usize(7), Err(Errno::EINVAL));
    assert_eq!(TeeAlgorithm::try_from_usize(0x4000_0810), Ok(TeeAlgorithm::AesGcm));
    assert_eq!(TeeAlgorithm::try_from_usize(0x1_4000_0810), Err(Errno::EINVAL));
    assert_eq!(
        TeeObjectType::try_from_usize(0xa100_0030).map(|t| *t.value()),
        Ok(TeeObjectType::RSA_KEYPAIR)
    );
    assert_eq!(TeeObjectType::try_from_usize(0xffff_ffff), Err(Errno::EINVAL));
    assert_eq!(TeeOrigin::try_from_usize(4).map(|t| *t.value()), Ok(TeeOrigin::TRUSTED_APP));
    assert_eq!(TeeOrigin::try_from_usize(5), Err(Errno::EINVAL));
    assert_eq!(
        TeeAttributeType::try_from_usize(0xd000_0130).map(|t| *t.value()),
        Ok(TeeAttributeType::RSA_MODULUS)
    );
    assert_eq!(TeeAttributeType::try_from_usize(1 << 40), Err(Errno::EINVAL));
}

#[test]
fn numbers_from_usize() {
    assert_eq!(TeeObjHandle::try_from_usize(7), Ok(TeeObjHandle(7)));
    assert_eq!(TeeObjHandle::try_from_usize(0), Ok(TeeObjHandle(TeeObjHandle::NULL)));
    assert_eq!(TeeObjHandle::try_from_usize(1 << 32), Err(Errno::EINVAL));
    assert_eq!(TeeCrypStateHandle::try_from_usize(0xffff_ffff), Ok(TeeCrypStateHandle(0xffff_ffff)));
    assert_eq!(TaSessionId::try_from_usize(1 << 33), Err(Errno::EINVAL));
    assert_eq!(CommandId::try_from_usize(3), Ok(CommandId(3)));
    assert_eq!(u32_arg(1 << 32), Err(Errno::EINVAL));
    let rights = TeeMemoryAccessRights::try_from_usize(0x8000_0001).unwrap();
    assert_eq!(rights.bits, 0x8000_0001);
    assert_eq!(TeeMemoryAccessRights::try_from_usize(1 << 32), Err(Errno::EINVAL));
    assert_eq!(LdelfMapFlags::from_bits_retain(usize::MAX).bits, usize::MAX);
}

#[test]
fn memory_attributes_are_made_of_their_parts() {
    assert_eq!(TeeMemAttr::TEE_MATTR_PRW, TeeMemAttr::TEE_MATTR_PR | TeeMemAttr::TEE_MATTR_PW);
    assert_eq!(TeeMemAttr::TEE_MATTR_PRWX, TeeMemAttr::TEE_MATTR_PRW | TeeMemAttr::TEE_MATTR_PX);
    assert_eq!(TeeMemAttr::TEE_MATTR_URW, TeeMemAttr::TEE_MATTR_UR | TeeMemAttr::TEE_MATTR_UW);
    assert_eq!(TeeMemAttr::TEE_MATTR_URWX, TeeMemAttr::TEE_MATTR_URW | TeeMemAttr::TEE_MATTR_UX);
    assert_eq!(
        TeeMemAttr::TEE_MATTR_PROT_MASK,
        TeeMemAttr::TEE_MATTR_PRWX | TeeMemAttr::TEE_MATTR_URWX
    );
    assert_eq!(OpteeSecureWorldCapabilities::RPC_ARG, 1 << 6);
}

#[test]
fn classes_of_algorithms() {
    assert_eq!(TeeAlgorithmClass::from(TeeAlgorithm::AesCtr), TeeAlgorithmClass::Cipher);
    assert_eq!(TeeAlgorithmClass::from(TeeAlgorithm::HmacSha512), TeeAlgorithmClass::Mac);
    assert_eq!(
        TeeAlgorithmClass::from(TeeAlgorithm::RsaPkcs1Sha256),
        TeeAlgorithmClass::AsymmetricSignature
    );
    assert_eq!(TeeAlgorithmClass::from(TeeAlgorithm::IllegalValue), TeeAlgorithmClass::Unknown);
    assert_eq!(TeeAlgorithmClass::from_code(4), Some(TeeAlgorithmClass::Aead));
}

#[test]
fn entry_points_of_commands() {
    assert_eq!(
        UteeEntryFunc::try_from(OpteeMessageCommand::OpenSession),
        Ok(UteeEntryFunc::OpenSession)
    );
    assert_eq!(
        UteeEntryFunc::try_from(OpteeMessageCommand::InvokeCommand).unwrap().value(),
        2
    );
    assert_eq!(
        UteeEntryFunc::try_from(OpteeMessageCommand::RegisterShm),
        Err(OpteeSmcReturnCode::EBadCmd)
    );
    assert_eq!(UteeEntryFunc::from_code(1), Some(UteeEntryFunc::CloseSession));
    assert_eq!(OpteeMessageCommand::from_code(8), None);
    assert_eq!(OpteeMsgAttrType::from_code(0x8), None);
    assert_eq!(OpteeMsgAttrType::from_code(0xb), Some(OpteeMsgAttrType::TmemInout));
    assert_eq!(TeeParamType::from_code(4), None);
    assert_eq!(UserTaPropType::BinaryBlock.value(), 5);
    assert_eq!(OpteeSmcFunction::from_code(0xff03), Some(OpteeSmcFunction::CallsRevision));
}

#[test]
fn error_numbers_of_return_codes() {
    assert_eq!(Errno::from(OpteeSmcReturnCode::EThreadLimit), Errno::EBUSY);
    assert_eq!(Errno::from(OpteeSmcReturnCode::EBusy), Errno::EBUSY);
    assert_eq!(Errno::from(OpteeSmcReturnCode::EResume), Errno::EAGAIN);
    assert_eq!(Errno::from(OpteeSmcReturnCode::EBadAddr), Errno::EFAULT);
    assert_eq!(Errno::from(OpteeSmcReturnCode::ENomem), Errno::ENOMEM);
    assert_eq!(Errno::from(OpteeSmcReturnCode::ENotAvail), Errno::ENOENT);
    assert_eq!(Errno::from(OpteeSmcReturnCode::UnknownFunction), Errno::EINVAL);
    assert_eq!(Errno::from(OpteeSmcReturnCode::Success), Errno::EINVAL);
    assert_eq!(OpteeSmcReturnCode::from_code(0xffff_ffff), Some(OpteeSmcReturnCode::UnknownFunction));
}

#[test]
fn return_codes_of_access_errors() {
    assert_eq!(
        OpteeSmcReturnCode::from(PhysPointerError::AlreadyMapped(0x1000)),
        OpteeSmcReturnCode::EBusy
    );
    assert_eq!(
        OpteeSmcReturnCode::from(PhysPointerError::NoMappingInfo),
        OpteeSmcReturnCode::ENomem
    );
    assert_eq!(
        OpteeSmcReturnCode::from(PhysPointerError::VaSpaceExhausted),
        OpteeSmcReturnCode::EBadAddr
    );
}
