//! The code numbers of the OP-TEE interfaces: results, commands, logins,
//! algorithms, object types and flags.

use vstd::prelude::*;

verus! {

/// Linux error numbers that requests are answered with.
#[derive(Clone, Copy, PartialEq, Eq, Debug, Structural)]
pub enum Errno {
    ENOENT,
    EAGAIN,
    ENOMEM,
    EFAULT,
    EBUSY,
    EINVAL,
    ENOSYS,
}

/// The type of a parameter that a TA is given.
#[derive(Clone, Copy, PartialEq, Eq, Debug, Structural)]
pub enum TeeParamType {
    Empty,
    ValueInput,
    ValueOutput,
    ValueInout,
    MemrefInput,
    MemrefOutput,
    MemrefInout,
}

impl TeeParamType {
    /// The number that stands for the variant.
    pub open spec fn code(self) -> u8 {
        match self {
            TeeParamType::Empty => 0,
            TeeParamType::ValueInput => 1,
            TeeParamType::ValueOutput => 2,
            TeeParamType::ValueInout => 3,
            TeeParamType::MemrefInput => 5,
            TeeParamType::MemrefOutput => 6,
            TeeParamType::MemrefInout => 7,
        }
    }

    /// The number that stands for the variant.
    pub fn value(self) -> (r: u8)
        ensures
            r == self.code(),
    {
        match self {
            TeeParamType::Empty => 0,
            TeeParamType::ValueInput => 1,
            TeeParamType::ValueOutput => 2,
            TeeParamType::ValueInout => 3,
            TeeParamType::MemrefInput => 5,
            TeeParamType::MemrefOutput => 6,
            TeeParamType::MemrefInout => 7,
        }
    }

    /// The variant that `code` stands for, if there is one.
    pub fn from_code(code: u8) -> (r: Option<Self>)
        ensures
            match r {
                Some(v) => v.code() == code,
                None => forall|other: TeeParamType| #[trigger] other.code() != code,
            },
    {
        match code {
            0 => Some(TeeParamType::Empty),
            1 => Some(TeeParamType::ValueInput),
            2 => Some(TeeParamType::ValueOutput),
            3 => Some(TeeParamType::ValueInout),
            5 => Some(TeeParamType::MemrefInput),
            6 => Some(TeeParamType::MemrefOutput),
            7 => Some(TeeParamType::MemrefInout),
            _ => None,
        }
    }

}

/// How the client of a TA logged in.
#[derive(Clone, Copy, PartialEq, Eq, Debug, Structural)]
pub enum TeeLogin {
    Public,
    User,
    Group,
    Application,
    ApplicationUser,
    ApplicationGroup,
    ReeKernel,
    TrustedApp,
}

/// The mode of a cryptographic operation.
#[derive(Clone, Copy, PartialEq, Eq, Debug, Structural)]
pub enum TeeOperationMode {
    Encrypt,
    Decrypt,
    Sign,
    Verify,
    Mac,
    Digest,
    Derive,
}

impl TeeOperationMode {
    /// The number that stands for the variant.
    pub open spec fn code(self) -> u32 {
        match self {
            TeeOperationMode::Encrypt => 0,
            TeeOperationMode::Decrypt => 1,
            TeeOperationMode::Sign => 2,
            TeeOperationMode::Verify => 3,
            TeeOperationMode::Mac => 4,
            TeeOperationMode::Digest => 5,
            TeeOperationMode::Derive => 6,
        }
    }

    /// The number that stands for the variant.
    pub fn value(self) -> (r: u32)
        ensures
            r == self.code(),
    {
        match self {
            TeeOperationMode::Encrypt => 0,
            TeeOperationMode::Decrypt => 1,
            TeeOperationMode::Sign => 2,
            TeeOperationMode::Verify => 3,
            TeeOperationMode::Mac => 4,
            TeeOperationMode::Digest => 5,
            TeeOperationMode::Derive => 6,
        }
    }

    /// The variant that `code` stands for, if there is one.
    pub fn from_code(code: u32) -> (r: Option<Self>)
        ensures
            match r {
                Some(v) => v.code() == code,
                None => forall|other: TeeOperationMode| #[trigger] other.code() != code,
            },
    {
        match code {
            0 => Some(TeeOperationMode::Encrypt),
            1 => Some(TeeOperationMode::Decrypt),
            2 => Some(TeeOperationMode::Sign),
            3 => Some(TeeOperationMode::Verify),
            4 => Some(TeeOperationMode::Mac),
            5 => Some(TeeOperationMode::Digest),
            6 => Some(TeeOperationMode::Derive),
            _ => None,
        }
    }

    /// The variant that `value` stands for; `EINVAL` if there is none.
    pub fn try_from_usize(value: usize) -> (r: Result<Self, Errno>)
        ensures
            match r {
                Ok(v) => v.code() == value,
                Err(e) => e == Errno::EINVAL && forall|other: TeeOperationMode| #[trigger] other.code() != value,
            },
    {
        if value > 0xffff_ffff {
            return Err(Errno::EINVAL);
        }
        match TeeOperationMode::from_code(value as u32) {
            Some(v) => Ok(v),
            None => Err(Errno::EINVAL),
        }
    }

}

/// Pseudo handles of property sets.
#[derive(Clone, Copy, PartialEq, Eq, Debug, Structural)]
pub enum TeePropSet {
    TeeImplementation,
    CurrentClient,
    CurrentTa,
}

impl TeePropSet {
    /// The number that stands for the variant.
    pub open spec fn code(self) -> u32 {
        match self {
            TeePropSet::TeeImplementation => 0xffff_fffd,
            TeePropSet::CurrentClient => 0xffff_fffe,
            TeePropSet::CurrentTa => 0xffff_ffff,
        }
    }

    /// The number that stands for the variant.
    pub fn value(self) -> (r: u32)
        ensures
            r == self.code(),
    {
        match self {
            TeePropSet::TeeImplementation => 0xffff_fffd,
            TeePropSet::CurrentClient => 0xffff_fffe,
            TeePropSet::CurrentTa => 0xffff_ffff,
        }
    }

    /// The variant that `code` stands for, if there is one.
    pub fn from_code(code: u32) -> (r: Option<Self>)
        ensures
            match r {
                Some(v) => v.code() == code,
                None => forall|other: TeePropSet| #[trigger] other.code() != code,
            },
    {
        match code {
            0xffff_fffd => Some(TeePropSet::TeeImplementation),
            0xffff_fffe => Some(TeePropSet::CurrentClient),
            0xffff_ffff => Some(TeePropSet::CurrentTa),
            _ => None,
        }
    }

    /// The variant that `value` stands for; `EINVAL` if there is none.
    pub fn try_from_usize(value: usize) -> (r: Result<Self, Errno>)
        ensures
            match r {
                Ok(v) => v.code() == value,
                Err(e) => e == Errno::EINVAL && forall|other: TeePropSet| #[trigger] other.code() != value,
            },
    {
        if value > 0xffff_ffff {
            return Err(Errno::EINVAL);
        }
        match TeePropSet::from_code(value as u32) {
            Some(v) => Ok(v),
            None => Err(Errno::EINVAL),
        }
    }

}

/// Algorithm identifiers.
#[derive(Clone, Copy, PartialEq, Eq, Debug, Structural)]
pub enum TeeAlgorithm {
    AesCtr,
    AesGcm,
    RsaPkcs1Sha256,
    RsaPkcs1Sha512,
    HmacSha256,
    HmacSha512,
    IllegalValue,
}

impl TeeAlgorithm {
    /// The number that stands for the variant.
    pub open spec fn code(self) -> u32 {
        match self {
            TeeAlgorithm::AesCtr => 0x1000_0210,
            TeeAlgorithm::AesGcm => 0x4000_0810,
            TeeAlgorithm::RsaPkcs1Sha256 => 0x7000_4830,
            TeeAlgorithm::RsaPkcs1Sha512 => 0x7000_6830,
            TeeAlgorithm::HmacSha256 => 0x3000_0004,
            TeeAlgorithm::HmacSha512 => 0x3000_0006,
            TeeAlgorithm::IllegalValue => 0xefff_ffff,
        }
    }

    /// The number that stands for the variant.
    pub fn value(self) -> (r: u32)
        ensures
            r == self.code(),
    {
        match self {
            TeeAlgorithm::AesCtr => 0x1000_0210,
            TeeAlgorithm::AesGcm => 0x4000_0810,
            TeeAlgorithm::RsaPkcs1Sha256 => 0x7000_4830,
            TeeAlgorithm::RsaPkcs1Sha512 => 0x7000_6830,
            TeeAlgorithm::HmacSha256 => 0x3000_0004,
            TeeAlgorithm::HmacSha512 => 0x3000_0006,
            TeeAlgorithm::IllegalValue => 0xefff_ffff,
        }
    }

    /// The variant that `code` stands for, if there is one.
    pub fn from_code(code: u32) -> (r: Option<Self>)
        ensures
            match r {
                Some(v) => v.code() == code,
                None => forall|other: TeeAlgorithm| #[trigger] other.code() != code,
            },
    {
        match code {
            0x1000_0210 => Some(TeeAlgorithm::AesCtr),
            0x4000_0810 => Some(TeeAlgorithm::AesGcm),
            0x7000_4830 => Some(TeeAlgorithm::RsaPkcs1Sha256),
            0x7000_6830 => Some(TeeAlgorithm::RsaPkcs1Sha512),
            0x3000_0004 => Some(TeeAlgorithm::HmacSha256),
            0x3000_0006 => Some(TeeAlgorithm::HmacSha512),
            0xefff_ffff => Some(TeeAlgorithm::IllegalValue),
            _ => None,
        }
    }

    /// The variant that `value` stands for; `EINVAL` if there is none.
    pub fn try_from_usize(value: usize) -> (r: Result<Self, Errno>)
        ensures
            match r {
                Ok(v) => v.code() == value,
                Err(e) => e == Errno::EINVAL && forall|other: TeeAlgorithm| #[trigger] other.code() != value,
            },
    {
        if value > 0xffff_ffff {
            return Err(Errno::EINVAL);
        }
        match TeeAlgorithm::from_code(value as u32) {
            Some(v) => Ok(v),
            None => Err(Errno::EINVAL),
        }
    }

}

/// Classes of algorithms.
#[derive(Clone, Copy, PartialEq, Eq, Debug, Structural)]
pub enum TeeAlgorithmClass {
    Cipher,
    Mac,
    Aead,
    Digest,
    AsymmetricCipher,
    AsymmetricSignature,
    KeyDerivation,
    Unknown,
}

impl TeeAlgorithmClass {
    /// The number that stands for the variant.
    pub open spec fn code(self) -> u32 {
        match self {
            TeeAlgorithmClass::Cipher => 1,
            TeeAlgorithmClass::Mac => 3,
            TeeAlgorithmClass::Aead => 4,
            TeeAlgorithmClass::Digest => 5,
            TeeAlgorithmClass::AsymmetricCipher => 6,
            TeeAlgorithmClass::AsymmetricSignature => 7,
            TeeAlgorithmClass::KeyDerivation => 8,
            TeeAlgorithmClass::Unknown => 0xffff_ffff,
        }
    }

    /// The number that stands for the variant.
    pub fn value(self) -> (r: u32)
        ensures
            r == self.code(),
    {
        match self {
            TeeAlgorithmClass::Cipher => 1,
            TeeAlgorithmClass::Mac => 3,
            TeeAlgorithmClass::Aead => 4,
            TeeAlgorithmClass::Digest => 5,
            TeeAlgorithmClass::AsymmetricCipher => 6,
            TeeAlgorithmClass::AsymmetricSignature => 7,
            TeeAlgorithmClass::KeyDerivation => 8,
            TeeAlgorithmClass::Unknown => 0xffff_ffff,
        }
    }

    /// The variant that `code` stands for, if there is one.
    pub fn from_code(code: u32) -> (r: Option<Self>)
        ensures
            match r {
                Some(v) => v.code() == code,
                None => forall|other: TeeAlgorithmClass| #[trigger] other.code() != code,
            },
    {
        match code {
            1 => Some(TeeAlgorithmClass::Cipher),
            3 => Some(TeeAlgorithmClass::Mac),
            4 => Some(TeeAlgorithmClass::Aead),
            5 => Some(TeeAlgorithmClass::Digest),
            6 => Some(TeeAlgorithmClass::AsymmetricCipher),
            7 => Some(TeeAlgorithmClass::AsymmetricSignature),
            8 => Some(TeeAlgorithmClass::KeyDerivation),
            0xffff_ffff => Some(TeeAlgorithmClass::Unknown),
            _ => None,
        }
    }

}

/// Result codes of the TEE API.
#[derive(Clone, Copy, PartialEq, Eq, Debug, Structural)]
pub enum TeeResult {
    Success,
    CorruptObject,
    CorruptObject2,
    StorageNotAvailable,
    StorageNotAvailable2,
    CiphertextInvalid,
    GenericError,
    AccessDenied,
    Cancel,
    AccessConflict,
    ExcessData,
    BadFormat,
    BadParameters,
    BadState,
    ItemNotFound,
    NotImplemented,
    NotSupported,
    NoData,
    OutOfMemory,
    Busy,
    CommunicationError,
    SecurityError,
    ShortBuffer,
    ExternalCancel,
    Overflow,
    TargetDead,
    StorageNoSpace,
    MacInvalid,
    SignatureInvalid,
    TimeNotSet,
    TimeNeedsReset,
}

impl TeeResult {
    /// The number that stands for the variant.
    pub open spec fn code(self) -> u32 {
        match self {
            TeeResult::Success => 0x0000_0000,
            TeeResult::CorruptObject => 0xf010_0001,
            TeeResult::CorruptObject2 => 0xf010_0002,
            TeeResult::StorageNotAvailable => 0xf010_0003,
            TeeResult::StorageNotAvailable2 => 0xf010_0004,
            TeeResult::CiphertextInvalid => 0xf010_0006,
            TeeResult::GenericError => 0xffff_0000,
            TeeResult::AccessDenied => 0xffff_0001,
            TeeResult::Cancel => 0xffff_0002,
            TeeResult::AccessConflict => 0xffff_0003,
            TeeResult::ExcessData => 0xffff_0004,
            TeeResult::BadFormat => 0xffff_0005,
            TeeResult::BadParameters => 0xffff_0006,
            TeeResult::BadState => 0xffff_0007,
            TeeResult::ItemNotFound => 0xffff_0008,
            TeeResult::NotImplemented => 0xffff_0009,
            TeeResult::NotSupported => 0xffff_000a,
            TeeResult::NoData => 0xffff_000b,
            TeeResult::OutOfMemory => 0xffff_000c,
            TeeResult::Busy => 0xffff_000d,
            TeeResult::CommunicationError => 0xffff_000e,
            TeeResult::SecurityError => 0xffff_000f,
            TeeResult::ShortBuffer => 0xffff_0010,
            TeeResult::ExternalCancel => 0xffff_0011,
            TeeResult::Overflow => 0xffff_300f,
            TeeResult::TargetDead => 0xffff_3024,
            TeeResult::StorageNoSpace => 0xffff_3041,
            TeeResult::MacInvalid => 0xffff_3071,
            TeeResult::SignatureInvalid => 0xffff_3072,
            TeeResult::TimeNotSet => 0xffff_5000,
            TeeResult::TimeNeedsReset => 0xffff_5001,
        }
    }

    /// The number that stands for the variant.
    pub fn value(self) -> (r: u32)
        ensures
            r == self.code(),
    {
        match self {
            TeeResult::Success => 0x0000_0000,
            TeeResult::CorruptObject => 0xf010_0001,
            TeeResult::CorruptObject2 => 0xf010_0002,
            TeeResult::StorageNotAvailable => 0xf010_0003,
            TeeResult::StorageNotAvailable2 => 0xf010_0004,
            TeeResult::CiphertextInvalid => 0xf010_0006,
            TeeResult::GenericError => 0xffff_0000,
            TeeResult::AccessDenied => 0xffff_0001,
            TeeResult::Cancel => 0xffff_0002,
            TeeResult::AccessConflict => 0xffff_0003,
            TeeResult::ExcessData => 0xffff_0004,
            TeeResult::BadFormat => 0xffff_0005,
            TeeResult::BadParameters => 0xffff_0006,
            TeeResult::BadState => 0xffff_0007,
            TeeResult::ItemNotFound => 0xffff_0008,
            TeeResult::NotImplemented => 0xffff_0009,
            TeeResult::NotSupported => 0xffff_000a,
            TeeResult::NoData => 0xffff_000b,
            TeeResult::OutOfMemory => 0xffff_000c,
            TeeResult::Busy => 0xffff_000d,
            TeeResult::CommunicationError => 0xffff_000e,
            TeeResult::SecurityError => 0xffff_000f,
            TeeResult::ShortBuffer => 0xffff_0010,
            TeeResult::ExternalCancel => 0xffff_0011,
            TeeResult::Overflow => 0xffff_300f,
            TeeResult::TargetDead => 0xffff_3024,
            TeeResult::StorageNoSpace => 0xffff_3041,
            TeeResult::MacInvalid => 0xffff_3071,
            TeeResult::SignatureInvalid => 0xffff_3072,
            TeeResult::TimeNotSet => 0xffff_5000,
            TeeResult::TimeNeedsReset => 0xffff_5001,
        }
    }

    /// The variant that `code` stands for, if there is one.
    pub fn from_code(code: u32) -> (r: Option<Self>)
        ensures
            match r {
                Some(v) => v.code() == code,
                None => forall|other: TeeResult| #[trigger] other.code() != code,
            },
    {
        match code {
            0x0000_0000 => Some(TeeResult::Success),
            0xf010_0001 => Some(TeeResult::CorruptObject),
            0xf010_0002 => Some(TeeResult::CorruptObject2),
            0xf010_0003 => Some(TeeResult::StorageNotAvailable),
            0xf010_0004 => Some(TeeResult::StorageNotAvailable2),
            0xf010_0006 => Some(TeeResult::CiphertextInvalid),
            0xffff_0000 => Some(TeeResult::GenericError),
            0xffff_0001 => Some(TeeResult::AccessDenied),
            0xffff_0002 => Some(TeeResult::Cancel),
            0xffff_0003 => Some(TeeResult::AccessConflict),
            0xffff_0004 => Some(TeeResult::ExcessData),
            0xffff_0005 => Some(TeeResult::BadFormat),
            0xffff_0006 => Some(TeeResult::BadParameters),
            0xffff_0007 => Some(TeeResult::BadState),
            0xffff_0008 => Some(TeeResult::ItemNotFound),
            0xffff_0009 => Some(TeeResult::NotImplemented),
            0xffff_000a => Some(TeeResult::NotSupported),
            0xffff_000b => Some(TeeResult::NoData),
            0xffff_000c => Some(TeeResult::OutOfMemory),
            0xffff_000d => Some(TeeResult::Busy),
            0xffff_000e => Some(TeeResult::CommunicationError),
            0xffff_000f => Some(TeeResult::SecurityError),
            0xffff_0010 => Some(TeeResult::ShortBuffer),
            0xffff_0011 => Some(TeeResult::ExternalCancel),
            0xffff_300f => Some(TeeResult::Overflow),
            0xffff_3024 => Some(TeeResult::TargetDead),
            0xffff_3041 => Some(TeeResult::StorageNoSpace),
            0xffff_3071 => Some(TeeResult::MacInvalid),
            0xffff_3072 => Some(TeeResult::SignatureInvalid),
            0xffff_5000 => Some(TeeResult::TimeNotSet),
            0xffff_5001 => Some(TeeResult::TimeNeedsReset),
            _ => None,
        }
    }

}

/// The entry points of a TA.
#[derive(Clone, Copy, PartialEq, Eq, Debug, Structural)]
pub enum UteeEntryFunc {
    OpenSession,
    CloseSession,
    InvokeCommand,
    Unknown,
}

impl UteeEntryFunc {
    /// The number that stands for the variant.
    pub open spec fn code(self) -> u32 {
        match self {
            UteeEntryFunc::OpenSession => 0,
            UteeEntryFunc::CloseSession => 1,
            UteeEntryFunc::InvokeCommand => 2,
            UteeEntryFunc::Unknown => 0xffff_ffff,
        }
    }

    /// The number that stands for the variant.
    pub fn value(self) -> (r: u32)
        ensures
            r == self.code(),
    {
        match self {
            UteeEntryFunc::OpenSession => 0,
            UteeEntryFunc::CloseSession => 1,
            UteeEntryFunc::InvokeCommand => 2,
            UteeEntryFunc::Unknown => 0xffff_ffff,
        }
    }

    /// The variant that `code` stands for, if there is one.
    pub fn from_code(code: u32) -> (r: Option<Self>)
        ensures
            match r {
                Some(v) => v.code() == code,
                None => forall|other: UteeEntryFunc| #[trigger] other.code() != code,
            },
    {
        match code {
            0 => Some(UteeEntryFunc::OpenSession),
            1 => Some(UteeEntryFunc::CloseSession),
            2 => Some(UteeEntryFunc::InvokeCommand),
            0xffff_ffff => Some(UteeEntryFunc::Unknown),
            _ => None,
        }
    }

}

/// The types of the properties of a TA.
#[derive(Clone, Copy, PartialEq, Eq, Debug, Structural)]
pub enum UserTaPropType {
    Bool,
    U32,
    Uuid,
    Identity,
    String,
    BinaryBlock,
}

impl UserTaPropType {
    /// The number that stands for the variant.
    pub open spec fn code(self) -> u32 {
        match self {
            UserTaPropType::Bool => 0,
            UserTaPropType::U32 => 1,
            UserTaPropType::Uuid => 2,
            UserTaPropType::Identity => 3,
            UserTaPropType::String => 4,
            UserTaPropType::BinaryBlock => 5,
        }
    }

    /// The number that stands for the variant.
    pub fn value(self) -> (r: u32)
        ensures
            r == self.code(),
    {
        match self {
            UserTaPropType::Bool => 0,
            UserTaPropType::U32 => 1,
            UserTaPropType::Uuid => 2,
            UserTaPropType::Identity => 3,
            UserTaPropType::String => 4,
            UserTaPropType::BinaryBlock => 5,
        }
    }

}

/// The commands of OP-TEE messages.
#[derive(Clone, Copy, PartialEq, Eq, Debug, Structural)]
pub enum OpteeMessageCommand {
    OpenSession,
    InvokeCommand,
    CloseSession,
    Cancel,
    RegisterShm,
    UnregisterShm,
    DoBottomHalf,
    StopAsyncNotif,
}

impl OpteeMessageCommand {
    /// The number that stands for the variant.
    pub open spec fn code(self) -> u32 {
        match self {
            OpteeMessageCommand::OpenSession => 0,
            OpteeMessageCommand::InvokeCommand => 1,
            OpteeMessageCommand::CloseSession => 2,
            OpteeMessageCommand::Cancel => 3,
            OpteeMessageCommand::RegisterShm => 4,
            OpteeMessageCommand::UnregisterShm => 5,
            OpteeMessageCommand::DoBottomHalf => 6,
            OpteeMessageCommand::StopAsyncNotif => 7,
        }
    }

    /// The number that stands for the variant.
    pub fn value(self) -> (r: u32)
        ensures
            r == self.code(),
    {
        match self {
            OpteeMessageCommand::OpenSession => 0,
            OpteeMessageCommand::InvokeCommand => 1,
            OpteeMessageCommand::CloseSession => 2,
            OpteeMessageCommand::Cancel => 3,
            OpteeMessageCommand::RegisterShm => 4,
            OpteeMessageCommand::UnregisterShm => 5,
            OpteeMessageCommand::DoBottomHalf => 6,
            OpteeMessageCommand::StopAsyncNotif => 7,
        }
    }

    /// The variant that `code` stands for, if there is one.
    pub fn from_code(code: u32) -> (r: Option<Self>)
        ensures
            match r {
                Some(v) => v.code() == code,
                None => forall|other: OpteeMessageCommand| #[trigger] other.code() != code,
            },
    {
        match code {
            0 => Some(OpteeMessageCommand::OpenSession),
            1 => Some(OpteeMessageCommand::InvokeCommand),
            2 => Some(OpteeMessageCommand::CloseSession),
            3 => Some(OpteeMessageCommand::Cancel),
            4 => Some(OpteeMessageCommand::RegisterShm),
            5 => Some(OpteeMessageCommand::UnregisterShm),
            6 => Some(OpteeMessageCommand::DoBottomHalf),
            7 => Some(OpteeMessageCommand::StopAsyncNotif),
            _ => None,
        }
    }

}

/// The types of the parameters of OP-TEE messages.
#[derive(Clone, Copy, PartialEq, Eq, Debug, Structural)]
pub enum OpteeMsgAttrType {
    Empty,
    ValueInput,
    ValueOutput,
    ValueInout,
    RmemInput,
    RmemOutput,
    RmemInout,
    TmemInput,
    TmemOutput,
    TmemInout,
}

impl OpteeMsgAttrType {
    /// The number that stands for the variant.
    pub open spec fn code(self) -> u8 {
        match self {
            OpteeMsgAttrType::Empty => 0x0,
            OpteeMsgAttrType::ValueInput => 0x1,
            OpteeMsgAttrType::ValueOutput => 0x2,
            OpteeMsgAttrType::ValueInout => 0x3,
            OpteeMsgAttrType::RmemInput => 0x5,
            OpteeMsgAttrType::RmemOutput => 0x6,
            OpteeMsgAttrType::RmemInout => 0x7,
            OpteeMsgAttrType::TmemInput => 0x9,
            OpteeMsgAttrType::TmemOutput => 0xa,
            OpteeMsgAttrType::TmemInout => 0xb,
        }
    }

    /// The number that stands for the variant.
    pub fn value(self) -> (r: u8)
        ensures
            r == self.code(),
    {
        match self {
            OpteeMsgAttrType::Empty => 0x0,
            OpteeMsgAttrType::ValueInput => 0x1,
            OpteeMsgAttrType::ValueOutput => 0x2,
            OpteeMsgAttrType::ValueInout => 0x3,
            OpteeMsgAttrType::RmemInput => 0x5,
            OpteeMsgAttrType::RmemOutput => 0x6,
            OpteeMsgAttrType::RmemInout => 0x7,
            OpteeMsgAttrType::TmemInput => 0x9,
            OpteeMsgAttrType::TmemOutput => 0xa,
            OpteeMsgAttrType::TmemInout => 0xb,
        }
    }

    /// The variant that `code` stands for, if there is one.
    pub fn from_code(code: u8) -> (r: Option<Self>)
        ensures
            match r {
                Some(v) => v.code() == code,
                None => forall|other: OpteeMsgAttrType| #[trigger] other.code() != code,
            },
    {
        match code {
            0x0 => Some(OpteeMsgAttrType::Empty),
            0x1 => Some(OpteeMsgAttrType::ValueInput),
            0x2 => Some(OpteeMsgAttrType::ValueOutput),
            0x3 => Some(OpteeMsgAttrType::ValueInout),
            0x5 => Some(OpteeMsgAttrType::RmemInput),
            0x6 => Some(OpteeMsgAttrType::RmemOutput),
            0x7 => Some(OpteeMsgAttrType::RmemInout),
            0x9 => Some(OpteeMsgAttrType::TmemInput),
            0xa => Some(OpteeMsgAttrType::TmemOutput),
            0xb => Some(OpteeMsgAttrType::TmemInout),
            _ => None,
        }
    }

}

/// The functions of OP-TEE SMC calls.
#[derive(Clone, Copy, PartialEq, Eq, Debug, Structural)]
pub enum OpteeSmcFunction {
    GetOsUuid,
    GetOsRevision,
    CallWithArg,
    ExchangeCapabilities,
    DisableShmCache,
    CallWithRpcArg,
    CallWithRegdArg,
    CallsUid,
    CallsRevision,
}

impl OpteeSmcFunction {
    /// The number that stands for the variant.
    pub open spec fn code(self) -> usize {
        match self {
            OpteeSmcFunction::GetOsUuid => 0x0,
            OpteeSmcFunction::GetOsRevision => 0x1,
            OpteeSmcFunction::CallWithArg => 0x4,
            OpteeSmcFunction::ExchangeCapabilities => 0x9,
            OpteeSmcFunction::DisableShmCache => 0xa,
            OpteeSmcFunction::CallWithRpcArg => 0x12,
            OpteeSmcFunction::CallWithRegdArg => 0x13,
            OpteeSmcFunction::CallsUid => 0xff01,
            OpteeSmcFunction::CallsRevision => 0xff03,
        }
    }

    /// The number that stands for the variant.
    pub fn value(self) -> (r: usize)
        ensures
            r == self.code(),
    {
        match self {
            OpteeSmcFunction::GetOsUuid => 0x0,
            OpteeSmcFunction::GetOsRevision => 0x1,
            OpteeSmcFunction::CallWithArg => 0x4,
            OpteeSmcFunction::ExchangeCapabilities => 0x9,
            OpteeSmcFunction::DisableShmCache => 0xa,
            OpteeSmcFunction::CallWithRpcArg => 0x12,
            OpteeSmcFunction::CallWithRegdArg => 0x13,
            OpteeSmcFunction::CallsUid => 0xff01,
            OpteeSmcFunction::CallsRevision => 0xff03,
        }
    }

    /// The variant that `code` stands for, if there is one.
    pub fn from_code(code: usize) -> (r: Option<Self>)
        ensures
            match r {
                Some(v) => v.code() == code,
                None => forall|other: OpteeSmcFunction| #[trigger] other.code() != code,
            },
    {
        match code {
            0x0 => Some(OpteeSmcFunction::GetOsUuid),
            0x1 => Some(OpteeSmcFunction::GetOsRevision),
            0x4 => Some(OpteeSmcFunction::CallWithArg),
            0x9 => Some(OpteeSmcFunction::ExchangeCapabilities),
            0xa => Some(OpteeSmcFunction::DisableShmCache),
            0x12 => Some(OpteeSmcFunction::CallWithRpcArg),
            0x13 => Some(OpteeSmcFunction::CallWithRegdArg),
            0xff01 => Some(OpteeSmcFunction::CallsUid),
            0xff03 => Some(OpteeSmcFunction::CallsRevision),
            _ => None,
        }
    }

}

/// The return codes of OP-TEE SMC calls.
#[derive(Clone, Copy, PartialEq, Eq, Debug, Structural)]
pub enum OpteeSmcReturnCode {
    Success,
    EThreadLimit,
    EBusy,
    EResume,
    EBadAddr,
    EBadCmd,
    ENomem,
    ENotAvail,
    UnknownFunction,
}

impl OpteeSmcReturnCode {
    /// The number that stands for the variant.
    pub open spec fn code(self) -> usize {
        match self {
            OpteeSmcReturnCode::Success => 0x0,
            OpteeSmcReturnCode::EThreadLimit => 0x1,
            OpteeSmcReturnCode::EBusy => 0x2,
            OpteeSmcReturnCode::EResume => 0x3,
            OpteeSmcReturnCode::EBadAddr => 0x4,
            OpteeSmcReturnCode::EBadCmd => 0x5,
            OpteeSmcReturnCode::ENomem => 0x6,
            OpteeSmcReturnCode::ENotAvail => 0x7,
            OpteeSmcReturnCode::UnknownFunction => 0xffff_ffff,
        }
    }

    /// The number that stands for the variant.
    pub fn value(self) -> (r: usize)
        ensures
            r == self.code(),
    {
        match self {
            OpteeSmcReturnCode::Success => 0x0,
            OpteeSmcReturnCode::EThreadLimit => 0x1,
            OpteeSmcReturnCode::EBusy => 0x2,
            OpteeSmcReturnCode::EResume => 0x3,
            OpteeSmcReturnCode::EBadAddr => 0x4,
            OpteeSmcReturnCode::EBadCmd => 0x5,
            OpteeSmcReturnCode::ENomem => 0x6,
            OpteeSmcReturnCode::ENotAvail => 0x7,
            OpteeSmcReturnCode::UnknownFunction => 0xffff_ffff,
        }
    }

    /// The variant that `code` stands for, if there is one.
    pub fn from_code(code: usize) -> (r: Option<Self>)
        ensures
            match r {
                Some(v) => v.code() == code,
                None => forall|other: OpteeSmcReturnCode| #[trigger] other.code() != code,
            },
    {
        match code {
            0x0 => Some(OpteeSmcReturnCode::Success),
            0x1 => Some(OpteeSmcReturnCode::EThreadLimit),
            0x2 => Some(OpteeSmcReturnCode::EBusy),
            0x3 => Some(OpteeSmcReturnCode::EResume),
            0x4 => Some(OpteeSmcReturnCode::EBadAddr),
            0x5 => Some(OpteeSmcReturnCode::EBadCmd),
            0x6 => Some(OpteeSmcReturnCode::ENomem),
            0x7 => Some(OpteeSmcReturnCode::ENotAvail),
            0xffff_ffff => Some(OpteeSmcReturnCode::UnknownFunction),
            _ => None,
        }
    }

}

/// The login type that a client presents by number, if the number is one of
/// those that a client can present.
pub open spec fn login_of(code: u32) -> Option<TeeLogin> {
    if code == 0 {
        Some(TeeLogin::Public)
    } else if code == 1 {
        Some(TeeLogin::User)
    } else if code == 2 {
        Some(TeeLogin::Group)
    } else if code == 4 {
        Some(TeeLogin::Application)
    } else if code == 5 {
        Some(TeeLogin::ApplicationUser)
    } else if code == 6 {
        Some(TeeLogin::ApplicationGroup)
    } else if code == 0xf000_0000 {
        Some(TeeLogin::TrustedApp)
    } else {
        None
    }
}

impl TeeLogin {
    /// The login type that `code` stands for, if there is one.
    pub fn from_code(code: u32) -> (r: Option<Self>)
        ensures
            r == login_of(code),
    {
        match code {
            0 => Some(TeeLogin::Public),
            1 => Some(TeeLogin::User),
            2 => Some(TeeLogin::Group),
            4 => Some(TeeLogin::Application),
            5 => Some(TeeLogin::ApplicationUser),
            6 => Some(TeeLogin::ApplicationGroup),
            0xf000_0000 => Some(TeeLogin::TrustedApp),
            _ => None,
        }
    }
}

impl From<TeeResult> for u32 {
    fn from(res: TeeResult) -> (r: u32) {
        res.value()
    }
}

impl vstd::std_specs::convert::FromSpecImpl<TeeResult> for u32 {
    open spec fn obeys_from_spec() -> bool {
        true
    }

    open spec fn from_spec(res: TeeResult) -> u32 {
        res.code()
    }
}

/// The class that an algorithm belongs to.
pub open spec fn class_of(algo: TeeAlgorithm) -> TeeAlgorithmClass {
    match algo {
        TeeAlgorithm::AesCtr => TeeAlgorithmClass::Cipher,
        TeeAlgorithm::AesGcm => TeeAlgorithmClass::Cipher,
        TeeAlgorithm::HmacSha256 => TeeAlgorithmClass::Mac,
        TeeAlgorithm::HmacSha512 => TeeAlgorithmClass::Mac,
        TeeAlgorithm::RsaPkcs1Sha256 => TeeAlgorithmClass::AsymmetricSignature,
        TeeAlgorithm::RsaPkcs1Sha512 => TeeAlgorithmClass::AsymmetricSignature,
        TeeAlgorithm::IllegalValue => TeeAlgorithmClass::Unknown,
    }
}

impl From<TeeAlgorithm> for TeeAlgorithmClass {
    fn from(algo: TeeAlgorithm) -> (r: TeeAlgorithmClass) {
        match algo {
            TeeAlgorithm::AesCtr | TeeAlgorithm::AesGcm => TeeAlgorithmClass::Cipher,
            TeeAlgorithm::HmacSha256 | TeeAlgorithm::HmacSha512 => TeeAlgorithmClass::Mac,
            TeeAlgorithm::RsaPkcs1Sha256 | TeeAlgorithm::RsaPkcs1Sha512 => {
                TeeAlgorithmClass::AsymmetricSignature
            },
            _ => TeeAlgorithmClass::Unknown,
        }
    }
}

impl vstd::std_specs::convert::FromSpecImpl<TeeAlgorithm> for TeeAlgorithmClass {
    open spec fn obeys_from_spec() -> bool {
        true
    }

    open spec fn from_spec(algo: TeeAlgorithm) -> TeeAlgorithmClass {
        class_of(algo)
    }
}

/// The error number that stands for an SMC return code.
pub open spec fn errno_of(ret: OpteeSmcReturnCode) -> Errno {
    match ret {
        OpteeSmcReturnCode::EBusy => Errno::EBUSY,
        OpteeSmcReturnCode::EThreadLimit => Errno::EBUSY,
        OpteeSmcReturnCode::EResume => Errno::EAGAIN,
        OpteeSmcReturnCode::EBadAddr => Errno::EFAULT,
        OpteeSmcReturnCode::ENomem => Errno::ENOMEM,
        OpteeSmcReturnCode::ENotAvail => Errno::ENOENT,
        OpteeSmcReturnCode::Success => Errno::EINVAL,
        OpteeSmcReturnCode::EBadCmd => Errno::EINVAL,
        OpteeSmcReturnCode::UnknownFunction => Errno::EINVAL,
    }
}

impl From<OpteeSmcReturnCode> for Errno {
    fn from(ret: OpteeSmcReturnCode) -> (r: Errno) {
        match ret {
            OpteeSmcReturnCode::EBusy | OpteeSmcReturnCode::EThreadLimit => Errno::EBUSY,
            OpteeSmcReturnCode::EResume => Errno::EAGAIN,
            OpteeSmcReturnCode::EBadAddr => Errno::EFAULT,
            OpteeSmcReturnCode::ENomem => Errno::ENOMEM,
            OpteeSmcReturnCode::ENotAvail => Errno::ENOENT,
            _ => Errno::EINVAL,
        }
    }
}

impl vstd::std_specs::convert::FromSpecImpl<OpteeSmcReturnCode> for Errno {
    open spec fn obeys_from_spec() -> bool {
        true
    }

    open spec fn from_spec(ret: OpteeSmcReturnCode) -> Errno {
        errno_of(ret)
    }
}

/// The entry point of a TA that a message command asks for; `EBadCmd` for the
/// commands that no TA handles.
pub open spec fn entry_func_of(cmd: OpteeMessageCommand) -> Result<
    UteeEntryFunc,
    OpteeSmcReturnCode,
> {
    match cmd {
        OpteeMessageCommand::OpenSession => Ok(UteeEntryFunc::OpenSession),
        OpteeMessageCommand::CloseSession => Ok(UteeEntryFunc::CloseSession),
        OpteeMessageCommand::InvokeCommand => Ok(UteeEntryFunc::InvokeCommand),
        _ => Err(OpteeSmcReturnCode::EBadCmd),
    }
}

impl TryFrom<OpteeMessageCommand> for UteeEntryFunc {
    type Error = OpteeSmcReturnCode;

    fn try_from(cmd: OpteeMessageCommand) -> (r: Result<UteeEntryFunc, OpteeSmcReturnCode>) {
        match cmd {
            OpteeMessageCommand::OpenSession => Ok(UteeEntryFunc::OpenSession),
            OpteeMessageCommand::CloseSession => Ok(UteeEntryFunc::CloseSession),
            OpteeMessageCommand::InvokeCommand => Ok(UteeEntryFunc::InvokeCommand),
            _ => Err(OpteeSmcReturnCode::EBadCmd),
        }
    }
}

impl vstd::std_specs::convert::TryFromSpecImpl<OpteeMessageCommand> for UteeEntryFunc {
    open spec fn obeys_try_from_spec() -> bool {
        true
    }

    open spec fn try_from_spec(cmd: OpteeMessageCommand) -> Result<
        UteeEntryFunc,
        OpteeSmcReturnCode,
    > {
        entry_func_of(cmd)
    }
}

/// The identifier of an object attribute. A value need not be one of those that are known.
#[derive(Clone, Copy, PartialEq, Eq, Debug, Structural)]
pub struct TeeAttributeType {
    pub code: u32,
}

impl TeeAttributeType {
    /// `SECRET_VALUE`.
    pub const SECRET_VALUE: u32 = 0xc000_0000;

    /// `RSA_MODULUS`.
    pub const RSA_MODULUS: u32 = 0xd000_0130;

    /// `RSA_PUBLIC_EXPONENT`.
    pub const RSA_PUBLIC_EXPONENT: u32 = 0xd000_0230;

    /// `RSA_PRIVATE_EXPONENT`.
    pub const RSA_PRIVATE_EXPONENT: u32 = 0xc000_0330;

    /// `RSA_PRIME1`.
    pub const RSA_PRIME1: u32 = 0xc000_0430;

    /// `RSA_PRIME2`.
    pub const RSA_PRIME2: u32 = 0xc000_0530;

    /// `RSA_EXPONENT1`.
    pub const RSA_EXPONENT1: u32 = 0xc000_0630;

    /// `RSA_EXPONENT2`.
    pub const RSA_EXPONENT2: u32 = 0xc000_0730;

    /// `RSA_COEFFICIENT`.
    pub const RSA_COEFFICIENT: u32 = 0xc000_0830;

    /// `code` is that of a known attribute.
    pub open spec fn known(code: int) -> bool {
        ||| code == 0xc000_0000
        ||| code == 0xd000_0130
        ||| code == 0xd000_0230
        ||| code == 0xc000_0330
        ||| code == 0xc000_0430
        ||| code == 0xc000_0530
        ||| code == 0xc000_0630
        ||| code == 0xc000_0730
        ||| code == 0xc000_0830
    }

    /// The attribute that `value` stands for; `EINVAL` unless it is a known one.
    pub fn try_from_usize(value: usize) -> (r: Result<Self, Errno>)
        ensures
            TeeAttributeType::known(value as int) ==> (r matches Ok(v) && v.code == value),
            !TeeAttributeType::known(value as int) ==> r == Err::<Self, Errno>(Errno::EINVAL),
    {
        if value > 0xffff_ffff {
            return Err(Errno::EINVAL);
        }
        let code: u32 = value as u32;
        match code {
            0xc000_0000 => Ok(TeeAttributeType { code }),
            0xd000_0130 => Ok(TeeAttributeType { code }),
            0xd000_0230 => Ok(TeeAttributeType { code }),
            0xc000_0330 => Ok(TeeAttributeType { code }),
            0xc000_0430 => Ok(TeeAttributeType { code }),
            0xc000_0530 => Ok(TeeAttributeType { code }),
            0xc000_0630 => Ok(TeeAttributeType { code }),
            0xc000_0730 => Ok(TeeAttributeType { code }),
            0xc000_0830 => Ok(TeeAttributeType { code }),
            _ => Err(Errno::EINVAL),
        }
    }

    /// The underlying value.
    pub fn value(&self) -> (r: &u32)
        ensures
            *r == self.code,
    {
        &self.code
    }
}

/// The component that a result comes from. A value need not be one of those that are known.
#[derive(Clone, Copy, PartialEq, Eq, Debug, Structural)]
pub struct TeeOrigin {
    pub code: u32,
}

impl TeeOrigin {
    /// `API`.
    pub const API: u32 = 1;

    /// `COMMS`.
    pub const COMMS: u32 = 2;

    /// `TEE`.
    pub const TEE: u32 = 3;

    /// `TRUSTED_APP`.
    pub const TRUSTED_APP: u32 = 4;

    /// `code` is that of a known origin.
    pub open spec fn known(code: int) -> bool {
        ||| code == 1
        ||| code == 2
        ||| code == 3
        ||| code == 4
    }

    /// The origin that `value` stands for; `EINVAL` unless it is a known one.
    pub fn try_from_usize(value: usize) -> (r: Result<Self, Errno>)
        ensures
            TeeOrigin::known(value as int) ==> (r matches Ok(v) && v.code == value),
            !TeeOrigin::known(value as int) ==> r == Err::<Self, Errno>(Errno::EINVAL),
    {
        if value > 0xffff_ffff {
            return Err(Errno::EINVAL);
        }
        let code: u32 = value as u32;
        match code {
            1 => Ok(TeeOrigin { code }),
            2 => Ok(TeeOrigin { code }),
            3 => Ok(TeeOrigin { code }),
            4 => Ok(TeeOrigin { code }),
            _ => Err(Errno::EINVAL),
        }
    }

    /// The underlying value.
    pub fn value(&self) -> (r: &u32)
        ensures
            *r == self.code,
    {
        &self.code
    }
}

/// The type of a cryptographic object. A value need not be one of those that are known.
#[derive(Clone, Copy, PartialEq, Eq, Debug, Structural)]
pub struct TeeObjectType {
    pub code: u32,
}

impl TeeObjectType {
    /// `AES`.
    pub const AES: u32 = 0xa000_0010;

    /// `HMAC_SHA256`.
    pub const HMAC_SHA256: u32 = 0xa000_0004;

    /// `HMAC_SHA512`.
    pub const HMAC_SHA512: u32 = 0xa000_0006;

    /// `RSA_PUBLIC_KEY`.
    pub const RSA_PUBLIC_KEY: u32 = 0xa000_0030;

    /// `RSA_KEYPAIR`.
    pub const RSA_KEYPAIR: u32 = 0xa100_0030;

    /// `GENERIC_SECRET`.
    pub const GENERIC_SECRET: u32 = 0xa000_0000;

    /// `CORRUPTED_OBJECT`.
    pub const CORRUPTED_OBJECT: u32 = 0xa000_00be;

    /// `DATA`.
    pub const DATA: u32 = 0xa000_00bf;

    /// `code` is that of a known object type.
    pub open spec fn known(code: int) -> bool {
        ||| code == 0xa000_0010
        ||| code == 0xa000_0004
        ||| code == 0xa000_0006
        ||| code == 0xa000_0030
        ||| code == 0xa100_0030
        ||| code == 0xa000_0000
        ||| code == 0xa000_00be
        ||| code == 0xa000_00bf
    }

    /// The object type that `value` stands for; `EINVAL` unless it is a known one.
    pub fn try_from_usize(value: usize) -> (r: Result<Self, Errno>)
        ensures
            TeeObjectType::known(value as int) ==> (r matches Ok(v) && v.code == value),
            !TeeObjectType::known(value as int) ==> r == Err::<Self, Errno>(Errno::EINVAL),
    {
        if value > 0xffff_ffff {
            return Err(Errno::EINVAL);
        }
        let code: u32 = value as u32;
        match code {
            0xa000_0010 => Ok(TeeObjectType { code }),
            0xa000_0004 => Ok(TeeObjectType { code }),
            0xa000_0006 => Ok(TeeObjectType { code }),
            0xa000_0030 => Ok(TeeObjectType { code }),
            0xa100_0030 => Ok(TeeObjectType { code }),
            0xa000_0000 => Ok(TeeObjectType { code }),
            0xa000_00be => Ok(TeeObjectType { code }),
            0xa000_00bf => Ok(TeeObjectType { code }),
            _ => Err(Errno::EINVAL),
        }
    }

    /// The underlying value.
    pub fn value(&self) -> (r: &u32)
        ensures
            *r == self.code,
    {
        &self.code
    }
}

/// Takes `value` as a 32-bit number; `EINVAL` if it does not fit.
pub fn u32_arg(value: usize) -> (r: Result<u32, Errno>)
    ensures
        value <= u32::MAX ==> (r matches Ok(v) && v == value),
        value > u32::MAX ==> r == Err::<u32, Errno>(Errno::EINVAL),
{
    if value > 0xffff_ffff {
        Err(Errno::EINVAL)
    } else {
        Ok(value as u32)
    }
}

/// The number by which a TA refers to a cryptographic object.
#[derive(Clone, Copy, PartialEq, Eq, Hash, Debug, Structural)]
pub struct TeeObjHandle(pub u32);

impl TeeObjHandle {
    /// The number of the handle of no object.
    pub const NULL: u32 = 0;

    /// Takes `value` as the number; `EINVAL` if it has more than 32 bits.
    pub fn try_from_usize(value: usize) -> (r: Result<Self, Errno>)
        ensures
            value <= u32::MAX ==> (r matches Ok(v) && v.0 == value),
            value > u32::MAX ==> r == Err::<Self, Errno>(Errno::EINVAL),
    {
        match u32_arg(value) {
            Ok(v) => Ok(TeeObjHandle(v)),
            Err(e) => Err(e),
        }
    }
}

/// The number by which a TA refers to a cryptographic state.
#[derive(Clone, Copy, PartialEq, Eq, Hash, Debug, Structural)]
pub struct TeeCrypStateHandle(pub u32);

impl TeeCrypStateHandle {
    /// Takes `value` as the number; `EINVAL` if it has more than 32 bits.
    pub fn try_from_usize(value: usize) -> (r: Result<Self, Errno>)
        ensures
            value <= u32::MAX ==> (r matches Ok(v) && v.0 == value),
            value > u32::MAX ==> r == Err::<Self, Errno>(Errno::EINVAL),
    {
        match u32_arg(value) {
            Ok(v) => Ok(TeeCrypStateHandle(v)),
            Err(e) => Err(e),
        }
    }
}

/// The number of a session between a TA and a client.
#[derive(Clone, Copy, PartialEq, Eq, Hash, Debug, Structural)]
pub struct TaSessionId(pub u32);

impl TaSessionId {
    /// Takes `value` as the number; `EINVAL` if it has more than 32 bits.
    pub fn try_from_usize(value: usize) -> (r: Result<Self, Errno>)
        ensures
            value <= u32::MAX ==> (r matches Ok(v) && v.0 == value),
            value > u32::MAX ==> r == Err::<Self, Errno>(Errno::EINVAL),
    {
        match u32_arg(value) {
            Ok(v) => Ok(TaSessionId(v)),
            Err(e) => Err(e),
        }
    }
}

/// The number of a command that a TA provides.
#[derive(Clone, Copy, PartialEq, Eq, Hash, Debug, Structural)]
pub struct CommandId(pub u32);

impl CommandId {
    /// Takes `value` as the number; `EINVAL` if it has more than 32 bits.
    pub fn try_from_usize(value: usize) -> (r: Result<Self, Errno>)
        ensures
            value <= u32::MAX ==> (r matches Ok(v) && v.0 == value),
            value > u32::MAX ==> r == Err::<Self, Errno>(Errno::EINVAL),
    {
        match u32_arg(value) {
            Ok(v) => Ok(CommandId(v)),
            Err(e) => Err(e),
        }
    }
}

/// Memory access rights. Every bit pattern is kept as it is.
#[derive(Clone, Copy, PartialEq, Eq, Debug, Structural)]
pub struct TeeMemoryAccessRights {
    pub bits: u32,
}

impl TeeMemoryAccessRights {
    pub const TEE_MEMORY_ACCESS_READ: u32 = 0x1;

    pub const TEE_MEMORY_ACCESS_WRITE: u32 = 0x2;

    pub const TEE_MEMORY_ACCESS_ANY_OWNER: u32 = 0x4;

    pub const TEE_MEMORY_ACCESS_NONSECURE: u32 = 0x1000_0000;

    pub const TEE_MEMORY_ACCESS_SECURE: u32 = 0x2000_0000;

    /// The flags with the given bits.
    pub fn from_bits_retain(bits: u32) -> (r: Self)
        ensures
            r.bits == bits,
    {
        TeeMemoryAccessRights { bits }
    }

    /// Takes `value` as the bits; `EINVAL` if it has more than 32 of them.
    pub fn try_from_usize(value: usize) -> (r: Result<Self, Errno>)
        ensures
            value <= u32::MAX ==> (r matches Ok(v) && v.bits == value),
            value > u32::MAX ==> r == Err::<Self, Errno>(Errno::EINVAL),
    {
        match u32_arg(value) {
            Ok(bits) => Ok(TeeMemoryAccessRights { bits }),
            Err(e) => Err(e),
        }
    }

}

/// How ldelf wants a range mapped. Every bit pattern is kept as it is.
#[derive(Clone, Copy, PartialEq, Eq, Debug, Structural)]
pub struct LdelfMapFlags {
    pub bits: usize,
}

impl LdelfMapFlags {
    pub const LDELF_MAP_FLAG_SHAREABLE: usize = 0x1;

    pub const LDELF_MAP_FLAG_WRITEABLE: usize = 0x2;

    pub const LDELF_MAP_FLAG_EXECUTABLE: usize = 0x4;

    /// The flags with the given bits.
    pub fn from_bits_retain(bits: usize) -> (r: Self)
        ensures
            r.bits == bits,
    {
        LdelfMapFlags { bits }
    }

}

/// Memory attributes. Every bit pattern is kept as it is.
#[derive(Clone, Copy, PartialEq, Eq, Debug, Structural)]
pub struct TeeMemAttr {
    pub bits: usize,
}

impl TeeMemAttr {
    pub const TEE_MATTR_VALID_BLOCK: usize = 0x1;

    pub const TEE_MATTR_TABLE: usize = 0x8;

    pub const TEE_MATTR_PR: usize = 0x10;

    pub const TEE_MATTR_PW: usize = 0x20;

    pub const TEE_MATTR_PX: usize = 0x40;

    pub const TEE_MATTR_PRW: usize = 0x30;

    pub const TEE_MATTR_PRWX: usize = 0x70;

    pub const TEE_MATTR_UR: usize = 0x80;

    pub const TEE_MATTR_UW: usize = 0x100;

    pub const TEE_MATTR_UX: usize = 0x200;

    pub const TEE_MATTR_URW: usize = 0x180;

    pub const TEE_MATTR_URWX: usize = 0x380;

    pub const TEE_MATTR_PROT_MASK: usize = 0x3f0;

    pub const TEE_MATTR_GLOBAL: usize = 0x400;

    pub const TEE_MATTR_SECURE: usize = 0x800;

    /// The flags with the given bits.
    pub fn from_bits_retain(bits: usize) -> (r: Self)
        ensures
            r.bits == bits,
    {
        TeeMemAttr { bits }
    }

}

/// What the secure world can do. Every bit pattern is kept as it is.
#[derive(Clone, Copy, PartialEq, Eq, Debug, Structural)]
pub struct OpteeSecureWorldCapabilities {
    pub bits: usize,
}

impl OpteeSecureWorldCapabilities {
    pub const HAVE_RESERVED_SHM: usize = 0x1;

    pub const UNREGISTERED_SHM: usize = 0x2;

    pub const DYNAMIC_SHM: usize = 0x4;

    pub const MEMREF_NULL: usize = 0x10;

    pub const RPC_ARG: usize = 0x40;

    /// The flags with the given bits.
    pub fn from_bits_retain(bits: usize) -> (r: Self)
        ensures
            r.bits == bits,
    {
        OpteeSecureWorldCapabilities { bits }
    }

}

} // verus!
