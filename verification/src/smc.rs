//! OP-TEE SMC calls: up to nine register values that name a function and its
//! arguments, and the register values that answer it.

use vstd::prelude::*;

use crate::codes::{OpteeSecureWorldCapabilities, OpteeSmcFunction, OpteeSmcReturnCode};
use crate::msg::OpteeMsgArgs;
use crate::phys::PhysPointerError;

verus! {

/// The revision of the message interface.
pub const OPTEE_MSG_REVISION_MAJOR: usize = 2;

pub const OPTEE_MSG_REVISION_MINOR: usize = 0;

/// The build of the trusted OS.
pub const OPTEE_MSG_BUILD_ID: usize = 0;

/// The identifier of the message interface, in four words.
pub const OPTEE_MSG_UID_0: u32 = 0x384f_b3e0;

pub const OPTEE_MSG_UID_1: u32 = 0xe7f8_11e3;

pub const OPTEE_MSG_UID_2: u32 = 0xaf63_0002;

pub const OPTEE_MSG_UID_3: u32 = 0xa5d5_c51b;

/// The identifier of the trusted OS, in four words.
pub const OPTEE_MSG_OS_OPTEE_UUID_0: u32 = 0x4861_78e0;

pub const OPTEE_MSG_OS_OPTEE_UUID_1: u32 = 0xe7f8_11e3;

pub const OPTEE_MSG_OS_OPTEE_UUID_2: u32 = 0xbc5e_0002;

pub const OPTEE_MSG_OS_OPTEE_UUID_3: u32 = 0xa5d5_c51b;

/// The highest notification value. There are no notifications.
pub const MAX_NOTIF_VALUE: usize = 0;

/// How many parameters a remote call can have.
pub const NUM_RPC_PARMS: usize = 4;

/// A memory page by which the register values of a call are exchanged.
#[derive(Clone, Copy, PartialEq, Eq, Debug)]
pub struct OpteeSmcArgsPage {
    pub args: [usize; 9],
}

/// The register values of a call.
#[derive(Clone, Copy, PartialEq, Eq, Debug)]
pub struct OpteeSmcArgs {
    pub args: [usize; 9],
}

impl From<&OpteeSmcArgsPage> for OpteeSmcArgs {
    fn from(page: &OpteeSmcArgsPage) -> (r: OpteeSmcArgs) {
        OpteeSmcArgs { args: page.args }
    }
}

impl vstd::std_specs::convert::FromSpecImpl<&OpteeSmcArgsPage> for OpteeSmcArgs {
    open spec fn obeys_from_spec() -> bool {
        true
    }

    open spec fn from_spec(page: &OpteeSmcArgsPage) -> OpteeSmcArgs {
        OpteeSmcArgs { args: page.args }
    }
}

impl Default for OpteeSmcArgs {
    fn default() -> (r: Self)
        ensures
            r.args@ == Seq::new(9, |i: int| 0usize),
    {
        let r = OpteeSmcArgs { args: [0, 0, 0, 0, 0, 0, 0, 0, 0] };
        assert(r.args@ =~= Seq::new(9, |i: int| 0usize));
        r
    }
}

/// `high` and `low` are the two halves of an address.
pub open spec fn are_halves(high: int, low: int) -> bool {
    high < 0x1_0000_0000 && low < 0x1_0000_0000
}

impl OpteeSmcArgs {
    /// The function that the call names by the low 16 bits of its first value;
    /// `EBadCmd` if there is no such function.
    pub fn func_id(&self) -> (r: Result<OpteeSmcFunction, OpteeSmcReturnCode>)
        ensures
            match r {
                Ok(f) => f.code() == self.args[0] % 0x1_0000,
                Err(e) => {
                    &&& e == OpteeSmcReturnCode::EBadCmd
                    &&& forall|other: OpteeSmcFunction| #[trigger]
                        other.code() != self.args[0] % 0x1_0000
                },
            },
    {
        match OpteeSmcFunction::from_code(self.args[0] % 0x1_0000) {
            Some(f) => Ok(f),
            None => Err(OpteeSmcReturnCode::EBadCmd),
        }
    }

    /// The physical address of the message: its high and its low 32 bits are the
    /// second and the third value; `EBadAddr` if one of them has more.
    pub fn optee_msg_args_phys_addr(&self) -> (r: Result<u64, OpteeSmcReturnCode>)
        ensures
            are_halves(self.args[1] as int, self.args[2] as int) ==> (r matches Ok(addr) && addr
                == self.args[1] * 0x1_0000_0000 + self.args[2]),
            !are_halves(self.args[1] as int, self.args[2] as int) ==> r == Err::<
                u64,
                OpteeSmcReturnCode,
            >(OpteeSmcReturnCode::EBadAddr),
    {
        let high: u64 = self.args[1] as u64;
        let low: u64 = self.args[2] as u64;
        if high < 0x1_0000_0000 && low < 0x1_0000_0000 {
            Ok(high * 0x1_0000_0000 + low)
        } else {
            Err(OpteeSmcReturnCode::EBadAddr)
        }
    }

    /// Sets the return code of the call.
    pub fn set_return_code(&mut self, code: OpteeSmcReturnCode)
        ensures
            final(self).args@ == old(self).args@.update(0, code.code()),
    {
        self.args[0] = code.value();
    }

    /// The register values that answer a call. A call that carries a message has no
    /// answer before the message is handled.
    pub fn from_result(value: OpteeSmcResult<'_>) -> (r: OpteeSmcArgs)
        requires
            !(value is CallWithArg),
        ensures
            r.args@ == registers_of(value),
    {
        let mut smc = OpteeSmcArgs::default();
        match value {
            OpteeSmcResult::Generic { status } => {
                smc.args[0] = status.value();
            },
            OpteeSmcResult::ExchangeCapabilities { status, capabilities, max_notif_value, data } => {
                smc.args[0] = status.value();
                smc.args[1] = capabilities.bits;
                smc.args[2] = max_notif_value;
                smc.args[3] = data;
            },
            OpteeSmcResult::Uuid { data } => {
                smc.args[0] = data[0] as usize;
                smc.args[1] = data[1] as usize;
                smc.args[2] = data[2] as usize;
                smc.args[3] = data[3] as usize;
            },
            OpteeSmcResult::Revision { major, minor } => {
                smc.args[0] = major;
                smc.args[1] = minor;
            },
            OpteeSmcResult::OsRevision { major, minor, build_id } => {
                smc.args[0] = major;
                smc.args[1] = minor;
                smc.args[2] = build_id;
            },
            OpteeSmcResult::DisableShmCache { status, shm_upper32, shm_lower32 } => {
                smc.args[0] = status.value();
                smc.args[1] = shm_upper32;
                smc.args[2] = shm_lower32;
            },
            OpteeSmcResult::CallWithArg { .. } => {},
        }
        assert(smc.args@ =~= registers_of(value));
        smc
    }
}

/// The result of a call.
pub enum OpteeSmcResult<'a> {
    Generic { status: OpteeSmcReturnCode },
    ExchangeCapabilities {
        status: OpteeSmcReturnCode,
        capabilities: OpteeSecureWorldCapabilities,
        max_notif_value: usize,
        data: usize,
    },
    Uuid { data: &'a [u32; 4] },
    Revision { major: usize, minor: usize },
    OsRevision { major: usize, minor: usize, build_id: usize },
    DisableShmCache { status: OpteeSmcReturnCode, shm_upper32: usize, shm_lower32: usize },
    CallWithArg { msg_args: Box<OpteeMsgArgs> },
}

/// Nine register values of which the first are `a`, `b`, `c` and `d`.
pub open spec fn registers(a: usize, b: usize, c: usize, d: usize) -> Seq<usize> {
    seq![a, b, c, d, 0usize, 0usize, 0usize, 0usize, 0usize]
}

/// The register values that answer a call.
pub open spec fn registers_of(value: OpteeSmcResult<'_>) -> Seq<usize> {
    match value {
        OpteeSmcResult::Generic { status } => registers(status.code(), 0, 0, 0),
        OpteeSmcResult::ExchangeCapabilities { status, capabilities, max_notif_value, data } =>
        registers(status.code(), capabilities.bits, max_notif_value, data),
        OpteeSmcResult::Uuid { data } => registers(
            data[0] as usize,
            data[1] as usize,
            data[2] as usize,
            data[3] as usize,
        ),
        OpteeSmcResult::Revision { major, minor } => registers(major, minor, 0, 0),
        OpteeSmcResult::OsRevision { major, minor, build_id } => registers(
            major,
            minor,
            build_id,
            0,
        ),
        OpteeSmcResult::DisableShmCache { status, shm_upper32, shm_lower32 } => registers(
            status.code(),
            shm_upper32,
            shm_lower32,
            0,
        ),
        OpteeSmcResult::CallWithArg { .. } => registers(0, 0, 0, 0),
    }
}

/// What is to be done for a call.
pub enum SmcStep {
    /// Answer it with this result.
    Reply(OpteeSmcResult<'static>),
    /// Read the message at this physical address.
    ReadMsgArgs(u64),
}

/// Whether the function is one that carries a message.
pub open spec fn carries_message(f: OpteeSmcFunction) -> bool {
    ||| f == OpteeSmcFunction::CallWithArg
    ||| f == OpteeSmcFunction::CallWithRpcArg
    ||| f == OpteeSmcFunction::CallWithRegdArg
}

/// `result` is the answer to a call of `f`, which carries no message.
pub open spec fn answers(f: OpteeSmcFunction, result: OpteeSmcResult<'_>) -> bool {
    match f {
        OpteeSmcFunction::ExchangeCapabilities => {
            &&& result matches OpteeSmcResult::ExchangeCapabilities {
                status,
                capabilities,
                max_notif_value,
                data,
            }
            &&& status == OpteeSmcReturnCode::Success
            &&& capabilities.bits == 0x54
            &&& max_notif_value == MAX_NOTIF_VALUE
            &&& data == NUM_RPC_PARMS
        },
        OpteeSmcFunction::DisableShmCache => {
            &&& result matches OpteeSmcResult::DisableShmCache { status, shm_upper32, shm_lower32 }
            &&& status == OpteeSmcReturnCode::ENotAvail
            &&& shm_upper32 == 0
            &&& shm_lower32 == 0
        },
        OpteeSmcFunction::GetOsUuid => {
            &&& result matches OpteeSmcResult::Uuid { data }
            &&& data@ == seq![
                OPTEE_MSG_OS_OPTEE_UUID_0,
                OPTEE_MSG_OS_OPTEE_UUID_1,
                OPTEE_MSG_OS_OPTEE_UUID_2,
                OPTEE_MSG_OS_OPTEE_UUID_3,
            ]
        },
        OpteeSmcFunction::CallsUid => {
            &&& result matches OpteeSmcResult::Uuid { data }
            &&& data@ == seq![OPTEE_MSG_UID_0, OPTEE_MSG_UID_1, OPTEE_MSG_UID_2, OPTEE_MSG_UID_3]
        },
        OpteeSmcFunction::GetOsRevision => {
            &&& result matches OpteeSmcResult::OsRevision { major, minor, build_id }
            &&& major == OPTEE_MSG_REVISION_MAJOR
            &&& minor == OPTEE_MSG_REVISION_MINOR
            &&& build_id == OPTEE_MSG_BUILD_ID
        },
        OpteeSmcFunction::CallsRevision => {
            &&& result matches OpteeSmcResult::Revision { major, minor }
            &&& major == OPTEE_MSG_REVISION_MAJOR
            &&& minor == OPTEE_MSG_REVISION_MINOR
        },
        _ => false,
    }
}

/// Handles a call from the normal world: answers it, or says where the message that
/// it carries is to be read.
pub fn handle_optee_smc_args(smc: &OpteeSmcArgs) -> (r: Result<SmcStep, OpteeSmcReturnCode>)
    ensures
        (forall|f: OpteeSmcFunction| #[trigger] f.code() != smc.args[0] % 0x1_0000) ==> (r matches Err(
            e,
        ) && e == OpteeSmcReturnCode::EBadCmd),
        forall|f: OpteeSmcFunction| #[trigger]
            f.code() == smc.args[0] % 0x1_0000 ==> if !carries_message(f) {
                r matches Ok(SmcStep::Reply(result)) && answers(f, result)
            } else if are_halves(smc.args[1] as int, smc.args[2] as int) {
                r matches Ok(SmcStep::ReadMsgArgs(addr)) && addr == smc.args[1] * 0x1_0000_0000
                    + smc.args[2]
            } else {
                r matches Err(e) && e == OpteeSmcReturnCode::EBadAddr
            },
{
    let func_id = match smc.func_id() {
        Ok(func_id) => func_id,
        Err(error) => {
            return Err(error);
        },
    };
    assert(forall|f: OpteeSmcFunction| #[trigger] f.code() == func_id.code() ==> f == func_id);
    match func_id {
        OpteeSmcFunction::CallWithArg
        | OpteeSmcFunction::CallWithRpcArg
        | OpteeSmcFunction::CallWithRegdArg => match smc.optee_msg_args_phys_addr() {
            Ok(msg_args_addr) => Ok(SmcStep::ReadMsgArgs(msg_args_addr)),
            Err(error) => Err(error),
        },
        OpteeSmcFunction::ExchangeCapabilities => {
            let bits: usize = OpteeSecureWorldCapabilities::DYNAMIC_SHM
                | OpteeSecureWorldCapabilities::MEMREF_NULL
                | OpteeSecureWorldCapabilities::RPC_ARG;
            assert(0x4usize | 0x10usize | 0x40usize == 0x54usize) by (bit_vector);
            Ok(
                SmcStep::Reply(
                    OpteeSmcResult::ExchangeCapabilities {
                        status: OpteeSmcReturnCode::Success,
                        capabilities: OpteeSecureWorldCapabilities { bits },
                        max_notif_value: MAX_NOTIF_VALUE,
                        data: NUM_RPC_PARMS,
                    },
                ),
            )
        },
        OpteeSmcFunction::DisableShmCache => Ok(
            SmcStep::Reply(
                OpteeSmcResult::DisableShmCache {
                    status: OpteeSmcReturnCode::ENotAvail,
                    shm_upper32: 0,
                    shm_lower32: 0,
                },
            ),
        ),
        OpteeSmcFunction::GetOsUuid => {
            let data: &'static [u32; 4] = &[
                OPTEE_MSG_OS_OPTEE_UUID_0,
                OPTEE_MSG_OS_OPTEE_UUID_1,
                OPTEE_MSG_OS_OPTEE_UUID_2,
                OPTEE_MSG_OS_OPTEE_UUID_3,
            ];
            assert(data@ =~= seq![
                OPTEE_MSG_OS_OPTEE_UUID_0,
                OPTEE_MSG_OS_OPTEE_UUID_1,
                OPTEE_MSG_OS_OPTEE_UUID_2,
                OPTEE_MSG_OS_OPTEE_UUID_3,
            ]);
            Ok(SmcStep::Reply(OpteeSmcResult::Uuid { data }))
        },
        OpteeSmcFunction::CallsUid => {
            let data: &'static [u32; 4] = &[
                OPTEE_MSG_UID_0,
                OPTEE_MSG_UID_1,
                OPTEE_MSG_UID_2,
                OPTEE_MSG_UID_3,
            ];
            assert(data@ =~= seq![
                OPTEE_MSG_UID_0,
                OPTEE_MSG_UID_1,
                OPTEE_MSG_UID_2,
                OPTEE_MSG_UID_3,
            ]);
            Ok(SmcStep::Reply(OpteeSmcResult::Uuid { data }))
        },
        OpteeSmcFunction::GetOsRevision => Ok(
            SmcStep::Reply(
                OpteeSmcResult::OsRevision {
                    major: OPTEE_MSG_REVISION_MAJOR,
                    minor: OPTEE_MSG_REVISION_MINOR,
                    build_id: OPTEE_MSG_BUILD_ID,
                },
            ),
        ),
        OpteeSmcFunction::CallsRevision => Ok(
            SmcStep::Reply(
                OpteeSmcResult::Revision {
                    major: OPTEE_MSG_REVISION_MAJOR,
                    minor: OPTEE_MSG_REVISION_MINOR,
                },
            ),
        ),
    }
}

/// Takes the message that a call carries; `EBadAddr` if it could not be read.
pub fn take_msg_args(read: Result<OpteeMsgArgs, PhysPointerError>) -> (r: Result<
    OpteeSmcResult<'static>,
    OpteeSmcReturnCode,
>)
    ensures
        match read {
            Ok(args) => r matches Ok(OpteeSmcResult::CallWithArg { msg_args }) && *msg_args == args,
            Err(_) => r matches Err(e) && e == OpteeSmcReturnCode::EBadAddr,
        },
{
    match read {
        Ok(msg_args) => Ok(OpteeSmcResult::CallWithArg { msg_args: Box::new(msg_args) }),
        Err(_) => Err(OpteeSmcReturnCode::EBadAddr),
    }
}

/// An address that is passed in halves is put together again as it was.
pub proof fn law_address_halves(addr: u64)
    ensures
        are_halves(addr as int / 0x1_0000_0000, addr as int % 0x1_0000_0000),
        (addr as int / 0x1_0000_0000) * 0x1_0000_0000 + addr as int % 0x1_0000_0000 == addr,
{
}

/// A call is told by the remainder of its first value by 65536: each number asks for its
/// own answer, three numbers for a message, and all others are bad commands.
pub proof fn law_calls_by_number(
    smc: OpteeSmcArgs,
    r: Result<SmcStep, OpteeSmcReturnCode>,
    answer: OpteeSmcArgs,
)
    requires
        call_ensures(handle_optee_smc_args, (&smc,), r),
        r matches Ok(SmcStep::Reply(result)) ==> call_ensures(
            OpteeSmcArgs::from_result,
            (result,),
            answer,
        ),
    ensures
        ({
            let number = smc.args@[0] % 0x1_0000;
            let replies = r matches Ok(SmcStep::Reply(_));
            let out = answer.args@;
            &&& replies <==> {
                ||| number == 0
                ||| number == 1
                ||| number == 9
                ||| number == 10
                ||| number == 0xff01
                ||| number == 0xff03
            }
            &&& replies ==> out.len() == 9 && out.subrange(4, 9) == seq![
                0usize,
                0usize,
                0usize,
                0usize,
                0usize,
            ]
            &&& number == 0 ==> out.take(4) == seq![
                0x4861_78e0usize,
                0xe7f8_11e3usize,
                0xbc5e_0002usize,
                0xa5d5_c51busize,
            ]
            &&& number == 1 ==> out.take(4) == seq![2usize, 0usize, 0usize, 0usize]
            &&& number == 9 ==> out.take(4) == seq![0usize, 0x54usize, 0usize, 4usize]
            &&& number == 10 ==> out.take(4) == seq![7usize, 0usize, 0usize, 0usize]
            &&& number == 0xff01 ==> out.take(4) == seq![
                0x384f_b3e0usize,
                0xe7f8_11e3usize,
                0xaf63_0002usize,
                0xa5d5_c51busize,
            ]
            &&& number == 0xff03 ==> out.take(4) == seq![2usize, 0usize, 0usize, 0usize]
            &&& number == 4 || number == 18 || number == 19 ==> !replies
            &&& !replies && !(number == 4 || number == 18 || number == 19) ==> (r matches Err(e)
                && e == OpteeSmcReturnCode::EBadCmd)
        }),
{
    assert(smc.args[0] == smc.args@[0]);
    assert(OpteeSmcFunction::GetOsUuid.code() == 0);
    assert(OpteeSmcFunction::GetOsRevision.code() == 1);
    assert(OpteeSmcFunction::CallWithArg.code() == 4);
    assert(OpteeSmcFunction::ExchangeCapabilities.code() == 9);
    assert(OpteeSmcFunction::DisableShmCache.code() == 10);
    assert(OpteeSmcFunction::CallWithRpcArg.code() == 18);
    assert(OpteeSmcFunction::CallWithRegdArg.code() == 19);
    assert(OpteeSmcFunction::CallsUid.code() == 0xff01);
    assert(OpteeSmcFunction::CallsRevision.code() == 0xff03);
    if let Ok(SmcStep::Reply(result)) = r {
        assert(answer.args@ == registers_of(result));
        assert(answer.args@.subrange(4, 9) =~= seq![0usize, 0usize, 0usize, 0usize, 0usize]);
        assert(answer.args@.take(4) =~= seq![
            answer.args@[0],
            answer.args@[1],
            answer.args@[2],
            answer.args@[3],
        ]);
        if let OpteeSmcResult::Uuid { data } = result {
            assert(data[0] == data@[0]);
            assert(data[1] == data@[1]);
            assert(data[2] == data@[2]);
            assert(data[3] == data@[3]);
        }
    }
}

/// The calls that carry a message name its address: the second value times 2 to the 32
/// plus the third. Where one of the two takes more than 32 bits the address is bad. The
/// address itself is given back alike.
pub proof fn law_message_address(
    smc: OpteeSmcArgs,
    r: Result<SmcStep, OpteeSmcReturnCode>,
    address: Result<u64, OpteeSmcReturnCode>,
)
    requires
        smc.args@[0] % 0x1_0000 == 4 || smc.args@[0] % 0x1_0000 == 18 || smc.args@[0] % 0x1_0000
            == 19,
        call_ensures(handle_optee_smc_args, (&smc,), r),
        call_ensures(OpteeSmcArgs::optee_msg_args_phys_addr, (&smc,), address),
    ensures
        smc.args@[1] <= 0xffff_ffff && smc.args@[2] <= 0xffff_ffff ==> {
            &&& address matches Ok(a) && a == smc.args@[1] * 0x1_0000_0000 + smc.args@[2]
            &&& r matches Ok(SmcStep::ReadMsgArgs(a)) && a == smc.args@[1] * 0x1_0000_0000
                + smc.args@[2]
        },
        smc.args@[1] > 0xffff_ffff || smc.args@[2] > 0xffff_ffff ==> {
            &&& address matches Err(e) && e == OpteeSmcReturnCode::EBadAddr
            &&& r matches Err(e) && e == OpteeSmcReturnCode::EBadAddr
        },
{
    assert(smc.args[0] == smc.args@[0]);
    assert(smc.args[1] == smc.args@[1]);
    assert(smc.args[2] == smc.args@[2]);
    assert(OpteeSmcFunction::CallWithArg.code() == 4);
    assert(OpteeSmcFunction::CallWithRpcArg.code() == 18);
    assert(OpteeSmcFunction::CallWithRegdArg.code() == 19);
}

/// An address that is passed in halves is read where it was, whatever the high bits of
/// the first value are.
pub proof fn law_address_is_passed_on(
    smc: OpteeSmcArgs,
    addr: u64,
    r: Result<u64, OpteeSmcReturnCode>,
)
    requires
        smc.args@[1] == addr as int / 0x1_0000_0000,
        smc.args@[2] == addr as int % 0x1_0000_0000,
        call_ensures(OpteeSmcArgs::optee_msg_args_phys_addr, (&smc,), r),
    ensures
        r == Ok::<u64, OpteeSmcReturnCode>(addr),
{
    assert(smc.args[1] == smc.args@[1]);
    assert(smc.args[2] == smc.args@[2]);
}

/// The function of a call is the one whose number is the remainder of the first value by
/// 65536; the rest of the value does not matter.
pub proof fn law_function_of_a_call(
    smc: OpteeSmcArgs,
    r: Result<OpteeSmcFunction, OpteeSmcReturnCode>,
    code: usize,
    of_code: Option<OpteeSmcFunction>,
)
    requires
        call_ensures(OpteeSmcArgs::func_id, (&smc,), r),
        call_ensures(OpteeSmcFunction::from_code, (code,), of_code),
        code == smc.args@[0] % 0x1_0000,
    ensures
        r == match of_code {
            Some(f) => Ok(f),
            None => Err::<OpteeSmcFunction, OpteeSmcReturnCode>(OpteeSmcReturnCode::EBadCmd),
        },
{
    assert(smc.args[0] == smc.args@[0]);
    if let Ok(f) = r {
        assert(f.code() == code);
    }
    if let Some(f) = of_code {
        assert(f.code() == code);
    }
}

/// Each result stands in the registers in the order of its parts, and the registers after
/// them are zero.
pub proof fn law_results_in_registers(
    status: OpteeSmcReturnCode,
    n: usize,
    a: usize,
    b: usize,
    c: usize,
    generic: OpteeSmcArgs,
    exchange: OpteeSmcArgs,
    revision: OpteeSmcArgs,
    os_revision: OpteeSmcArgs,
    disable: OpteeSmcArgs,
)
    requires
        call_ensures(OpteeSmcReturnCode::value, (status,), n),
        call_ensures(OpteeSmcArgs::from_result, (OpteeSmcResult::Generic { status },), generic),
        call_ensures(
            OpteeSmcArgs::from_result,
            (OpteeSmcResult::ExchangeCapabilities {
                status,
                capabilities: OpteeSecureWorldCapabilities { bits: a },
                max_notif_value: b,
                data: c,
            },),
            exchange,
        ),
        call_ensures(
            OpteeSmcArgs::from_result,
            (OpteeSmcResult::Revision { major: a, minor: b },),
            revision,
        ),
        call_ensures(
            OpteeSmcArgs::from_result,
            (OpteeSmcResult::OsRevision { major: a, minor: b, build_id: c },),
            os_revision,
        ),
        call_ensures(
            OpteeSmcArgs::from_result,
            (OpteeSmcResult::DisableShmCache { status, shm_upper32: a, shm_lower32: b },),
            disable,
        ),
    ensures
        generic.args@ =~= seq![n, 0, 0, 0, 0, 0, 0, 0, 0],
        exchange.args@ =~= seq![n, a, b, c, 0, 0, 0, 0, 0],
        revision.args@ =~= seq![a, b, 0, 0, 0, 0, 0, 0, 0],
        os_revision.args@ =~= seq![a, b, c, 0, 0, 0, 0, 0, 0],
        disable.args@ =~= seq![n, a, b, 0, 0, 0, 0, 0, 0],
{
}

/// An identifier stands in the first four registers, word by word.
pub proof fn law_uuid_in_registers(data: &[u32; 4], answer: OpteeSmcArgs, i: int)
    requires
        call_ensures(OpteeSmcArgs::from_result, (OpteeSmcResult::Uuid { data },), answer),
        0 <= i < 9,
    ensures
        answer.args@[i] == if i < 4 {
            data@[i] as usize
        } else {
            0
        },
{
    assert(data[0] == data@[0]);
    assert(data[1] == data@[1]);
    assert(data[2] == data@[2]);
    assert(data[3] == data@[3]);
}

/// Setting the return code changes the first register to the number of the code, and no
/// other.
pub proof fn law_return_code_is_set(
    smc: &mut OpteeSmcArgs,
    code: OpteeSmcReturnCode,
    n: usize,
    i: int,
)
    requires
        call_ensures(OpteeSmcArgs::set_return_code, (smc, code), ()),
        call_ensures(OpteeSmcReturnCode::value, (code,), n),
        0 < i < 9,
    ensures
        final(smc).args@[0] == n,
        final(smc).args@[i] == old(smc).args@[i],
{
}

/// The values of a call come from the page as they stand there; a fresh call has only
/// zeros.
pub proof fn law_values_come_from_the_page(
    page: OpteeSmcArgsPage,
    smc: OpteeSmcArgs,
    fresh: OpteeSmcArgs,
    i: int,
)
    requires
        call_ensures(<OpteeSmcArgs as From<&OpteeSmcArgsPage>>::from, (&page,), smc),
        call_ensures(<OpteeSmcArgs as Default>::default, (), fresh),
        0 <= i < 9,
    ensures
        smc.args@[i] == page.args@[i],
        fresh.args@[i] == 0,
{
}

/// A message that was read is handed on; one that was not has a bad address.
pub proof fn law_message_is_taken(
    read: Result<OpteeMsgArgs, PhysPointerError>,
    r: Result<OpteeSmcResult<'static>, OpteeSmcReturnCode>,
)
    requires
        call_ensures(take_msg_args, (read,), r),
    ensures
        read is Ok ==> (r matches Ok(OpteeSmcResult::CallWithArg { msg_args }) && *msg_args
            == read->Ok_0),
        read is Err ==> (r matches Err(e) && e == OpteeSmcReturnCode::EBadAddr),
{
}

} // verus!
