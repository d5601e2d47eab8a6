//! System calls of TAs and of their loader: decoding a number and registers into a
//! request.
//!
//! Which number stands for which call is up to the system's table of calls; it is
//! looked up beforehand. Pointers are handed on as addresses.

use vstd::prelude::*;

use crate::codes::{
    u32_arg, Errno, LdelfMapFlags, TeeAlgorithm, TeeCrypStateHandle, TeeMemoryAccessRights,
    TeeObjHandle, TeeObjectType, TeeOperationMode, TeePropSet,
};

verus! {

/// How many arguments a call has.
pub const MAX_SYSCALL_ARGS: usize = 8;

/// The registers in which a TA passes the arguments of a call.
#[derive(Clone, Copy, PartialEq, Eq, Debug, Structural)]
pub struct PtRegs {
    pub rdi: usize,
    pub rsi: usize,
    pub rdx: usize,
    pub r10: usize,
    pub r8: usize,
    pub r9: usize,
    pub r12: usize,
    pub r13: usize,
}

impl PtRegs {
    /// The arguments in order.
    pub open spec fn args(self) -> Seq<usize> {
        seq![self.rdi, self.rsi, self.rdx, self.r10, self.r8, self.r9, self.r12, self.r13]
    }
}

/// The arguments of a call.
#[derive(Clone, Copy, PartialEq, Eq, Debug)]
pub struct SyscallContext {
    pub args: [usize; 8],
}

impl SyscallContext {
    /// The argument at `index`.
    pub fn syscall_arg(&self, index: usize) -> (r: usize)
        requires
            index < MAX_SYSCALL_ARGS,
        ensures
            r == self.args[index as int],
    {
        self.args[index]
    }

    /// Takes the arguments as they are.
    pub fn new(args: &[usize; 8]) -> (r: Self)
        ensures
            r.args == *args,
    {
        SyscallContext { args: *args }
    }

    /// Takes the arguments from the registers of a TA.
    pub fn from_pt_regs(pt_regs: &PtRegs) -> (r: Self)
        ensures
            r.args@ == pt_regs.args(),
    {
        let args: [usize; 8] = [
            pt_regs.rdi,
            pt_regs.rsi,
            pt_regs.rdx,
            pt_regs.r10,
            pt_regs.r8,
            pt_regs.r9,
            pt_regs.r12,
            pt_regs.r13,
        ];
        assert(args@ =~= pt_regs.args());
        SyscallContext { args }
    }
}

/// `value` has at most 32 bits.
pub open spec fn fits_u32(value: usize) -> bool {
    value <= 0xffff_ffff
}

/// `value` stands for a property set.
pub open spec fn is_prop_set(value: usize) -> bool {
    exists|v: TeePropSet| #[trigger] v.code() == value
}

/// `value` stands for an algorithm.
pub open spec fn is_algorithm(value: usize) -> bool {
    exists|v: TeeAlgorithm| #[trigger] v.code() == value
}

/// `value` stands for a mode of operation.
pub open spec fn is_operation_mode(value: usize) -> bool {
    exists|v: TeeOperationMode| #[trigger] v.code() == value
}

/// The calls of a TA that the system knows.
#[derive(Clone, Copy, PartialEq, Eq, Debug, Structural)]
pub enum TeeSyscallNr {
    Return,
    Log,
    Panic,
    GetProperty,
    GetPropertyNameToIndex,
    OpenTaSession,
    CloseTaSession,
    InvokeTaCommand,
    CheckAccessRights,
    CrypStateAlloc,
    CrypStateFree,
    CipherInit,
    CipherUpdate,
    CipherFinal,
    CrypObjGetInfo,
    CrypObjAlloc,
    CrypObjClose,
    CrypObjReset,
    CrypObjPopulate,
    CrypObjCopy,
    CrypRandomNumberGenerate,
    /// A call that is in the table but has no request.
    Unhandled,
    /// A number that is not in the table.
    Unknown,
}

/// A request of a TA.
#[derive(Clone, Copy, PartialEq, Eq, Debug, Structural)]
pub enum SyscallRequest {
    Return { ret: usize },
    Log { buf: usize, len: usize },
    Panic { code: usize },
    GetProperty { prop_set: TeePropSet, index: u32, name: usize, name_len: usize, buf: usize, blen: usize, prop_type: usize },
    GetPropertyNameToIndex { prop_set: TeePropSet, name: usize, name_len: usize, index: usize },
    OpenTaSession { ta_uuid: usize, cancel_req_to: u32, usr_params: usize, ta_sess_id: usize, ret_orig: usize },
    CloseTaSession { ta_sess_id: u32 },
    InvokeTaCommand { ta_sess_id: u32, cancel_req_to: u32, cmd_id: u32, params: usize, ret_orig: usize },
    CheckAccessRights { flags: TeeMemoryAccessRights, buf: usize, len: usize },
    CrypStateAlloc { algo: TeeAlgorithm, op_mode: TeeOperationMode, key1: TeeObjHandle, key2: TeeObjHandle, state: usize },
    CrypStateFree { state: TeeCrypStateHandle },
    CipherInit { state: TeeCrypStateHandle, iv: usize, iv_len: usize },
    CipherUpdate { state: TeeCrypStateHandle, src: usize, src_len: usize, dst: usize, dst_len: usize },
    CipherFinal { state: TeeCrypStateHandle, src: usize, src_len: usize, dst: usize, dst_len: usize },
    CrypObjGetInfo { obj: TeeObjHandle, info: usize },
    CrypObjAlloc { typ: TeeObjectType, max_size: u32, obj: usize },
    CrypObjClose { obj: TeeObjHandle },
    CrypObjReset { obj: TeeObjHandle },
    CrypObjPopulate { obj: TeeObjHandle, attrs: usize, attr_count: usize },
    CrypObjCopy { dst_obj: TeeObjHandle, src_obj: TeeObjHandle },
    CrypRandomNumberGenerate { buf: usize, blen: usize },
}

impl SyscallRequest {
    /// The request is that of the call `nr` with the arguments `args`.
    pub open spec fn carries(self, nr: TeeSyscallNr, args: Seq<usize>) -> bool {
        match self {
            SyscallRequest::Return { ret } => {
                &&& nr == TeeSyscallNr::Return
                &&& ret == args[0]
            },
            SyscallRequest::Log { buf, len } => {
                &&& nr == TeeSyscallNr::Log
                &&& buf == args[0]
                &&& len == args[1]
            },
            SyscallRequest::Panic { code } => {
                &&& nr == TeeSyscallNr::Panic
                &&& code == args[0]
            },
            SyscallRequest::GetProperty { prop_set, index, name, name_len, buf, blen, prop_type } => {
                &&& nr == TeeSyscallNr::GetProperty
                &&& prop_set.code() == args[0]
                &&& index == args[1]
                &&& name == args[2]
                &&& name_len == args[3]
                &&& buf == args[4]
                &&& blen == args[5]
                &&& prop_type == args[6]
            },
            SyscallRequest::GetPropertyNameToIndex { prop_set, name, name_len, index } => {
                &&& nr == TeeSyscallNr::GetPropertyNameToIndex
                &&& prop_set.code() == args[0]
                &&& name == args[1]
                &&& name_len == args[2]
                &&& index == args[3]
            },
            SyscallRequest::OpenTaSession { ta_uuid, cancel_req_to, usr_params, ta_sess_id, ret_orig } => {
                &&& nr == TeeSyscallNr::OpenTaSession
                &&& ta_uuid == args[0]
                &&& cancel_req_to == args[1]
                &&& usr_params == args[2]
                &&& ta_sess_id == args[3]
                &&& ret_orig == args[4]
            },
            SyscallRequest::CloseTaSession { ta_sess_id } => {
                &&& nr == TeeSyscallNr::CloseTaSession
                &&& ta_sess_id == args[0]
            },
            SyscallRequest::InvokeTaCommand { ta_sess_id, cancel_req_to, cmd_id, params, ret_orig } => {
                &&& nr == TeeSyscallNr::InvokeTaCommand
                &&& ta_sess_id == args[0]
                &&& cancel_req_to == args[1]
                &&& cmd_id == args[2]
                &&& params == args[3]
                &&& ret_orig == args[4]
            },
            SyscallRequest::CheckAccessRights { flags, buf, len } => {
                &&& nr == TeeSyscallNr::CheckAccessRights
                &&& flags.bits == args[0]
                &&& buf == args[1]
                &&& len == args[2]
            },
            SyscallRequest::CrypStateAlloc { algo, op_mode, key1, key2, state } => {
                &&& nr == TeeSyscallNr::CrypStateAlloc
                &&& algo.code() == args[0]
                &&& op_mode.code() == args[1]
                &&& key1.0 == args[2]
                &&& key2.0 == args[3]
                &&& state == args[4]
            },
            SyscallRequest::CrypStateFree { state } => {
                &&& nr == TeeSyscallNr::CrypStateFree
                &&& state.0 == args[0]
            },
            SyscallRequest::CipherInit { state, iv, iv_len } => {
                &&& nr == TeeSyscallNr::CipherInit
                &&& state.0 == args[0]
                &&& iv == args[1]
                &&& iv_len == args[2]
            },
            SyscallRequest::CipherUpdate { state, src, src_len, dst, dst_len } => {
                &&& nr == TeeSyscallNr::CipherUpdate
                &&& state.0 == args[0]
                &&& src == args[1]
                &&& src_len == args[2]
                &&& dst == args[3]
                &&& dst_len == args[4]
            },
            SyscallRequest::CipherFinal { state, src, src_len, dst, dst_len } => {
                &&& nr == TeeSyscallNr::CipherFinal
                &&& state.0 == args[0]
                &&& src == args[1]
                &&& src_len == args[2]
                &&& dst == args[3]
                &&& dst_len == args[4]
            },
            SyscallRequest::CrypObjGetInfo { obj, info } => {
                &&& nr == TeeSyscallNr::CrypObjGetInfo
                &&& obj.0 == args[0]
                &&& info == args[1]
            },
            SyscallRequest::CrypObjAlloc { typ, max_size, obj } => {
                &&& nr == TeeSyscallNr::CrypObjAlloc
                &&& typ.code == args[0]
                &&& max_size == args[1]
                &&& obj == args[2]
            },
            SyscallRequest::CrypObjClose { obj } => {
                &&& nr == TeeSyscallNr::CrypObjClose
                &&& obj.0 == args[0]
            },
            SyscallRequest::CrypObjReset { obj } => {
                &&& nr == TeeSyscallNr::CrypObjReset
                &&& obj.0 == args[0]
            },
            SyscallRequest::CrypObjPopulate { obj, attrs, attr_count } => {
                &&& nr == TeeSyscallNr::CrypObjPopulate
                &&& obj.0 == args[0]
                &&& attrs == args[1]
                &&& attr_count == args[2]
            },
            SyscallRequest::CrypObjCopy { dst_obj, src_obj } => {
                &&& nr == TeeSyscallNr::CrypObjCopy
                &&& dst_obj.0 == args[0]
                &&& src_obj.0 == args[1]
            },
            SyscallRequest::CrypRandomNumberGenerate { buf, blen } => {
                &&& nr == TeeSyscallNr::CrypRandomNumberGenerate
                &&& buf == args[0]
                &&& blen == args[1]
            },
        }
    }

    /// The arguments are such as the call `nr` takes.
    pub open spec fn accepts(nr: TeeSyscallNr, args: Seq<usize>) -> bool {
        match nr {
            TeeSyscallNr::Return => true,
            TeeSyscallNr::Log => true,
            TeeSyscallNr::Panic => true,
            TeeSyscallNr::GetProperty => {
                &&& is_prop_set(args[0])
                &&& fits_u32(args[1])
            },
            TeeSyscallNr::GetPropertyNameToIndex => is_prop_set(args[0]),
            TeeSyscallNr::OpenTaSession => fits_u32(args[1]),
            TeeSyscallNr::CloseTaSession => fits_u32(args[0]),
            TeeSyscallNr::InvokeTaCommand => {
                &&& fits_u32(args[0])
                &&& fits_u32(args[1])
                &&& fits_u32(args[2])
            },
            TeeSyscallNr::CheckAccessRights => fits_u32(args[0]),
            TeeSyscallNr::CrypStateAlloc => {
                &&& is_algorithm(args[0])
                &&& is_operation_mode(args[1])
                &&& fits_u32(args[2])
                &&& fits_u32(args[3])
            },
            TeeSyscallNr::CrypStateFree => fits_u32(args[0]),
            TeeSyscallNr::CipherInit => fits_u32(args[0]),
            TeeSyscallNr::CipherUpdate => fits_u32(args[0]),
            TeeSyscallNr::CipherFinal => fits_u32(args[0]),
            TeeSyscallNr::CrypObjGetInfo => fits_u32(args[0]),
            TeeSyscallNr::CrypObjAlloc => {
                &&& TeeObjectType::known(args[0] as int)
                &&& fits_u32(args[1])
            },
            TeeSyscallNr::CrypObjClose => fits_u32(args[0]),
            TeeSyscallNr::CrypObjReset => fits_u32(args[0]),
            TeeSyscallNr::CrypObjPopulate => fits_u32(args[0]),
            TeeSyscallNr::CrypObjCopy => {
                &&& fits_u32(args[0])
                &&& fits_u32(args[1])
            },
            TeeSyscallNr::CrypRandomNumberGenerate => true,
            TeeSyscallNr::Unhandled => false,
            TeeSyscallNr::Unknown => false,
        }
    }

    /// Decodes call number `syscall_number`, which the table of calls lists as `nr`:
    /// `ENOSYS` if it is not in the table, `EINVAL` if an argument is not such as the
    /// call takes.
    pub fn try_from_raw(syscall_number: usize, nr: TeeSyscallNr, ctx: &PtRegs) -> (r: Result<
        Self,
        Errno,
    >)
        requires
            fits_u32(syscall_number) ==> nr != TeeSyscallNr::Unhandled,
        ensures
            !fits_u32(syscall_number) || nr == TeeSyscallNr::Unknown ==> r == Err::<Self, Errno>(
                Errno::ENOSYS,
            ),
            fits_u32(syscall_number) && nr != TeeSyscallNr::Unknown ==> {
                &&& SyscallRequest::accepts(nr, ctx.args()) ==> (r matches Ok(req) && req.carries(
                    nr,
                    ctx.args(),
                ))
                &&& !SyscallRequest::accepts(nr, ctx.args()) ==> r == Err::<Self, Errno>(Errno::EINVAL)
            },
    {
        let ghost args = ctx.args();
        let ctx = SyscallContext::from_pt_regs(ctx);
        if syscall_number > 0xffff_ffff {
            return Err(Errno::ENOSYS);
        }
        match nr {
            TeeSyscallNr::Return => {
                let ret: usize = ctx.syscall_arg(0);
                Ok(SyscallRequest::Return { ret })
            },
            TeeSyscallNr::Log => {
                let buf: usize = ctx.syscall_arg(0);
                let len: usize = ctx.syscall_arg(1);
                Ok(SyscallRequest::Log { buf, len })
            },
            TeeSyscallNr::Panic => {
                let code: usize = ctx.syscall_arg(0);
                Ok(SyscallRequest::Panic { code })
            },
            TeeSyscallNr::GetProperty => {
                let prop_set: TeePropSet = TeePropSet::try_from_usize(ctx.syscall_arg(0))?;
                let index: u32 = u32_arg(ctx.syscall_arg(1))?;
                let name: usize = ctx.syscall_arg(2);
                let name_len: usize = ctx.syscall_arg(3);
                let buf: usize = ctx.syscall_arg(4);
                let blen: usize = ctx.syscall_arg(5);
                let prop_type: usize = ctx.syscall_arg(6);
                Ok(SyscallRequest::GetProperty { prop_set, index, name, name_len, buf, blen, prop_type })
            },
            TeeSyscallNr::GetPropertyNameToIndex => {
                let prop_set: TeePropSet = TeePropSet::try_from_usize(ctx.syscall_arg(0))?;
                let name: usize = ctx.syscall_arg(1);
                let name_len: usize = ctx.syscall_arg(2);
                let index: usize = ctx.syscall_arg(3);
                Ok(SyscallRequest::GetPropertyNameToIndex { prop_set, name, name_len, index })
            },
            TeeSyscallNr::OpenTaSession => {
                let ta_uuid: usize = ctx.syscall_arg(0);
                let cancel_req_to: u32 = u32_arg(ctx.syscall_arg(1))?;
                let usr_params: usize = ctx.syscall_arg(2);
                let ta_sess_id: usize = ctx.syscall_arg(3);
                let ret_orig: usize = ctx.syscall_arg(4);
                Ok(SyscallRequest::OpenTaSession { ta_uuid, cancel_req_to, usr_params, ta_sess_id, ret_orig })
            },
            TeeSyscallNr::CloseTaSession => {
                let ta_sess_id: u32 = u32_arg(ctx.syscall_arg(0))?;
                Ok(SyscallRequest::CloseTaSession { ta_sess_id })
            },
            TeeSyscallNr::InvokeTaCommand => {
                let ta_sess_id: u32 = u32_arg(ctx.syscall_arg(0))?;
                let cancel_req_to: u32 = u32_arg(ctx.syscall_arg(1))?;
                let cmd_id: u32 = u32_arg(ctx.syscall_arg(2))?;
                let params: usize = ctx.syscall_arg(3);
                let ret_orig: usize = ctx.syscall_arg(4);
                Ok(SyscallRequest::InvokeTaCommand { ta_sess_id, cancel_req_to, cmd_id, params, ret_orig })
            },
            TeeSyscallNr::CheckAccessRights => {
                let flags: TeeMemoryAccessRights = TeeMemoryAccessRights::try_from_usize(ctx.syscall_arg(0))?;
                let buf: usize = ctx.syscall_arg(1);
                let len: usize = ctx.syscall_arg(2);
                Ok(SyscallRequest::CheckAccessRights { flags, buf, len })
            },
            TeeSyscallNr::CrypStateAlloc => {
                let algo: TeeAlgorithm = TeeAlgorithm::try_from_usize(ctx.syscall_arg(0))?;
                let op_mode: TeeOperationMode = TeeOperationMode::try_from_usize(ctx.syscall_arg(1))?;
                let key1: TeeObjHandle = TeeObjHandle::try_from_usize(ctx.syscall_arg(2))?;
                let key2: TeeObjHandle = TeeObjHandle::try_from_usize(ctx.syscall_arg(3))?;
                let state: usize = ctx.syscall_arg(4);
                Ok(SyscallRequest::CrypStateAlloc { algo, op_mode, key1, key2, state })
            },
            TeeSyscallNr::CrypStateFree => {
                let state: TeeCrypStateHandle = TeeCrypStateHandle::try_from_usize(ctx.syscall_arg(0))?;
                Ok(SyscallRequest::CrypStateFree { state })
            },
            TeeSyscallNr::CipherInit => {
                let state: TeeCrypStateHandle = TeeCrypStateHandle::try_from_usize(ctx.syscall_arg(0))?;
                let iv: usize = ctx.syscall_arg(1);
                let iv_len: usize = ctx.syscall_arg(2);
                Ok(SyscallRequest::CipherInit { state, iv, iv_len })
            },
            TeeSyscallNr::CipherUpdate => {
                let state: TeeCrypStateHandle = TeeCrypStateHandle::try_from_usize(ctx.syscall_arg(0))?;
                let src: usize = ctx.syscall_arg(1);
                let src_len: usize = ctx.syscall_arg(2);
                let dst: usize = ctx.syscall_arg(3);
                let dst_len: usize = ctx.syscall_arg(4);
                Ok(SyscallRequest::CipherUpdate { state, src, src_len, dst, dst_len })
            },
            TeeSyscallNr::CipherFinal => {
                let state: TeeCrypStateHandle = TeeCrypStateHandle::try_from_usize(ctx.syscall_arg(0))?;
                let src: usize = ctx.syscall_arg(1);
                let src_len: usize = ctx.syscall_arg(2);
                let dst: usize = ctx.syscall_arg(3);
                let dst_len: usize = ctx.syscall_arg(4);
                Ok(SyscallRequest::CipherFinal { state, src, src_len, dst, dst_len })
            },
            TeeSyscallNr::CrypObjGetInfo => {
                let obj: TeeObjHandle = TeeObjHandle::try_from_usize(ctx.syscall_arg(0))?;
                let info: usize = ctx.syscall_arg(1);
                Ok(SyscallRequest::CrypObjGetInfo { obj, info })
            },
            TeeSyscallNr::CrypObjAlloc => {
                let typ: TeeObjectType = TeeObjectType::try_from_usize(ctx.syscall_arg(0))?;
                let max_size: u32 = u32_arg(ctx.syscall_arg(1))?;
                let obj: usize = ctx.syscall_arg(2);
                Ok(SyscallRequest::CrypObjAlloc { typ, max_size, obj })
            },
            TeeSyscallNr::CrypObjClose => {
                let obj: TeeObjHandle = TeeObjHandle::try_from_usize(ctx.syscall_arg(0))?;
                Ok(SyscallRequest::CrypObjClose { obj })
            },
            TeeSyscallNr::CrypObjReset => {
                let obj: TeeObjHandle = TeeObjHandle::try_from_usize(ctx.syscall_arg(0))?;
                Ok(SyscallRequest::CrypObjReset { obj })
            },
            TeeSyscallNr::CrypObjPopulate => {
                let obj: TeeObjHandle = TeeObjHandle::try_from_usize(ctx.syscall_arg(0))?;
                let attrs: usize = ctx.syscall_arg(1);
                let attr_count: usize = ctx.syscall_arg(2);
                Ok(SyscallRequest::CrypObjPopulate { obj, attrs, attr_count })
            },
            TeeSyscallNr::CrypObjCopy => {
                let dst_obj: TeeObjHandle = TeeObjHandle::try_from_usize(ctx.syscall_arg(0))?;
                let src_obj: TeeObjHandle = TeeObjHandle::try_from_usize(ctx.syscall_arg(1))?;
                Ok(SyscallRequest::CrypObjCopy { dst_obj, src_obj })
            },
            TeeSyscallNr::CrypRandomNumberGenerate => {
                let buf: usize = ctx.syscall_arg(0);
                let blen: usize = ctx.syscall_arg(1);
                Ok(SyscallRequest::CrypRandomNumberGenerate { buf, blen })
            },
            _ => Err(Errno::ENOSYS),
        }
    }
}

/// The calls of the loader of TAs that the system knows.
#[derive(Clone, Copy, PartialEq, Eq, Debug, Structural)]
pub enum LdelfSyscallNr {
    Return,
    Log,
    Panic,
    MapZi,
    Unmap,
    OpenBin,
    CloseBin,
    MapBin,
    CpFromBin,
    GenRndNum,
    /// A call that is in the table but has no request.
    Unhandled,
    /// A number that is not in the table.
    Unknown,
}

/// A request of the loader of TAs.
#[derive(Clone, Copy, PartialEq, Eq, Debug, Structural)]
pub enum LdelfSyscallRequest {
    Return { ret: usize },
    Log { buf: usize, len: usize },
    Panic { code: usize },
    MapZi { va: usize, num_bytes: usize, pad_begin: usize, pad_end: usize, flags: LdelfMapFlags },
    Unmap { va: usize, num_bytes: usize },
    OpenBin { uuid: usize, uuid_size: usize, handle: usize },
    CloseBin { handle: u32 },
    MapBin { va: usize, num_bytes: usize, handle: u32, offs: usize, pad_begin: usize, pad_end: usize, flags: LdelfMapFlags },
    CpFromBin { dst: usize, offs: usize, num_bytes: usize, handle: u32 },
    GenRndNum { buf: usize, num_bytes: usize },
}

impl LdelfSyscallRequest {
    /// The request is that of the call `nr` with the arguments `args`.
    pub open spec fn carries(self, nr: LdelfSyscallNr, args: Seq<usize>) -> bool {
        match self {
            LdelfSyscallRequest::Return { ret } => {
                &&& nr == LdelfSyscallNr::Return
                &&& ret == args[0]
            },
            LdelfSyscallRequest::Log { buf, len } => {
                &&& nr == LdelfSyscallNr::Log
                &&& buf == args[0]
                &&& len == args[1]
            },
            LdelfSyscallRequest::Panic { code } => {
                &&& nr == LdelfSyscallNr::Panic
                &&& code == args[0]
            },
            LdelfSyscallRequest::MapZi { va, num_bytes, pad_begin, pad_end, flags } => {
                &&& nr == LdelfSyscallNr::MapZi
                &&& va == args[0]
                &&& num_bytes == args[1]
                &&& pad_begin == args[2]
                &&& pad_end == args[3]
                &&& flags.bits == args[4]
            },
            LdelfSyscallRequest::Unmap { va, num_bytes } => {
                &&& nr == LdelfSyscallNr::Unmap
                &&& va == args[0]
                &&& num_bytes == args[1]
            },
            LdelfSyscallRequest::OpenBin { uuid, uuid_size, handle } => {
                &&& nr == LdelfSyscallNr::OpenBin
                &&& uuid == args[0]
                &&& uuid_size == args[1]
                &&& handle == args[2]
            },
            LdelfSyscallRequest::CloseBin { handle } => {
                &&& nr == LdelfSyscallNr::CloseBin
                &&& handle == args[0]
            },
            LdelfSyscallRequest::MapBin { va, num_bytes, handle, offs, pad_begin, pad_end, flags } => {
                &&& nr == LdelfSyscallNr::MapBin
                &&& va == args[0]
                &&& num_bytes == args[1]
                &&& handle == args[2]
                &&& offs == args[3]
                &&& pad_begin == args[4]
                &&& pad_end == args[5]
                &&& flags.bits == args[6]
            },
            LdelfSyscallRequest::CpFromBin { dst, offs, num_bytes, handle } => {
                &&& nr == LdelfSyscallNr::CpFromBin
                &&& dst == args[0]
                &&& offs == args[1]
                &&& num_bytes == args[2]
                &&& handle == args[3]
            },
            LdelfSyscallRequest::GenRndNum { buf, num_bytes } => {
                &&& nr == LdelfSyscallNr::GenRndNum
                &&& buf == args[0]
                &&& num_bytes == args[1]
            },
        }
    }

    /// The arguments are such as the call `nr` takes.
    pub open spec fn accepts(nr: LdelfSyscallNr, args: Seq<usize>) -> bool {
        match nr {
            LdelfSyscallNr::Return => true,
            LdelfSyscallNr::Log => true,
            LdelfSyscallNr::Panic => true,
            LdelfSyscallNr::MapZi => true,
            LdelfSyscallNr::Unmap => true,
            LdelfSyscallNr::OpenBin => true,
            LdelfSyscallNr::CloseBin => fits_u32(args[0]),
            LdelfSyscallNr::MapBin => fits_u32(args[2]),
            LdelfSyscallNr::CpFromBin => fits_u32(args[3]),
            LdelfSyscallNr::GenRndNum => true,
            LdelfSyscallNr::Unhandled => false,
            LdelfSyscallNr::Unknown => false,
        }
    }

    /// Decodes call number `syscall_number`, which the table of calls lists as `nr`:
    /// `ENOSYS` if the number has more than 32 bits, `EINVAL` if an argument is not
    /// such as the call takes.
    pub fn try_from_raw(syscall_number: usize, nr: LdelfSyscallNr, ctx: &PtRegs) -> (r: Result<
        Self,
        Errno,
    >)
        requires
            fits_u32(syscall_number) ==> nr != LdelfSyscallNr::Unhandled && nr != LdelfSyscallNr::Unknown,
        ensures
            !fits_u32(syscall_number) ==> r == Err::<Self, Errno>(Errno::ENOSYS),
            fits_u32(syscall_number) ==> {
                &&& LdelfSyscallRequest::accepts(nr, ctx.args()) ==> (r matches Ok(req) && req.carries(
                    nr,
                    ctx.args(),
                ))
                &&& !LdelfSyscallRequest::accepts(nr, ctx.args()) ==> r == Err::<Self, Errno>(Errno::EINVAL)
            },
    {
        let ghost args = ctx.args();
        let ctx = SyscallContext::from_pt_regs(ctx);
        if syscall_number > 0xffff_ffff {
            return Err(Errno::ENOSYS);
        }
        match nr {
            LdelfSyscallNr::Return => {
                let ret: usize = ctx.syscall_arg(0);
                Ok(LdelfSyscallRequest::Return { ret })
            },
            LdelfSyscallNr::Log => {
                let buf: usize = ctx.syscall_arg(0);
                let len: usize = ctx.syscall_arg(1);
                Ok(LdelfSyscallRequest::Log { buf, len })
            },
            LdelfSyscallNr::Panic => {
                let code: usize = ctx.syscall_arg(0);
                Ok(LdelfSyscallRequest::Panic { code })
            },
            LdelfSyscallNr::MapZi => {
                let va: usize = ctx.syscall_arg(0);
                let num_bytes: usize = ctx.syscall_arg(1);
                let pad_begin: usize = ctx.syscall_arg(2);
                let pad_end: usize = ctx.syscall_arg(3);
                let flags: LdelfMapFlags = LdelfMapFlags::from_bits_retain(ctx.syscall_arg(4));
                Ok(LdelfSyscallRequest::MapZi { va, num_bytes, pad_begin, pad_end, flags })
            },
            LdelfSyscallNr::Unmap => {
                let va: usize = ctx.syscall_arg(0);
                let num_bytes: usize = ctx.syscall_arg(1);
                Ok(LdelfSyscallRequest::Unmap { va, num_bytes })
            },
            LdelfSyscallNr::OpenBin => {
                let uuid: usize = ctx.syscall_arg(0);
                let uuid_size: usize = ctx.syscall_arg(1);
                let handle: usize = ctx.syscall_arg(2);
                Ok(LdelfSyscallRequest::OpenBin { uuid, uuid_size, handle })
            },
            LdelfSyscallNr::CloseBin => {
                let handle: u32 = u32_arg(ctx.syscall_arg(0))?;
                Ok(LdelfSyscallRequest::CloseBin { handle })
            },
            LdelfSyscallNr::MapBin => {
                let va: usize = ctx.syscall_arg(0);
                let num_bytes: usize = ctx.syscall_arg(1);
                let handle: u32 = u32_arg(ctx.syscall_arg(2))?;
                let offs: usize = ctx.syscall_arg(3);
                let pad_begin: usize = ctx.syscall_arg(4);
                let pad_end: usize = ctx.syscall_arg(5);
                let flags: LdelfMapFlags = LdelfMapFlags::from_bits_retain(ctx.syscall_arg(6));
                Ok(LdelfSyscallRequest::MapBin { va, num_bytes, handle, offs, pad_begin, pad_end, flags })
            },
            LdelfSyscallNr::CpFromBin => {
                let dst: usize = ctx.syscall_arg(0);
                let offs: usize = ctx.syscall_arg(1);
                let num_bytes: usize = ctx.syscall_arg(2);
                let handle: u32 = u32_arg(ctx.syscall_arg(3))?;
                Ok(LdelfSyscallRequest::CpFromBin { dst, offs, num_bytes, handle })
            },
            LdelfSyscallNr::GenRndNum => {
                let buf: usize = ctx.syscall_arg(0);
                let num_bytes: usize = ctx.syscall_arg(1);
                Ok(LdelfSyscallRequest::GenRndNum { buf, num_bytes })
            },
            _ => Err(Errno::ENOSYS),
        }
    }
}

/// A call and its arguments decide the request.
pub proof fn law_requests_are_determined(
    a: SyscallRequest,
    b: SyscallRequest,
    nr: TeeSyscallNr,
    args: Seq<usize>,
)
    requires
        a.carries(nr, args),
        b.carries(nr, args),
    ensures
        a == b,
{
    assert(forall|v: TeePropSet, u: TeePropSet| #[trigger] v.code() == #[trigger] u.code() ==> v
        == u);
    assert(forall|v: TeeAlgorithm, u: TeeAlgorithm| #[trigger] v.code() == #[trigger] u.code() ==> v
        == u);
    assert(forall|v: TeeOperationMode, u: TeeOperationMode| #[trigger] v.code()
        == #[trigger] u.code() ==> v == u);
}

/// A call of the loader of TAs and its arguments decide the request.
pub proof fn law_ldelf_requests_are_determined(
    a: LdelfSyscallRequest,
    b: LdelfSyscallRequest,
    nr: LdelfSyscallNr,
    args: Seq<usize>,
)
    requires
        a.carries(nr, args),
        b.carries(nr, args),
    ensures
        a == b,
{
}

/// Every call takes its operands from the registers in the order of its signature: rdi,
/// rsi, rdx, r10, r8, r9 and r12. Numbers and handles of 32 bits, and codes that must be
/// known, are refused with `EINVAL` where the register holds something else.
pub proof fn law_operands_come_from_registers(
    number: usize,
    nr: TeeSyscallNr,
    regs: PtRegs,
    r: Result<SyscallRequest, Errno>,
)
    requires
        call_ensures(SyscallRequest::try_from_raw, (number, nr, &regs), r),
        number <= 0xffff_ffff,
    ensures
        ({
            let algorithms = seq![
                0x1000_0210usize, 0x4000_0810usize, 0x7000_4830usize, 0x7000_6830usize, 0x3000_0004usize, 0x3000_0006usize, 0xefff_ffffusize,
            ];
            let object_types = seq![
                0xa000_0010usize, 0xa000_0004usize, 0xa000_0006usize, 0xa000_0030usize, 0xa100_0030usize, 0xa000_0000usize, 0xa000_00beusize, 0xa000_00bfusize,
            ];
            match nr {
                TeeSyscallNr::Return => {
                    &&& r matches Ok(SyscallRequest::Return { ret })
                    &&& ret == regs.rdi
                },
                TeeSyscallNr::Log => {
                    &&& r matches Ok(SyscallRequest::Log { buf, len })
                    &&& buf == regs.rdi
                    &&& len == regs.rsi
                },
                TeeSyscallNr::Panic => {
                    &&& r matches Ok(SyscallRequest::Panic { code })
                    &&& code == regs.rdi
                },
                TeeSyscallNr::GetProperty => if 0xffff_fffd <= regs.rdi <= 0xffff_ffff && regs.rsi <= 0xffff_ffff {
                    &&& r matches Ok(SyscallRequest::GetProperty { prop_set, index, name, name_len, buf, blen, prop_type })
                    &&& prop_set.code() == regs.rdi
                    &&& index == regs.rsi
                    &&& name == regs.rdx
                    &&& name_len == regs.r10
                    &&& buf == regs.r8
                    &&& blen == regs.r9
                    &&& prop_type == regs.r12
                } else {
                    r == Err::<SyscallRequest, Errno>(Errno::EINVAL)
                },
                TeeSyscallNr::GetPropertyNameToIndex => if 0xffff_fffd <= regs.rdi <= 0xffff_ffff {
                    &&& r matches Ok(SyscallRequest::GetPropertyNameToIndex { prop_set, name, name_len, index })
                    &&& prop_set.code() == regs.rdi
                    &&& name == regs.rsi
                    &&& name_len == regs.rdx
                    &&& index == regs.r10
                } else {
                    r == Err::<SyscallRequest, Errno>(Errno::EINVAL)
                },
                TeeSyscallNr::OpenTaSession => if regs.rsi <= 0xffff_ffff {
                    &&& r matches Ok(SyscallRequest::OpenTaSession { ta_uuid, cancel_req_to, usr_params, ta_sess_id, ret_orig })
                    &&& ta_uuid == regs.rdi
                    &&& cancel_req_to == regs.rsi
                    &&& usr_params == regs.rdx
                    &&& ta_sess_id == regs.r10
                    &&& ret_orig == regs.r8
                } else {
                    r == Err::<SyscallRequest, Errno>(Errno::EINVAL)
                },
                TeeSyscallNr::CloseTaSession => if regs.rdi <= 0xffff_ffff {
                    &&& r matches Ok(SyscallRequest::CloseTaSession { ta_sess_id })
                    &&& ta_sess_id == regs.rdi
                } else {
                    r == Err::<SyscallRequest, Errno>(Errno::EINVAL)
                },
                TeeSyscallNr::InvokeTaCommand => if regs.rdi <= 0xffff_ffff && regs.rsi <= 0xffff_ffff && regs.rdx <= 0xffff_ffff {
                    &&& r matches Ok(SyscallRequest::InvokeTaCommand { ta_sess_id, cancel_req_to, cmd_id, params, ret_orig })
                    &&& ta_sess_id == regs.rdi
                    &&& cancel_req_to == regs.rsi
                    &&& cmd_id == regs.rdx
                    &&& params == regs.r10
                    &&& ret_orig == regs.r8
                } else {
                    r == Err::<SyscallRequest, Errno>(Errno::EINVAL)
                },
                TeeSyscallNr::CheckAccessRights => if regs.rdi <= 0xffff_ffff {
                    &&& r matches Ok(SyscallRequest::CheckAccessRights { flags, buf, len })
                    &&& flags.bits == regs.rdi
                    &&& buf == regs.rsi
                    &&& len == regs.rdx
                } else {
                    r == Err::<SyscallRequest, Errno>(Errno::EINVAL)
                },
                TeeSyscallNr::CrypStateAlloc => if algorithms.contains(regs.rdi) && regs.rsi <= 6 && regs.rdx <= 0xffff_ffff && regs.r10 <= 0xffff_ffff {
                    &&& r matches Ok(SyscallRequest::CrypStateAlloc { algo, op_mode, key1, key2, state })
                    &&& algo.code() == regs.rdi
                    &&& op_mode.code() == regs.rsi
                    &&& key1.0 == regs.rdx
                    &&& key2.0 == regs.r10
                    &&& state == regs.r8
                } else {
                    r == Err::<SyscallRequest, Errno>(Errno::EINVAL)
                },
                TeeSyscallNr::CrypStateFree => if regs.rdi <= 0xffff_ffff {
                    &&& r matches Ok(SyscallRequest::CrypStateFree { state })
                    &&& state.0 == regs.rdi
                } else {
                    r == Err::<SyscallRequest, Errno>(Errno::EINVAL)
                },
                TeeSyscallNr::CipherInit => if regs.rdi <= 0xffff_ffff {
                    &&& r matches Ok(SyscallRequest::CipherInit { state, iv, iv_len })
                    &&& state.0 == regs.rdi
                    &&& iv == regs.rsi
                    &&& iv_len == regs.rdx
                } else {
                    r == Err::<SyscallRequest, Errno>(Errno::EINVAL)
                },
                TeeSyscallNr::CipherUpdate => if regs.rdi <= 0xffff_ffff {
                    &&& r matches Ok(SyscallRequest::CipherUpdate { state, src, src_len, dst, dst_len })
                    &&& state.0 == regs.rdi
                    &&& src == regs.rsi
                    &&& src_len == regs.rdx
                    &&& dst == regs.r10
                    &&& dst_len == regs.r8
                } else {
                    r == Err::<SyscallRequest, Errno>(Errno::EINVAL)
                },
                TeeSyscallNr::CipherFinal => if regs.rdi <= 0xffff_ffff {
                    &&& r matches Ok(SyscallRequest::CipherFinal { state, src, src_len, dst, dst_len })
                    &&& state.0 == regs.rdi
                    &&& src == regs.rsi
                    &&& src_len == regs.rdx
                    &&& dst == regs.r10
                    &&& dst_len == regs.r8
                } else {
                    r == Err::<SyscallRequest, Errno>(Errno::EINVAL)
                },
                TeeSyscallNr::CrypObjGetInfo => if regs.rdi <= 0xffff_ffff {
                    &&& r matches Ok(SyscallRequest::CrypObjGetInfo { obj, info })
                    &&& obj.0 == regs.rdi
                    &&& info == regs.rsi
                } else {
                    r == Err::<SyscallRequest, Errno>(Errno::EINVAL)
                },
                TeeSyscallNr::CrypObjAlloc => if object_types.contains(regs.rdi) && regs.rsi <= 0xffff_ffff {
                    &&& r matches Ok(SyscallRequest::CrypObjAlloc { typ, max_size, obj })
                    &&& typ.code == regs.rdi
                    &&& max_size == regs.rsi
                    &&& obj == regs.rdx
                } else {
                    r == Err::<SyscallRequest, Errno>(Errno::EINVAL)
                },
                TeeSyscallNr::CrypObjClose => if regs.rdi <= 0xffff_ffff {
                    &&& r matches Ok(SyscallRequest::CrypObjClose { obj })
                    &&& obj.0 == regs.rdi
                } else {
                    r == Err::<SyscallRequest, Errno>(Errno::EINVAL)
                },
                TeeSyscallNr::CrypObjReset => if regs.rdi <= 0xffff_ffff {
                    &&& r matches Ok(SyscallRequest::CrypObjReset { obj })
                    &&& obj.0 == regs.rdi
                } else {
                    r == Err::<SyscallRequest, Errno>(Errno::EINVAL)
                },
                TeeSyscallNr::CrypObjPopulate => if regs.rdi <= 0xffff_ffff {
                    &&& r matches Ok(SyscallRequest::CrypObjPopulate { obj, attrs, attr_count })
                    &&& obj.0 == regs.rdi
                    &&& attrs == regs.rsi
                    &&& attr_count == regs.rdx
                } else {
                    r == Err::<SyscallRequest, Errno>(Errno::EINVAL)
                },
                TeeSyscallNr::CrypObjCopy => if regs.rdi <= 0xffff_ffff && regs.rsi <= 0xffff_ffff {
                    &&& r matches Ok(SyscallRequest::CrypObjCopy { dst_obj, src_obj })
                    &&& dst_obj.0 == regs.rdi
                    &&& src_obj.0 == regs.rsi
                } else {
                    r == Err::<SyscallRequest, Errno>(Errno::EINVAL)
                },
                TeeSyscallNr::CrypRandomNumberGenerate => {
                    &&& r matches Ok(SyscallRequest::CrypRandomNumberGenerate { buf, blen })
                    &&& buf == regs.rdi
                    &&& blen == regs.rsi
                },
                TeeSyscallNr::Unknown => r == Err::<SyscallRequest, Errno>(Errno::ENOSYS),
                TeeSyscallNr::Unhandled => true,
            }
        }),
{
    let algorithms = seq![
        0x1000_0210usize, 0x4000_0810usize, 0x7000_4830usize, 0x7000_6830usize, 0x3000_0004usize, 0x3000_0006usize, 0xefff_ffffusize,
    ];
    let object_types = seq![
        0xa000_0010usize, 0xa000_0004usize, 0xa000_0006usize, 0xa000_0030usize, 0xa100_0030usize, 0xa000_0000usize, 0xa000_00beusize, 0xa000_00bfusize,
    ];
    lemma_contains7(algorithms, regs.rdi);
    lemma_contains8(object_types, regs.rdi);
    lemma_known_codes(regs.rdi);
    lemma_known_codes(regs.rsi);
}

/// What a sequence of seven contains.
proof fn lemma_contains7(s: Seq<usize>, v: usize)
    requires
        s.len() == 7,
    ensures
        s.contains(v) <==> v == s[0] || v == s[1] || v == s[2] || v == s[3] || v == s[4] || v
            == s[5] || v == s[6],
{
}

/// What a sequence of eight contains.
proof fn lemma_contains8(s: Seq<usize>, v: usize)
    requires
        s.len() == 8,
    ensures
        s.contains(v) <==> v == s[0] || v == s[1] || v == s[2] || v == s[3] || v == s[4] || v
            == s[5] || v == s[6] || v == s[7],
{
}

/// Which numbers are codes.
proof fn lemma_known_codes(v: usize)
    ensures
        is_prop_set(v) <==> 0xffff_fffd <= v <= 0xffff_ffff,
        is_operation_mode(v) <==> v <= 6,
        is_algorithm(v) <==> v == 0x1000_0210 || v == 0x4000_0810 || v == 0x7000_4830 || v == 0x7000_6830 || v == 0x3000_0004 || v == 0x3000_0006 || v == 0xefff_ffff,
{
    assert(TeePropSet::TeeImplementation.code() == 0xffff_fffd);
    assert(TeePropSet::CurrentClient.code() == 0xffff_fffe);
    assert(TeePropSet::CurrentTa.code() == 0xffff_ffff);
    assert(TeeOperationMode::Encrypt.code() == 0);
    assert(TeeOperationMode::Decrypt.code() == 1);
    assert(TeeOperationMode::Sign.code() == 2);
    assert(TeeOperationMode::Verify.code() == 3);
    assert(TeeOperationMode::Mac.code() == 4);
    assert(TeeOperationMode::Digest.code() == 5);
    assert(TeeOperationMode::Derive.code() == 6);
    assert(TeeAlgorithm::AesCtr.code() == 0x1000_0210);
    assert(TeeAlgorithm::AesGcm.code() == 0x4000_0810);
    assert(TeeAlgorithm::RsaPkcs1Sha256.code() == 0x7000_4830);
    assert(TeeAlgorithm::RsaPkcs1Sha512.code() == 0x7000_6830);
    assert(TeeAlgorithm::HmacSha256.code() == 0x3000_0004);
    assert(TeeAlgorithm::HmacSha512.code() == 0x3000_0006);
    assert(TeeAlgorithm::IllegalValue.code() == 0xefff_ffff);
}

/// Every call of the loader takes its operands from the registers in the order of its
/// signature; handles of 32 bits are refused with `EINVAL` where the register holds more.
pub proof fn law_ldelf_operands_come_from_registers(
    number: usize,
    nr: LdelfSyscallNr,
    regs: PtRegs,
    r: Result<LdelfSyscallRequest, Errno>,
)
    requires
        call_ensures(LdelfSyscallRequest::try_from_raw, (number, nr, &regs), r),
        number <= 0xffff_ffff,
    ensures
        ({
            match nr {
                LdelfSyscallNr::Return => {
                    &&& r matches Ok(LdelfSyscallRequest::Return { ret })
                    &&& ret == regs.rdi
                },
                LdelfSyscallNr::Log => {
                    &&& r matches Ok(LdelfSyscallRequest::Log { buf, len })
                    &&& buf == regs.rdi
                    &&& len == regs.rsi
                },
                LdelfSyscallNr::Panic => {
                    &&& r matches Ok(LdelfSyscallRequest::Panic { code })
                    &&& code == regs.rdi
                },
                LdelfSyscallNr::MapZi => {
                    &&& r matches Ok(LdelfSyscallRequest::MapZi { va, num_bytes, pad_begin, pad_end, flags })
                    &&& va == regs.rdi
                    &&& num_bytes == regs.rsi
                    &&& pad_begin == regs.rdx
                    &&& pad_end == regs.r10
                    &&& flags.bits == regs.r8
                },
                LdelfSyscallNr::Unmap => {
                    &&& r matches Ok(LdelfSyscallRequest::Unmap { va, num_bytes })
                    &&& va == regs.rdi
                    &&& num_bytes == regs.rsi
                },
                LdelfSyscallNr::OpenBin => {
                    &&& r matches Ok(LdelfSyscallRequest::OpenBin { uuid, uuid_size, handle })
                    &&& uuid == regs.rdi
                    &&& uuid_size == regs.rsi
                    &&& handle == regs.rdx
                },
                LdelfSyscallNr::CloseBin => if regs.rdi <= 0xffff_ffff {
                    &&& r matches Ok(LdelfSyscallRequest::CloseBin { handle })
                    &&& handle == regs.rdi
                } else {
                    r == Err::<LdelfSyscallRequest, Errno>(Errno::EINVAL)
                },
                LdelfSyscallNr::MapBin => if regs.rdx <= 0xffff_ffff {
                    &&& r matches Ok(LdelfSyscallRequest::MapBin { va, num_bytes, handle, offs, pad_begin, pad_end, flags })
                    &&& va == regs.rdi
                    &&& num_bytes == regs.rsi
                    &&& handle == regs.rdx
                    &&& offs == regs.r10
                    &&& pad_begin == regs.r8
                    &&& pad_end == regs.r9
                    &&& flags.bits == regs.r12
                } else {
                    r == Err::<LdelfSyscallRequest, Errno>(Errno::EINVAL)
                },
                LdelfSyscallNr::CpFromBin => if regs.r10 <= 0xffff_ffff {
                    &&& r matches Ok(LdelfSyscallRequest::CpFromBin { dst, offs, num_bytes, handle })
                    &&& dst == regs.rdi
                    &&& offs == regs.rsi
                    &&& num_bytes == regs.rdx
                    &&& handle == regs.r10
                } else {
                    r == Err::<LdelfSyscallRequest, Errno>(Errno::EINVAL)
                },
                LdelfSyscallNr::GenRndNum => {
                    &&& r matches Ok(LdelfSyscallRequest::GenRndNum { buf, num_bytes })
                    &&& buf == regs.rdi
                    &&& num_bytes == regs.rsi
                },
                LdelfSyscallNr::Unknown => true,
                LdelfSyscallNr::Unhandled => true,
            }
        }),
{
}

/// A number of more than 32 bits is that of no call, whatever the registers hold.
pub proof fn law_large_numbers_are_no_calls(
    number: usize,
    nr: TeeSyscallNr,
    ldelf_nr: LdelfSyscallNr,
    regs: PtRegs,
    r: Result<SyscallRequest, Errno>,
    s: Result<LdelfSyscallRequest, Errno>,
)
    requires
        call_ensures(SyscallRequest::try_from_raw, (number, nr, &regs), r),
        call_ensures(LdelfSyscallRequest::try_from_raw, (number, ldelf_nr, &regs), s),
        number > 0xffff_ffff,
    ensures
        r == Err::<SyscallRequest, Errno>(Errno::ENOSYS),
        s == Err::<LdelfSyscallRequest, Errno>(Errno::ENOSYS),
{
}

/// Argument `i` of a call is in the register at place `i` of the calling convention.
pub proof fn law_arguments_in_order(
    regs: PtRegs,
    context: SyscallContext,
    index: usize,
    r: usize,
)
    requires
        call_ensures(SyscallContext::from_pt_regs, (&regs,), context),
        call_ensures(SyscallContext::syscall_arg, (&context, index), r),
        index < 8,
    ensures
        r == if index == 0 {
            regs.rdi
        } else if index == 1 {
            regs.rsi
        } else if index == 2 {
            regs.rdx
        } else if index == 3 {
            regs.r10
        } else if index == 4 {
            regs.r8
        } else if index == 5 {
            regs.r9
        } else if index == 6 {
            regs.r12
        } else {
            regs.r13
        },
{
    assert(context.args[index as int] == context.args@[index as int]);
}

/// Arguments that a context is made of are those that it gives.
pub proof fn law_arguments_are_kept(
    args: [usize; 8],
    context: SyscallContext,
    index: usize,
    r: usize,
)
    requires
        call_ensures(SyscallContext::new, (&args,), context),
        call_ensures(SyscallContext::syscall_arg, (&context, index), r),
        index < 8,
    ensures
        r == args[index as int],
{
}

/// The last part of a cipher takes its operands from the same registers as every other
/// part.
pub proof fn law_cipher_final_like_update(
    number: usize,
    regs: PtRegs,
    u: Result<SyscallRequest, Errno>,
    f: Result<SyscallRequest, Errno>,
)
    requires
        call_ensures(
            SyscallRequest::try_from_raw,
            (number, TeeSyscallNr::CipherUpdate, &regs),
            u,
        ),
        call_ensures(
            SyscallRequest::try_from_raw,
            (number, TeeSyscallNr::CipherFinal, &regs),
            f,
        ),
    ensures
        match u {
            Ok(SyscallRequest::CipherUpdate { state, src, src_len, dst, dst_len }) => f == Ok::<
                SyscallRequest,
                Errno,
            >(SyscallRequest::CipherFinal { state, src, src_len, dst, dst_len }),
            Ok(_) => false,
            Err(error) => f == Err::<SyscallRequest, Errno>(error),
        },
{
}

} // verus!
