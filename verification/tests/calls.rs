//! SMC calls, system calls and TA headers.

use litebox_optee::codes::{
    Errno, OpteeMessageCommand, OpteeSecureWorldCapabilities, OpteeSmcFunction,
    OpteeSmcReturnCode, TeeAlgorithm, TeeCrypStateHandle, TeeObjHandle, TeeOperationMode,
    TeeOrigin, TeePropSet, TeeResult,
};
use litebox_optee::loader::{REWRITER_MAGIC_NUMBER, REWRITER_VERSION_NUMBER};
use litebox_optee::msg::{OpteeMsgArgs, OpteeMsgAttr, OpteeMsgParam};
use litebox_optee::phys::PhysPointerError;
use litebox_optee::smc::{
    handle_optee_smc_args, take_msg_args, OpteeSmcArgs, OpteeSmcArgsPage, OpteeSmcResult, SmcStep,
};
use litebox_optee::syscall::{
    LdelfSyscallNr, LdelfSyscallRequest, PtRegs, SyscallContext, SyscallRequest, TeeSyscallNr,
};
use litebox_optee::ta_head::{parse_ta_head, TaFlags};

fn smc(args: &[usize]) -> OpteeSmcArgs {
    let mut all = [0usize; 9];
    all[..args.len()].copy_from_slice(args);
    OpteeSmcArgs::from(&OpteeSmcArgsPage { args: all })
}

fn reply(args: &[usize]) -> [usize; 9] {
    match handle_optee_smc_args(&smc(args)) {
        Ok(SmcStep::Reply(result)) => OpteeSmcArgs::from_result(result).args,
        _ => panic!("no reply"),
    }
}

#[test]
fn functions_by_number() {
    assert_eq!(smc(&[0x3200_0004]).func_id(), Ok(OpteeSmcFunction::CallWithArg));
    assert_eq!(smc(&[0xbf00_ff01]).func_id(), Ok(OpteeSmcFunction::CallsUid));
    assert_eq!(smc(&[2]).func_id(), Err(OpteeSmcReturnCode::EBadCmd));
}

#[test]
fn addresses_of_messages() {
    assert_eq!(smc(&[4, 0x1, 0x2345_6000]).optee_msg_args_phys_addr(), Ok(0x1_2345_6000));
    assert_eq!(
        smc(&[4, 0xffff_ffff, 0xffff_ffff]).optee_msg_args_phys_addr(),
        Ok(0xffff_ffff_ffff_ffff)
    );
    assert_eq!(
        smc(&[4, 0x1_0000_0000, 0]).optee_msg_args_phys_addr(),
        Err(OpteeSmcReturnCode::EBadAddr)
    );
    assert_eq!(
        smc(&[4, 0, 0x1_0000_0000]).optee_msg_args_phys_addr(),
        Err(OpteeSmcReturnCode::EBadAddr)
    );
}

#[test]
fn calls_are_answered() {
    assert_eq!(reply(&[9]), [0, 0x54, 0, 4, 0, 0, 0, 0, 0]);
    assert_eq!(reply(&[0xa]), [7, 0, 0, 0, 0, 0, 0, 0, 0]);
    assert_eq!(
        reply(&[0]),
        [0x4861_78e0, 0xe7f8_11e3, 0xbc5e_0002, 0xa5d5_c51b, 0, 0, 0, 0, 0]
    );
    assert_eq!(
        reply(&[0xff01]),
        [0x384f_b3e0, 0xe7f8_11e3, 0xaf63_0002, 0xa5d5_c51b, 0, 0, 0, 0, 0]
    );
    assert_eq!(reply(&[1]), [2, 0, 0, 0, 0, 0, 0, 0, 0]);
    assert_eq!(reply(&[0xff03]), [2, 0, 0, 0, 0, 0, 0, 0, 0]);
}

#[test]
fn calls_carry_messages() {
    for f in [0x4, 0x12, 0x13] {
        assert!(matches!(
            handle_optee_smc_args(&smc(&[f, 2, 0x3000])),
            Ok(SmcStep::ReadMsgArgs(0x2_0000_3000))
        ));
        assert!(matches!(
            handle_optee_smc_args(&smc(&[f, 1 << 32, 0])),
            Err(OpteeSmcReturnCode::EBadAddr)
        ));
    }
    assert!(matches!(
        handle_optee_smc_args(&smc(&[0x77])),
        Err(OpteeSmcReturnCode::EBadCmd)
    ));
    let msg = OpteeMsgArgs {
        cmd: OpteeMessageCommand::Cancel,
        func: 1,
        session: 2,
        cancel_id: 3,
        ret: TeeResult::Success,
        ret_origin: TeeOrigin { code: 1 },
        num_params: 0,
        params: [OpteeMsgParam { attr: OpteeMsgAttr { bits: 0 }, a: 0, b: 0, c: 0 }; 6],
    };
    match take_msg_args(Ok(msg)) {
        Ok(OpteeSmcResult::CallWithArg { msg_args }) => assert_eq!(*msg_args, msg),
        _ => panic!("no message"),
    }
    assert!(matches!(
        take_msg_args(Err(PhysPointerError::NoMappingInfo)),
        Err(OpteeSmcReturnCode::EBadAddr)
    ));
}

#[test]
fn results_as_registers() {
    let generic = OpteeSmcArgs::from_result(OpteeSmcResult::Generic {
        status: OpteeSmcReturnCode::UnknownFunction,
    });
    assert_eq!(generic.args, [0xffff_ffff, 0, 0, 0, 0, 0, 0, 0, 0]);
    let caps = OpteeSmcArgs::from_result(OpteeSmcResult::ExchangeCapabilities {
        status: OpteeSmcReturnCode::Success,
        capabilities: OpteeSecureWorldCapabilities { bits: 3 },
        max_notif_value: 4,
        data: 5,
    });
    assert_eq!(caps.args, [0, 3, 4, 5, 0, 0, 0, 0, 0]);
    let revision = OpteeSmcArgs::from_result(OpteeSmcResult::OsRevision {
        major: 1,
        minor: 2,
        build_id: 3,
    });
    assert_eq!(revision.args, [1, 2, 3, 0, 0, 0, 0, 0, 0]);
    let cache = OpteeSmcArgs::from_result(OpteeSmcResult::DisableShmCache {
        status: OpteeSmcReturnCode::EBusy,
        shm_upper32: 8,
        shm_lower32: 9,
    });
    assert_eq!(cache.args, [2, 8, 9, 0, 0, 0, 0, 0, 0]);
    let mut args = OpteeSmcArgs::default();
    args.set_return_code(OpteeSmcReturnCode::ENomem);
    assert_eq!(args.args, [6, 0, 0, 0, 0, 0, 0, 0, 0]);
}

fn regs(args: [usize; 8]) -> PtRegs {
    PtRegs {
        rdi: args[0],
        rsi: args[1],
        rdx: args[2],
        r10: args[3],
        r8: args[4],
        r9: args[5],
        r12: args[6],
        r13: args[7],
    }
}

#[test]
fn arguments_of_calls() {
    let ctx = SyscallContext::from_pt_regs(&regs([1, 2, 3, 4, 5, 6, 7, 8]));
    for i in 0..8 {
        assert_eq!(ctx.syscall_arg(i), i + 1);
    }
    assert_eq!(ctx, SyscallContext::new(&[1, 2, 3, 4, 5, 6, 7, 8]));
}

#[test]
fn requests_of_tas() {
    let r = regs([1, 2, 3, 4, 5, 6, 7, 8]);
    assert_eq!(
        SyscallRequest::try_from_raw(0, TeeSyscallNr::Return, &r),
        Ok(SyscallRequest::Return { ret: 1 })
    );
    assert_eq!(
        SyscallRequest::try_from_raw(3, TeeSyscallNr::GetProperty, &regs([0xffff_ffff, 2, 3, 4, 5, 6, 7, 8])),
        Ok(SyscallRequest::GetProperty {
            prop_set: TeePropSet::CurrentTa,
            index: 2,
            name: 3,
            name_len: 4,
            buf: 5,
            blen: 6,
            prop_type: 7,
        })
    );
    assert_eq!(
        SyscallRequest::try_from_raw(3, TeeSyscallNr::GetProperty, &r),
        Err(Errno::EINVAL)
    );
    assert_eq!(
        SyscallRequest::try_from_raw(7, TeeSyscallNr::InvokeTaCommand, &r),
        Ok(SyscallRequest::InvokeTaCommand {
            ta_sess_id: 1,
            cancel_req_to: 2,
            cmd_id: 3,
            params: 4,
            ret_orig: 5,
        })
    );
    assert_eq!(
        SyscallRequest::try_from_raw(7, TeeSyscallNr::InvokeTaCommand, &regs([1, 2, 1 << 32, 0, 0, 0, 0, 0])),
        Err(Errno::EINVAL)
    );
    assert_eq!(
        SyscallRequest::try_from_raw(
            9,
            TeeSyscallNr::CrypStateAlloc,
            &regs([0x4000_0810, 1, 7, 8, 9, 0, 0, 0])
        ),
        Ok(SyscallRequest::CrypStateAlloc {
            algo: TeeAlgorithm::AesGcm,
            op_mode: TeeOperationMode::Decrypt,
            key1: TeeObjHandle(7),
            key2: TeeObjHandle(8),
            state: 9,
        })
    );
    assert_eq!(
        SyscallRequest::try_from_raw(9, TeeSyscallNr::CipherUpdate, &r),
        Ok(SyscallRequest::CipherUpdate {
            state: TeeCrypStateHandle(1),
            src: 2,
            src_len: 3,
            dst: 4,
            dst_len: 5,
        })
    );
    assert_eq!(
        SyscallRequest::try_from_raw(9, TeeSyscallNr::CrypObjCopy, &r),
        Ok(SyscallRequest::CrypObjCopy { dst_obj: TeeObjHandle(1), src_obj: TeeObjHandle(2) })
    );
}

#[test]
fn calls_that_are_not_known() {
    let r = regs([0; 8]);
    assert_eq!(
        SyscallRequest::try_from_raw(99, TeeSyscallNr::Unknown, &r),
        Err(Errno::ENOSYS)
    );
    assert_eq!(
        SyscallRequest::try_from_raw(1 << 32, TeeSyscallNr::Return, &r),
        Err(Errno::ENOSYS)
    );
    assert_eq!(
        LdelfSyscallRequest::try_from_raw(1 << 32, LdelfSyscallNr::Unknown, &r),
        Err(Errno::ENOSYS)
    );
}

#[test]
fn requests_of_the_loader() {
    let r = regs([1, 2, 3, 4, 5, 6, 7, 8]);
    assert_eq!(
        LdelfSyscallRequest::try_from_raw(0, LdelfSyscallNr::Panic, &r),
        Ok(LdelfSyscallRequest::Panic { code: 1 })
    );
    match LdelfSyscallRequest::try_from_raw(1, LdelfSyscallNr::MapBin, &r) {
        Ok(LdelfSyscallRequest::MapBin { va, num_bytes, handle, offs, pad_begin, pad_end, flags }) => {
            assert_eq!((va, num_bytes, handle, offs, pad_begin, pad_end), (1, 2, 3, 4, 5, 6));
            assert_eq!(flags.bits, 7);
        }
        _ => panic!("no request"),
    }
    match LdelfSyscallRequest::try_from_raw(1, LdelfSyscallNr::MapZi, &r) {
        Ok(LdelfSyscallRequest::MapZi { flags, pad_end, .. }) => {
            assert_eq!(flags.bits, 5);
            assert_eq!(pad_end, 4);
        }
        _ => panic!("no request"),
    }
    assert_eq!(
        LdelfSyscallRequest::try_from_raw(1, LdelfSyscallNr::CpFromBin, &regs([0, 0, 0, 1 << 32, 0, 0, 0, 0])),
        Err(Errno::EINVAL)
    );
}

#[test]
fn numbers_of_the_rewriter() {
    assert_eq!(REWRITER_MAGIC_NUMBER, u64::from_le_bytes(*b"LITE BOX"));
    assert_eq!(REWRITER_VERSION_NUMBER, u64::from_le_bytes(*b"LITEBOX0"));
}

/// An ELF binary with the sections `names`, the header of a TA at `head_at`.
fn elf(names: &[&str], sizes: &[u64], head_at: u64) -> Vec<u8> {
    let mut strings = vec![0u8];
    let mut offsets = Vec::new();
    for name in names {
        offsets.push(strings.len() as u32);
        strings.extend_from_slice(name.as_bytes());
        strings.push(0);
    }
    let table = 64 + 32 + strings.len();
    let mut elf = vec![0u8; table + 64 * (names.len() + 1)];
    elf[0..4].copy_from_slice(b"\x7fELF");
    elf[40..48].copy_from_slice(&(table as u64).to_le_bytes());
    elf[58..60].copy_from_slice(&64u16.to_le_bytes());
    elf[60..62].copy_from_slice(&(names.len() as u16 + 1).to_le_bytes());
    elf[62..64].copy_from_slice(&(names.len() as u16).to_le_bytes());
    for i in 0..32 {
        elf[64 + i] = i as u8 + 1;
    }
    elf[96..96 + strings.len()].copy_from_slice(&strings);
    for (i, offset) in offsets.iter().enumerate() {
        let at = table + 64 * i;
        elf[at..at + 4].copy_from_slice(&offset.to_le_bytes());
        elf[at + 24..at + 32].copy_from_slice(&head_at.to_le_bytes());
        elf[at + 32..at + 40].copy_from_slice(&sizes[i].to_le_bytes());
    }
    let at = table + 64 * names.len();
    elf[at + 24..at + 32].copy_from_slice(&96u64.to_le_bytes());
    elf[at + 32..at + 40].copy_from_slice(&(strings.len() as u64).to_le_bytes());
    elf
}

#[test]
fn the_header_of_a_ta_is_found() {
    let data = elf(&[".text", ".ta_head"], &[0, 32], 64);
    let head = parse_ta_head(&data).unwrap();
    assert_eq!(head.uuid.time_low, 0x0403_0201);
    assert_eq!(head.uuid.time_mid, 0x0605);
    assert_eq!(head.uuid.time_hi_and_version, 0x0807);
    assert_eq!(head.uuid.clock_seq_and_node, [9, 10, 11, 12, 13, 14, 15, 16]);
    assert_eq!(head.stack_size, 0x1413_1211);
    assert_eq!(head.flags.bits, 0x1817_1615);
    assert_eq!(head.depr_entry, 0x201f_1e1d_1c1b_1a19);
}

#[test]
fn only_the_first_section_of_the_name_counts() {
    assert!(parse_ta_head(&elf(&[".ta_head", ".ta_head"], &[31, 32], 64)).is_none());
    assert!(parse_ta_head(&elf(&[".ta_head", ".ta_head"], &[32, 31], 64)).is_some());
    assert!(parse_ta_head(&elf(&[".ta_heads", ".ta_hea", "x.ta_head"], &[32; 3], 64)).is_none());
}

#[test]
fn broken_binaries_have_no_header() {
    let good = elf(&[".ta_head"], &[32], 64);
    assert!(parse_ta_head(&good).is_some());
    assert!(parse_ta_head(&good[..63]).is_none());
    assert!(parse_ta_head(&good[..good.len() - 1]).is_none());
    let mut magic = good.clone();
    magic[1] = b'e';
    assert!(parse_ta_head(&magic).is_none());
    let mut empty = good.clone();
    empty[60..62].copy_from_slice(&[0, 0]);
    assert!(parse_ta_head(&empty).is_none());
    let mut index = good.clone();
    index[62..64].copy_from_slice(&[2, 0]);
    assert!(parse_ta_head(&index).is_none());
    let mut far = good.clone();
    far[40..48].copy_from_slice(&[0xff; 8]);
    assert!(parse_ta_head(&far).is_none());
    assert!(parse_ta_head(&elf(&[".ta_head"], &[32], good.len() as u64 - 31)).is_none());
    assert!(parse_ta_head(&elf(&[".ta_head"], &[32], u64::MAX)).is_none());
    assert!(parse_ta_head(&elf(&[".ta_head"], &[32], good.len() as u64 - 32)).is_some());
}

#[test]
fn flags_of_tas() {
    let flags = TaFlags { bits: 0x14 };
    assert!(flags.is_single_instance());
    assert!(flags.is_keep_alive());
    assert!(!flags.is_multi_session());
    assert!(TaFlags { bits: 0x8 }.is_multi_session());
    assert_eq!(TaFlags::USER_MODE | TaFlags::EXEC_DDR, 0);
}
