//! Messages and shared memory.

use litebox_optee::codes::{
    OpteeMessageCommand, OpteeMsgAttrType, OpteeSmcReturnCode, TeeOrigin, TeeResult,
};
use litebox_optee::msg::{
    OpteeMsgArgs, OpteeMsgAttr, OpteeMsgParam, OpteeMsgParamFmem, OpteeMsgParamRmem,
    OpteeMsgParamTmem, OpteeMsgParamValue,
};
use litebox_optee::msg_handler::{
    can_handle_msg_args, handle_optee_msg_args, page_align_down, page_align_up, MsgOutcome,
};
use litebox_optee::phys::{
    MemoryRegionPermissions, PhysPageAddr, PhysPageMapInfo, PhysPageMapPermissions,
    PhysPointerError, VmapManager,
};
use litebox_optee::shm::{
    get_shm_info_from_optee_msg_param_tmem, tmem_buffer_fits, ShmInfo, ShmRefMap,
};
use litebox_optee::shm_registration::{RegistrationStep, ShmRefPagesData, ShmRegistration};

fn param(typ: u64, a: u64, b: u64, c: u64) -> OpteeMsgParam {
    OpteeMsgParam { attr: OpteeMsgAttr { bits: typ }, a, b, c }
}

fn message(cmd: OpteeMessageCommand, params: &[OpteeMsgParam]) -> OpteeMsgArgs {
    let mut all = [param(0, 0, 0, 0); 6];
    all[..params.len()].copy_from_slice(params);
    OpteeMsgArgs {
        cmd,
        func: 0,
        session: 0,
        cancel_id: 0,
        ret: TeeResult::Success,
        ret_origin: TeeOrigin { code: TeeOrigin::TEE },
        num_params: params.len() as u32,
        params: all,
    }
}

fn page_list(pages: &[u64], next: u64) -> ShmRefPagesData {
    let mut pages_list = [0u64; 511];
    pages_list[..pages.len()].copy_from_slice(pages);
    ShmRefPagesData { pages_list, next_page_data: next }
}

fn addrs(info: &ShmInfo<4096>) -> Vec<u64> {
    info.page_addrs().iter().map(|p| p.addr).collect()
}

#[test]
fn attributes_of_parameters() {
    let attr = OpteeMsgAttr { bits: 0x30a };
    assert_eq!(attr.typ(), 0xa);
    assert!(attr.meta());
    assert!(attr.noncontig());
    let plain = OpteeMsgAttr { bits: 0x1 };
    assert!(!plain.meta());
    assert!(!plain.noncontig());
}

#[test]
fn parameters_by_type() {
    let tmem = param(0x9, 1, 2, 3);
    assert_eq!(tmem.attr_type(), OpteeMsgAttrType::TmemInput);
    assert_eq!(
        tmem.get_param_tmem(),
        Some(OpteeMsgParamTmem { buf_ptr: 1, size: 2, shm_ref: 3 })
    );
    assert_eq!(tmem.get_param_rmem(), None);
    assert_eq!(tmem.get_param_value(), None);
    let rmem = param(0x6, 0x1122_3344_5566_7788, 2, 3);
    assert_eq!(
        rmem.get_param_rmem(),
        Some(OpteeMsgParamRmem { offs: 0x1122_3344_5566_7788, size: 2, shm_ref: 3 })
    );
    assert_eq!(
        rmem.get_param_fmem(),
        Some(OpteeMsgParamFmem {
            offs_low: 0x5566_7788,
            offs_high: 0x3344,
            internal_offs: 0x1122,
            size: 2,
            global_id: 3,
        })
    );
    assert_eq!(rmem.get_param_tmem(), None);
    let value = param(0x103, 4, 5, 6);
    assert_eq!(value.get_param_value(), Some(OpteeMsgParamValue { a: 4, b: 5, c: 6 }));
    assert_eq!(value.get_param_fmem(), None);
    assert_eq!(param(0x44, 0, 0, 0).attr_type(), OpteeMsgAttrType::Empty);
}

#[test]
fn messages_are_validated() {
    let value = param(1, 0, 0, 0);
    assert_eq!(message(OpteeMessageCommand::OpenSession, &[value]).validate(),
        Err(OpteeSmcReturnCode::EBadCmd));
    assert_eq!(message(OpteeMessageCommand::OpenSession, &[value, value]).validate(), Ok(()));
    assert_eq!(message(OpteeMessageCommand::InvokeCommand, &[]).validate(), Ok(()));
    let mut long = message(OpteeMessageCommand::InvokeCommand, &[value; 6]);
    assert_eq!(long.validate(), Ok(()));
    long.num_params = 7;
    assert_eq!(long.validate(), Err(OpteeSmcReturnCode::EBadCmd));
}

#[test]
fn parameters_of_messages() {
    let msg = message(
        OpteeMessageCommand::InvokeCommand,
        &[param(0x9, 1, 2, 3), param(0x5, 4, 5, 6), param(0x1, 7, 8, 9)],
    );
    assert_eq!(msg.get_param_tmem(0).unwrap().size, 2);
    assert_eq!(msg.get_param_tmem(1), Err(OpteeSmcReturnCode::EBadCmd));
    assert_eq!(msg.get_param_rmem(1).unwrap().offs, 4);
    assert_eq!(msg.get_param_fmem(1).unwrap().global_id, 6);
    assert_eq!(msg.get_param_fmem(0), Err(OpteeSmcReturnCode::EBadCmd));
    assert_eq!(msg.get_param_value(2).unwrap().c, 9);
    assert_eq!(msg.get_param_value(3), Err(OpteeSmcReturnCode::ENotAvail));
    assert_eq!(msg.get_param_rmem(100), Err(OpteeSmcReturnCode::ENotAvail));
}

#[test]
fn values_are_read_back() {
    let mut msg = message(OpteeMessageCommand::InvokeCommand, &[param(0x3, 1, 2, 3), param(0xa, 4, 5, 6)]);
    let before = msg;
    let value = OpteeMsgParamValue { a: 10, b: 20, c: 30 };
    assert_eq!(msg.set_param_value(0, value), Ok(()));
    assert_eq!(msg.get_param_value(0), Ok(value));
    assert_eq!(msg.params[1], before.params[1]);
    assert_eq!(msg.set_param_memref_size(1, 99), Ok(()));
    assert_eq!(
        msg.get_param_tmem(1),
        Ok(OpteeMsgParamTmem { buf_ptr: 4, size: 99, shm_ref: 6 })
    );
    assert_eq!(msg.set_param_value(2, value), Err(OpteeSmcReturnCode::ENotAvail));
    assert_eq!(msg.set_param_memref_size(2, 1), Err(OpteeSmcReturnCode::ENotAvail));
}

#[test]
fn page_addresses() {
    assert_eq!(PhysPageAddr::<4096>::new(0), None);
    assert_eq!(PhysPageAddr::<4096>::new(0x1001), None);
    assert_eq!(PhysPageAddr::<4096>::new(0x3000).unwrap().addr, 0x3000);
}

#[test]
fn page_permissions() {
    let all = MemoryRegionPermissions { read: true, write: true, execute: true, shared: true };
    let pages = PhysPageMapPermissions::from(all);
    assert_eq!(pages, PhysPageMapPermissions { read: true, write: true });
    assert_eq!(
        MemoryRegionPermissions::from(pages),
        MemoryRegionPermissions { read: true, write: true, execute: false, shared: false }
    );
    let read = PhysPageMapPermissions { read: true, write: false };
    assert_eq!(PhysPageMapPermissions::from(MemoryRegionPermissions::from(read)), read);
}

struct PlainPlatform;

impl VmapManager<4096> for PlainPlatform {}

#[test]
fn a_platform_without_mappings() {
    let perms = PhysPageMapPermissions { read: true, write: false };
    assert_eq!(PlainPlatform.vmap(&[], perms), Err(PhysPointerError::UnsupportedOperation));
    assert_eq!(
        PlainPlatform.vunmap(PhysPageMapInfo { base: 0, size: 0 }),
        Err(PhysPointerError::UnsupportedOperation)
    );
    assert_eq!(PlainPlatform.validate_unowned(&[]), Ok(()));
    assert_eq!(PlainPlatform.protect(&[], perms), Ok(()));
}

#[test]
fn offsets_of_shared_memory() {
    assert!(ShmInfo::<4096>::new(vec![], 4095).is_ok());
    assert_eq!(ShmInfo::<4096>::new(vec![], 4096), Err(OpteeSmcReturnCode::EBadAddr));
}

#[test]
fn temporary_memory() {
    let info = get_shm_info_from_optee_msg_param_tmem(OpteeMsgParamTmem {
        buf_ptr: 0x1ff0,
        size: 0x20,
        shm_ref: 0,
    })
    .unwrap();
    assert_eq!(addrs(&info), vec![0x1000, 0x2000]);
    assert_eq!(info.page_offset(), 0xff0);
    let exact = get_shm_info_from_optee_msg_param_tmem(OpteeMsgParamTmem {
        buf_ptr: 0x3000,
        size: 0x1000,
        shm_ref: 0,
    })
    .unwrap();
    assert_eq!(addrs(&exact), vec![0x3000]);
    let null = get_shm_info_from_optee_msg_param_tmem(OpteeMsgParamTmem {
        buf_ptr: 0,
        size: u64::MAX,
        shm_ref: 0,
    })
    .unwrap();
    assert_eq!(addrs(&null), Vec::<u64>::new());
    assert_eq!(
        get_shm_info_from_optee_msg_param_tmem(OpteeMsgParamTmem {
            buf_ptr: 0x10,
            size: 1,
            shm_ref: 0,
        }),
        Err(OpteeSmcReturnCode::EBadAddr)
    );
    assert!(!tmem_buffer_fits(&OpteeMsgParamTmem { buf_ptr: 0x1010, size: u64::MAX, shm_ref: 0 }));
    assert!(!tmem_buffer_fits(&OpteeMsgParamTmem {
        buf_ptr: 0xffff_ffff_ffff_f000,
        size: 0x1001,
        shm_ref: 0,
    }));
    assert!(tmem_buffer_fits(&OpteeMsgParamTmem {
        buf_ptr: 0xffff_ffff_ffff_f000,
        size: 0x1000,
        shm_ref: 0,
    }));
}

fn pages(list: &[u64]) -> Vec<PhysPageAddr<4096>> {
    list.iter().map(|a| PhysPageAddr::new(*a).unwrap()).collect()
}

#[test]
fn registered_memory() {
    let mut shms = ShmRefMap::new();
    let info = ShmInfo::new(pages(&[0x7000, 0x3000, 0x9000]), 0x800).unwrap();
    assert_eq!(shms.insert(5, info.clone()), Ok(()));
    assert_eq!(shms.insert(5, info.clone()), Err(OpteeSmcReturnCode::ENotAvail));
    assert_eq!(shms.get(5), Some(info.clone()));
    assert_eq!(shms.get(6), None);
    let part = shms
        .get_shm_info_from_optee_msg_param_rmem(OpteeMsgParamRmem { offs: 0x900, size: 0x1000, shm_ref: 5 })
        .unwrap();
    assert_eq!(addrs(&part), vec![0x3000, 0x9000]);
    assert_eq!(part.page_offset(), 0x100);
    let rest = shms
        .get_shm_info_from_optee_msg_param_rmem(OpteeMsgParamRmem { offs: 0, size: 0x2800, shm_ref: 5 })
        .unwrap();
    assert_eq!(addrs(&rest), vec![0x7000, 0x3000, 0x9000]);
    assert_eq!(
        shms.get_shm_info_from_optee_msg_param_rmem(OpteeMsgParamRmem { offs: 0, size: 0x2801, shm_ref: 5 }),
        Err(OpteeSmcReturnCode::EBadAddr)
    );
    assert_eq!(
        shms.get_shm_info_from_optee_msg_param_rmem(OpteeMsgParamRmem { offs: 0x2800, size: 0, shm_ref: 5 }),
        Err(OpteeSmcReturnCode::EBadAddr)
    );
    assert_eq!(
        shms.get_shm_info_from_optee_msg_param_rmem(OpteeMsgParamRmem { offs: u64::MAX, size: 0, shm_ref: 5 }),
        Err(OpteeSmcReturnCode::EBadAddr)
    );
    assert_eq!(
        shms.get_shm_info_from_optee_msg_param_rmem(OpteeMsgParamRmem { offs: 1, size: u64::MAX, shm_ref: 5 }),
        Err(OpteeSmcReturnCode::EBadAddr)
    );
    assert_eq!(
        shms.get_shm_info_from_optee_msg_param_rmem(OpteeMsgParamRmem { offs: 0, size: 1, shm_ref: 4 }),
        Err(OpteeSmcReturnCode::ENotAvail)
    );
    assert_eq!(shms.remove(5), Some(info));
    assert_eq!(shms.remove(5), None);
}

#[test]
fn rounding_to_pages() {
    assert_eq!(page_align_down(0x1fff), 0x1000);
    assert_eq!(page_align_down(0x2000), 0x2000);
    assert_eq!(page_align_up(0), 0);
    assert_eq!(page_align_up(1), 0x1000);
    assert_eq!(page_align_up(0x1000), 0x1000);
}

fn registration(shms: &mut ShmRefMap, tmem: (u64, u64, u64)) -> (ShmRegistration, RegistrationStep) {
    let msg = message(OpteeMessageCommand::RegisterShm, &[param(0xa, tmem.0, tmem.1, tmem.2)]);
    assert!(can_handle_msg_args(&msg));
    match handle_optee_msg_args(&msg, shms) {
        Ok(MsgOutcome::Register(registration, step)) => (registration, step),
        _ => panic!("no registration"),
    }
}

#[test]
fn memory_is_registered_by_a_message_and_removed_by_another() {
    let mut shms = ShmRefMap::new();
    let (mut reg, step) = registration(&mut shms, (0x5_0010, 0x2000, 42));
    assert_eq!(step, RegistrationStep::ReadNext(0x5_0000));
    // 0x10 + 0x2000 bytes need three pages; the fourth entry is not taken.
    assert_eq!(
        reg.take_list(&page_list(&[0xa000, 0xb000], 0x6_0000)),
        Ok(RegistrationStep::ReadNext(0x6_0000))
    );
    assert_eq!(
        reg.take_list(&page_list(&[0xc000, 0xd000], 0x7_0000)),
        Ok(RegistrationStep::Complete)
    );
    assert_eq!(reg.finish(&mut shms), Ok(()));
    let info = shms.get(42).unwrap();
    assert_eq!(addrs(&info), vec![0xa000, 0xb000, 0xc000]);
    assert_eq!(info.page_offset(), 0x10);
    // Every part of the buffer can be referred to.
    assert!(shms
        .get_shm_info_from_optee_msg_param_rmem(OpteeMsgParamRmem { offs: 0x1fff, size: 1, shm_ref: 42 })
        .is_ok());

    let remove = message(OpteeMessageCommand::UnregisterShm, &[param(0x5, 0, 0, 42)]);
    assert!(matches!(handle_optee_msg_args(&remove, &mut shms), Ok(MsgOutcome::Done)));
    assert_eq!(shms.get(42), None);
    assert!(matches!(
        handle_optee_msg_args(&remove, &mut shms),
        Err(OpteeSmcReturnCode::EBadAddr)
    ));
}

#[test]
fn page_lists_end_and_are_checked() {
    let mut shms = ShmRefMap::new();
    let (mut short, _) = registration(&mut shms, (0x5_0000, 0x3000, 1));
    // A zero ends the list, and a zero for the next list ends the chain.
    assert_eq!(short.take_list(&page_list(&[0xa000], 0)), Ok(RegistrationStep::Complete));
    assert_eq!(short.finish(&mut shms), Ok(()));
    assert_eq!(addrs(&shms.get(1).unwrap()), vec![0xa000]);

    let (mut bad, _) = registration(&mut shms, (0x5_0000, 0x3000, 2));
    assert_eq!(
        bad.take_list(&page_list(&[0xa000, 0xb001], 0)),
        Err(OpteeSmcReturnCode::EBadAddr)
    );

    // An address behind the last page that is needed is not looked at.
    let (mut enough, _) = registration(&mut shms, (0x5_0000, 0x1000, 3));
    assert_eq!(
        enough.take_list(&page_list(&[0xa000, 0xb001], 0x9_0000)),
        Ok(RegistrationStep::Complete)
    );

    let (again, _) = registration(&mut shms, (0x5_0000, 0x1000, 1));
    assert_eq!(again.finish(&mut shms), Err(OpteeSmcReturnCode::ENotAvail));

    // A list that cannot be read ends the registration.
    let (mut unread, _) = registration(&mut shms, (0x5_0000, 0x1000, 4));
    assert_eq!(
        unread.take_read(Err(PhysPointerError::AlreadyMapped(0))),
        Err(OpteeSmcReturnCode::EBadAddr)
    );
    assert_eq!(
        unread.take_read(Ok(page_list(&[0xa000], 0))),
        Ok(RegistrationStep::Complete)
    );
    assert_eq!(unread.finish(&mut shms), Ok(()));
    assert_eq!(addrs(&shms.get(4).unwrap()), vec![0xa000]);
}

#[test]
fn a_full_list_goes_on_in_the_next() {
    let mut shms = ShmRefMap::new();
    let (mut reg, _) = registration(&mut shms, (0x5_0000, 512 * 4096, 9));
    let first: Vec<u64> = (1..=511).map(|i| i * 0x1000).collect();
    assert_eq!(
        reg.take_list(&page_list(&first, 0x6_0000)),
        Ok(RegistrationStep::ReadNext(0x6_0000))
    );
    assert_eq!(
        reg.take_list(&page_list(&[0x80_0000], 0x6_0000)),
        Ok(RegistrationStep::Complete)
    );
    assert_eq!(reg.finish(&mut shms), Ok(()));
    assert_eq!(shms.get(9).unwrap().page_addrs().len(), 512);
}

#[test]
fn registration_is_refused() {
    assert!(matches!(
        ShmRefMap::register_shm(0, 4096, 4096, 1),
        Err(OpteeSmcReturnCode::EBadAddr)
    ));
    assert!(matches!(ShmRefMap::register_shm(0, 0, 0, 1), Err(OpteeSmcReturnCode::EBadAddr)));
    let mut shms = ShmRefMap::new();
    for (buf, size, shm_ref) in [(0, 1, 1), (1, 0, 1), (1, 1, 0), (0xfff, u64::MAX, 0)] {
        let msg = message(OpteeMessageCommand::RegisterShm, &[param(0x9, buf, size, shm_ref)]);
        assert!(can_handle_msg_args(&msg));
        assert!(matches!(
            handle_optee_msg_args(&msg, &mut shms),
            Err(OpteeSmcReturnCode::EBadAddr)
        ));
    }
    let wrong = message(OpteeMessageCommand::RegisterShm, &[param(0x5, 1, 1, 1)]);
    assert!(matches!(handle_optee_msg_args(&wrong, &mut shms), Err(OpteeSmcReturnCode::EBadCmd)));
    let none = message(OpteeMessageCommand::RegisterShm, &[]);
    assert!(matches!(handle_optee_msg_args(&none, &mut shms), Err(OpteeSmcReturnCode::ENotAvail)));
    // Sizes that cannot be rounded up to whole pages.
    for (buf, size) in [(0xfff, u64::MAX), (0x1000, u64::MAX), (0x1001, u64::MAX - 0xffe)] {
        let huge = message(OpteeMessageCommand::RegisterShm, &[param(0x9, buf, size, 1)]);
        assert!(can_handle_msg_args(&huge));
        assert!(matches!(
            handle_optee_msg_args(&huge, &mut shms),
            Err(OpteeSmcReturnCode::EBadAddr)
        ));
        assert_eq!(shms.get(1), None);
    }
    let most = message(OpteeMessageCommand::RegisterShm, &[param(0x9, 0x1001, u64::MAX - 0x1000, 1)]);
    assert!(matches!(
        handle_optee_msg_args(&most, &mut shms),
        Ok(MsgOutcome::Register(_, RegistrationStep::ReadNext(0x1000)))
    ));
}

#[test]
fn other_messages() {
    let mut shms = ShmRefMap::new();
    let invoke = message(OpteeMessageCommand::InvokeCommand, &[]);
    assert!(matches!(handle_optee_msg_args(&invoke, &mut shms), Err(OpteeSmcReturnCode::Success)));
    let invalid = message(OpteeMessageCommand::OpenSession, &[]);
    assert!(matches!(handle_optee_msg_args(&invalid, &mut shms), Err(OpteeSmcReturnCode::EBadCmd)));
    let zero = message(OpteeMessageCommand::UnregisterShm, &[param(0x5, 0, 0, 0)]);
    assert!(matches!(handle_optee_msg_args(&zero, &mut shms), Err(OpteeSmcReturnCode::EBadAddr)));
    assert!(!can_handle_msg_args(&message(OpteeMessageCommand::Cancel, &[])));
    let mut long = message(OpteeMessageCommand::Cancel, &[]);
    long.num_params = 9;
    assert!(can_handle_msg_args(&long));
    assert!(matches!(handle_optee_msg_args(&long, &mut shms), Err(OpteeSmcReturnCode::EBadCmd)));
}
