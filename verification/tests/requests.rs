//! Requests to TAs and the answers to them.

use litebox_optee::codes::{
    OpteeMessageCommand, OpteeSmcReturnCode, TeeLogin, TeeOrigin, TeeParamType, TeeResult,
    UteeEntryFunc,
};
use litebox_optee::msg::{OpteeMsgArgs, OpteeMsgAttr, OpteeMsgParam};
use litebox_optee::msg_update::{
    update_optee_msg_args, write_result, MsgArgsUpdate, UpdateStep,
};
use litebox_optee::params::{
    LdelfArg, TeeObjectInfo, TeeUsage, UteeParamOwned, UteeParams, UNKNOWN_OBJECT_TYPE,
};
use litebox_optee::phys::{PhysPageAddr, PhysPointerError};
use litebox_optee::shm::{ShmInfo, ShmRefMap};
use litebox_optee::ta_request::{
    decode_param, decode_ta_request, DecodeStep, ParamPlan, TaRequestInfo,
};
use litebox_optee::uuid::TeeUuid;

fn param(typ: u64, a: u64, b: u64, c: u64) -> OpteeMsgParam {
    OpteeMsgParam { attr: OpteeMsgAttr { bits: typ }, a, b, c }
}

fn message(cmd: OpteeMessageCommand, params: &[OpteeMsgParam]) -> OpteeMsgArgs {
    let mut all = [param(0, 0, 0, 0); 6];
    all[..params.len()].copy_from_slice(params);
    OpteeMsgArgs {
        cmd,
        func: 77,
        session: 5,
        cancel_id: 6,
        ret: TeeResult::GenericError,
        ret_origin: TeeOrigin { code: TeeOrigin::COMMS },
        num_params: params.len() as u32,
        params: all,
    }
}

fn shms() -> ShmRefMap {
    let mut shms = ShmRefMap::new();
    let pages = vec![PhysPageAddr::new(0xa000).unwrap(), PhysPageAddr::new(0x4000).unwrap()];
    shms.insert(3, ShmInfo::new(pages, 0).unwrap()).unwrap();
    shms
}

/// Drives a decoder with the same data for every read.
fn decode(
    msg: &OpteeMsgArgs,
    shms: &ShmRefMap,
    read: &Result<Vec<u8>, PhysPointerError>,
) -> Result<(TaRequestInfo<4096>, usize), OpteeSmcReturnCode> {
    let mut decoder = decode_ta_request(msg)?;
    let mut reads = 0;
    loop {
        match decoder.step(shms)? {
            DecodeStep::Decoded => {}
            DecodeStep::Read { len, .. } => {
                reads += 1;
                let data = match read {
                    Ok(data) => Ok(data[..len].to_vec()),
                    Err(e) => Err(*e),
                };
                decoder.supply(data, shms)?;
            }
            DecodeStep::Done => return Ok((decoder.finish(), reads)),
        }
    }
}

#[test]
fn opening_a_session_names_the_ta_and_the_client() {
    let msg = message(
        OpteeMessageCommand::OpenSession,
        &[
            param(1, 0xe311f8e7_e0b34f38, 0x1bc5d5a5_020063af, 0),
            param(1, 1, 2, 4),
            param(1, 10, 20, 30),
        ],
    );
    let (info, reads) = decode(&msg, &shms(), &Ok(vec![])).unwrap();
    assert_eq!(reads, 0);
    assert_eq!(info.uuid.unwrap().time_low, 0x384fb3e0);
    let identity = info.client_identity.unwrap();
    assert_eq!(identity.login, TeeLogin::Application);
    assert_eq!(identity.uuid, TeeUuid::from_u64_array([1, 2]));
    assert_eq!(info.entry_func, UteeEntryFunc::OpenSession);
    assert_eq!(info.session, 5);
    assert_eq!(info.cmd_id, 77);
    assert_eq!(info.params[0], UteeParamOwned::ValueInput { value_a: 10, value_b: 20 });
    assert_eq!(info.params[1], UteeParamOwned::Empty);
    assert!(info.out_shm_info.iter().all(|o| o.is_none()));
}

#[test]
fn an_unknown_login_counts_as_public() {
    let msg = message(
        OpteeMessageCommand::OpenSession,
        &[param(1, 0, 0, 0), param(1, 0, 0, 0x7777)],
    );
    let (info, _) = decode(&msg, &shms(), &Ok(vec![])).unwrap();
    assert_eq!(info.client_identity.unwrap().login, TeeLogin::Public);
    // Only the low 32 bits count.
    let msg = message(
        OpteeMessageCommand::OpenSession,
        &[param(1, 0, 0, 0), param(1, 0, 0, 0x1_0000_0002)],
    );
    let (info, _) = decode(&msg, &shms(), &Ok(vec![])).unwrap();
    assert_eq!(info.client_identity.unwrap().login, TeeLogin::Group);
}

#[test]
fn requests_without_a_proper_header_are_refused() {
    let err = |msg: &OpteeMsgArgs| decode_ta_request(msg).err();
    assert_eq!(
        err(&message(OpteeMessageCommand::RegisterShm, &[])),
        Some(OpteeSmcReturnCode::EBadCmd)
    );
    assert_eq!(
        err(&message(OpteeMessageCommand::OpenSession, &[])),
        Some(OpteeSmcReturnCode::ENotAvail)
    );
    assert_eq!(
        err(&message(OpteeMessageCommand::OpenSession, &[param(5, 0, 0, 0), param(1, 0, 0, 0)])),
        Some(OpteeSmcReturnCode::EBadCmd)
    );
    assert_eq!(
        err(&message(OpteeMessageCommand::OpenSession, &[param(1, 0, 0, 0)])),
        Some(OpteeSmcReturnCode::ENotAvail)
    );
    assert_eq!(err(&message(OpteeMessageCommand::CloseSession, &[])), None);
}

#[test]
fn parameters_of_every_type() {
    let msg = message(
        OpteeMessageCommand::InvokeCommand,
        &[
            param(0x9, 0x2010, 4, 0),
            param(0x7, 0x10, 6, 3),
            param(0xa, 0x2010, 8, 0),
            param(0x2, 1, 2, 3),
        ],
    );
    let (info, reads) = decode(&msg, &shms(), &Ok(vec![1, 2, 3, 4, 5, 6])).unwrap();
    assert_eq!(reads, 2);
    assert_eq!(info.uuid, None);
    assert_eq!(info.client_identity, None);
    assert_eq!(info.params[0], UteeParamOwned::MemrefInput { data: vec![1, 2, 3, 4] });
    assert_eq!(
        info.params[1],
        UteeParamOwned::MemrefInout { data: vec![1, 2, 3, 4, 5, 6], buffer_size: 6 }
    );
    assert_eq!(info.params[2], UteeParamOwned::MemrefOutput { buffer_size: 8 });
    assert_eq!(info.params[3], UteeParamOwned::ValueOutput);
    assert!(info.out_shm_info[0].is_none());
    let inout = info.out_shm_info[1].as_ref().unwrap();
    assert_eq!(inout.page_addrs()[0].addr, 0xa000);
    assert_eq!(inout.page_offset(), 0x10);
    assert_eq!(info.out_shm_info[2].as_ref().unwrap().page_addrs()[0].addr, 0x2000);
    assert!(info.out_shm_info[3].is_none());

    let more = message(
        OpteeMessageCommand::InvokeCommand,
        &[
            param(0xb, 0x2010, 1, 0),
            param(0x5, 0x1000, 2, 3),
            param(0x6, 0, 9, 3),
            param(0x3, 1, 2, 3),
        ],
    );
    let (info, reads) = decode(&more, &shms(), &Ok(vec![7, 8])).unwrap();
    assert_eq!(reads, 2);
    assert_eq!(info.params[0], UteeParamOwned::MemrefInout { data: vec![7], buffer_size: 1 });
    assert!(info.out_shm_info[0].is_some());
    assert_eq!(info.params[1], UteeParamOwned::MemrefInput { data: vec![7, 8] });
    assert_eq!(info.params[2], UteeParamOwned::MemrefOutput { buffer_size: 9 });
    assert!(info.out_shm_info[2].is_some());
    assert_eq!(info.params[3], UteeParamOwned::ValueInout { value_a: 1, value_b: 2 });
}

#[test]
fn the_first_error_ends_a_request() {
    let msg = message(
        OpteeMessageCommand::InvokeCommand,
        &[param(0x5, 0, 1, 3), param(0x5, 0, 1, 99)],
    );
    // The read comes before the second parameter is looked at.
    assert_eq!(
        decode(&msg, &shms(), &Err(PhysPointerError::AlreadyMapped(0))).err(),
        Some(OpteeSmcReturnCode::EBusy)
    );
    assert_eq!(
        decode(&msg, &shms(), &Ok(vec![0])).err(),
        Some(OpteeSmcReturnCode::ENotAvail)
    );
    let outside = message(OpteeMessageCommand::InvokeCommand, &[param(0x6, 0x2000, 1, 3)]);
    assert_eq!(
        decode(&outside, &shms(), &Ok(vec![])).err(),
        Some(OpteeSmcReturnCode::EBadAddr)
    );
    let zero_page = message(OpteeMessageCommand::InvokeCommand, &[param(0x9, 0x10, 1, 0)]);
    assert_eq!(
        decode(&zero_page, &shms(), &Ok(vec![])).err(),
        Some(OpteeSmcReturnCode::EBadAddr)
    );
}

#[test]
fn there_is_room_for_four_parameters() {
    let value = param(1, 0, 0, 0);
    let shms = shms();
    let fifth = |last: OpteeMsgParam| {
        message(OpteeMessageCommand::InvokeCommand, &[value, value, value, value, last])
    };
    let bytes = Ok(vec![0; 16]);
    // Values, empty parameters and outputs have no place.
    for last in [value, param(0, 0, 0, 0), param(0x2, 0, 0, 0), param(0x6, 0, 1, 3)] {
        let msg = fifth(last);
        assert!(msg.validate().is_ok());
        assert_eq!(decode(&msg, &shms, &bytes).err(), Some(OpteeSmcReturnCode::EBadCmd));
    }
    let empty = message(OpteeMessageCommand::InvokeCommand, &[param(0, 0, 0, 0); 5]);
    assert_eq!(decode(&empty, &shms, &bytes).err(), Some(OpteeSmcReturnCode::EBadCmd));
    // A fifth parameter that is refused is refused as any other.
    assert_eq!(
        decode(&fifth(param(0x6, 0, 1, 99)), &shms, &bytes).err(),
        Some(OpteeSmcReturnCode::ENotAvail)
    );
    // So is a fifth input that cannot be read; one that can be read has no place.
    let input = fifth(param(0x5, 0, 1, 3));
    assert_eq!(
        decode(&input, &shms, &Err(PhysPointerError::NoMappingInfo)).err(),
        Some(OpteeSmcReturnCode::ENomem)
    );
    assert_eq!(decode(&input, &shms, &bytes).err(), Some(OpteeSmcReturnCode::EBadCmd));
    // A fifth parameter that goes both ways has no place for its output.
    let both = fifth(param(0x7, 0, 1, 3));
    assert_eq!(
        decode(&both, &shms, &Err(PhysPointerError::NoMappingInfo)).err(),
        Some(OpteeSmcReturnCode::EBadCmd)
    );
    // With a session to open there is room for six.
    let msg = message(OpteeMessageCommand::OpenSession, &[value; 6]);
    assert!(msg.validate().is_ok());
    assert!(decode(&msg, &shms, &Ok(vec![])).is_ok());
    assert_eq!(UteeParamOwned::TEE_NUM_PARAMS, 4);
}

#[test]
fn a_buffer_beyond_the_address_space_is_refused() {
    let shms = shms();
    for typ in [0x9, 0xa, 0xb] {
        let msg = message(OpteeMessageCommand::InvokeCommand, &[param(typ, 0x1fff, u64::MAX, 0)]);
        assert_eq!(decode(&msg, &shms, &Ok(vec![])).err(), Some(OpteeSmcReturnCode::EBadAddr));
    }
    assert!(matches!(
        decode_param(&param(0xa, 0x1000, 16, 0), &shms),
        Ok(ParamPlan::Ready { out_shm: Some(_), .. })
    ));
}

#[test]
fn types_and_values_of_parameters() {
    let mut params = UteeParams::new();
    assert_eq!(params.get_type(0), Ok(TeeParamType::Empty));
    assert_eq!(params.get_values(3), Ok(None));
    assert!(params.get_type(4).is_err());
    assert!(params.set_type(4, TeeParamType::ValueInput).is_err());
    assert_eq!(params.set_type(1, TeeParamType::MemrefInout), Ok(()));
    assert_eq!(params.set_type(2, TeeParamType::ValueOutput), Ok(()));
    assert_eq!(params.set_values(1, 11, 22), Ok(()));
    assert!(params.set_values(4, 0, 0).is_err());
    assert_eq!(params.types.bits, 0x270);
    assert_eq!(params.get_type(1), Ok(TeeParamType::MemrefInout));
    assert_eq!(params.get_values(1), Ok(Some((11, 22))));
    assert_eq!(params.get_values(2), Ok(Some((0, 0))));
    assert_eq!(params.get_type(0), Ok(TeeParamType::Empty));
    assert_eq!(params.set_type(1, TeeParamType::Empty), Ok(()));
    assert_eq!(params.types.bits, 0x200);
    params.types.bits = 0x4;
    assert!(params.get_type(0).is_err());
    assert!(params.get_values(0).is_err());
    assert_eq!(UteeParams::default().vals, [0; 8]);
}

/// Puts an answer together; `memory` is what every read of the TA gives.
fn answer(
    update: &mut MsgArgsUpdate,
    info: &TaRequestInfo<4096>,
    memory: Option<Vec<u8>>,
) -> Result<Vec<(u64, Vec<u8>)>, OpteeSmcReturnCode> {
    let mut written = Vec::new();
    loop {
        let mut step = update.step()?;
        if let UpdateStep::ReadTa { .. } = step {
            step = update.take_output(memory.clone(), info)?;
        }
        match step {
            UpdateStep::Updated => {}
            UpdateStep::WriteShm { shm, data } => {
                written.push((shm.page_addrs()[0].addr, data));
                write_result(Ok(()))?;
            }
            UpdateStep::ReadTa { .. } => unreachable!(),
            UpdateStep::Done => return Ok(written),
        }
    }
}

fn returned(types: u64) -> UteeParams {
    let mut params = UteeParams::new();
    params.types.bits = types;
    params.vals = [1, 2, 0x9000, 3, 0x9100, 4, 7, 8];
    params
}

#[test]
fn answers_bring_back_values_and_memory() {
    let msg = message(
        OpteeMessageCommand::InvokeCommand,
        &[param(0x2, 0, 0, 9), param(0x6, 0, 100, 3), param(0x9, 0x2000, 50, 0), param(0x3, 0, 0, 0)],
    );
    let (info, _) = decode(&msg, &shms(), &Ok(vec![0; 50])).unwrap();
    let params = returned(0x3562);
    let mut update = update_optee_msg_args(
        TeeResult::Success,
        TeeOrigin { code: TeeOrigin::TRUSTED_APP },
        Some(8),
        Some(&params),
        Some(&info),
        &msg,
    );
    let written = answer(&mut update, &info, Some(vec![5, 6, 7])).unwrap();
    assert_eq!(written, vec![(0xa000, vec![5, 6, 7])]);
    let reply = update.msg_args();
    assert_eq!(reply.ret, TeeResult::Success);
    assert_eq!(*reply.ret_origin.value(), 4);
    assert_eq!(reply.session, 8);
    assert_eq!(reply.cancel_id, 6);
    assert_eq!(reply.params[0], param(0x2, 1, 2, 0));
    assert_eq!(reply.params[1], param(0x6, 0, 3, 3));
    assert_eq!(reply.params[2], msg.params[2]);
    assert_eq!(reply.params[3], param(0x3, 7, 8, 0));
    assert_eq!(reply.params[4], msg.params[4]);
}

#[test]
fn answers_without_outputs() {
    let msg = message(OpteeMessageCommand::InvokeCommand, &[]);
    let (info, _) = decode(&msg, &shms(), &Ok(vec![])).unwrap();
    let params = returned(0x2222);
    for (ta_params, ta_info) in [(None, Some(&info)), (Some(&params), None), (None, None)] {
        let mut update = update_optee_msg_args(
            TeeResult::Busy,
            TeeOrigin { code: TeeOrigin::TEE },
            None,
            ta_params,
            ta_info,
            &msg,
        );
        assert!(matches!(update.step(), Ok(UpdateStep::Done)));
        assert_eq!(update.msg_args().ret, TeeResult::Busy);
        assert_eq!(update.msg_args().session, 5);
    }
}

#[test]
fn answers_that_fail() {
    let msg = message(OpteeMessageCommand::InvokeCommand, &[param(0x6, 0, 100, 3)]);
    let (info, _) = decode(&msg, &shms(), &Ok(vec![])).unwrap();
    let begin = |params: &UteeParams| {
        update_optee_msg_args(
            TeeResult::Success,
            TeeOrigin { code: TeeOrigin::TEE },
            None,
            Some(params),
            Some(&info),
            &msg,
        )
    };
    // Bits that stand for no type.
    assert_eq!(
        answer(&mut begin(&returned(0x4)), &info, None),
        Err(OpteeSmcReturnCode::EBadAddr)
    );
    // Memory of the TA that cannot be read.
    assert_eq!(
        answer(&mut begin(&returned(0x6)), &info, None),
        Err(OpteeSmcReturnCode::EBadAddr)
    );
    // A parameter that the message does not have.
    assert_eq!(
        answer(&mut begin(&returned(0x20)), &info, None),
        Err(OpteeSmcReturnCode::ENotAvail)
    );
    assert_eq!(
        answer(&mut begin(&returned(0x60)), &info, Some(vec![1, 2, 3])),
        Err(OpteeSmcReturnCode::ENotAvail)
    );
    // Without data only the length goes back.
    let mut nothing = returned(0x6);
    nothing.vals[1] = 0;
    let mut update = begin(&nothing);
    assert_eq!(answer(&mut update, &info, Some(vec![])), Ok(vec![]));
    assert_eq!(update.msg_args().params[0].b, 0);
    assert_eq!(
        write_result(Err(PhysPointerError::NoMappingInfo)),
        Err(OpteeSmcReturnCode::ENomem)
    );
}

#[test]
fn objects_and_loader_arguments() {
    let info = TeeObjectInfo::default();
    assert_eq!(info.object_type.code, UNKNOWN_OBJECT_TYPE);
    assert_eq!(info.object_usage.bits, TeeUsage::ALL);
    assert_eq!(info.handle_flags.bits, 0);
    let sized = TeeObjectInfo::new(info.object_type, 128);
    assert_eq!(sized.max_object_size, 128);
    assert_eq!(sized.object_size, 0);
    let arg = LdelfArg::new(TeeUuid::from_u64_array([1, 2]));
    assert_eq!(arg.uuid, TeeUuid::from_u64_array([1, 2]));
    assert_eq!(arg.entry_func, 0);
    assert_eq!(LdelfArg::default().uuid, TeeUuid::nil());
}
