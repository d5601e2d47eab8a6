//! Handling of the messages that are meant for the secure world itself.

use vstd::prelude::*;

use crate::codes::{OpteeMessageCommand, OpteeSmcReturnCode};
use crate::msg::{is_rmem, is_tmem, param_result, OpteeMsgArgs, OpteeMsgParamRmem, OpteeMsgParamTmem};
use crate::phys::PhysPageAddr;
use crate::addr::PAGE_SIZE;
use crate::shm::{
    law_rmem_bytes, pages_for, registered, rmem_region, shms_wf, ShmInfo, ShmRefMap, ShmRegion,
};
use crate::shm_registration::{RegistrationStep, ShmRegistration};

verus! {

/// Rounds `address` down to a page boundary.
pub fn page_align_down(address: u64) -> (r: u64)
    ensures
        r == address - address % 4096,
        r % 4096 == 0,
{
    address - address % 4096
}

/// Rounds `len` up to a multiple of the page size.
pub fn page_align_up(len: u64) -> (r: u64)
    requires
        pages_for(len as int) * 4096 <= u64::MAX,
    ensures
        r == pages_for(len as int) * 4096,
{
    if len % 4096 == 0 {
        len
    } else {
        len - len % 4096 + 4096
    }
}

/// What is left to do for a message.
pub enum MsgOutcome {
    /// Nothing.
    Done,
    /// Walk the page lists of the memory that is to be registered.
    Register(ShmRegistration, RegistrationStep),
}

/// The commands that can be handled.
pub open spec fn is_handled(cmd: OpteeMessageCommand) -> bool {
    ||| cmd == OpteeMessageCommand::RegisterShm
    ||| cmd == OpteeMessageCommand::UnregisterShm
    ||| is_ta_request(cmd)
}

/// The commands that a TA handles.
pub open spec fn is_ta_request(cmd: OpteeMessageCommand) -> bool {
    ||| cmd == OpteeMessageCommand::OpenSession
    ||| cmd == OpteeMessageCommand::InvokeCommand
    ||| cmd == OpteeMessageCommand::CloseSession
}

/// The memory that the message wants registered.
pub open spec fn registered_tmem(msg_args: OpteeMsgArgs) -> Result<
    OpteeMsgParamTmem,
    OpteeSmcReturnCode,
> {
    param_result(
        0,
        msg_args.num_params,
        (if is_tmem(msg_args.params[0].attr.spec_typ()) {
            Some(msg_args.params[0].as_tmem())
        } else {
            None
        }),
    )
}

/// The memory that the message wants unregistered.
pub open spec fn unregistered_rmem(msg_args: OpteeMsgArgs) -> Result<
    OpteeMsgParamRmem,
    OpteeSmcReturnCode,
> {
    param_result(
        0,
        msg_args.num_params,
        (if is_rmem(msg_args.params[0].attr.spec_typ()) {
            Some(msg_args.params[0].as_rmem())
        } else {
            None
        }),
    )
}

/// The reference names no memory that could be registered.
pub open spec fn names_nothing(tmem: OpteeMsgParamTmem) -> bool {
    tmem.buf_ptr == 0 || tmem.size == 0 || tmem.shm_ref == 0
}

/// The size of the memory, with the part of its first page before it, can be
/// rounded up to whole pages.
pub open spec fn registration_fits(tmem: OpteeMsgParamTmem) -> bool {
    let len = tmem.buf_ptr as int % 4096 + tmem.size;
    len <= u64::MAX && pages_for(len) * 4096 <= u64::MAX
}

/// Whether a message can be handled: its command is one that is, unless it is refused
/// before that is looked at.
pub open spec fn can_handle(msg_args: OpteeMsgArgs) -> bool {
    msg_args.valid() ==> is_handled(msg_args.cmd)
}

/// How a message is handled.
pub enum Handling {
    /// It is refused with this code.
    Refused(OpteeSmcReturnCode),
    /// Memory of so many pages, which begins at `offset` in the first of them, is to be
    /// registered under `shm_ref`. The first page list is at `first`.
    Registering { first: u64, pages: int, offset: int, shm_ref: u64 },
    /// What is registered under this reference is removed.
    Unregistered(u64),
}

/// How a message is handled where `shms` are registered.
pub open spec fn handling(msg_args: OpteeMsgArgs, shms: Map<u64, ShmRegion<4096>>) -> Handling {
    if !msg_args.valid() {
        Handling::Refused(OpteeSmcReturnCode::EBadCmd)
    } else if msg_args.cmd == OpteeMessageCommand::RegisterShm {
        match registered_tmem(msg_args) {
            Err(error) => Handling::Refused(error),
            Ok(tmem) => if names_nothing(tmem) || !registration_fits(tmem) {
                Handling::Refused(OpteeSmcReturnCode::EBadAddr)
            } else {
                Handling::Registering {
                    first: (tmem.buf_ptr - tmem.buf_ptr as int % 4096) as u64,
                    pages: pages_for(tmem.buf_ptr as int % 4096 + tmem.size),
                    offset: tmem.buf_ptr as int % 4096,
                    shm_ref: tmem.shm_ref,
                }
            },
        }
    } else if msg_args.cmd == OpteeMessageCommand::UnregisterShm {
        match unregistered_rmem(msg_args) {
            Err(error) => Handling::Refused(error),
            Ok(rmem) => if rmem.shm_ref == 0 || !shms.contains_key(rmem.shm_ref) {
                Handling::Refused(OpteeSmcReturnCode::EBadAddr)
            } else {
                Handling::Unregistered(rmem.shm_ref)
            },
        }
    } else {
        Handling::Refused(OpteeSmcReturnCode::Success)
    }
}

/// What a message leads to from beginning to end: what is registered afterwards, and
/// the result. `walk` is what walking the page lists gives, the pages or the code that
/// ended it.
pub open spec fn message_outcome(
    msg_args: OpteeMsgArgs,
    shms: Map<u64, ShmRegion<4096>>,
    walk: Result<Seq<PhysPageAddr<4096>>, OpteeSmcReturnCode>,
) -> (Map<u64, ShmRegion<4096>>, Result<(), OpteeSmcReturnCode>) {
    match handling(msg_args, shms) {
        Handling::Refused(error) => (shms, Err(error)),
        Handling::Registering { offset, shm_ref, .. } => match walk {
            Err(error) => (shms, Err(error)),
            Ok(pages) => registered(shms, shm_ref, ShmRegion { pages, offset }),
        },
        Handling::Unregistered(shm_ref) => (shms.remove(shm_ref), Ok(())),
    }
}

/// Whether a message can be handled.
pub fn can_handle_msg_args(msg_args: &OpteeMsgArgs) -> (r: bool)
    ensures
        r == can_handle(*msg_args),
{
    if msg_args.validate().is_err() {
        return true;
    }
    match msg_args.cmd {
        OpteeMessageCommand::RegisterShm
        | OpteeMessageCommand::UnregisterShm
        | OpteeMessageCommand::OpenSession
        | OpteeMessageCommand::InvokeCommand
        | OpteeMessageCommand::CloseSession => true,
        _ => false,
    }
}

fn can_be_rounded(tmem: &OpteeMsgParamTmem) -> (r: bool)
    ensures
        r == registration_fits(*tmem),
{
    match (tmem.buf_ptr % 4096).checked_add(tmem.size) {
        Some(len) => len % 4096 == 0 || len / 4096 < u64::MAX / 4096,
        None => false,
    }
}

/// Handles a message that registers or unregisters shared memory.
///
/// For a request that a TA is to handle it returns the code `Success` as the error,
/// and the caller goes on with the request. Memory whose size cannot be rounded up to
/// whole pages is refused with `EBadAddr`.
pub fn handle_optee_msg_args(msg_args: &OpteeMsgArgs, shms: &mut ShmRefMap) -> (r: Result<
    MsgOutcome,
    OpteeSmcReturnCode,
>)
    requires
        can_handle(*msg_args),
        shms_wf(old(shms)@),
    ensures
        shms_wf(final(shms)@),
        match handling(*msg_args, old(shms)@) {
            Handling::Refused(error) => {
                &&& r matches Err(e)
                &&& e == error
                &&& final(shms)@ == old(shms)@
            },
            Handling::Registering { first, pages, offset, shm_ref } => {
                &&& r matches Ok(MsgOutcome::Register(reg, step))
                &&& reg.wf()
                &&& reg.pages().len() == 0
                &&& reg.goal() == pages
                &&& reg.offset() == offset
                &&& reg.reference() == shm_ref
                &&& step == RegistrationStep::ReadNext(first)
                &&& final(shms)@ == old(shms)@
            },
            Handling::Unregistered(shm_ref) => {
                &&& r matches Ok(MsgOutcome::Done)
                &&& final(shms)@ == old(shms)@.remove(shm_ref)
            },
        },
{
    match msg_args.validate() {
        Ok(()) => {},
        Err(error) => {
            return Err(error);
        },
    }
    match msg_args.cmd {
        OpteeMessageCommand::RegisterShm => {
            let tmem = match msg_args.get_param_tmem(0) {
                Ok(tmem) => tmem,
                Err(error) => {
                    return Err(error);
                },
            };
            if tmem.buf_ptr == 0 || tmem.size == 0 || tmem.shm_ref == 0 {
                return Err(OpteeSmcReturnCode::EBadAddr);
            }
            if !can_be_rounded(&tmem) {
                return Err(OpteeSmcReturnCode::EBadAddr);
            }
            // The address names the page of the first page list; its offset in that page
            // is the offset of the memory in its own first page.
            let shm_ref_pages_data_phys_addr: u64 = page_align_down(tmem.buf_ptr);
            let page_offset: u64 = tmem.buf_ptr - shm_ref_pages_data_phys_addr;
            let aligned_size: u64 = page_align_up(page_offset + tmem.size);
            match ShmRefMap::register_shm(
                shm_ref_pages_data_phys_addr,
                page_offset,
                aligned_size,
                tmem.shm_ref,
            ) {
                Ok((registration, step)) => Ok(MsgOutcome::Register(registration, step)),
                Err(error) => Err(error),
            }
        },
        OpteeMessageCommand::UnregisterShm => {
            let rmem = match msg_args.get_param_rmem(0) {
                Ok(rmem) => rmem,
                Err(error) => {
                    return Err(error);
                },
            };
            if rmem.shm_ref == 0 {
                return Err(OpteeSmcReturnCode::EBadAddr);
            }
            let ghost before = shms@;
            match shms.remove(rmem.shm_ref) {
                Some(_) => Ok(MsgOutcome::Done),
                None => {
                    assert(shms@ =~= before);
                    Err(OpteeSmcReturnCode::EBadAddr)
                },
            }
        },
        _ => Err(OpteeSmcReturnCode::Success),
    }
}

/// Once all pages of a buffer are registered, every part of the buffer can be
/// referred to.
pub proof fn law_registered_buffer_is_accessible(
    shms: Map<u64, ShmRegion<4096>>,
    tmem: OpteeMsgParamTmem,
    region: ShmRegion<4096>,
    rmem: OpteeMsgParamRmem,
)
    requires
        registration_fits(tmem),
        region.offset == tmem.buf_ptr as int % 4096,
        region.pages.len() == pages_for(tmem.buf_ptr as int % 4096 + tmem.size),
        rmem.shm_ref == tmem.shm_ref,
        rmem.size > 0,
        rmem.offs + rmem.size <= tmem.size,
    ensures
        rmem_region(shms.insert(tmem.shm_ref, region), rmem) is Ok,
{
}

/// A message that unregisters memory removes exactly the reference that it names, if
/// there is one and it is registered, and is refused with `EBadAddr` otherwise. So the
/// same message is refused the second time.
pub proof fn law_unregistering(
    msg_args: OpteeMsgArgs,
    shms: Map<u64, ShmRegion<4096>>,
    walk: Result<Seq<PhysPageAddr<4096>>, OpteeSmcReturnCode>,
)
    requires
        msg_args.cmd == OpteeMessageCommand::UnregisterShm,
        1 <= msg_args.num_params <= 6,
        is_rmem(msg_args.params[0].attr.spec_typ()),
    ensures
        ({
            let shm_ref = msg_args.params[0].as_rmem().shm_ref;
            let (after, r) = message_outcome(msg_args, shms, walk);
            &&& if shm_ref != 0 && shms.contains_key(shm_ref) {
                &&& r == Ok::<(), OpteeSmcReturnCode>(())
                &&& after == shms.remove(shm_ref)
                &&& after.dom() == shms.dom().remove(shm_ref)
            } else {
                &&& r == Err::<(), OpteeSmcReturnCode>(OpteeSmcReturnCode::EBadAddr)
                &&& after == shms
            }
            &&& message_outcome(msg_args, after, walk) == (
                after,
                Err::<(), OpteeSmcReturnCode>(OpteeSmcReturnCode::EBadAddr),
            )
        }),
{
}

/// A message that registers memory adds exactly the reference that it names, and only
/// where it was free. One that names nothing, or whose size cannot be rounded up to
/// whole pages, is refused with `EBadAddr`, and whatever is refused changes nothing.
pub proof fn law_registering(
    msg_args: OpteeMsgArgs,
    shms: Map<u64, ShmRegion<4096>>,
    walk: Result<Seq<PhysPageAddr<4096>>, OpteeSmcReturnCode>,
)
    requires
        msg_args.cmd == OpteeMessageCommand::RegisterShm,
        1 <= msg_args.num_params <= 6,
        is_tmem(msg_args.params[0].attr.spec_typ()),
    ensures
        ({
            let tmem = msg_args.params[0].as_tmem();
            let (after, r) = message_outcome(msg_args, shms, walk);
            &&& names_nothing(tmem) || !registration_fits(tmem) ==> r == Err::<(), OpteeSmcReturnCode>(
                OpteeSmcReturnCode::EBadAddr,
            )
            &&& r is Err ==> after == shms
            &&& r is Ok ==> {
                &&& !shms.contains_key(tmem.shm_ref)
                &&& walk matches Ok(pages) && after == shms.insert(
                    tmem.shm_ref,
                    ShmRegion { pages, offset: tmem.buf_ptr as int % 4096 },
                )
                &&& after.dom() == shms.dom().insert(tmem.shm_ref)
            }
            &&& r is Ok <==> !names_nothing(tmem) && registration_fits(tmem) && walk is Ok
                && !shms.contains_key(tmem.shm_ref)
        }),
{
}

/// A message that unregisters what a message has registered brings back what there was
/// before.
pub proof fn law_unregistering_undoes_a_registration(
    register: OpteeMsgArgs,
    unregister: OpteeMsgArgs,
    shms: Map<u64, ShmRegion<4096>>,
    walk: Result<Seq<PhysPageAddr<4096>>, OpteeSmcReturnCode>,
)
    requires
        register.cmd == OpteeMessageCommand::RegisterShm,
        1 <= register.num_params <= 6,
        is_tmem(register.params[0].attr.spec_typ()),
        unregister.cmd == OpteeMessageCommand::UnregisterShm,
        1 <= unregister.num_params <= 6,
        is_rmem(unregister.params[0].attr.spec_typ()),
        unregister.params[0].as_rmem().shm_ref == register.params[0].as_tmem().shm_ref,
        message_outcome(register, shms, walk).1 is Ok,
    ensures
        message_outcome(unregister, message_outcome(register, shms, walk).0, walk) == (
            shms,
            Ok::<(), OpteeSmcReturnCode>(()),
        ),
{
    law_registering(register, shms, walk);
    let there = message_outcome(register, shms, walk).0;
    law_unregistering(unregister, there, walk);
    assert(there.remove(register.params[0].as_tmem().shm_ref) =~= shms);
}

/// A message that registers memory begins a registration for as many pages as the buffer
/// lies in and no more, at the offset of the buffer in its first page, under the
/// reference that it names. The first page list is in the page of the buffer's address. A
/// buffer without address, size or reference is refused with `EBadAddr`, and so is one
/// whose pages cannot be counted in 64 bits.
pub proof fn law_registration_covers_the_buffer(
    msg_args: OpteeMsgArgs,
    shms: &mut ShmRefMap,
    r: Result<MsgOutcome, OpteeSmcReturnCode>,
)
    requires
        call_ensures(handle_optee_msg_args, (&msg_args, shms), r),
        msg_args.cmd == OpteeMessageCommand::RegisterShm,
        1 <= msg_args.num_params <= 6,
        9 <= msg_args.params[0].attr.bits % 0x100 <= 11,
    ensures
        final(shms)@ == old(shms)@,
        ({
            let p = msg_args.params[0];
            let len = p.a as int % 4096 + p.b;
            if p.a == 0 || p.b == 0 || p.c == 0 || len > 0xffff_ffff_ffff_f000 {
                r matches Err(e) && e == OpteeSmcReturnCode::EBadAddr
            } else {
                &&& r matches Ok(MsgOutcome::Register(reg, RegistrationStep::ReadNext(first)))
                &&& first <= p.a < first + 4096
                &&& first % 4096 == 0
                &&& reg.offset() == p.a - first
                &&& reg.reference() == p.c
                &&& reg.pages().len() == 0
                &&& reg.goal() * 4096 >= reg.offset() + p.b
                &&& (reg.goal() - 1) * 4096 < reg.offset() + p.b
            }
        }),
{
}

/// A registration whose page lists hold enough entries makes every part of the buffer
/// accessible, byte by byte in the order of its pages.
pub proof fn law_registered_part_is_accessible(
    msg_args: OpteeMsgArgs,
    before: &mut ShmRefMap,
    begun: ShmRegistration,
    step: RegistrationStep,
    reg: ShmRegistration,
    shms: &mut ShmRefMap,
    finished: Result<(), OpteeSmcReturnCode>,
    after: ShmRefMap,
    rmem: OpteeMsgParamRmem,
    r: Result<ShmInfo<PAGE_SIZE>, OpteeSmcReturnCode>,
    j: int,
)
    requires
        msg_args.cmd == OpteeMessageCommand::RegisterShm,
        1 <= msg_args.num_params <= 6,
        9 <= msg_args.params[0].attr.bits % 0x100 <= 11,
        call_ensures(
            handle_optee_msg_args,
            (&msg_args, before),
            Ok::<MsgOutcome, OpteeSmcReturnCode>(MsgOutcome::Register(begun, step)),
        ),
        reg.wf(),
        reg.goal() == begun.goal(),
        reg.offset() == begun.offset(),
        reg.reference() == begun.reference(),
        reg.pages().len() == reg.goal(),
        shms_wf(old(shms)@),
        call_ensures(ShmRegistration::finish, (reg, shms), finished),
        finished is Ok,
        after@ == final(shms)@,
        call_ensures(ShmRefMap::get_shm_info_from_optee_msg_param_rmem, (&after, rmem), r),
        rmem.shm_ref == msg_args.params[0].c,
        rmem.offs + rmem.size <= msg_args.params[0].b,
        0 <= j < rmem.size,
    ensures
        ({
            let at = msg_args.params[0].a as int % 4096 + rmem.offs + j;
            &&& r matches Ok(info)
            &&& info@.byte_addr(j) == reg.pages()[at / 4096].addr + at % 4096
        }),
{
    law_registration_covers_the_buffer(
        msg_args,
        before,
        Ok(MsgOutcome::Register(begun, step)),
    );
    law_rmem_bytes(after@, rmem, j);
}

/// A message that unregisters memory removes the reference in its third word and nothing
/// else; a reference of zero, or one that is not registered, is refused with `EBadAddr`.
pub proof fn law_unregister_message(
    msg_args: OpteeMsgArgs,
    shms: &mut ShmRefMap,
    r: Result<MsgOutcome, OpteeSmcReturnCode>,
    k: u64,
)
    requires
        call_ensures(handle_optee_msg_args, (&msg_args, shms), r),
        msg_args.cmd == OpteeMessageCommand::UnregisterShm,
        1 <= msg_args.num_params <= 6,
        5 <= msg_args.params[0].attr.bits % 0x100 <= 7,
    ensures
        ({
            let shm_ref = msg_args.params[0].c;
            if shm_ref != 0 && old(shms)@.contains_key(shm_ref) {
                &&& r matches Ok(MsgOutcome::Done)
                &&& !final(shms)@.contains_key(shm_ref)
                &&& k != shm_ref ==> (final(shms)@.contains_key(k) <==> old(shms)@.contains_key(k))
                &&& k != shm_ref && old(shms)@.contains_key(k) ==> final(shms)@[k] == old(shms)@[k]
            } else {
                &&& r matches Err(e) && e == OpteeSmcReturnCode::EBadAddr
                &&& final(shms)@ == old(shms)@
            }
        }),
{
}

/// Messages that are not handled here change nothing: those with a wrong number of
/// parameters are refused with `EBadCmd`, those that lack the parameter with `ENotAvail`,
/// those with a parameter of another type with `EBadCmd`, and requests to a TA are handed
/// on with `Success`.
pub proof fn law_other_messages(
    msg_args: OpteeMsgArgs,
    shms: &mut ShmRefMap,
    r: Result<MsgOutcome, OpteeSmcReturnCode>,
)
    requires
        call_ensures(handle_optee_msg_args, (&msg_args, shms), r),
    ensures
        ({
            let cmd = msg_args.cmd;
            let typ = msg_args.params[0].attr.bits % 0x100;
            let wrong = msg_args.num_params > 6 || (cmd == OpteeMessageCommand::OpenSession
                && msg_args.num_params < 2);
            let kept = final(shms)@ == old(shms)@;
            let request = cmd == OpteeMessageCommand::OpenSession || cmd
                == OpteeMessageCommand::InvokeCommand || cmd == OpteeMessageCommand::CloseSession;
            let register = cmd == OpteeMessageCommand::RegisterShm;
            let unregister = cmd == OpteeMessageCommand::UnregisterShm;
            &&& wrong ==> (r matches Err(e) && e == OpteeSmcReturnCode::EBadCmd && kept)
            &&& !wrong && request ==> (r matches Err(e) && e == OpteeSmcReturnCode::Success
                && kept)
            &&& (register || unregister) && msg_args.num_params == 0 ==> (r matches Err(e) && e
                == OpteeSmcReturnCode::ENotAvail && kept)
            &&& !wrong && msg_args.num_params > 0 && register && !(9 <= typ <= 11) ==> (
            r matches Err(e) && e == OpteeSmcReturnCode::EBadCmd && kept)
            &&& !wrong && msg_args.num_params > 0 && unregister && !(5 <= typ <= 7) ==> (
            r matches Err(e) && e == OpteeSmcReturnCode::EBadCmd && kept)
        }),
{
}

/// Rounding to pages moves an address or a length by less than a page, down or up, to a
/// multiple of the page size.
pub proof fn law_rounding(address: u64, down: u64, len: u64, up: u64)
    requires
        call_ensures(page_align_down, (address,), down),
        call_ensures(page_align_up, (len,), up),
    ensures
        down % 4096 == 0,
        down <= address < down + 4096,
        up % 4096 == 0,
        len <= up < len + 4096,
{
}

/// Exactly the commands that a TA handles and the two on shared memory can be handled, and
/// every message with a wrong number of parameters, which is refused.
pub proof fn law_handled_messages(msg_args: OpteeMsgArgs, r: bool)
    requires
        call_ensures(can_handle_msg_args, (&msg_args,), r),
    ensures
        r <==> {
            ||| msg_args.num_params > 6
            ||| msg_args.cmd == OpteeMessageCommand::OpenSession
            ||| msg_args.cmd == OpteeMessageCommand::InvokeCommand
            ||| msg_args.cmd == OpteeMessageCommand::CloseSession
            ||| msg_args.cmd == OpteeMessageCommand::RegisterShm
            ||| msg_args.cmd == OpteeMessageCommand::UnregisterShm
        },
{
}

} // verus!
