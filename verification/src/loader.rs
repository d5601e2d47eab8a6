//! Where TAs are loaded, and how a rewritten binary is recognised.

use vstd::prelude::*;

use crate::bytes::le_bytes;

verus! {

/// The first address behind those that user memory can have: one page below the end of
/// the lower half.
pub const USER_ADDR_MAX: u64 = 0x7fff_ffff_f000;

/// How many addresses user memory can have: 16 TiB.
pub const USER_ADDR_RANGE_SIZE: u64 = 0x1000_0000_0000;

/// The first address that user memory can have. Memory of the kernel lies below.
pub const USER_ADDR_MIN: u64 = 0x6fff_ffff_f000;

/// The lowest address at which a TA is loaded. A binary grows upwards from it.
pub const TA_DEFAULT_LOW_ADDR: u64 = 0x7000_0000_0000;

/// The lowest address at which the loader of TAs is put.
pub const DEFAULT_LOW_ADDR: u64 = 0x6fff_ffff_f000;

/// The size of the stack of a TA.
pub const DEFAULT_STACK_SIZE: usize = 0x10_0000;

/// The number by which a rewritten binary is recognised, and where the pointer to the
/// handler of system calls is put: the letters `LITE BOX`.
pub const REWRITER_MAGIC_NUMBER: u64 = 0x584f_4220_4554_494c;

/// The number of the version of the rewriter: the letters `LITEBOX0`.
pub const REWRITER_VERSION_NUMBER: u64 = 0x3058_4f42_4554_494c;

/// Everything that is loaded is loaded at an address that user memory can have.
pub proof fn law_load_addresses_are_user_addresses()
    ensures
        USER_ADDR_MIN == USER_ADDR_MAX - USER_ADDR_RANGE_SIZE,
        USER_ADDR_MAX == crate::addr::LOWER_HALF_END - 4096,
        USER_ADDR_MIN <= DEFAULT_LOW_ADDR < USER_ADDR_MAX,
        USER_ADDR_MIN <= TA_DEFAULT_LOW_ADDR < USER_ADDR_MAX,
        TA_DEFAULT_LOW_ADDR == USER_ADDR_MIN + 0x1000,
        USER_ADDR_RANGE_SIZE == 16 * 0x100_0000_0000,
        DEFAULT_LOW_ADDR == USER_ADDR_MIN,
{
}

/// The numbers of the rewriter are their letters, the first one lowest.
pub proof fn law_rewriter_numbers_are_letters()
    ensures
        le_bytes(REWRITER_MAGIC_NUMBER) == seq![
            0x4cu8,
            0x49u8,
            0x54u8,
            0x45u8,
            0x20u8,
            0x42u8,
            0x4fu8,
            0x58u8,
        ],
        le_bytes(REWRITER_VERSION_NUMBER) == seq![
            0x4cu8,
            0x49u8,
            0x54u8,
            0x45u8,
            0x42u8,
            0x4fu8,
            0x58u8,
            0x30u8,
        ],
{
}

} // verus!
