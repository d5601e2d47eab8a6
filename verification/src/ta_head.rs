//! The header of a TA, found in a section of its ELF binary.

use vstd::prelude::*;

use crate::bytes::{le16, le32, le64, read_le16, read_le32, read_le64};
use crate::uuid::TeeUuid;

verus! {

/// The flags of a TA.
#[derive(Clone, Copy, PartialEq, Eq, Debug, Structural)]
pub struct TaFlags {
    pub bits: u32,
}

impl TaFlags {
    /// Has no bit any more.
    pub const USER_MODE: u32 = 0;

    /// Has no bit any more.
    pub const EXEC_DDR: u32 = 0;

    /// Only one TA instance exists at a time.
    pub const SINGLE_INSTANCE: u32 = 0x0000_0004;

    /// Multiple sessions can share the instance.
    pub const MULTI_SESSION: u32 = 0x0000_0008;

    /// The instance remains after the last session closes.
    pub const INSTANCE_KEEP_ALIVE: u32 = 0x0000_0010;

    /// The TA accesses memory of the secure data path.
    pub const SECURE_DATA_PATH: u32 = 0x0000_0020;

    /// The TA flushes caches.
    pub const CACHE_MAINTENANCE: u32 = 0x0000_0080;

    /// The TA can execute multiple sessions concurrently.
    pub const CONCURRENT: u32 = 0x0000_0100;

    /// Device enumeration when the kernel driver is initialised.
    pub const DEVICE_ENUM: u32 = 0x0000_0200;

    /// Device enumeration once there is a supplicant.
    pub const DEVICE_ENUM_SUPP: u32 = 0x0000_0400;

    /// A handle stays open on a corrupt object.
    pub const DONT_CLOSE_HANDLE_ON_CORRUPT_OBJECT: u32 = 0x0000_0800;

    /// Device enumeration once there is private storage.
    pub const DEVICE_ENUM_TEE_STORAGE_PRIVATE: u32 = 0x0000_1000;

    /// A TA that is kept alive is not restarted if it crashed.
    pub const INSTANCE_KEEP_CRASHED: u32 = 0x0000_2000;

    /// Every bit of `flag` is set.
    pub open spec fn has(self, flag: u32) -> bool {
        self.bits & flag == flag
    }

    /// Returns true if this TA should only have one instance.
    pub fn is_single_instance(&self) -> (r: bool)
        ensures
            r == self.has(TaFlags::SINGLE_INSTANCE),
    {
        self.bits & TaFlags::SINGLE_INSTANCE == TaFlags::SINGLE_INSTANCE
    }

    /// Returns true if multiple sessions can share the TA instance. It only counts
    /// where there is a single instance.
    pub fn is_multi_session(&self) -> (r: bool)
        ensures
            r == self.has(TaFlags::MULTI_SESSION),
    {
        self.bits & TaFlags::MULTI_SESSION == TaFlags::MULTI_SESSION
    }

    /// Returns true if the TA instance should persist after all sessions close. It
    /// only counts where there is a single instance.
    pub fn is_keep_alive(&self) -> (r: bool)
        ensures
            r == self.has(TaFlags::INSTANCE_KEEP_ALIVE),
    {
        self.bits & TaFlags::INSTANCE_KEEP_ALIVE == TaFlags::INSTANCE_KEEP_ALIVE
    }
}

/// The header of a TA.
#[derive(Clone, Copy, PartialEq, Eq, Debug)]
pub struct TaHead {
    /// The TA.
    pub uuid: TeeUuid,
    /// Stack size in bytes.
    pub stack_size: u32,
    /// The flags of the TA.
    pub flags: TaFlags,
    /// An entry point that is not used any more.
    pub depr_entry: u64,
}

/// The size of a TA header in bytes.
pub const TA_HEAD_SIZE: u64 = 32;

/// Name of the ELF section that holds the header of a TA.
pub const TA_HEAD_SECTION_NAME: &'static str = ".ta_head";

/// The bytes of the name of the ELF section that holds the header of a TA.
pub open spec fn ta_head_section_name() -> Seq<u8> {
    seq![0x2e, 0x74, 0x61, 0x5f, 0x68, 0x65, 0x61, 0x64]
}

/// Where the table of section headers begins.
pub open spec fn table_offset(elf: Seq<u8>) -> int {
    le64(elf, 40)
}

/// The size of a section header.
pub open spec fn entry_size(elf: Seq<u8>) -> int {
    le16(elf, 58)
}

/// The number of section headers.
pub open spec fn num_sections(elf: Seq<u8>) -> int {
    le16(elf, 60)
}

/// The number of the section that holds the names of sections.
pub open spec fn names_section(elf: Seq<u8>) -> int {
    le16(elf, 62)
}

/// Where the header of section `i` begins.
pub open spec fn section_header(elf: Seq<u8>, i: int) -> int {
    table_offset(elf) + i * entry_size(elf)
}

/// Where the names of sections begin.
pub open spec fn names_offset(elf: Seq<u8>) -> int {
    le64(elf, section_header(elf, names_section(elf)) + 24)
}

/// The data begins as an ELF binary does, and the headers of its sections and their
/// names lie inside.
pub open spec fn elf_ok(elf: Seq<u8>) -> bool {
    &&& elf.len() >= 64
    &&& elf[0] == 0x7f && elf[1] == 0x45 && elf[2] == 0x4c && elf[3] == 0x46
    &&& names_section(elf) < num_sections(elf)
    &&& section_header(elf, num_sections(elf)) <= elf.len()
    &&& section_header(elf, names_section(elf)) + 64 <= elf.len()
    &&& names_offset(elf) + le64(elf, section_header(elf, names_section(elf)) + 32) <= elf.len()
}

/// The string that begins at `at` and goes to the next zero byte, or to the end of
/// the data, is `name`, which has no zero byte.
pub open spec fn string_at(elf: Seq<u8>, at: int, name: Seq<u8>) -> bool {
    &&& at + name.len() <= elf.len()
    &&& elf.subrange(at, at + name.len()) == name
    &&& at + name.len() == elf.len() || elf[at + name.len()] == 0
}

/// Section `i` is named as the one that holds the header of a TA. Sections whose
/// header does not lie inside the data are passed over.
pub open spec fn is_ta_head_section(elf: Seq<u8>, i: int) -> bool {
    &&& 0 <= i < num_sections(elf)
    &&& section_header(elf, i) + 64 <= elf.len()
    &&& string_at(
        elf,
        names_offset(elf) + le32(elf, section_header(elf, i)),
        ta_head_section_name(),
    )
}

/// Section `i` is the first that is named so.
pub open spec fn is_first_ta_head_section(elf: Seq<u8>, i: int) -> bool {
    is_ta_head_section(elf, i) && forall|j: int|
        0 <= j < i ==> !#[trigger] is_ta_head_section(elf, j)
}

/// Where the header of the TA begins, if the binary holds one: in the first section
/// of that name, which must be large enough and lie inside the data.
pub open spec fn ta_head_offset(elf: Seq<u8>) -> Option<int> {
    if elf_ok(elf) && exists|i: int| is_first_ta_head_section(elf, i) {
        let i = choose|i: int| is_first_ta_head_section(elf, i);
        let offset = le64(elf, section_header(elf, i) + 24);
        let size = le64(elf, section_header(elf, i) + 32);
        if size >= TA_HEAD_SIZE && offset + TA_HEAD_SIZE <= elf.len() {
            Some(offset)
        } else {
            None
        }
    } else {
        None
    }
}

/// `head` is what the bytes from `at` on hold, every number low byte first.
pub open spec fn head_at(elf: Seq<u8>, at: int, head: TaHead) -> bool {
    &&& head.uuid.time_low == le32(elf, at)
    &&& head.uuid.time_mid == le16(elf, at + 4)
    &&& head.uuid.time_hi_and_version == le16(elf, at + 6)
    &&& head.uuid.clock_seq_and_node@ == elf.subrange(at + 8, at + 16)
    &&& head.stack_size == le32(elf, at + 16)
    &&& head.flags.bits == le32(elf, at + 20)
    &&& head.depr_entry == le64(elf, at + 24)
}

fn is_ta_head_name(elf_data: &[u8], at: usize) -> (r: bool)
    requires
        at < elf_data.len(),
    ensures
        r == string_at(elf_data@, at as int, ta_head_section_name()),
{
    let ghost name = ta_head_section_name();
    if elf_data.len() - at < 8 {
        return false;
    }
    let r: bool = elf_data[at] == 0x2e && elf_data[at + 1] == 0x74 && elf_data[at + 2] == 0x61
        && elf_data[at + 3] == 0x5f && elf_data[at + 4] == 0x68 && elf_data[at + 5] == 0x65
        && elf_data[at + 6] == 0x61 && elf_data[at + 7] == 0x64;
    proof {
        let part = elf_data@.subrange(at as int, at + 8);
        if r {
            assert(part =~= name);
        } else if part == name {
            assert(part[0] == name[0] && part[1] == name[1] && part[2] == name[2] && part[3]
                == name[3] && part[4] == name[4] && part[5] == name[5] && part[6] == name[6]
                && part[7] == name[7]);
        }
    }
    r && (at + 8 == elf_data.len() || elf_data[at + 8] == 0)
}

fn read_head(elf_data: &[u8], at: usize) -> (r: TaHead)
    requires
        at + TA_HEAD_SIZE <= elf_data.len(),
    ensures
        head_at(elf_data@, at as int, r),
{
    let clock_seq_and_node: [u8; 8] = [
        elf_data[at + 8],
        elf_data[at + 9],
        elf_data[at + 10],
        elf_data[at + 11],
        elf_data[at + 12],
        elf_data[at + 13],
        elf_data[at + 14],
        elf_data[at + 15],
    ];
    assert(clock_seq_and_node@ =~= elf_data@.subrange(at + 8, at + 16));
    TaHead {
        uuid: TeeUuid {
            time_low: read_le32(elf_data, at),
            time_mid: read_le16(elf_data, at + 4),
            time_hi_and_version: read_le16(elf_data, at + 6),
            clock_seq_and_node,
        },
        stack_size: read_le32(elf_data, at + 16),
        flags: TaFlags { bits: read_le32(elf_data, at + 20) },
        depr_entry: read_le64(elf_data, at + 24),
    }
}

/// Headers of earlier sections begin before those of later ones.
proof fn lemma_section_header(elf: Seq<u8>, i: int, j: int)
    requires
        0 <= i <= j,
    ensures
        section_header(elf, i) <= section_header(elf, j),
        table_offset(elf) <= section_header(elf, i),
{
    let e = entry_size(elf);
    assert(0 <= i * e <= j * e) by (nonlinear_arith)
        requires
            0 <= i <= j,
            0 <= e,
    ;
}

/// Parses the header of a TA from a raw ELF binary.
///
/// Returns `None` if there is no section for it or it cannot be parsed.
pub fn parse_ta_head(elf_data: &[u8]) -> (r: Option<TaHead>)
    ensures
        match ta_head_offset(elf_data@) {
            Some(at) => r matches Some(head) && head_at(elf_data@, at, head),
            None => r is None,
        },
{
    let ghost elf = elf_data@;
    if elf_data.len() < 64 {
        return None;
    }
    let len: u64 = elf_data.len() as u64;
    if !(elf_data[0] == 0x7f && elf_data[1] == 0x45 && elf_data[2] == 0x4c && elf_data[3] == 0x46) {
        return None;
    }
    let e_shoff: u64 = read_le64(elf_data, 40);
    let e_shentsize: u64 = read_le16(elf_data, 58) as u64;
    let e_shnum: u64 = read_le16(elf_data, 60) as u64;
    let e_shstrndx: u64 = read_le16(elf_data, 62) as u64;
    if e_shnum == 0 || e_shstrndx >= e_shnum {
        return None;
    }
    assert(e_shnum * e_shentsize == e_shentsize * e_shnum && e_shentsize * e_shnum <= 0xffff
        * 0xffff) by (nonlinear_arith)
        requires
            0 <= e_shnum <= 0xffff,
            0 <= e_shentsize <= 0xffff,
    ;
    let sh_table_end: u64 = match e_shoff.checked_add(e_shentsize * e_shnum) {
        Some(sh_table_end) => sh_table_end,
        None => {
            return None;
        },
    };
    if sh_table_end > len {
        return None;
    }
    proof {
        lemma_section_header(elf, e_shstrndx as int, e_shnum as int);
        assert(e_shstrndx * e_shentsize == names_section(elf) * entry_size(elf));
    }
    let shstrtab_off: u64 = e_shoff + e_shstrndx * e_shentsize;
    if shstrtab_off > len - 64 {
        return None;
    }
    let shstrtab_offset: u64 = read_le64(elf_data, shstrtab_off as usize + 24);
    let shstrtab_size: u64 = read_le64(elf_data, shstrtab_off as usize + 32);
    match shstrtab_offset.checked_add(shstrtab_size) {
        Some(shstrtab_end) => {
            if shstrtab_end > len {
                return None;
            }
        },
        None => {
            return None;
        },
    }
    assert(elf_ok(elf));
    let mut i: u64 = 0;
    while i < e_shnum
        invariant
            i <= e_shnum,
            elf == elf_data@,
            elf_ok(elf),
            len == elf_data.len(),
            len >= 64,
            e_shoff == table_offset(elf),
            e_shentsize == entry_size(elf),
            e_shnum == num_sections(elf),
            sh_table_end == section_header(elf, num_sections(elf)),
            sh_table_end <= len,
            shstrtab_offset == names_offset(elf),
            shstrtab_offset <= len,
            forall|j: int| 0 <= j < i ==> !#[trigger] is_ta_head_section(elf, j),
        decreases e_shnum - i,
    {
        proof {
            lemma_section_header(elf, i as int, e_shnum as int);
            assert(i * e_shentsize == i * entry_size(elf));
        }
        let sh_off: u64 = e_shoff + i * e_shentsize;
        assert(sh_off == section_header(elf, i as int));
        if sh_off <= len - 64 {
            let sh_name: u64 = read_le32(elf_data, sh_off as usize) as u64;
            if sh_name < len - shstrtab_offset {
                let name_start: u64 = shstrtab_offset + sh_name;
                if is_ta_head_name(elf_data, name_start as usize) {
                    let sh_offset: u64 = read_le64(elf_data, sh_off as usize + 24);
                    let sh_size: u64 = read_le64(elf_data, sh_off as usize + 32);
                    proof {
                        assert(is_first_ta_head_section(elf, i as int));
                        let k = choose|k: int| is_first_ta_head_section(elf, k);
                        assert(is_first_ta_head_section(elf, k));
                        assert(k == i) by {
                            if k < i {
                                assert(!is_ta_head_section(elf, k));
                            } else if k > i {
                                assert(!is_ta_head_section(elf, i as int));
                            }
                        }
                    }
                    if sh_size < TA_HEAD_SIZE {
                        return None;
                    }
                    if sh_offset > len - TA_HEAD_SIZE {
                        return None;
                    }
                    return Some(read_head(elf_data, sh_offset as usize));
                }
            }
        }
        i = i + 1;
    }
    assert(forall|k: int| !is_first_ta_head_section(elf, k));
    None
}

/// The section that is looked for is the one with the name that is announced.
pub proof fn law_section_name()
    ensures
        TA_HEAD_SECTION_NAME@.len() == ta_head_section_name().len(),
        forall|i: int|
            0 <= i < ta_head_section_name().len() ==> #[trigger] TA_HEAD_SECTION_NAME@[i] as int
                == ta_head_section_name()[i],
{
    reveal_strlit(".ta_head");
}

/// A TA has a single instance, shares it, or keeps it, as bits 2, 3 and 4 of its flags
/// say.
pub proof fn law_flags_by_their_bits(flags: TaFlags, single: bool, multi: bool, kept: bool)
    requires
        call_ensures(TaFlags::is_single_instance, (&flags,), single),
        call_ensures(TaFlags::is_multi_session, (&flags,), multi),
        call_ensures(TaFlags::is_keep_alive, (&flags,), kept),
    ensures
        single <==> (flags.bits >> 2) & 1 == 1,
        multi <==> (flags.bits >> 3) & 1 == 1,
        kept <==> (flags.bits >> 4) & 1 == 1,
{
    let bits = flags.bits;
    assert((bits & 0x4 == 0x4 <==> (bits >> 2) & 1 == 1) && (bits & 0x8 == 0x8 <==> (bits >> 3) & 1
        == 1) && (bits & 0x10 == 0x10 <==> (bits >> 4) & 1 == 1)) by (bit_vector);
}

/// Each flag of a TA has the bit that it is known by.
pub proof fn law_flag_values()
    ensures
        TaFlags::USER_MODE == 0 && TaFlags::EXEC_DDR == 0,
        TaFlags::SINGLE_INSTANCE == 4,
        TaFlags::MULTI_SESSION == 2 * TaFlags::SINGLE_INSTANCE,
        TaFlags::INSTANCE_KEEP_ALIVE == 2 * TaFlags::MULTI_SESSION,
        TaFlags::SECURE_DATA_PATH == 2 * TaFlags::INSTANCE_KEEP_ALIVE,
        TaFlags::CACHE_MAINTENANCE == 4 * TaFlags::SECURE_DATA_PATH,
        TaFlags::CONCURRENT == 2 * TaFlags::CACHE_MAINTENANCE,
        TaFlags::DEVICE_ENUM == 2 * TaFlags::CONCURRENT,
        TaFlags::DEVICE_ENUM_SUPP == 2 * TaFlags::DEVICE_ENUM,
        TaFlags::DONT_CLOSE_HANDLE_ON_CORRUPT_OBJECT == 2 * TaFlags::DEVICE_ENUM_SUPP,
        TaFlags::DEVICE_ENUM_TEE_STORAGE_PRIVATE == 2
            * TaFlags::DONT_CLOSE_HANDLE_ON_CORRUPT_OBJECT,
        TaFlags::INSTANCE_KEEP_CRASHED == 2 * TaFlags::DEVICE_ENUM_TEE_STORAGE_PRIVATE,
{
}

/// The number of `n` bytes from `at` on, the first one lowest.
pub open spec fn number_at(data: Seq<u8>, at: int, n: nat) -> int
    decreases n,
{
    if n == 0 {
        0
    } else {
        data[at] + 256 * number_at(data, at + 1, (n - 1) as nat)
    }
}

proof fn lemma_numbers(data: Seq<u8>, at: int)
    requires
        0 <= at,
    ensures
        at + 2 <= data.len() ==> number_at(data, at, 2) == le16(data, at),
        at + 4 <= data.len() ==> number_at(data, at, 4) == le32(data, at),
        at + 8 <= data.len() ==> number_at(data, at, 8) == le64(data, at),
{
    reveal_with_fuel(number_at, 9);
}

/// The data is an ELF binary with a table of sections, the section that holds their names,
/// and those names.
pub open spec fn has_sections(data: Seq<u8>) -> bool {
    let table = number_at(data, 0x28, 8);
    let size = number_at(data, 0x3a, 2);
    let count = number_at(data, 0x3c, 2);
    let names = table + number_at(data, 0x3e, 2) * size;
    &&& data.len() >= 64
    &&& data.take(4) =~= seq![0x7fu8, 0x45u8, 0x4cu8, 0x46u8]
    &&& number_at(data, 0x3e, 2) < count
    &&& table + count * size <= data.len()
    &&& names + 64 <= data.len()
    &&& number_at(data, names + 24, 8) + number_at(data, names + 32, 8) <= data.len()
}

/// The header of section `k` begins at `at` and lies inside the data.
pub open spec fn section_begins(data: Seq<u8>, k: int, at: int) -> bool {
    &&& 0 <= k < number_at(data, 0x3c, 2)
    &&& at == number_at(data, 0x28, 8) + k * number_at(data, 0x3a, 2)
    &&& at + 64 <= data.len()
}

/// The section whose header begins at `at` has the name `.ta_head`.
pub open spec fn section_is_ta_head(data: Seq<u8>, at: int) -> bool {
    let names = number_at(data, 0x28, 8) + number_at(data, 0x3e, 2) * number_at(data, 0x3a, 2);
    let name = number_at(data, names + 24, 8) + number_at(data, at, 4);
    &&& name + 8 <= data.len()
    &&& data[name] == 0x2e && data[name + 1] == 0x74 && data[name + 2] == 0x61 && data[name + 3]
        == 0x5f
    &&& data[name + 4] == 0x68 && data[name + 5] == 0x65 && data[name + 6] == 0x61 && data[name + 7]
        == 0x64
    &&& name + 8 == data.len() || data[name + 8] == 0
}

proof fn lemma_section(data: Seq<u8>, k: int)
    requires
        elf_ok(data),
    ensures
        0 <= k < num_sections(data) ==> {
            let at = section_header(data, k);
            &&& section_begins(data, k, at) <==> at + 64 <= data.len()
            &&& at + 64 <= data.len() ==> (section_is_ta_head(data, at) <==> is_ta_head_section(
                data,
                k,
            ))
        },
{
    if 0 <= k < num_sections(data) {
        lemma_numbers(data, 0x28);
        lemma_numbers(data, 0x3a);
        lemma_numbers(data, 0x3c);
        lemma_numbers(data, 0x3e);
        let at = section_header(data, k);
        lemma_section_header(data, k, k);
        lemma_section_header(data, names_section(data), names_section(data));
        lemma_numbers(data, section_header(data, names_section(data)) + 24);
        if at + 64 <= data.len() {
            lemma_numbers(data, at);
            let name = names_offset(data) + le32(data, at);
            let want = ta_head_section_name();
            if name + 8 <= data.len() {
                let part = data.subrange(name, name + 8);
                assert(part[0] == data[name] && part[1] == data[name + 1] && part[2] == data[name
                    + 2] && part[3] == data[name + 3] && part[4] == data[name + 4] && part[5]
                    == data[name + 5] && part[6] == data[name + 6] && part[7] == data[name + 7]);
                if section_is_ta_head(data, at) {
                    assert(part =~= want);
                }
                if part == want {
                    assert(part[0] == want[0] && part[1] == want[1] && part[2] == want[2]
                        && part[3] == want[3] && part[4] == want[4] && part[5] == want[5]
                        && part[6] == want[6] && part[7] == want[7]);
                }
            }
        }
    }
}

proof fn lemma_has_sections(data: Seq<u8>)
    ensures
        has_sections(data) <==> elf_ok(data),
{
    if data.len() >= 64 {
        lemma_numbers(data, 0x28);
        lemma_numbers(data, 0x3a);
        lemma_numbers(data, 0x3c);
        lemma_numbers(data, 0x3e);
        let magic = seq![0x7fu8, 0x45u8, 0x4cu8, 0x46u8];
        assert(data.take(4) =~= magic <==> data[0] == 0x7f && data[1] == 0x45 && data[2] == 0x4c
            && data[3] == 0x46) by {
            if data.take(4) =~= magic {
                assert(data.take(4)[0] == magic[0] && data.take(4)[1] == magic[1] && data.take(4)[2]
                    == magic[2] && data.take(4)[3] == magic[3]);
            }
        }
        let at = section_header(data, names_section(data));
        lemma_section_header(data, names_section(data), names_section(data));
        if at + 64 <= data.len() {
            lemma_numbers(data, at + 24);
            lemma_numbers(data, at + 32);
        }
    }
}

/// The header of a TA is the 32 bytes where the first section named `.ta_head` begins: the
/// identifier, the size of the stack, the flags and the old entry point, each number low
/// byte first. A section that is smaller, or from which they reach behind the data, gives
/// none.
pub proof fn law_head_is_found(elf_data: &[u8], k: int, at: int, r: Option<TaHead>)
    requires
        call_ensures(parse_ta_head, (elf_data,), r),
        has_sections(elf_data@),
        section_begins(elf_data@, k, at),
        section_is_ta_head(elf_data@, at),
        forall|j: int, other: int|
            0 <= j < k && #[trigger] section_begins(elf_data@, j, other) ==> !section_is_ta_head(
                elf_data@,
                other,
            ),
    ensures
        ({
            let data = elf_data@;
            let offset = number_at(data, at + 24, 8);
            let size = number_at(data, at + 32, 8);
            &&& r is Some <==> size >= 32 && offset + 32 <= data.len()
            &&& r matches Some(head) ==> {
                &&& head.uuid.time_low == number_at(data, offset, 4)
                &&& head.uuid.time_mid == number_at(data, offset + 4, 2)
                &&& head.uuid.time_hi_and_version == number_at(data, offset + 6, 2)
                &&& forall|i: int|
                    0 <= i < 8 ==> #[trigger] head.uuid.clock_seq_and_node@[i] == data[offset + 8
                        + i]
                &&& head.stack_size == number_at(data, offset + 16, 4)
                &&& head.flags.bits == number_at(data, offset + 20, 4)
                &&& head.depr_entry == number_at(data, offset + 24, 8)
            }
        }),
{
    let data = elf_data@;
    lemma_has_sections(data);
    lemma_numbers(data, 0x28);
    lemma_numbers(data, 0x3a);
    lemma_numbers(data, 0x3c);
    lemma_section(data, k);
    lemma_section_header(data, k, k);
    assert(at == section_header(data, k));
    assert forall|j: int| 0 <= j < k implies !#[trigger] is_ta_head_section(data, j) by {
        lemma_section(data, j);
        if section_header(data, j) + 64 <= data.len() {
            assert(section_begins(data, j, section_header(data, j)));
        }
    }
    assert(is_first_ta_head_section(data, k));
    let first = choose|i: int| is_first_ta_head_section(data, i);
    assert(is_first_ta_head_section(data, first));
    assert(first == k) by {
        if first < k {
            assert(!is_ta_head_section(data, first));
        } else if first > k {
            assert(!is_ta_head_section(data, k));
        }
    }
    lemma_numbers(data, at + 24);
    lemma_numbers(data, at + 32);
    let offset = le64(data, at + 24);
    if offset + 32 <= data.len() {
        lemma_numbers(data, offset);
        lemma_numbers(data, offset + 4);
        lemma_numbers(data, offset + 6);
        lemma_numbers(data, offset + 16);
        lemma_numbers(data, offset + 20);
        lemma_numbers(data, offset + 24);
        if let Some(head) = r {
            assert forall|i: int| 0 <= i < 8 implies #[trigger] head.uuid.clock_seq_and_node@[i]
                == data[offset + 8 + i] by {
                assert(data.subrange(offset + 8, offset + 16)[i] == data[offset + 8 + i]);
            }
        }
    }
}

/// Data that is no ELF binary with sections, or has none that is named `.ta_head`, holds
/// no header of a TA.
pub proof fn law_no_head_elsewhere(elf_data: &[u8], r: Option<TaHead>)
    requires
        call_ensures(parse_ta_head, (elf_data,), r),
        has_sections(elf_data@) ==> forall|k: int, at: int| #[trigger]
            section_begins(elf_data@, k, at) ==> !section_is_ta_head(elf_data@, at),
    ensures
        r is None,
{
    let data = elf_data@;
    lemma_has_sections(data);
    if elf_ok(data) {
        assert forall|k: int| !is_first_ta_head_section(data, k) by {
            lemma_section(data, k);
            if is_ta_head_section(data, k) {
                assert(section_begins(data, k, section_header(data, k)));
            }
        }
    }
}

} // verus!
