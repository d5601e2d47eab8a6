//! Universally unique identifiers of trusted applications and clients.

use vstd::prelude::*;

use crate::bytes::{be16, be32, le_bytes};

verus! {

/// Identifies TAs, cryptographic keys, and more.
#[derive(Clone, Copy, PartialEq, Eq, Hash, Debug)]
pub struct TeeUuid {
    pub time_low: u32,
    pub time_mid: u16,
    pub time_hi_and_version: u16,
    pub clock_seq_and_node: [u8; 8],
}

impl TeeUuid {
    /// `bytes` is the identifier in RFC 4122 format: the numeric fields
    /// big-endian, then the rest as it is.
    pub open spec fn has_bytes(self, bytes: Seq<u8>) -> bool {
        &&& bytes.len() == 16
        &&& self.time_low == be32(bytes, 0)
        &&& self.time_mid == be16(bytes, 4)
        &&& self.time_hi_and_version == be16(bytes, 6)
        &&& self.clock_seq_and_node@ == bytes.subrange(8, 16)
    }

    /// All fields are zero.
    pub open spec fn is_nil(self) -> bool {
        &&& self.time_low == 0
        &&& self.time_mid == 0
        &&& self.time_hi_and_version == 0
        &&& self.clock_seq_and_node@ == Seq::new(8, |i: int| 0u8)
    }

    /// The identifier of which every bit is zero.
    pub fn nil() -> (r: Self)
        ensures
            r.is_nil(),
    {
        let clock_seq_and_node: [u8; 8] = [0, 0, 0, 0, 0, 0, 0, 0];
        assert(clock_seq_and_node@ =~= Seq::new(8, |i: int| 0u8));
        TeeUuid { time_low: 0, time_mid: 0, time_hi_and_version: 0, clock_seq_and_node }
    }

    /// Converts an identifier from a 16-byte array in RFC 4122 format.
    pub fn from_bytes(data: [u8; 16]) -> (r: Self)
        ensures
            r.has_bytes(data@),
    {
        let time_low: u32 = (data[0] as u32 * 0x100 + data[1] as u32) * 0x1_0000 + (data[2] as u32
            * 0x100 + data[3] as u32);
        let time_mid: u16 = data[4] as u16 * 0x100 + data[5] as u16;
        let time_hi_and_version: u16 = data[6] as u16 * 0x100 + data[7] as u16;
        let clock_seq_and_node: [u8; 8] = [
            data[8],
            data[9],
            data[10],
            data[11],
            data[12],
            data[13],
            data[14],
            data[15],
        ];
        assert(clock_seq_and_node@ =~= data@.subrange(8, 16));
        TeeUuid { time_low, time_mid, time_hi_and_version, clock_seq_and_node }
    }

    /// Converts an identifier from two 64-bit numbers: its first and its last
    /// eight bytes, each read low byte first.
    pub fn from_u64_array(data: [u64; 2]) -> (r: Self)
        ensures
            r.has_bytes(le_bytes(data[0]) + le_bytes(data[1])),
    {
        let a: u64 = data[0];
        let b: u64 = data[1];
        let bytes: [u8; 16] = [
            (a % 0x100) as u8,
            (a / 0x100 % 0x100) as u8,
            (a / 0x1_0000 % 0x100) as u8,
            (a / 0x100_0000 % 0x100) as u8,
            (a / 0x1_0000_0000 % 0x100) as u8,
            (a / 0x100_0000_0000 % 0x100) as u8,
            (a / 0x1_0000_0000_0000 % 0x100) as u8,
            (a / 0x100_0000_0000_0000 % 0x100) as u8,
            (b % 0x100) as u8,
            (b / 0x100 % 0x100) as u8,
            (b / 0x1_0000 % 0x100) as u8,
            (b / 0x100_0000 % 0x100) as u8,
            (b / 0x1_0000_0000 % 0x100) as u8,
            (b / 0x100_0000_0000 % 0x100) as u8,
            (b / 0x1_0000_0000_0000 % 0x100) as u8,
            (b / 0x100_0000_0000_0000 % 0x100) as u8,
        ];
        assert(bytes@ =~= le_bytes(a) + le_bytes(b));
        TeeUuid::from_bytes(bytes)
    }
}

impl Default for TeeUuid {
    fn default() -> (r: Self)
        ensures
            r.is_nil(),
    {
        TeeUuid::nil()
    }
}

/// Different bytes give different identifiers.
pub proof fn law_uuid_keeps_bytes(uuid: TeeUuid, a: Seq<u8>, b: Seq<u8>)
    requires
        uuid.has_bytes(a),
        uuid.has_bytes(b),
    ensures
        a == b,
{
    assert(a.len() == 16 && b.len() == 16);
    assert forall|i: int| 0 <= i < 16 implies a[i] == b[i] by {
        if i >= 8 {
            assert(a.subrange(8, 16)[i - 8] == b.subrange(8, 16)[i - 8]);
        }
    }
    assert(a =~= b);
}

/// Byte `i` of 16 bytes goes where RFC 4122 puts it: four bytes, two and two make the
/// numeric fields, each with its high byte first, and the last eight stay as they are.
pub proof fn law_uuid_of_bytes(data: [u8; 16], r: TeeUuid)
    requires
        call_ensures(TeeUuid::from_bytes, (data,), r),
    ensures
        r.time_low == data[0] * 0x100_0000 + data[1] * 0x1_0000 + data[2] * 0x100 + data[3],
        r.time_mid == data[4] * 0x100 + data[5],
        r.time_hi_and_version == data[6] * 0x100 + data[7],
        forall|i: int| 0 <= i < 8 ==> #[trigger] r.clock_seq_and_node[i] == data[8 + i],
{
    assert forall|i: int| 0 <= i < 8 implies #[trigger] r.clock_seq_and_node[i] == data[8 + i] by {
        assert(r.clock_seq_and_node@[i] == data@.subrange(8, 16)[i]);
    }
}

/// Two words give the identifier whose bytes they hold low byte first: the numeric fields
/// are the parts of the first word with their bytes exchanged, the rest is the second.
pub proof fn law_uuid_of_words(data: [u64; 2], r: TeeUuid)
    requires
        call_ensures(TeeUuid::from_u64_array, (data,), r),
    ensures
        ({
            let a = data[0] as int;
            let b = data[1] as int;
            &&& r.time_low == (a % 0x100) * 0x100_0000 + (a / 0x100 % 0x100) * 0x1_0000 + (a
                / 0x1_0000 % 0x100) * 0x100 + a / 0x100_0000 % 0x100
            &&& r.time_mid == (a / 0x1_0000_0000 % 0x100) * 0x100 + a / 0x100_0000_0000 % 0x100
            &&& r.time_hi_and_version == (a / 0x1_0000_0000_0000 % 0x100) * 0x100 + a
                / 0x100_0000_0000_0000 % 0x100
            &&& r.clock_seq_and_node[0] == b % 0x100
            &&& r.clock_seq_and_node[1] == b / 0x100 % 0x100
            &&& r.clock_seq_and_node[2] == b / 0x1_0000 % 0x100
            &&& r.clock_seq_and_node[3] == b / 0x100_0000 % 0x100
            &&& r.clock_seq_and_node[4] == b / 0x1_0000_0000 % 0x100
            &&& r.clock_seq_and_node[5] == b / 0x100_0000_0000 % 0x100
            &&& r.clock_seq_and_node[6] == b / 0x1_0000_0000_0000 % 0x100
            &&& r.clock_seq_and_node[7] == b / 0x100_0000_0000_0000 % 0x100
        }),
{
    let bytes = le_bytes(data[0]) + le_bytes(data[1]);
    let rest = bytes.subrange(8, 16);
    assert forall|i: int| 0 <= i < 8 implies #[trigger] r.clock_seq_and_node[i] == le_bytes(
        data[1],
    )[i] by {
        assert(r.clock_seq_and_node@[i] == rest[i]);
        assert(bytes[8 + i] == le_bytes(data[1])[i]);
    }
    assert forall|i: int| 0 <= i < 8 implies #[trigger] bytes[i] == le_bytes(data[0])[i] by {}
}

/// The identifier of nobody is zero everywhere.
pub proof fn law_nil_uuid(r: TeeUuid, i: int)
    requires
        call_ensures(TeeUuid::nil, (), r),
        0 <= i < 8,
    ensures
        r.time_low == 0,
        r.time_mid == 0,
        r.time_hi_and_version == 0,
        r.clock_seq_and_node[i] == 0,
{
    assert(r.clock_seq_and_node@[i] == 0);
}

/// An identifier that is left to its default has only zeros.
pub proof fn law_default_uuid(r: TeeUuid, i: int)
    requires
        call_ensures(<TeeUuid as Default>::default, (), r),
        0 <= i < 8,
    ensures
        r.time_low == 0 && r.time_mid == 0 && r.time_hi_and_version == 0,
        r.clock_seq_and_node@[i] == 0,
{
}

} // verus!
