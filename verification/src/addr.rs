//! Virtual addresses, physical frames and the page size they are cut into.

use vstd::prelude::*;

verus! {

/// The size of a page and of a page frame in bytes.
pub const PAGE_SIZE: usize = 4096;

/// The first address above the lower canonical half.
pub const LOWER_HALF_END: u64 = 0x8000_0000_0000;

/// The first address of the upper canonical half.
pub const UPPER_HALF_START: u64 = 0xffff_8000_0000_0000;

/// Bits 48 to 63 of `addr` are copies of bit 47.
pub open spec fn canonical(addr: u64) -> bool {
    addr < LOWER_HALF_END || addr >= UPPER_HALF_START
}

/// `addr` lies on a page boundary.
pub open spec fn page_aligned(addr: u64) -> bool {
    addr % 4096 == 0
}

/// A virtual address. Every address made by [`VirtAddr::new`] is canonical.
#[derive(Clone, Copy, PartialEq, Eq, Hash, Debug, Structural)]
pub struct VirtAddr {
    pub addr: u64,
}

impl VirtAddr {
    /// Makes a virtual address out of a canonical number.
    pub fn new(addr: u64) -> (r: Self)
        requires
            canonical(addr),
        ensures
            r.addr == addr,
    {
        VirtAddr { addr }
    }

    /// Makes a virtual address, or `None` if `addr` is not canonical.
    pub fn try_new(addr: u64) -> (r: Option<Self>)
        ensures
            canonical(addr) ==> r == Some(VirtAddr { addr }),
            !canonical(addr) ==> r is None,
    {
        if addr < LOWER_HALF_END || addr >= UPPER_HALF_START {
            Some(VirtAddr { addr })
        } else {
            None
        }
    }

    /// The address as a number.
    pub fn as_u64(&self) -> (r: u64)
        ensures
            r == self.addr,
    {
        self.addr
    }
}

/// A physical page frame, named by its first address.
#[derive(Clone, Copy, PartialEq, Eq, Hash, Debug, Structural)]
pub struct PhysFrame {
    pub start: u64,
}

impl PhysFrame {
    /// The frame that holds the physical address `addr`.
    pub fn containing_address(addr: u64) -> (r: Self)
        ensures
            r.start == addr - addr % 4096,
            page_aligned(r.start),
            r.start <= addr < r.start + 4096,
    {
        PhysFrame { start: addr - addr % 4096 }
    }

    /// The first address of the frame.
    pub fn start_address(&self) -> (r: u64)
        ensures
            r == self.start,
    {
        self.start
    }
}

/// An address is virtual exactly when its high 17 bits are all zero or all one; it is
/// kept as it is.
pub proof fn law_virtual_addresses(
    addr: u64,
    r: Option<VirtAddr>,
    made: VirtAddr,
    read: u64,
)
    requires
        call_ensures(VirtAddr::try_new, (addr,), r),
        call_ensures(VirtAddr::new, (addr,), made),
        call_ensures(VirtAddr::as_u64, (&made,), read),
    ensures
        r is Some <==> addr >> 47 == 0 || addr >> 47 == 0x1_ffff,
        r matches Some(v) ==> v.addr == addr,
        made.addr == addr,
        read == addr,
{
    assert(addr < 0x8000_0000_0000 <==> addr >> 47 == 0) by (bit_vector);
    assert(addr >= 0xffff_8000_0000_0000 <==> addr >> 47 == 0x1_ffff) by (bit_vector);
}

/// The frame of an address begins at a multiple of 4096 and holds the address; it is the
/// only such frame.
pub proof fn law_frames(addr: u64, frame: PhysFrame, start: u64, other: u64)
    requires
        call_ensures(PhysFrame::containing_address, (addr,), frame),
        call_ensures(PhysFrame::start_address, (&frame,), start),
    ensures
        start == frame.start,
        start % 4096 == 0,
        start <= addr < start + 4096,
        other % 4096 == 0 && other <= addr < other + 4096 ==> other == start,
{
}

} // verus!
