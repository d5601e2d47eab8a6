//! Physical pages, the permissions they are mapped with, and what can go wrong
//! when they are accessed.

use vstd::prelude::*;

use crate::codes::OpteeSmcReturnCode;

verus! {

/// `addr` can be the address of a page of `align` bytes: it is not zero and a
/// multiple of `align`.
pub open spec fn is_page_addr(addr: u64, align: int) -> bool {
    addr != 0 && addr as int % align == 0
}

/// A physical address with page alignment.
#[derive(Clone, Copy, PartialEq, Eq, Debug)]
pub struct PhysPageAddr<const ALIGN: usize> {
    pub addr: u64,
}

impl<const ALIGN: usize> PhysPageAddr<ALIGN> {
    /// The address is that of a page.
    pub open spec fn wf(self) -> bool {
        is_page_addr(self.addr, ALIGN as int)
    }

    /// Takes `addr` as the address of a page, if it can be one.
    pub fn new(addr: u64) -> (r: Option<Self>)
        requires
            ALIGN > 0,
        ensures
            is_page_addr(addr, ALIGN as int) ==> r == Some(PhysPageAddr::<ALIGN> { addr }),
            !is_page_addr(addr, ALIGN as int) ==> r is None,
    {
        if addr != 0 && addr % (ALIGN as u64) == 0 {
            Some(PhysPageAddr { addr })
        } else {
            None
        }
    }
}

/// The mapping information that mapping pages returns.
#[derive(Clone, Copy, PartialEq, Eq, Debug)]
pub struct PhysPageMapInfo<const ALIGN: usize> {
    /// Virtual address of the mapped region which is page aligned.
    pub base: usize,
    /// The size of the mapped region in bytes.
    pub size: usize,
}

/// Permissions that a memory region can have.
#[derive(Clone, Copy, PartialEq, Eq, Debug, Structural)]
pub struct MemoryRegionPermissions {
    pub read: bool,
    pub write: bool,
    pub execute: bool,
    pub shared: bool,
}

/// Permissions that physical pages are mapped with. Pages are never mapped
/// executable or shared.
#[derive(Clone, Copy, PartialEq, Eq, Debug, Structural)]
pub struct PhysPageMapPermissions {
    pub read: bool,
    pub write: bool,
}

impl From<MemoryRegionPermissions> for PhysPageMapPermissions {
    fn from(perms: MemoryRegionPermissions) -> (r: PhysPageMapPermissions) {
        PhysPageMapPermissions { read: perms.read, write: perms.write }
    }
}

impl vstd::std_specs::convert::FromSpecImpl<MemoryRegionPermissions> for PhysPageMapPermissions {
    open spec fn obeys_from_spec() -> bool {
        true
    }

    open spec fn from_spec(perms: MemoryRegionPermissions) -> PhysPageMapPermissions {
        PhysPageMapPermissions { read: perms.read, write: perms.write }
    }
}

impl From<PhysPageMapPermissions> for MemoryRegionPermissions {
    fn from(perms: PhysPageMapPermissions) -> (r: MemoryRegionPermissions) {
        MemoryRegionPermissions {
            read: perms.read,
            write: perms.write,
            execute: false,
            shared: false,
        }
    }
}

impl vstd::std_specs::convert::FromSpecImpl<PhysPageMapPermissions> for MemoryRegionPermissions {
    open spec fn obeys_from_spec() -> bool {
        true
    }

    open spec fn from_spec(perms: PhysPageMapPermissions) -> MemoryRegionPermissions {
        MemoryRegionPermissions {
            read: perms.read,
            write: perms.write,
            execute: false,
            shared: false,
        }
    }
}

/// Possible errors of access to physical pages.
#[derive(Clone, Copy, PartialEq, Eq, Debug, Structural)]
pub enum PhysPointerError {
    /// The physical address is invalid to access.
    InvalidPhysicalAddress(usize),
    /// The physical address is not aligned to the given number of bytes.
    UnalignedPhysicalAddress(usize, usize),
    /// The offset is not aligned to the given number of bytes.
    UnalignedOffset(usize, usize),
    /// The base offset is not below the alignment.
    InvalidBaseOffset(usize, usize),
    /// The size of the pages does not suffice for the requested type.
    InsufficientPhysicalPages(usize, usize),
    /// The index is out of bounds of the count.
    IndexOutOfBounds(usize, usize),
    /// The physical address is already mapped.
    AlreadyMapped(usize),
    /// The physical address is unmapped.
    Unmapped(usize),
    /// No mapping information is available.
    NoMappingInfo,
    /// A calculation overflowed.
    Overflow,
    /// The operation is unsupported on this platform.
    UnsupportedOperation,
    /// The permissions are unsupported.
    UnsupportedPermissions(u8),
    /// Copying memory failed.
    CopyFailed,
    /// A physical page address occurs more than once in the input.
    DuplicatePhysicalAddress(usize),
    /// The region of virtual addresses is exhausted.
    VaSpaceExhausted,
    /// No frame for a page table could be allocated.
    FrameAllocationFailed,
}

/// The return code of a call that failed on access to physical pages.
pub open spec fn return_code_of(err: PhysPointerError) -> OpteeSmcReturnCode {
    match err {
        PhysPointerError::AlreadyMapped(_) => OpteeSmcReturnCode::EBusy,
        PhysPointerError::NoMappingInfo => OpteeSmcReturnCode::ENomem,
        _ => OpteeSmcReturnCode::EBadAddr,
    }
}

impl From<PhysPointerError> for OpteeSmcReturnCode {
    fn from(err: PhysPointerError) -> (r: OpteeSmcReturnCode) {
        match err {
            PhysPointerError::AlreadyMapped(_) => OpteeSmcReturnCode::EBusy,
            PhysPointerError::NoMappingInfo => OpteeSmcReturnCode::ENomem,
            _ => OpteeSmcReturnCode::EBadAddr,
        }
    }
}

impl vstd::std_specs::convert::FromSpecImpl<PhysPointerError> for OpteeSmcReturnCode {
    open spec fn obeys_from_spec() -> bool {
        true
    }

    open spec fn from_spec(err: PhysPointerError) -> OpteeSmcReturnCode {
        return_code_of(err)
    }
}

/// A provider that maps and unmaps physical pages at contiguous virtual
/// addresses. `ALIGN` is the page frame size. A platform that can do none of it
/// takes the methods as they are.
pub trait VmapManager<const ALIGN: usize> {
    /// Maps the given pages at contiguous virtual addresses. The pages must not be
    /// in active use by others.
    fn vmap(&self, pages: &[PhysPageAddr<ALIGN>], perms: PhysPageMapPermissions) -> (r: Result<
        PhysPageMapInfo<ALIGN>,
        PhysPointerError,
    >)
        default_ensures
            r == Err::<PhysPageMapInfo<ALIGN>, PhysPointerError>(
                PhysPointerError::UnsupportedOperation,
            ),
    {
        Err(PhysPointerError::UnsupportedOperation)
    }

    /// Unmaps what was mapped. The virtual addresses must not be in active use.
    fn vunmap(&self, vmap_info: PhysPageMapInfo<ALIGN>) -> (r: Result<(), PhysPointerError>)
        default_ensures
            r == Err::<(), PhysPointerError>(PhysPointerError::UnsupportedOperation),
    {
        Err(PhysPointerError::UnsupportedOperation)
    }

    /// Checks that the given pages belong to the normal world.
    fn validate_unowned(&self, pages: &[PhysPageAddr<ALIGN>]) -> (r: Result<(), PhysPointerError>)
        default_ensures
            r == Ok::<(), PhysPointerError>(()),
    {
        Ok(())
    }

    /// Keeps others from writing to pages that are read, and from any access to
    /// pages that are written.
    fn protect(&self, pages: &[PhysPageAddr<ALIGN>], perms: PhysPageMapPermissions) -> (r: Result<
        (),
        PhysPointerError,
    >)
        default_ensures
            r == Ok::<(), PhysPointerError>(()),
    {
        Ok(())
    }
}

/// Narrowing permissions to those of physical pages loses nothing that such a
/// mapping can have.
pub proof fn law_page_permissions_survive(perms: PhysPageMapPermissions)
    ensures
        <PhysPageMapPermissions as vstd::std_specs::convert::FromSpec<
            MemoryRegionPermissions,
        >>::from_spec(
            <MemoryRegionPermissions as vstd::std_specs::convert::FromSpec<
                PhysPageMapPermissions,
            >>::from_spec(perms),
        ) == perms,
{
}

/// An address is that of a page exactly when it is a multiple of the page size other than
/// zero; it is kept as it is.
pub proof fn law_page_addresses<const ALIGN: usize>(
    addr: u64,
    r: Option<PhysPageAddr<ALIGN>>,
    k: int,
)
    requires
        ALIGN > 0,
        call_ensures(PhysPageAddr::<ALIGN>::new, (addr,), r),
    ensures
        addr == 0 ==> r is None,
        addr != 0 && addr == k * ALIGN ==> r is Some,
        r matches Some(page) ==> page.addr == addr && addr as int % ALIGN as int == 0,
{
    if addr == k * ALIGN {
        vstd::arithmetic::div_mod::lemma_mod_multiples_basic(k, ALIGN as int);
    }
}

/// Pages are mapped readable and writable as the region is, and a region of such pages is
/// neither executable nor shared.
pub proof fn law_permissions(
    region: MemoryRegionPermissions,
    pages: PhysPageMapPermissions,
    r: PhysPageMapPermissions,
    s: MemoryRegionPermissions,
)
    requires
        call_ensures(
            <PhysPageMapPermissions as From<MemoryRegionPermissions>>::from,
            (region,),
            r,
        ),
        call_ensures(
            <MemoryRegionPermissions as From<PhysPageMapPermissions>>::from,
            (pages,),
            s,
        ),
    ensures
        r.read == region.read && r.write == region.write,
        s.read == pages.read && s.write == pages.write,
        !s.execute && !s.shared,
{
}

/// What is already mapped is busy, what has no mapping information lacks memory, and all
/// other failures are those of a bad address.
pub proof fn law_return_codes(err: PhysPointerError, r: OpteeSmcReturnCode)
    requires
        call_ensures(<OpteeSmcReturnCode as From<PhysPointerError>>::from, (err,), r),
    ensures
        r is EBusy <==> err is AlreadyMapped,
        r is ENomem <==> err is NoMappingInfo,
        r is EBadAddr <==> !(err is AlreadyMapped) && !(err is NoMappingInfo),
{
}

/// A platform that can neither map nor unmap pages and takes all pages for those of the
/// normal world.
pub struct PassivePlatform;

impl<const ALIGN: usize> VmapManager<ALIGN> for PassivePlatform {

}

/// A platform that takes the methods as they are maps and unmaps nothing, whatever the
/// pages are, and finds and protects all of them.
pub proof fn law_methods_as_they_are(
    pages: &[PhysPageAddr<4096>],
    perms: PhysPageMapPermissions,
    info: PhysPageMapInfo<4096>,
    mapped: Result<PhysPageMapInfo<4096>, PhysPointerError>,
    unmapped: Result<(), PhysPointerError>,
    valid: Result<(), PhysPointerError>,
    protected: Result<(), PhysPointerError>,
)
    requires
        call_ensures(
            <PassivePlatform as VmapManager<4096>>::vmap,
            (&PassivePlatform, pages, perms),
            mapped,
        ),
        call_ensures(
            <PassivePlatform as VmapManager<4096>>::vunmap,
            (&PassivePlatform, info),
            unmapped,
        ),
        call_ensures(
            <PassivePlatform as VmapManager<4096>>::validate_unowned,
            (&PassivePlatform, pages),
            valid,
        ),
        call_ensures(
            <PassivePlatform as VmapManager<4096>>::protect,
            (&PassivePlatform, pages, perms),
            protected,
        ),
    ensures
        mapped matches Err(e) && e == PhysPointerError::UnsupportedOperation,
        unmapped matches Err(e) && e == PhysPointerError::UnsupportedOperation,
        valid is Ok,
        protected is Ok,
{
}

} // verus!
