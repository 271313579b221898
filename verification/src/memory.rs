//! Results of memory operations, and allocation and release for callers
//! that know that they cannot fail.
use vstd::prelude::*;
use crate::allocator::{
    alloc_outcome, first_wide_from, free_outcome, occupied_check, Allocator, MemoryBlock,
    KERNEL_MAXIMUM_ALLOCATABLE_ADDRESS,
};

verus! {

/// Why an allocation, a release or a mapping failed.
#[derive(Debug, Clone, Copy, PartialEq, Eq, Structural)]
pub enum MemoryResult {
    InvalidLength,
    InvalidAddress,
    InvalidBlock,
    InvalidFlags,
    InvalidActivateFlags,
    AllocationError,
    PagingError,
    Nospace,
}

/// `free` accepts the block: whole pages, inside the allocator's range,
/// and every page of it in use.
pub open spec fn free_succeeds(a: Allocator, mb: MemoryBlock) -> bool {
    let page = (mb.base - a.base_address()) / 0x1000;
    &&& mb.length % 0x1000 == 0
    &&& mb.base >= a.base_address()
    &&& mb.base % 0x1000 == 0
    &&& mb.base + mb.length <= KERNEL_MAXIMUM_ALLOCATABLE_ADDRESS
    &&& occupied_check(a.bits(), page / 32, page % 32, ((mb.length as u32) / 0x1000) as int)
}

/// `alloc` finds room for `pages` pages.
pub open spec fn alloc_succeeds(a: Allocator, pages: int) -> bool {
    &&& pages > 0
    &&& pages <= 32 ==> a.small_choice(pages) is Some
    &&& pages > 32 ==> first_wide_from(a.bits(), pages, 0) is Some
}

/// Releases a block that the allocator is known to accept.
pub fn free_or_crash(allocator: &mut Allocator, mb: &MemoryBlock)
    requires
        old(allocator).wf(),
        free_succeeds(*old(allocator), *mb),
    ensures
        final(allocator).wf(),
        final(allocator).base_address() == old(allocator).base_address(),
        final(allocator).current() == old(allocator).current(),
        free_outcome(*old(allocator), *final(allocator), *mb, Ok(())),
{
    let r = allocator.free(mb);
    assert(r is Ok);
}

/// Allocates `pages` pages where the allocator is known to have room; the
/// caller clears them.
pub fn alloc_zero_or_crash(allocator: &mut Allocator, pages: u16) -> (r: MemoryBlock)
    requires
        old(allocator).wf(),
        alloc_succeeds(*old(allocator), pages as int),
    ensures
        final(allocator).wf(),
        final(allocator).base_address() == old(allocator).base_address(),
        alloc_outcome(*old(allocator), *final(allocator), pages as int, Ok(r)),
{
    match allocator.alloc_pages(pages) {
        Ok(mb) => mb,
        Err(_) => {
            assert(false);
            MemoryBlock::empty()
        },
    }
}

} // verus!
