//! Byte buffers in pages taken from the page allocator.
use vstd::prelude::*;
use crate::allocator::{alloc_outcome, free_outcome, lemma_alloc_block_in_range, Allocator, MemoryBlock, VirtualAllocator};
use crate::memory::{free_or_crash, free_succeeds, MemoryResult};

verus! {

/// `size` rounded up to whole pages.
pub open spec fn page_rounded(size: u64) -> int {
    if size % 0x1000 != 0 { size + (0x1000 - size % 0x1000) } else { size as int }
}

/// Pages that a buffer of `size` bytes asks for, cut to 16 bits.
pub open spec fn buffer_pages(size: u64) -> int {
    ((page_rounded(size) / 0x1000) as u16) as int
}

/// `size` rounded up to whole pages.
fn round_to_pages(size: u64) -> (r: u64)
    requires
        size + 0xFFF <= u64::MAX,
    ensures
        r == page_rounded(size),
{
    if size % 0x1000 != 0 {
        size + (0x1000 - (size % 0x1000))
    } else {
        size
    }
}

/// A buffer of `original_size` bytes at `ptr`, in `allocated_size` bytes of pages.
#[derive(Clone, Copy)]
pub struct Buffer {
    pub ptr: u64,
    pub allocated_size: u64,
    pub original_size: u64,
    pub readonly: bool,
}

impl Buffer {
    /// A read-only buffer of no bytes at address 0.
    pub fn empty() -> (r: Self)
        ensures
            r == (Buffer { ptr: 0, allocated_size: 0, original_size: 0, readonly: true }),
    {
        Buffer { ptr: 0, allocated_size: 0, original_size: 0, readonly: true }
    }

    /// A buffer of `allocated_size` bytes in pages of `allocator`, whose
    /// physical pages lie in `allocator.physical`. Gives the buffer, at the
    /// address of its pages in the physical block, and the block that the
    /// allocator handed out; the error is that of the allocator.
    pub fn new_physical_virtual(
        allocator: &mut VirtualAllocator,
        readonly: bool,
        allocated_size: u64,
    ) -> (r: Result<(Buffer, MemoryBlock), MemoryResult>)
        requires
            old(allocator).allocator.wf(),
            allocated_size + 0xFFF <= u64::MAX,
            old(allocator).physical.base + 0x8_0000_0000u64 <= u64::MAX,
        ensures
            final(allocator).allocator.wf(),
            final(allocator).physical == old(allocator).physical,
            alloc_outcome(
                old(allocator).allocator,
                final(allocator).allocator,
                buffer_pages(allocated_size),
                match r {
                    Ok((_, mb)) => Ok(mb),
                    Err(e) => Err(e),
                },
            ),
            r matches Ok((b, mb)) ==> b == (Buffer {
                ptr: (old(allocator).physical.base + (mb.base
                    - old(allocator).allocator.base_address())) as u64,
                allocated_size: page_rounded(allocated_size) as u64,
                original_size: allocated_size,
                readonly,
            }),
    {
        let original_size = allocated_size;
        let rounded = round_to_pages(allocated_size);
        let pages = (rounded / 0x1000) as u16;
        let ghost old_alloc = allocator.allocator;
        match allocator.allocator.alloc_pages(pages) {
            Ok(mb) => {
                let lowest = allocator.allocator.lowest_address();
                proof {
                    lemma_alloc_block_in_range(old_alloc, allocator.allocator, pages as int, mb);
                    old_alloc.lemma_wf_len();
                    let n = old_alloc.bits().len();
                    assert(0x1000 * 32 * n <= 0x8_0000_0000) by (nonlinear_arith)
                        requires
                            n <= 0x4_0000,
                    ;
                }
                let offset = mb.base - lowest;
                let b = Buffer {
                    ptr: allocator.physical.base + offset,
                    readonly,
                    original_size,
                    allocated_size: rounded,
                };
                Ok((b, mb))
            },
            Err(e) => Err(e),
        }
    }

    /// A buffer of `allocated_size` bytes in pages of `allocator`; the
    /// error is that of the allocator.
    pub fn new(allocator: &mut Allocator, readonly: bool, allocated_size: u64) -> (r: Result<Buffer, MemoryResult>)
        requires
            old(allocator).wf(),
            allocated_size + 0xFFF <= u64::MAX,
        ensures
            final(allocator).wf(),
            alloc_outcome(
                *old(allocator),
                *final(allocator),
                buffer_pages(allocated_size),
                match r {
                    Ok(b) => Ok(MemoryBlock { base: b.ptr, length: (buffer_pages(allocated_size) * 0x1000) as u64 }),
                    Err(e) => Err(e),
                },
            ),
            r matches Ok(b) ==> b.allocated_size == page_rounded(allocated_size) && b.original_size
                == allocated_size && b.readonly == readonly,
    {
        let original_size = allocated_size;
        let rounded = round_to_pages(allocated_size);
        let pages = (rounded / 0x1000) as u16;
        let ghost old_alloc = *allocator;
        match allocator.alloc_pages(pages) {
            Ok(mb) => {
                proof {
                    lemma_alloc_block_in_range(old_alloc, *allocator, pages as int, mb);
                }
                Ok(Buffer { ptr: mb.as_mut_ptr(), allocated_size: rounded, original_size, readonly })
            },
            Err(e) => Err(e),
        }
    }

    /// The part of the buffer from `offset` on, `length` bytes long, or
    /// `None` when `offset` is past the buffer's end. It owns no pages.
    pub fn sub_buffer(&self, offset: u64, length: u64) -> (r: Option<Buffer>)
        requires
            self.ptr + self.original_size <= u64::MAX,
        ensures
            offset > self.original_size ==> r is None,
            offset <= self.original_size ==> r == Some(
                Buffer {
                    ptr: (self.ptr + offset) as u64,
                    allocated_size: 0,
                    original_size: length,
                    readonly: self.readonly,
                },
            ),
    {
        if offset > self.original_size {
            return None;
        }
        Some(Buffer { ptr: self.ptr + offset, allocated_size: 0, original_size: length, readonly: self.readonly })
    }

    /// The buffer that lies at `address`.
    pub fn from_existing(address: u64, allocated_size: u64, original_size: u64, readonly: bool) -> (r: Buffer)
        ensures
            r == (Buffer { ptr: address, allocated_size, original_size, readonly }),
    {
        Buffer { ptr: address, allocated_size, original_size, readonly }
    }

    pub fn address(&self) -> (r: u64)
        ensures
            r == self.ptr,
    {
        self.ptr
    }

    /// The size that was asked for.
    pub fn get_size(&self) -> (r: u64)
        ensures
            r == self.original_size,
    {
        self.original_size
    }

    pub fn is_readonly(&self) -> (r: bool)
        ensures
            r == self.readonly,
    {
        self.readonly
    }

    /// Address of the first byte, for reading.
    pub fn as_const(&self) -> (r: u64)
        ensures
            r == self.ptr,
    {
        self.ptr
    }

    /// Address of the first byte for writing, or `None` for a read-only buffer.
    pub fn as_mut(&self) -> (r: Option<u64>)
        ensures
            r == if self.readonly { None } else { Some(self.ptr) },
    {
        if self.readonly {
            return None;
        }
        Some(self.ptr)
    }

    /// Gives the buffer's pages back to `allocator` and empties the buffer.
    /// The pages must be ones that `free` accepts (the kernel stops
    /// otherwise).
    pub fn release(&mut self, allocator: &mut Allocator)
        requires
            old(allocator).wf(),
            old(self).ptr + old(self).allocated_size <= u64::MAX,
            free_succeeds(*old(allocator), MemoryBlock { base: old(self).ptr, length: old(self).allocated_size }),
        ensures
            final(allocator).wf(),
            free_outcome(
                *old(allocator),
                *final(allocator),
                MemoryBlock { base: old(self).ptr, length: old(self).allocated_size },
                Ok(()),
            ),
            *final(self) == (Buffer { ptr: 0, allocated_size: 0, original_size: 0, readonly: true }),
    {
        let mb = MemoryBlock::new(self.allocated_size, self.ptr);
        free_or_crash(allocator, &mb);
        self.ptr = 0;
        self.readonly = true;
        self.allocated_size = 0;
        self.original_size = 0;
    }
}

} // verus!
