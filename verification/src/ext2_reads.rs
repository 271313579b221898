//! Reading the data blocks of an ext2 file: runs of neighbouring block
//! pointers are read from the disk as one transfer each.
use vstd::prelude::*;
use crate::buffer::Buffer;
use crate::pfs::PhysicalExt2;

verus! {

/// What a disk says of a read.
#[derive(Clone, Copy, PartialEq, Eq, Structural, Debug)]
pub enum DiskIOResult {
    Success,
    InvalidSize,
    BufferReadonly,
    InvalidLba,
    InvalidScheduler,
}

/// Why reading a file failed.
#[derive(Clone, Copy, PartialEq, Eq, Structural, Debug)]
pub enum GfsReadError {
    DiskError(DiskIOResult),
}

/// A disk whose sectors can be read into a buffer; the storage drivers
/// implement it. Nothing is promised of what a read returns.
pub trait Disk {
    spec fn sector_size_spec(&self) -> u32;

    /// Bytes per sector.
    fn sector_size(&self) -> (r: u32)
        ensures
            r == self.sector_size_spec(),
    ;

    /// Reads sectors from `lba` on into `buffer`.
    fn read_into_buffer(&self, lba: u64, buffer: &Buffer, scheduler: u8) -> DiskIOResult;
}

/// One transfer: the sector it starts at, and where and how many bytes it
/// puts in the buffer.
#[derive(Clone, Copy, PartialEq, Eq, Structural, Debug)]
pub struct BlockRead {
    pub lba: u64,
    pub offset: u64,
    pub length: u64,
}

/// The transfers that reading the blocks `ptrs[i..]` makes, the offset in
/// the buffer it ends at, and whether its arithmetic stays in range. `base`
/// is the first block of the current run and `series` the blocks counted
/// in it; a pointer that does not continue the run, or the last pointer
/// after a run of some blocks, reads the run counted so far, without that
/// pointer. A zero pointer ends the reading. After a read the next run
/// starts at `base` plus the pointer (`add_base`) or at the pointer.
/// Blocks are `block` bytes (`block_shift` doubles them from 1 KiB), and
/// `wide` says whether the block is multiplied in 64 bits or 32.
pub open spec fn coalesced_reads(
    ptrs: Seq<u32>,
    i: int,
    base: int,
    series: int,
    offset: int,
    block: int,
    block_shift: u16,
    sector: int,
    start: int,
    add_base: bool,
    wide: bool,
) -> (Seq<BlockRead>, int, bool)
    decreases ptrs.len() - i,
{
    if i < 0 || i >= ptrs.len() {
        (seq![], offset, true)
    } else {
        let p = ptrs[i] as int;
        let last = i + 1 == ptrs.len();
        if base + series > u32::MAX {
            (seq![], offset, false)
        } else if base + series != p || (last && series != 0) {
            let prod = base * block;
            let lba = start + prod / sector;
            let len = (((series * 1024) as u64) << block_shift) as int;
            let read = BlockRead { lba: lba as u64, offset: offset as u64, length: len as u64 };
            let ok = (if wide {
                prod <= u64::MAX
            } else {
                prod <= u32::MAX
            }) && lba <= u64::MAX && series * 1024 <= u64::MAX && offset + len <= u64::MAX;
            if !ok {
                (seq![], offset, false)
            } else if p == 0 {
                (seq![read], offset + len, true)
            } else {
                let next = if add_base {
                    base + p
                } else {
                    p
                };
                if next > u32::MAX {
                    (seq![read], offset + len, false)
                } else {
                    let rest = coalesced_reads(
                        ptrs,
                        i + 1,
                        next,
                        0,
                        offset + len,
                        block,
                        block_shift,
                        sector,
                        start,
                        add_base,
                        wide,
                    );
                    (seq![read] + rest.0, rest.1, rest.2)
                }
            }
        } else if series + 1 > u32::MAX {
            (seq![], offset, false)
        } else {
            coalesced_reads(ptrs, i + 1, base, series + 1, offset, block, block_shift, sector, start, add_base, wide)
        }
    }
}

/// The transfers of reading blocks follow each other in the buffer: the
/// first starts where the reading starts, each next one where the one
/// before it ends, and the reading ends where the last one ends.
pub proof fn lemma_reads_contiguous(
    ptrs: Seq<u32>,
    i: int,
    base: int,
    series: int,
    offset: int,
    block: int,
    block_shift: u16,
    sector: int,
    start: int,
    add_base: bool,
    wide: bool,
)
    requires
        0 <= offset <= u64::MAX,
        coalesced_reads(ptrs, i, base, series, offset, block, block_shift, sector, start, add_base, wide).2,
    ensures
        ({
            let (reads, end, _) = coalesced_reads(
                ptrs,
                i,
                base,
                series,
                offset,
                block,
                block_shift,
                sector,
                start,
                add_base,
                wide,
            );
            &&& reads.len() == 0 ==> end == offset
            &&& reads.len() > 0 ==> reads[0].offset == offset && end == reads.last().offset + reads.last().length
            &&& forall|k: int| 0 <= k < reads.len() - 1 ==> #[trigger] reads[k + 1].offset == reads[k].offset + reads[k].length
        }),
    decreases ptrs.len() - i,
{
    if i < 0 || i >= ptrs.len() {
    } else {
        let p = ptrs[i] as int;
        let last = i + 1 == ptrs.len();
        if base + series > u32::MAX {
        } else if base + series != p || (last && series != 0) {
            let len = (((series * 1024) as u64) << block_shift) as int;
            if p != 0 {
                let next = if add_base {
                    base + p
                } else {
                    p
                };
                lemma_reads_contiguous(
                    ptrs,
                    i + 1,
                    next,
                    0,
                    offset + len,
                    block,
                    block_shift,
                    sector,
                    start,
                    add_base,
                    wide,
                );
                let rest = coalesced_reads(
                    ptrs,
                    i + 1,
                    next,
                    0,
                    offset + len,
                    block,
                    block_shift,
                    sector,
                    start,
                    add_base,
                    wide,
                );
                let all = coalesced_reads(ptrs, i, base, series, offset, block, block_shift, sector, start, add_base, wide);
                assert(all.0 == seq![all.0[0]] + rest.0);
                assert forall|k: int| 0 <= k < all.0.len() - 1 implies #[trigger] all.0[k + 1].offset == all.0[k].offset
                    + all.0[k].length by {
                    if k > 0 {
                        assert(all.0[k + 1] == rest.0[k]);
                        assert(all.0[k] == rest.0[k - 1]);
                        let j = k - 1;
                        assert(0 <= j < rest.0.len() - 1);
                        assert(rest.0[j + 1].offset == rest.0[j].offset + rest.0[j].length);
                    } else {
                        assert(all.0[1] == rest.0[0]);
                        assert(rest.0.len() > 0);
                        assert(rest.0[0].offset == offset + len);
                        assert(all.0[0].offset == offset);
                        assert(all.0[0].length == len);
                    }
                }
            }
        } else if series + 1 > u32::MAX {
        } else {
            lemma_reads_contiguous(
                ptrs,
                i + 1,
                base,
                series + 1,
                offset,
                block,
                block_shift,
                sector,
                start,
                add_base,
                wide,
            );
        }
    }
}

/// Every transfer starts inside `buffer`.
pub open spec fn reads_fit_buffer(reads: Seq<BlockRead>, buffer: Buffer) -> bool {
    forall|k: int| 0 <= k < reads.len() ==> (#[trigger] reads[k]).offset <= buffer.original_size
}

/// The transfers of reading the blocks `ptrs` into a buffer.
pub open spec fn pointer_reads(
    ptrs: Seq<u32>,
    block: int,
    block_shift: u16,
    sector: int,
    start: int,
    add_base: bool,
    wide: bool,
) -> (Seq<BlockRead>, int, bool) {
    coalesced_reads(ptrs, 0, ptrs[0] as int, 0, 0, block, block_shift, sector, start, add_base, wide)
}

/// The transfers of reading the blocks `ptrs` into a buffer, in the order
/// they are made, and the offset in the buffer the reading ends at: the
/// plan of `pointer_reads`, for a disk of `sector`-byte sectors.
pub fn pointer_read_plan(
    ptrs: &[u32],
    sector: u32,
    block: u64,
    block_shift: u16,
    start: u64,
    add_base: bool,
    wide: bool,
) -> (r: (Vec<BlockRead>, u64))
    requires
        ptrs@.len() > 0,
        block_shift < 64,
        !wide ==> block <= u32::MAX,
        sector > 0,
        pointer_reads(ptrs@, block as int, block_shift, sector as int, start as int, add_base, wide).2,
    ensures
        r.0@ == pointer_reads(ptrs@, block as int, block_shift, sector as int, start as int, add_base, wide).0,
        r.1 == pointer_reads(ptrs@, block as int, block_shift, sector as int, start as int, add_base, wide).1,
{
    let ghost total = pointer_reads(ptrs@, block as int, block_shift, sector as int, start as int, add_base, wide);
    let n = ptrs.len();
    let mut base: u32 = ptrs[0];
    let mut series: u32 = 0;
    let mut offset: u64 = 0;
    let mut plan: Vec<BlockRead> = Vec::new();
    let mut i: usize = 0;
    while i < n
        invariant
            n == ptrs@.len(),
            n > 0,
            i <= n,
            block_shift < 64,
            !wide ==> block <= u32::MAX,
            sector > 0,
            total == pointer_reads(ptrs@, block as int, block_shift, sector as int, start as int, add_base, wide),
            total.2,
            ({
                let rest = coalesced_reads(
                    ptrs@,
                    i as int,
                    base as int,
                    series as int,
                    offset as int,
                    block as int,
                    block_shift,
                    sector as int,
                    start as int,
                    add_base,
                    wide,
                );
                &&& plan@ + rest.0 == total.0
                &&& rest.1 == total.1
                &&& rest.2
            }),
        decreases n - i,
    {
        let pointer = ptrs[i];
        let last = i + 1 == n;
        if base as u64 + series as u64 != pointer as u64 || (last && series != 0) {
            let lba: u64 = if wide {
                start + (base as u64 * block) / sector as u64
            } else {
                start + ((base * block as u32) / sector) as u64
            };
            let length: u64 = (series as u64 * 1024) << block_shift;
            let read = BlockRead { lba, offset, length };
            let ghost before = plan@;
            proof {
                let rest = coalesced_reads(
                    ptrs@,
                    i as int,
                    base as int,
                    series as int,
                    offset as int,
                    block as int,
                    block_shift,
                    sector as int,
                    start as int,
                    add_base,
                    wide,
                );
                assert(rest.0[0] == read);
            }
            plan.push(read);
            offset = offset + length;
            if pointer == 0 {
                proof {
                    assert(plan@ =~= total.0);
                }
                return (plan, offset);
            }
            base = if add_base {
                base + pointer
            } else {
                pointer
            };
            series = 0;
            proof {
                let rest = coalesced_reads(
                    ptrs@,
                    (i + 1) as int,
                    base as int,
                    0,
                    offset as int,
                    block as int,
                    block_shift,
                    sector as int,
                    start as int,
                    add_base,
                    wide,
                );
                assert(plan@ + rest.0 =~= total.0) by {
                    assert(before + seq![read] + rest.0 == total.0);
                }
            }
        } else {
            series = series + 1;
        }
        i = i + 1;
    }
    proof {
        assert(plan@ =~= total.0);
    }
    (plan, offset)
}

/// Makes the transfers of `plan` one after another, each from its sector
/// into its part of `buffer`, and stops at the first that fails, giving
/// that transfer's result.
fn issue_reads<D: Disk>(buffer: &Buffer, plan: &Vec<BlockRead>, disk: &D, scheduler: u8) -> (r: Result<(), GfsReadError>)
    requires
        reads_fit_buffer(plan@, *buffer),
        buffer.ptr + buffer.original_size <= u64::MAX,
    ensures
        r matches Err(GfsReadError::DiskError(e)) ==> e != DiskIOResult::Success,
{
    let mut k: usize = 0;
    while k < plan.len()
        invariant
            k <= plan@.len(),
            reads_fit_buffer(plan@, *buffer),
            buffer.ptr + buffer.original_size <= u64::MAX,
        decreases plan@.len() - k,
    {
        let read = plan[k];
        proof {
            assert(plan@[k as int].offset <= buffer.original_size);
        }
        let part = match buffer.sub_buffer(read.offset, read.length) {
            Some(b) => b,
            None => {
                return Err(GfsReadError::DiskError(DiskIOResult::InvalidSize));
            },
        };
        let res = disk.read_into_buffer(read.lba, &part, scheduler);
        if res != DiskIOResult::Success {
            return Err(GfsReadError::DiskError(res));
        }
        k = k + 1;
    }
    Ok(())
}

/// Performs the transfers of reading the blocks `ptrs` into `buffer`: those
/// of `pointer_read_plan` for the disk's sector size, stopping at the first
/// that fails. Gives the offset the reading ends at, or the failed
/// transfer's result.
fn read_runs<D: Disk>(
    buffer: &Buffer,
    ptrs: &[u32],
    disk: &D,
    scheduler: u8,
    block: u64,
    block_shift: u16,
    start: u64,
    add_base: bool,
    wide: bool,
) -> (r: Result<u64, GfsReadError>)
    requires
        ptrs@.len() > 0,
        block_shift < 64,
        !wide ==> block <= u32::MAX,
        disk.sector_size_spec() > 0,
        pointer_reads(ptrs@, block as int, block_shift, disk.sector_size_spec() as int, start as int, add_base, wide).2,
        reads_fit_buffer(
            pointer_reads(ptrs@, block as int, block_shift, disk.sector_size_spec() as int, start as int, add_base, wide).0,
            *buffer,
        ),
        buffer.ptr + buffer.original_size <= u64::MAX,
    ensures
        r matches Ok(o) ==> o == pointer_reads(
            ptrs@,
            block as int,
            block_shift,
            disk.sector_size_spec() as int,
            start as int,
            add_base,
            wide,
        ).1,
        r matches Err(GfsReadError::DiskError(e)) ==> e != DiskIOResult::Success,
{
    let sector = disk.sector_size();
    let (plan, end) = pointer_read_plan(ptrs, sector, block, block_shift, start, add_base, wide);
    match issue_reads(buffer, &plan, disk, scheduler) {
        Ok(()) => Ok(end),
        Err(e) => Err(e),
    }
}

impl PhysicalExt2 {
    /// Reads the blocks that `pointers` name into `buffer`, a run of
    /// neighbouring blocks in one transfer, stopping at a zero pointer.
    /// After each transfer the next run is taken to start at the first
    /// block of the last run plus the pointer that broke it, and that
    /// pointer's block is not read with it. The transfers made are those of
    /// `pointer_read_plan` for the disk's sector size, in order. Gives the
    /// offset in the buffer the reading ends at, or the result of the
    /// transfer that failed.
    pub fn read_pointer_content_into_buffer<D: Disk>(
        &self,
        buffer: &Buffer,
        pointers: &[u32],
        disk: &D,
        scheduler: u8,
    ) -> (r: Result<u64, GfsReadError>)
        requires
            pointers@.len() > 0,
            self.block_size <= 21,
            disk.sector_size_spec() > 0,
            pointer_reads(
                pointers@,
                (1024u32 << self.block_size) as int,
                self.block_size,
                disk.sector_size_spec() as int,
                self.starting_lba as int,
                true,
                false,
            ).2,
            reads_fit_buffer(
                pointer_reads(
                    pointers@,
                    (1024u32 << self.block_size) as int,
                    self.block_size,
                    disk.sector_size_spec() as int,
                    self.starting_lba as int,
                    true,
                    false,
                ).0,
                *buffer,
            ),
            buffer.ptr + buffer.original_size <= u64::MAX,
        ensures
            r matches Ok(o) ==> o == pointer_reads(
                pointers@,
                (1024u32 << self.block_size) as int,
                self.block_size,
                disk.sector_size_spec() as int,
                self.starting_lba as int,
                true,
                false,
            ).1,
            r matches Err(GfsReadError::DiskError(e)) ==> e != DiskIOResult::Success,
    {
        let block: u32 = 1024u32 << self.block_size;
        read_runs(buffer, pointers, disk, scheduler, block as u64, self.block_size, self.starting_lba, true, false)
    }

    /// Reads the blocks that the pointers of a singly indirect block name
    /// into `buffer`, as the previous reading does, except that a new run
    /// starts at the pointer that broke the last one. `raw_pointers` are
    /// the pointers of that block as read from the disk.
    pub fn read_singly_indirect_pointer_block<D: Disk>(
        &self,
        buffer: &Buffer,
        raw_pointers: &[u32],
        disk: &D,
        scheduler: u8,
    ) -> (r: Result<u64, GfsReadError>)
        requires
            raw_pointers@.len() > 0,
            self.block_size <= 21,
            disk.sector_size_spec() > 0,
            pointer_reads(
                raw_pointers@,
                (1024u64 << self.block_size) as int,
                self.block_size,
                disk.sector_size_spec() as int,
                self.starting_lba as int,
                false,
                true,
            ).2,
            reads_fit_buffer(
                pointer_reads(
                    raw_pointers@,
                    (1024u64 << self.block_size) as int,
                    self.block_size,
                    disk.sector_size_spec() as int,
                    self.starting_lba as int,
                    false,
                    true,
                ).0,
                *buffer,
            ),
            buffer.ptr + buffer.original_size <= u64::MAX,
        ensures
            r matches Ok(o) ==> o == pointer_reads(
                raw_pointers@,
                (1024u64 << self.block_size) as int,
                self.block_size,
                disk.sector_size_spec() as int,
                self.starting_lba as int,
                false,
                true,
            ).1,
            r matches Err(GfsReadError::DiskError(e)) ==> e != DiskIOResult::Success,
    {
        let block: u64 = 1024u64 << self.block_size;
        read_runs(buffer, raw_pointers, disk, scheduler, block, self.block_size, self.starting_lba, false, true)
    }
}

} // verus!
