//! Partitions and file systems on disk: the GUID partition table, and the
//! arithmetic and directory records of ext2.
//!
//! Disk blocks are read by the caller; the functions here take the bytes.
use vstd::prelude::*;
use crate::allocator::{free_outcome, Allocator, MemoryBlock};
use crate::buffer::Buffer;
use crate::memory::{free_succeeds, MemoryResult};
use crate::pe::{le_u16, le_u16_spec, le_u32, le_u32_spec, le_u64, le_u64_spec};

verus! {

/// An entry of the GUID partition table.
#[derive(Clone, Copy, Debug)]
pub struct GptPartitionEntry {
    pub partition_guid: [u64; 2],
    pub unique_guid: [u64; 2],
    pub starting_lba: u64,
    pub ending_lba: u64,
    pub attributes: u64,
}

/// Size in bytes of an entry of the partition table.
pub const GPT_PARTITION_ENTRY_SIZE: usize = 128;

impl GptPartitionEntry {
    /// The entry laid out from byte `off` of `bytes` (the name is not kept).
    pub open spec fn parsed_spec(bytes: Seq<u8>, off: int) -> GptPartitionEntry {
        GptPartitionEntry {
            partition_guid: [le_u64_spec(bytes, off), le_u64_spec(bytes, off + 8)],
            unique_guid: [le_u64_spec(bytes, off + 16), le_u64_spec(bytes, off + 24)],
            starting_lba: le_u64_spec(bytes, off + 32),
            ending_lba: le_u64_spec(bytes, off + 40),
            attributes: le_u64_spec(bytes, off + 48),
        }
    }

    /// Reads the entry from byte `off` of `bytes`.
    pub fn parse(bytes: &[u8], off: usize) -> (r: GptPartitionEntry)
        requires
            off + GPT_PARTITION_ENTRY_SIZE <= bytes@.len(),
        ensures
            r == GptPartitionEntry::parsed_spec(bytes@, off as int),
    {
        let _len: usize = bytes.len();
        GptPartitionEntry {
            partition_guid: [le_u64(bytes, off), le_u64(bytes, off + 8)],
            unique_guid: [le_u64(bytes, off + 16), le_u64(bytes, off + 24)],
            starting_lba: le_u64(bytes, off + 32),
            ending_lba: le_u64(bytes, off + 40),
            attributes: le_u64(bytes, off + 48),
        }
    }
}

/// A partition entry is laid out as on disk: the partition type GUID in
/// bytes 0 to 15, the unique GUID in bytes 16 to 31, and the little-endian
/// starting LBA, ending LBA and attributes in bytes 32, 40 and 48 on.
pub proof fn lemma_gpt_entry_layout(bytes: Seq<u8>, off: int)
    ensures
        ({
            let e = GptPartitionEntry::parsed_spec(bytes, off);
            &&& e.partition_guid[0] == le_u64_spec(bytes, off) && e.partition_guid[1] == le_u64_spec(bytes, off + 8)
            &&& e.unique_guid[0] == le_u64_spec(bytes, off + 16) && e.unique_guid[1] == le_u64_spec(bytes, off + 24)
            &&& e.starting_lba == le_u64_spec(bytes, off + 32)
            &&& e.ending_lba == le_u64_spec(bytes, off + 40)
            &&& e.attributes == le_u64_spec(bytes, off + 48)
        }),
{
}

/// The header of the GUID partition table.
#[derive(Clone, Copy, PartialEq, Eq, Structural, Debug)]
pub struct GptHeader {
    pub signature: u64,
    pub gpt_revision: u32,
    pub header_size: u32,
    pub crc32_checksum: u32,
    pub reserved: u32,
    pub this_lba: u64,
    pub alternate_lba: u64,
    pub first_usable_block_gpt_entry: u64,
    pub last_usable_block_gpt_entry: u64,
    pub partition_entry_array_starting_lba: u64,
    pub num_partition_entries: u32,
    pub partition_entry_size: u32,
    pub crc32: u32,
}

/// Size in bytes of the header of the partition table.
pub const GPT_HEADER_SIZE: usize = 92;

impl GptHeader {
    /// The header laid out from byte 0 of `bytes` (the disk GUID is skipped).
    pub open spec fn parsed_spec(bytes: Seq<u8>) -> GptHeader {
        GptHeader {
            signature: le_u64_spec(bytes, 0),
            gpt_revision: le_u32_spec(bytes, 8),
            header_size: le_u32_spec(bytes, 12),
            crc32_checksum: le_u32_spec(bytes, 16),
            reserved: le_u32_spec(bytes, 20),
            this_lba: le_u64_spec(bytes, 24),
            alternate_lba: le_u64_spec(bytes, 32),
            first_usable_block_gpt_entry: le_u64_spec(bytes, 40),
            last_usable_block_gpt_entry: le_u64_spec(bytes, 48),
            partition_entry_array_starting_lba: le_u64_spec(bytes, 72),
            num_partition_entries: le_u32_spec(bytes, 80),
            partition_entry_size: le_u32_spec(bytes, 84),
            crc32: le_u32_spec(bytes, 88),
        }
    }

    /// Reads the header from the start of `bytes`.
    pub fn parse(bytes: &[u8]) -> (r: GptHeader)
        requires
            GPT_HEADER_SIZE <= bytes@.len(),
        ensures
            r == GptHeader::parsed_spec(bytes@),
    {
        GptHeader {
            signature: le_u64(bytes, 0),
            gpt_revision: le_u32(bytes, 8),
            header_size: le_u32(bytes, 12),
            crc32_checksum: le_u32(bytes, 16),
            reserved: le_u32(bytes, 20),
            this_lba: le_u64(bytes, 24),
            alternate_lba: le_u64(bytes, 32),
            first_usable_block_gpt_entry: le_u64(bytes, 40),
            last_usable_block_gpt_entry: le_u64(bytes, 48),
            partition_entry_array_starting_lba: le_u64(bytes, 72),
            num_partition_entries: le_u32(bytes, 80),
            partition_entry_size: le_u32(bytes, 84),
            crc32: le_u32(bytes, 88),
        }
    }

    /// Bytes of the entry array: number of entries times entry size.
    pub fn entry_array_size(&self) -> (r: u32)
        requires
            self.num_partition_entries * self.partition_entry_size <= u32::MAX,
        ensures
            r == self.num_partition_entries * self.partition_entry_size,
    {
        self.num_partition_entries * self.partition_entry_size
    }
}

/// The partition table of a disk: its header, the buffer its entries were
/// read into, and the entries.
pub struct Gpt {
    pub gpt_header: GptHeader,
    pub buffer: Buffer,
    pub gpt_entries: Vec<GptPartitionEntry>,
}

/// The `n` entries laid out from the start of `bytes`.
pub open spec fn gpt_entries_spec(bytes: Seq<u8>, n: int) -> Seq<GptPartitionEntry> {
    Seq::new(n as nat, |i: int| GptPartitionEntry::parsed_spec(bytes, 128 * i))
}

impl Gpt {
    /// The table of header `gpt_header`, whose entries were read into
    /// `buffer` and are `entries`; an entry size other than 128 bytes is left out.
    pub fn new(gpt_header: GptHeader, buffer: Buffer, entries: &[u8]) -> (r: Gpt)
        requires
            gpt_header.partition_entry_size == 128,
            128 * gpt_header.num_partition_entries <= entries@.len(),
        ensures
            r.gpt_header == gpt_header,
            r.buffer == buffer,
            r.gpt_entries@ == gpt_entries_spec(entries@, gpt_header.num_partition_entries as int),
    {
        let _len: usize = entries.len();
        let n = gpt_header.num_partition_entries;
        let mut v: Vec<GptPartitionEntry> = Vec::new();
        let mut i: u32 = 0;
        while i < n
            invariant
                _len == entries@.len(),
                128 * n <= entries@.len(),
                i <= n,
                v@ == gpt_entries_spec(entries@, i as int),
            decreases n - i,
        {
            v.push(GptPartitionEntry::parse(entries, 128 * (i as usize)));
            i = i + 1;
            assert(v@ =~= gpt_entries_spec(entries@, i as int));
        }
        Gpt { gpt_header, buffer, gpt_entries: v }
    }

    /// Gives the entry buffer's pages back to `allocator`; they must be
    /// pages that `free` accepts.
    pub fn release(&mut self, allocator: &mut Allocator)
        requires
            old(allocator).wf(),
            old(self).buffer.ptr + old(self).buffer.allocated_size <= u64::MAX,
            free_succeeds(
                *old(allocator),
                MemoryBlock { base: old(self).buffer.ptr, length: old(self).buffer.allocated_size },
            ),
        ensures
            final(allocator).wf(),
            free_outcome(
                *old(allocator),
                *final(allocator),
                MemoryBlock { base: old(self).buffer.ptr, length: old(self).buffer.allocated_size },
                Ok(()),
            ),
            final(self).buffer == (Buffer { ptr: 0, allocated_size: 0, original_size: 0, readonly: true }),
            final(self).gpt_entries@ == old(self).gpt_entries@,
    {
        self.buffer.release(allocator)
    }
}

/// The superblock of an ext2 file system.
#[derive(Clone, Copy, PartialEq, Eq, Structural, Debug)]
pub struct Ext2Superblock {
    pub total_number_inodes: u32,
    pub total_number_blocks: u32,
    pub superblock_reserved_blocks: u32,
    pub total_number_unallocated_blocks: u32,
    pub total_number_unallocated_inodes: u32,
    pub block_containing_superblock: u32,
    pub block_size: u32,
    pub fragment_size: u32,
    pub blocks_per_block_group: u32,
    pub fragments_per_block_group: u32,
    pub inodes_per_block_group: u32,
    pub last_mount_time: u32,
    pub last_written_time: u32,
    pub mounts_after_fsck: u16,
    pub mounts_per_fsck: u16,
    pub signature: u16,
    pub state: u16,
    pub error_handling_method: u16,
    pub minor_version: u16,
    pub fsck_last_time: u32,
    pub interval_per_fsck: u32,
    pub os_created_this_fs: u32,
    pub major_version: u32,
    pub reserved_blocks_usable_by_user: u16,
    pub reserved_blocks_usable_by_group: u16,
}

/// The signature of an ext2 superblock, at byte 56.
pub const EXT2_FS_SIGNATURE: u16 = 0xEF53;

/// Whether the superblock in `bytes` carries the ext2 signature.
pub fn is_ext2(bytes: &[u8]) -> (r: bool)
    requires
        58 <= bytes@.len(),
    ensures
        r == (le_u16_spec(bytes@, 56) == EXT2_FS_SIGNATURE),
{
    le_u16(bytes, 56) == EXT2_FS_SIGNATURE
}

/// A directory as its inode describes it.
#[derive(Clone, Copy, Debug)]
pub struct PhysicalExt2Directory {
    pub direct_pointers: [u32; 12],
    pub indirect_pointers: [u32; 3],
    pub flags: u32,
    pub disk_sectors_used: u32,
    pub size: u32,
}

/// An entry of a directory: its inode, its record length, its name length,
/// its type and where its name starts.
#[derive(Clone, Copy, PartialEq, Eq, Structural, Debug)]
pub struct PhysicalExt2DirectoryEntry {
    pub inode: u32,
    pub total_size: u16,
    pub name_length: u8,
    pub type_indicator: u8,
    pub name_offset: usize,
}

/// The walk over the directory records from byte `pos`, `rem` bytes left,
/// stays inside `bytes`: every record is at least 8 bytes of header, has a
/// length that is a multiple of 4 and no more than what is left, and its
/// name fits, and the position after it is an address.
pub open spec fn dir_walk_ok(bytes: Seq<u8>, pos: int, rem: int) -> bool
    decreases rem,
{
    if rem <= 0 {
        true
    } else {
        let total = le_u16_spec(bytes, pos + 4) as int;
        &&& pos + 8 <= bytes.len()
        &&& pos + 8 + bytes[pos + 6] <= bytes.len()
        &&& 0 < total <= rem
        &&& pos + total <= usize::MAX
        &&& total % 4 == 0
        &&& dir_walk_ok(bytes, pos + total, rem - total)
    }
}

/// The first record from byte `pos` whose name is `name`: its inode and type.
pub open spec fn dir_lookup(bytes: Seq<u8>, pos: int, rem: int, name: Seq<u8>) -> Option<(u32, u8)>
    decreases rem,
{
    if rem <= 0 {
        None
    } else {
        let total = le_u16_spec(bytes, pos + 4) as int;
        let len = bytes[pos + 6] as int;
        if 0 < total && bytes.subrange(pos + 8, pos + 8 + len) == name {
            Some((le_u32_spec(bytes, pos), bytes[pos + 7]))
        } else if 0 < total <= rem {
            dir_lookup(bytes, pos + total, rem - total, name)
        } else {
            None
        }
    }
}

/// What a directory lookup finds is a record of the walk whose name is,
/// byte for byte, the name looked up: its length byte is the name's length,
/// every byte of it equals the name's, and the inode and type are the
/// record's. A name that differs in some byte from every record's gives
/// `None`.
pub proof fn lemma_dir_lookup_finds_name(bytes: Seq<u8>, pos: int, rem: int, name: Seq<u8>)
    requires
        0 <= pos,
        dir_walk_ok(bytes, pos, rem),
    ensures
        dir_lookup(bytes, pos, rem, name) matches Some((ino, t)) ==> exists|p: int|
            #![trigger le_u32_spec(bytes, p)]
            pos <= p && p + 8 + name.len() <= bytes.len() && bytes[p + 6] as int == name.len() && (forall|j: int|
                0 <= j < name.len() ==> bytes[p + 8 + j] == name[j]) && ino == le_u32_spec(bytes, p) && t
                == bytes[p + 7],
    decreases rem,
{
    if rem > 0 {
        let total = le_u16_spec(bytes, pos + 4) as int;
        let len = bytes[pos + 6] as int;
        if 0 < total && bytes.subrange(pos + 8, pos + 8 + len) == name {
            assert forall|j: int| 0 <= j < name.len() implies bytes[pos + 8 + j] == name[j] by {
                assert(bytes.subrange(pos + 8, pos + 8 + len)[j] == bytes[pos + 8 + j]);
            }
            assert(le_u32_spec(bytes, pos) == le_u32_spec(bytes, pos));
        } else if 0 < total <= rem {
            lemma_dir_lookup_finds_name(bytes, pos + total, rem - total, name);
        }
    }
}

/// The record at `p` is one that the walk of the records from `pos` with
/// `rem` bytes left passes.
pub open spec fn walk_has_record(bytes: Seq<u8>, pos: int, rem: int, p: int) -> bool
    decreases rem,
{
    if rem <= 0 {
        false
    } else {
        let total = le_u16_spec(bytes, pos + 4) as int;
        p == pos || (0 < total <= rem && walk_has_record(bytes, pos + total, rem - total, p))
    }
}

/// When a record that the walk passes has, byte for byte, the name looked
/// up, the lookup finds a record.
pub proof fn lemma_dir_lookup_complete(bytes: Seq<u8>, pos: int, rem: int, name: Seq<u8>, p: int)
    requires
        0 <= pos,
        dir_walk_ok(bytes, pos, rem),
        walk_has_record(bytes, pos, rem, p),
        bytes[p + 6] as int == name.len(),
        forall|j: int| 0 <= j < name.len() ==> bytes[p + 8 + j] == name[j],
    ensures
        dir_lookup(bytes, pos, rem, name) is Some,
    decreases rem,
{
    let total = le_u16_spec(bytes, pos + 4) as int;
    let len = bytes[pos + 6] as int;
    if p == pos {
        assert(bytes.subrange(pos + 8, pos + 8 + len) =~= name);
    } else if !(bytes.subrange(pos + 8, pos + 8 + len) == name) {
        lemma_dir_lookup_complete(bytes, pos + total, rem - total, name, p);
    }
}

impl PhysicalExt2Directory {
    /// A directory with no blocks and no entries.
    pub fn empty() -> (r: Self)
        ensures
            r.direct_pointers@ == Seq::new(12, |i: int| 0u32),
            r.indirect_pointers@ == Seq::new(3, |i: int| 0u32),
            r.flags == 0x10,
            r.disk_sectors_used == 0 && r.size == 0,
    {
        let r = PhysicalExt2Directory {
            direct_pointers: [0u32; 12],
            indirect_pointers: [0u32; 3],
            flags: 0x10,
            disk_sectors_used: 0,
            size: 0,
        };
        assert(r.direct_pointers@ =~= Seq::new(12, |i: int| 0u32));
        assert(r.indirect_pointers@ =~= Seq::new(3, |i: int| 0u32));
        r
    }

    /// The entry named `to_check` in the directory's first block `block`,
    /// given as its inode and type, or `None`. A directory larger than one
    /// block, or whose records would run out of the block, is left out.
    pub fn contains(&self, block_size: u16, block: &[u8], to_check: &[u8]) -> (r: Option<(u32, u8)>)
        requires
            block_size <= 21,
            self.size <= (1024u32 << block_size),
            dir_walk_ok(block@, 0, self.size as int),
        ensures
            r == dir_lookup(block@, 0, self.size as int, to_check@),
    {
        let _len: usize = block.len();
        let mut pos: usize = 0;
        let mut size_rem: u32 = self.size;
        while size_rem != 0
            invariant
                _len == block@.len(),
                dir_walk_ok(block@, pos as int, size_rem as int),
                dir_lookup(block@, pos as int, size_rem as int, to_check@) == dir_lookup(
                    block@,
                    0,
                    self.size as int,
                    to_check@,
                ),
            decreases size_rem,
        {
            let inode = le_u32(block, pos);
            let total_size = le_u16(block, pos + 4);
            let name_length = block[pos + 6];
            let type_indicator = block[pos + 7];
            if name_length as usize == to_check.len() {
                let mut same = true;
                let mut i: usize = 0;
                while i < name_length as usize
                    invariant
                        _len == block@.len(),
                        pos + 8 + name_length <= block@.len(),
                        name_length == to_check@.len(),
                        i <= name_length,
                        same == forall|j: int| 0 <= j < i ==> block@[pos + 8 + j] == to_check@[j],
                    decreases name_length - i,
                {
                    if block[pos + 8 + i] != to_check[i] {
                        same = false;
                    }
                    i = i + 1;
                }
                if same {
                    assert(block@.subrange(pos + 8, pos + 8 + name_length) =~= to_check@);
                    return Some((inode, type_indicator));
                }
                proof {
                    let j = choose|j: int| 0 <= j < name_length && block@[pos + 8 + j] != to_check@[j];
                    assert(block@.subrange(pos + 8, pos + 8 + name_length)[j] != to_check@[j]);
                }
            } else {
                assert(block@.subrange(pos as int + 8, pos + 8 + name_length).len() != to_check@.len());
            }
            pos = pos + total_size as usize;
            size_rem = size_rem - total_size as u32;
        }
        None
    }
}

/// An inode: the fields the kernel uses.
#[derive(Clone, Copy, Debug)]
pub struct PhysicalExt2Inode {
    pub type_and_permissions: u16,
    pub user_id: u16,
    pub low_size: u32,
    pub flags: u32,
    pub disk_sectors_used: u32,
    pub direct_block_pointers: [u32; 12],
    pub singly_indirect_block_pointer: u32,
    pub doubly_indirect_block_pointer: u32,
    pub triply_indirect_block_pointer: u32,
}

/// File may be written.
pub const GFS_PERMISSIONS_WRITE: u8 = 1;

/// File may be executed.
pub const GFS_PERMISSIONS_EXECUTE: u8 = 2;

impl PhysicalExt2Inode {
    /// The permissions a file of this inode gets: write for owner write
    /// (0x80), execute for owner execute (0x100).
    pub fn permissions(&self) -> (r: u8)
        ensures
            r == (if self.type_and_permissions & 0x80u16 != 0 { GFS_PERMISSIONS_WRITE } else { 0u8 })
                + (if self.type_and_permissions & 0x100u16 != 0 { GFS_PERMISSIONS_EXECUTE } else { 0u8 }),
    {
        let mut p: u8 = 0;
        if self.type_and_permissions & 0x0080 != 0 {
            p = p + GFS_PERMISSIONS_WRITE;
        }
        if self.type_and_permissions & 0x0100 != 0 {
            p = p + GFS_PERMISSIONS_EXECUTE;
        }
        p
    }
}

/// A block group descriptor.
#[derive(Clone, Copy, PartialEq, Eq, Structural, Debug)]
pub struct PhysicalExt2BlockGroup {
    pub block_of_block_usage_bitmap: u32,
    pub block_of_inode_usage_bitmap: u32,
    pub block_address_of_inode_table: u32,
    pub number_unallocated_blocks: u16,
    pub number_unallocated_inodes: u16,
    pub directory_count: u16,
}

/// A mounted ext2 file system.
pub struct PhysicalExt2 {
    pub memory: [MemoryBlock; 1],
    pub block_groups: Vec<PhysicalExt2BlockGroup>,
    pub root_directory: PhysicalExt2Directory,
    pub starting_lba: u64,
    pub inodes_per_block_group: u32,
    pub block_size: u16,
}

impl PhysicalExt2 {
    /// The block group of inode `inode` (inodes count from one).
    pub fn block_group_of_inode(&self, inode: u32) -> (r: u32)
        requires
            inode >= 1,
            self.inodes_per_block_group > 0,
        ensures
            r == (inode - 1) / (self.inodes_per_block_group as int),
    {
        (inode - 1) / self.inodes_per_block_group
    }

    /// Position of inode `inode` in its block group.
    pub fn index_into_block_group(&self, inode: u32) -> (r: u32)
        requires
            inode >= 1,
            self.inodes_per_block_group > 0,
        ensures
            r == (inode - 1) % (self.inodes_per_block_group as int),
    {
        (inode - 1) % self.inodes_per_block_group
    }

    /// Block of the inode table that holds the inode at position `index`
    /// (inodes of 128 bytes, blocks of `1024 << block_size` bytes).
    pub fn block_containing_inode(&self, index: u32) -> (r: u32)
        requires
            index * 128 <= u32::MAX,
            self.block_size <= 21,
        ensures
            r == (index * 128) / ((1024u32 << self.block_size) as int),
    {
        proof {
            lemma_block_bytes(self.block_size);
        }
        (index * 128) / (1024u32 << self.block_size)
    }

    /// Whether the root directory, whose first block is `block`, has an entry named `name`.
    pub fn root_contains(&self, block: &[u8], name: &[u8]) -> (r: bool)
        requires
            self.block_size <= 21,
            self.root_directory.size <= (1024u32 << self.block_size),
            dir_walk_ok(block@, 0, self.root_directory.size as int),
        ensures
            r == dir_lookup(block@, 0, self.root_directory.size as int, name@) is Some,
    {
        self.root_directory.contains(self.block_size, block, name).is_some()
    }

    /// Bytes that the twelve direct block pointers reach.
    pub fn max_direct_data_pointer_memory(&self) -> (r: u32)
        requires
            self.block_size <= 21,
            12 * (1024u32 << self.block_size) <= u32::MAX,
        ensures
            r == 12 * (1024u32 << self.block_size),
    {
        12 * (1024u32 << self.block_size)
    }

    /// The directory whose inode is `inode`.
    pub fn directory_from_inode(&self, inode: &PhysicalExt2Inode) -> (r: PhysicalExt2Directory)
        ensures
            r.direct_pointers == inode.direct_block_pointers,
            r.indirect_pointers@ == seq![
                inode.singly_indirect_block_pointer,
                inode.doubly_indirect_block_pointer,
                inode.triply_indirect_block_pointer,
            ],
            r.flags == inode.flags,
            r.disk_sectors_used == inode.disk_sectors_used,
            r.size == inode.low_size,
    {
        let r = PhysicalExt2Directory {
            direct_pointers: inode.direct_block_pointers,
            indirect_pointers: [
                inode.singly_indirect_block_pointer,
                inode.doubly_indirect_block_pointer,
                inode.triply_indirect_block_pointer,
            ],
            flags: inode.flags,
            disk_sectors_used: inode.disk_sectors_used,
            size: inode.low_size,
        };
        assert(r.indirect_pointers@ =~= seq![
            inode.singly_indirect_block_pointer,
            inode.doubly_indirect_block_pointer,
            inode.triply_indirect_block_pointer,
        ]);
        r
    }
}

/// A block of `1024 << block_size` bytes is at least 1024 bytes.
proof fn lemma_block_bytes(block_size: u16)
    requires
        block_size <= 21,
    ensures
        (1024u32 << block_size) >= 1024,
{
    assert((1024u32 << block_size) >= 1024) by (bit_vector)
        requires
            block_size <= 21,
    ;
}

/// The GPT header is laid out as on disk: signature at byte 0, revision at 8,
/// header size at 12, checksum at 16, the LBAs at 24, 32, 40, 48 and 72, the
/// entry count at 80, the entry size at 84 and the entry array checksum at 88,
/// little-endian.
pub proof fn lemma_gpt_header_layout(bytes: Seq<u8>)
    ensures
        ({
            let e = GptHeader::parsed_spec(bytes);
            &&& e.signature == le_u64_spec(bytes, 0)
            &&& e.gpt_revision == le_u32_spec(bytes, 8)
            &&& e.header_size == le_u32_spec(bytes, 12)
            &&& e.crc32_checksum == le_u32_spec(bytes, 16)
            &&& e.reserved == le_u32_spec(bytes, 20)
            &&& e.this_lba == le_u64_spec(bytes, 24)
            &&& e.alternate_lba == le_u64_spec(bytes, 32)
            &&& e.first_usable_block_gpt_entry == le_u64_spec(bytes, 40)
            &&& e.last_usable_block_gpt_entry == le_u64_spec(bytes, 48)
            &&& e.partition_entry_array_starting_lba == le_u64_spec(bytes, 72)
            &&& e.num_partition_entries == le_u32_spec(bytes, 80)
            &&& e.partition_entry_size == le_u32_spec(bytes, 84)
            &&& e.crc32 == le_u32_spec(bytes, 88)
        }),
{
}

} // verus!
