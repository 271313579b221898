//! PE/COFF executables: the headers and tables of the format, read from
//! the bytes of a file, and the checks an optional header must pass.
use vstd::prelude::*;
use crate::loader::ExecutableLoadError;

verus! {

/// The 16-bit little-endian value at byte `i`.
pub open spec fn le_u16_spec(s: Seq<u8>, i: int) -> u16 {
    ((s[i] as u16) | ((s[i + 1] as u16) << 8u16)) as u16
}

/// The 32-bit little-endian value at byte `i`.
pub open spec fn le_u32_spec(s: Seq<u8>, i: int) -> u32 {
    (s[i] as u32) | ((s[i + 1] as u32) << 8u32) | ((s[i + 2] as u32) << 16u32) | ((s[i + 3] as u32)
        << 24u32)
}

/// The 64-bit little-endian value at byte `i`.
pub open spec fn le_u64_spec(s: Seq<u8>, i: int) -> u64 {
    (le_u32_spec(s, i) as u64) | ((le_u32_spec(s, i + 4) as u64) << 32u64)
}

/// Reads a 16-bit little-endian value.
pub fn le_u16(s: &[u8], i: usize) -> (r: u16)
    requires
        i + 2 <= s@.len(),
    ensures
        r == le_u16_spec(s@, i as int),
{
    let _len: usize = s.len();
    (s[i] as u16) | ((s[i + 1] as u16) << 8)
}

/// Reads a 32-bit little-endian value.
pub fn le_u32(s: &[u8], i: usize) -> (r: u32)
    requires
        i + 4 <= s@.len(),
    ensures
        r == le_u32_spec(s@, i as int),
{
    let _len: usize = s.len();
    (s[i] as u32) | ((s[i + 1] as u32) << 8) | ((s[i + 2] as u32) << 16) | ((s[i + 3] as u32) << 24)
}

/// Reads a 64-bit little-endian value.
pub fn le_u64(s: &[u8], i: usize) -> (r: u64)
    requires
        i + 8 <= s@.len(),
    ensures
        r == le_u64_spec(s@, i as int),
{
    let _len: usize = s.len();
    (le_u32(s, i) as u64) | ((le_u32(s, i + 4) as u64) << 32)
}


/// Size in bytes of a PeHeader.
pub const PE_HEADER_SIZE: usize = 24;

/// The COFF file header that follows the PE signature.
#[derive(Clone, Copy, PartialEq, Eq, Structural, Debug)]
pub struct PeHeader {
    pub magic: u32,
    pub machine: u16,
    pub number_of_sections: u16,
    pub time_date_stamp: u32,
    pub pointer_to_symbol_table: u32,
    pub number_of_symbols: u32,
    pub size_of_optional_header: u16,
    pub characteristics: u16,
}

impl PeHeader {
    /// The record laid out from byte `off` of `bytes`.
    pub open spec fn parsed_spec(bytes: Seq<u8>, off: int) -> PeHeader {
        PeHeader {
            magic: le_u32_spec(bytes, off + 0),
            machine: le_u16_spec(bytes, off + 4),
            number_of_sections: le_u16_spec(bytes, off + 6),
            time_date_stamp: le_u32_spec(bytes, off + 8),
            pointer_to_symbol_table: le_u32_spec(bytes, off + 12),
            number_of_symbols: le_u32_spec(bytes, off + 16),
            size_of_optional_header: le_u16_spec(bytes, off + 20),
            characteristics: le_u16_spec(bytes, off + 22),
        }
    }

    /// Reads the record from byte `off` of `bytes` (little-endian).
    pub fn parse(bytes: &[u8], off: usize) -> (r: PeHeader)
        requires
            off + 24 <= bytes@.len(),
        ensures
            r == PeHeader::parsed_spec(bytes@, off as int),
    {
        let _len: usize = bytes.len();
        PeHeader {
            magic: le_u32(bytes, off + 0),
            machine: le_u16(bytes, off + 4),
            number_of_sections: le_u16(bytes, off + 6),
            time_date_stamp: le_u32(bytes, off + 8),
            pointer_to_symbol_table: le_u32(bytes, off + 12),
            number_of_symbols: le_u32(bytes, off + 16),
            size_of_optional_header: le_u16(bytes, off + 20),
            characteristics: le_u16(bytes, off + 22),
        }
    }
}


/// Size in bytes of a Pe32OptionalHeader.
pub const PE32_OPTIONAL_HEADER_SIZE: usize = 94;

/// The optional header of a 32-bit image, after its magic number, as the kernel lays it out (with a 16-bit version field).
#[derive(Clone, Copy, PartialEq, Eq, Structural, Debug)]
pub struct Pe32OptionalHeader {
    pub major_linker_version: u8,
    pub minor_linker_version: u8,
    pub size_of_code: u32,
    pub size_of_initialized_data: u32,
    pub size_of_uninitialized_data: u32,
    pub address_of_entry_point: u32,
    pub base_of_code: u32,
    pub base_of_data: u32,
    pub image_base: u32,
    pub section_alignment: u32,
    pub file_alignment: u32,
    pub major_operating_system_version: u16,
    pub minor_operating_system_version: u16,
    pub major_image_version: u16,
    pub minor_image_version: u16,
    pub major_subsystem_version: u16,
    pub minor_subsystem_version: u16,
    pub win32_version_value: u16,
    pub size_of_image: u32,
    pub size_of_headers: u32,
    pub checksum: u32,
    pub subsystem: u32,
    pub dll_characteristics: u16,
    pub size_of_stack_reserve: u32,
    pub size_of_stack_commit: u32,
    pub size_of_heap_reserve: u32,
    pub size_of_heap_commit: u32,
    pub loader_flags: u32,
    pub number_of_rva_and_sizes: u32,
}

impl Pe32OptionalHeader {
    /// The record laid out from byte `off` of `bytes`.
    pub open spec fn parsed_spec(bytes: Seq<u8>, off: int) -> Pe32OptionalHeader {
        Pe32OptionalHeader {
            major_linker_version: bytes[off + 0],
            minor_linker_version: bytes[off + 1],
            size_of_code: le_u32_spec(bytes, off + 2),
            size_of_initialized_data: le_u32_spec(bytes, off + 6),
            size_of_uninitialized_data: le_u32_spec(bytes, off + 10),
            address_of_entry_point: le_u32_spec(bytes, off + 14),
            base_of_code: le_u32_spec(bytes, off + 18),
            base_of_data: le_u32_spec(bytes, off + 22),
            image_base: le_u32_spec(bytes, off + 26),
            section_alignment: le_u32_spec(bytes, off + 30),
            file_alignment: le_u32_spec(bytes, off + 34),
            major_operating_system_version: le_u16_spec(bytes, off + 38),
            minor_operating_system_version: le_u16_spec(bytes, off + 40),
            major_image_version: le_u16_spec(bytes, off + 42),
            minor_image_version: le_u16_spec(bytes, off + 44),
            major_subsystem_version: le_u16_spec(bytes, off + 46),
            minor_subsystem_version: le_u16_spec(bytes, off + 48),
            win32_version_value: le_u16_spec(bytes, off + 50),
            size_of_image: le_u32_spec(bytes, off + 52),
            size_of_headers: le_u32_spec(bytes, off + 56),
            checksum: le_u32_spec(bytes, off + 60),
            subsystem: le_u32_spec(bytes, off + 64),
            dll_characteristics: le_u16_spec(bytes, off + 68),
            size_of_stack_reserve: le_u32_spec(bytes, off + 70),
            size_of_stack_commit: le_u32_spec(bytes, off + 74),
            size_of_heap_reserve: le_u32_spec(bytes, off + 78),
            size_of_heap_commit: le_u32_spec(bytes, off + 82),
            loader_flags: le_u32_spec(bytes, off + 86),
            number_of_rva_and_sizes: le_u32_spec(bytes, off + 90),
        }
    }

    /// Reads the record from byte `off` of `bytes` (little-endian).
    pub fn parse(bytes: &[u8], off: usize) -> (r: Pe32OptionalHeader)
        requires
            off + 94 <= bytes@.len(),
        ensures
            r == Pe32OptionalHeader::parsed_spec(bytes@, off as int),
    {
        let _len: usize = bytes.len();
        Pe32OptionalHeader {
            major_linker_version: bytes[off + 0],
            minor_linker_version: bytes[off + 1],
            size_of_code: le_u32(bytes, off + 2),
            size_of_initialized_data: le_u32(bytes, off + 6),
            size_of_uninitialized_data: le_u32(bytes, off + 10),
            address_of_entry_point: le_u32(bytes, off + 14),
            base_of_code: le_u32(bytes, off + 18),
            base_of_data: le_u32(bytes, off + 22),
            image_base: le_u32(bytes, off + 26),
            section_alignment: le_u32(bytes, off + 30),
            file_alignment: le_u32(bytes, off + 34),
            major_operating_system_version: le_u16(bytes, off + 38),
            minor_operating_system_version: le_u16(bytes, off + 40),
            major_image_version: le_u16(bytes, off + 42),
            minor_image_version: le_u16(bytes, off + 44),
            major_subsystem_version: le_u16(bytes, off + 46),
            minor_subsystem_version: le_u16(bytes, off + 48),
            win32_version_value: le_u16(bytes, off + 50),
            size_of_image: le_u32(bytes, off + 52),
            size_of_headers: le_u32(bytes, off + 56),
            checksum: le_u32(bytes, off + 60),
            subsystem: le_u32(bytes, off + 64),
            dll_characteristics: le_u16(bytes, off + 68),
            size_of_stack_reserve: le_u32(bytes, off + 70),
            size_of_stack_commit: le_u32(bytes, off + 74),
            size_of_heap_reserve: le_u32(bytes, off + 78),
            size_of_heap_commit: le_u32(bytes, off + 82),
            loader_flags: le_u32(bytes, off + 86),
            number_of_rva_and_sizes: le_u32(bytes, off + 90),
        }
    }
}


/// Size in bytes of a Pe32PlusOptionalHeader.
pub const PE32_PLUS_OPTIONAL_HEADER_SIZE: usize = 110;

/// The optional header of a 64-bit image, after its magic number.
#[derive(Clone, Copy, PartialEq, Eq, Structural, Debug)]
pub struct Pe32PlusOptionalHeader {
    pub major_linker_version: u8,
    pub minor_linker_version: u8,
    pub size_of_code: u32,
    pub size_of_initialized_data: u32,
    pub size_of_uninitialized_data: u32,
    pub address_of_entry_point: u32,
    pub base_of_code: u32,
    pub image_base: u64,
    pub section_alignment: u32,
    pub file_alignment: u32,
    pub major_operating_system_version: u16,
    pub minor_operating_system_version: u16,
    pub major_image_version: u16,
    pub minor_image_version: u16,
    pub major_subsystem_version: u16,
    pub minor_subsystem_version: u16,
    pub win32_version_value: u32,
    pub size_of_image: u32,
    pub size_of_headers: u32,
    pub checksum: u32,
    pub subsystem: u16,
    pub dll_characteristics: u16,
    pub size_of_stack_reserve: u64,
    pub size_of_stack_commit: u64,
    pub size_of_heap_reserve: u64,
    pub size_of_heap_commit: u64,
    pub loader_flags: u32,
    pub number_of_rva_and_sizes: u32,
}

impl Pe32PlusOptionalHeader {
    /// The record laid out from byte `off` of `bytes`.
    pub open spec fn parsed_spec(bytes: Seq<u8>, off: int) -> Pe32PlusOptionalHeader {
        Pe32PlusOptionalHeader {
            major_linker_version: bytes[off + 0],
            minor_linker_version: bytes[off + 1],
            size_of_code: le_u32_spec(bytes, off + 2),
            size_of_initialized_data: le_u32_spec(bytes, off + 6),
            size_of_uninitialized_data: le_u32_spec(bytes, off + 10),
            address_of_entry_point: le_u32_spec(bytes, off + 14),
            base_of_code: le_u32_spec(bytes, off + 18),
            image_base: le_u64_spec(bytes, off + 22),
            section_alignment: le_u32_spec(bytes, off + 30),
            file_alignment: le_u32_spec(bytes, off + 34),
            major_operating_system_version: le_u16_spec(bytes, off + 38),
            minor_operating_system_version: le_u16_spec(bytes, off + 40),
            major_image_version: le_u16_spec(bytes, off + 42),
            minor_image_version: le_u16_spec(bytes, off + 44),
            major_subsystem_version: le_u16_spec(bytes, off + 46),
            minor_subsystem_version: le_u16_spec(bytes, off + 48),
            win32_version_value: le_u32_spec(bytes, off + 50),
            size_of_image: le_u32_spec(bytes, off + 54),
            size_of_headers: le_u32_spec(bytes, off + 58),
            checksum: le_u32_spec(bytes, off + 62),
            subsystem: le_u16_spec(bytes, off + 66),
            dll_characteristics: le_u16_spec(bytes, off + 68),
            size_of_stack_reserve: le_u64_spec(bytes, off + 70),
            size_of_stack_commit: le_u64_spec(bytes, off + 78),
            size_of_heap_reserve: le_u64_spec(bytes, off + 86),
            size_of_heap_commit: le_u64_spec(bytes, off + 94),
            loader_flags: le_u32_spec(bytes, off + 102),
            number_of_rva_and_sizes: le_u32_spec(bytes, off + 106),
        }
    }

    /// Reads the record from byte `off` of `bytes` (little-endian).
    pub fn parse(bytes: &[u8], off: usize) -> (r: Pe32PlusOptionalHeader)
        requires
            off + 110 <= bytes@.len(),
        ensures
            r == Pe32PlusOptionalHeader::parsed_spec(bytes@, off as int),
    {
        let _len: usize = bytes.len();
        Pe32PlusOptionalHeader {
            major_linker_version: bytes[off + 0],
            minor_linker_version: bytes[off + 1],
            size_of_code: le_u32(bytes, off + 2),
            size_of_initialized_data: le_u32(bytes, off + 6),
            size_of_uninitialized_data: le_u32(bytes, off + 10),
            address_of_entry_point: le_u32(bytes, off + 14),
            base_of_code: le_u32(bytes, off + 18),
            image_base: le_u64(bytes, off + 22),
            section_alignment: le_u32(bytes, off + 30),
            file_alignment: le_u32(bytes, off + 34),
            major_operating_system_version: le_u16(bytes, off + 38),
            minor_operating_system_version: le_u16(bytes, off + 40),
            major_image_version: le_u16(bytes, off + 42),
            minor_image_version: le_u16(bytes, off + 44),
            major_subsystem_version: le_u16(bytes, off + 46),
            minor_subsystem_version: le_u16(bytes, off + 48),
            win32_version_value: le_u32(bytes, off + 50),
            size_of_image: le_u32(bytes, off + 54),
            size_of_headers: le_u32(bytes, off + 58),
            checksum: le_u32(bytes, off + 62),
            subsystem: le_u16(bytes, off + 66),
            dll_characteristics: le_u16(bytes, off + 68),
            size_of_stack_reserve: le_u64(bytes, off + 70),
            size_of_stack_commit: le_u64(bytes, off + 78),
            size_of_heap_reserve: le_u64(bytes, off + 86),
            size_of_heap_commit: le_u64(bytes, off + 94),
            loader_flags: le_u32(bytes, off + 102),
            number_of_rva_and_sizes: le_u32(bytes, off + 106),
        }
    }
}


/// Size in bytes of a ImageDataDirectory.
pub const IMAGE_DATA_DIRECTORY_SIZE: usize = 8;

/// An entry of the data directory: where a table lies (relative address) and its size.
#[derive(Clone, Copy, PartialEq, Eq, Structural, Debug)]
pub struct ImageDataDirectory {
    pub virtual_address: u32,
    pub size: u32,
}

impl ImageDataDirectory {
    /// The record laid out from byte `off` of `bytes`.
    pub open spec fn parsed_spec(bytes: Seq<u8>, off: int) -> ImageDataDirectory {
        ImageDataDirectory {
            virtual_address: le_u32_spec(bytes, off + 0),
            size: le_u32_spec(bytes, off + 4),
        }
    }

    /// Reads the record from byte `off` of `bytes` (little-endian).
    pub fn parse(bytes: &[u8], off: usize) -> (r: ImageDataDirectory)
        requires
            off + 8 <= bytes@.len(),
        ensures
            r == ImageDataDirectory::parsed_spec(bytes@, off as int),
    {
        let _len: usize = bytes.len();
        ImageDataDirectory {
            virtual_address: le_u32(bytes, off + 0),
            size: le_u32(bytes, off + 4),
        }
    }
}


/// Size in bytes of a COFFImportDirectoryTableEntry.
pub const COFF_IMPORT_ENTRY_SIZE: usize = 20;

/// An entry of the import directory table.
#[derive(Clone, Copy, PartialEq, Eq, Structural, Debug)]
pub struct COFFImportDirectoryTableEntry {
    pub import_lookup_table_rva: u32,
    pub time_date_stamp: u32,
    pub forward_chainer: u32,
    pub name_rva: u32,
    pub import_address_table_rva: u32,
}

impl COFFImportDirectoryTableEntry {
    /// The record laid out from byte `off` of `bytes`.
    pub open spec fn parsed_spec(bytes: Seq<u8>, off: int) -> COFFImportDirectoryTableEntry {
        COFFImportDirectoryTableEntry {
            import_lookup_table_rva: le_u32_spec(bytes, off + 0),
            time_date_stamp: le_u32_spec(bytes, off + 4),
            forward_chainer: le_u32_spec(bytes, off + 8),
            name_rva: le_u32_spec(bytes, off + 12),
            import_address_table_rva: le_u32_spec(bytes, off + 16),
        }
    }

    /// Reads the record from byte `off` of `bytes` (little-endian).
    pub fn parse(bytes: &[u8], off: usize) -> (r: COFFImportDirectoryTableEntry)
        requires
            off + 20 <= bytes@.len(),
        ensures
            r == COFFImportDirectoryTableEntry::parsed_spec(bytes@, off as int),
    {
        let _len: usize = bytes.len();
        COFFImportDirectoryTableEntry {
            import_lookup_table_rva: le_u32(bytes, off + 0),
            time_date_stamp: le_u32(bytes, off + 4),
            forward_chainer: le_u32(bytes, off + 8),
            name_rva: le_u32(bytes, off + 12),
            import_address_table_rva: le_u32(bytes, off + 16),
        }
    }
}


/// Size in bytes of a ExportDirectoryTable.
pub const EXPORT_DIRECTORY_TABLE_SIZE: usize = 40;

/// The export directory table.
#[derive(Clone, Copy, PartialEq, Eq, Structural, Debug)]
pub struct ExportDirectoryTable {
    pub export_flags: u32,
    pub time_data_stemp: u32,
    pub major_version: u16,
    pub minor_version: u16,
    pub name_rva: u32,
    pub ordinal_base: u32,
    pub address_table_entries: u32,
    pub number_of_name_pointers: u32,
    pub export_address_table_pointer_rva: u32,
    pub name_pointer_rva: u32,
    pub ordinal_table_rva: u32,
}

impl ExportDirectoryTable {
    /// The record laid out from byte `off` of `bytes`.
    pub open spec fn parsed_spec(bytes: Seq<u8>, off: int) -> ExportDirectoryTable {
        ExportDirectoryTable {
            export_flags: le_u32_spec(bytes, off + 0),
            time_data_stemp: le_u32_spec(bytes, off + 4),
            major_version: le_u16_spec(bytes, off + 8),
            minor_version: le_u16_spec(bytes, off + 10),
            name_rva: le_u32_spec(bytes, off + 12),
            ordinal_base: le_u32_spec(bytes, off + 16),
            address_table_entries: le_u32_spec(bytes, off + 20),
            number_of_name_pointers: le_u32_spec(bytes, off + 24),
            export_address_table_pointer_rva: le_u32_spec(bytes, off + 28),
            name_pointer_rva: le_u32_spec(bytes, off + 32),
            ordinal_table_rva: le_u32_spec(bytes, off + 36),
        }
    }

    /// Reads the record from byte `off` of `bytes` (little-endian).
    pub fn parse(bytes: &[u8], off: usize) -> (r: ExportDirectoryTable)
        requires
            off + 40 <= bytes@.len(),
        ensures
            r == ExportDirectoryTable::parsed_spec(bytes@, off as int),
    {
        let _len: usize = bytes.len();
        ExportDirectoryTable {
            export_flags: le_u32(bytes, off + 0),
            time_data_stemp: le_u32(bytes, off + 4),
            major_version: le_u16(bytes, off + 8),
            minor_version: le_u16(bytes, off + 10),
            name_rva: le_u32(bytes, off + 12),
            ordinal_base: le_u32(bytes, off + 16),
            address_table_entries: le_u32(bytes, off + 20),
            number_of_name_pointers: le_u32(bytes, off + 24),
            export_address_table_pointer_rva: le_u32(bytes, off + 28),
            name_pointer_rva: le_u32(bytes, off + 32),
            ordinal_table_rva: le_u32(bytes, off + 36),
        }
    }
}


/// Size in bytes of a ImportDirectoryTable.
pub const IMPORT_DIRECTORY_TABLE_SIZE: usize = 20;

/// An entry of the import directory table, as the loader walks it.
#[derive(Clone, Copy, PartialEq, Eq, Structural, Debug)]
pub struct ImportDirectoryTable {
    pub import_lookup_table_rva: u32,
    pub time_data_stamp: u32,
    pub forwarder_chain: u32,
    pub name_rva: u32,
    pub import_address_table_rva: u32,
}

impl ImportDirectoryTable {
    /// The record laid out from byte `off` of `bytes`.
    pub open spec fn parsed_spec(bytes: Seq<u8>, off: int) -> ImportDirectoryTable {
        ImportDirectoryTable {
            import_lookup_table_rva: le_u32_spec(bytes, off + 0),
            time_data_stamp: le_u32_spec(bytes, off + 4),
            forwarder_chain: le_u32_spec(bytes, off + 8),
            name_rva: le_u32_spec(bytes, off + 12),
            import_address_table_rva: le_u32_spec(bytes, off + 16),
        }
    }

    /// Reads the record from byte `off` of `bytes` (little-endian).
    pub fn parse(bytes: &[u8], off: usize) -> (r: ImportDirectoryTable)
        requires
            off + 20 <= bytes@.len(),
        ensures
            r == ImportDirectoryTable::parsed_spec(bytes@, off as int),
    {
        let _len: usize = bytes.len();
        ImportDirectoryTable {
            import_lookup_table_rva: le_u32(bytes, off + 0),
            time_data_stamp: le_u32(bytes, off + 4),
            forwarder_chain: le_u32(bytes, off + 8),
            name_rva: le_u32(bytes, off + 12),
            import_address_table_rva: le_u32(bytes, off + 16),
        }
    }
}


/// Size in bytes of a BaseRelocationBlock.
pub const BASE_RELOCATION_BLOCK_SIZE: usize = 8;

/// The header of a block of base relocations.
#[derive(Clone, Copy, PartialEq, Eq, Structural, Debug)]
pub struct BaseRelocationBlock {
    pub page_rva: u32,
    pub block_size: u32,
}

impl BaseRelocationBlock {
    /// The record laid out from byte `off` of `bytes`.
    pub open spec fn parsed_spec(bytes: Seq<u8>, off: int) -> BaseRelocationBlock {
        BaseRelocationBlock {
            page_rva: le_u32_spec(bytes, off + 0),
            block_size: le_u32_spec(bytes, off + 4),
        }
    }

    /// Reads the record from byte `off` of `bytes` (little-endian).
    pub fn parse(bytes: &[u8], off: usize) -> (r: BaseRelocationBlock)
        requires
            off + 8 <= bytes@.len(),
        ensures
            r == BaseRelocationBlock::parsed_spec(bytes@, off as int),
    {
        let _len: usize = bytes.len();
        BaseRelocationBlock {
            page_rva: le_u32(bytes, off + 0),
            block_size: le_u32(bytes, off + 4),
        }
    }
}

impl COFFImportDirectoryTableEntry {
    /// Whether the entry ends the table. The address table is tested twice
    /// and the lookup table not at all.
    pub fn is_zero(&self) -> (r: bool)
        ensures
            r == (self.import_address_table_rva == 0 && self.time_date_stamp == 0
                && self.forward_chainer == 0 && self.name_rva == 0),
    {
        self.import_address_table_rva == 0 && self.time_date_stamp == 0 && self.forward_chainer == 0
            && self.name_rva == 0 && self.import_address_table_rva == 0
    }
}

impl ImportDirectoryTable {
    /// Whether the entry ends the table. The address table is tested twice
    /// and the lookup table not at all.
    pub fn is_zero(&self) -> (r: bool)
        ensures
            r == (self.import_address_table_rva == 0 && self.time_data_stamp == 0
                && self.forwarder_chain == 0 && self.name_rva == 0),
    {
        self.import_address_table_rva == 0 && self.time_data_stamp == 0 && self.forwarder_chain == 0
            && self.name_rva == 0 && self.import_address_table_rva == 0
    }
}

/// How a section of an image is paged: its flags, relative address and virtual address.
#[derive(Clone, Copy, PartialEq, Eq, Structural, Debug)]
pub struct ImageSectionPaging {
    pub flags: u16,
    pub rva: u64,
    pub va: u64,
}

/// The fields of a 32- or 64-bit optional header that the loader uses.
#[derive(Debug)]
pub struct UnifiedOptionalHeader {
    pub major_linker_version: u8,
    pub minor_linker_version: u8,
    pub size_of_code: u32,
    pub size_of_initialized_data: u32,
    pub size_of_unitinialized_data: u32,
    pub address_of_entry_point: u32,
    pub base_of_code: u32,
    pub image_base: u64,
    pub section_alignment: u32,
    pub file_alignment: u32,
    pub major_operating_system_version: u16,
    pub minor_operating_system_version: u16,
    pub major_image_version: u16,
    pub minor_image_version: u16,
    pub major_subsystem_version: u16,
    pub minor_subsystem_version: u16,
    pub size_of_image: u32,
    pub size_of_headers: u32,
    pub checksum: u32,
    pub subsystem: u32,
    pub dll_characteristics: u16,
    pub size_of_stack_reserve: u64,
    pub size_of_stack_commit: u64,
    pub size_of_heap_reserve: u64,
    pub size_of_heap_commit: u64,
    pub rva_and_sizes: Vec<ImageDataDirectory>,
}

/// The `n` data directory entries laid out from byte `off` of `bytes`.
pub open spec fn directories_spec(bytes: Seq<u8>, off: int, n: int) -> Seq<ImageDataDirectory> {
    Seq::new(n as nat, |i: int| ImageDataDirectory::parsed_spec(bytes, off + 8 * i))
}

/// Reads `n` data directory entries from byte `off` of `bytes`.
pub fn parse_directories(bytes: &[u8], off: usize, n: u32) -> (r: Vec<ImageDataDirectory>)
    requires
        off + 8 * n <= bytes@.len(),
    ensures
        r@ == directories_spec(bytes@, off as int, n as int),
{
    let len: usize = bytes.len();
    let mut r: Vec<ImageDataDirectory> = Vec::new();
    let mut i: u32 = 0;
    while i < n
        invariant
            len == bytes@.len(),
            off + 8 * n <= bytes@.len(),
            i <= n,
            r@ == directories_spec(bytes@, off as int, i as int),
        decreases n - i,
    {
        let d = ImageDataDirectory::parse(bytes, off + 8 * (i as usize));
        r.push(d);
        i = i + 1;
        assert(r@ =~= directories_spec(bytes@, off as int, i as int));
    }
    r
}

/// The checks a 32-bit optional header `h` passes: section alignment of a
/// page or equal to the file alignment, no Win32 version, image and headers
/// sized in whole alignments, no loader flags, the data directory inside the
/// `size` bytes of the header, and page-sized heap commit and stacks with no
/// heap reserve.
pub open spec fn pe32_header_ok(h: Pe32OptionalHeader, size: u64) -> bool {
    &&& !(h.section_alignment != 0x1000 && h.section_alignment != h.file_alignment)
    &&& h.win32_version_value == 0
    &&& h.section_alignment != 0 && h.size_of_image % h.section_alignment == 0
    &&& h.file_alignment != 0 && h.size_of_headers % h.file_alignment == 0
    &&& h.loader_flags == 0
    &&& PE32_OPTIONAL_HEADER_SIZE + 2 + h.number_of_rva_and_sizes * 8 <= size
    &&& h.size_of_heap_commit % 0x1000 == 0
    &&& h.size_of_heap_reserve == 0
    &&& h.size_of_stack_commit % 0x1000 == 0
    &&& h.size_of_stack_reserve % 0x1000 == 0
}

/// The checks a 64-bit optional header passes: as for 32-bit images, but
/// the heap reserve need only be page-sized.
pub open spec fn pe32_plus_header_ok(h: Pe32PlusOptionalHeader, size: u64) -> bool {
    &&& !(h.section_alignment != 0x1000 && h.section_alignment != h.file_alignment)
    &&& h.win32_version_value == 0
    &&& h.section_alignment != 0 && h.size_of_image % h.section_alignment == 0
    &&& h.file_alignment != 0 && h.size_of_headers % h.file_alignment == 0
    &&& h.loader_flags == 0
    &&& PE32_PLUS_OPTIONAL_HEADER_SIZE + 2 + h.number_of_rva_and_sizes * 8 <= size
    &&& h.size_of_heap_commit % 0x1000 == 0
    &&& h.size_of_heap_reserve % 0x1000 == 0
    &&& h.size_of_stack_commit % 0x1000 == 0
    &&& h.size_of_stack_reserve % 0x1000 == 0
}

/// The checks of an optional header divide by an alignment of zero: the
/// section alignment passes the first check, there is no Win32 version, and
/// the section alignment, or else the file alignment, is zero.
pub open spec fn header_divides_by_zero(section_alignment: u32, file_alignment: u32, win32_version_value: int, size_of_image: u32) -> bool {
    &&& !(section_alignment != 0x1000 && section_alignment != file_alignment)
    &&& win32_version_value == 0
    &&& (section_alignment == 0 || (size_of_image % section_alignment == 0 && file_alignment == 0))
}

/// Reads and checks the 32-bit optional header at byte `offset` of
/// `bytes`, `size` bytes long, followed by its data directory. A header
/// whose checks would divide by zero is left out.
pub fn load_optional_header(size: u64, bytes: &[u8], offset: usize) -> (r: Result<UnifiedOptionalHeader, ExecutableLoadError>)
    requires
        offset + PE32_OPTIONAL_HEADER_SIZE <= bytes@.len(),
        offset + size <= bytes@.len(),
        ({
            let h = Pe32OptionalHeader::parsed_spec(bytes@, offset as int);
            !header_divides_by_zero(h.section_alignment, h.file_alignment, h.win32_version_value as int, h.size_of_image)
        }),
    ensures
        ({
            let h = Pe32OptionalHeader::parsed_spec(bytes@, offset as int);
            &&& pe32_header_ok(h, size) <==> r is Ok
            &&& !pe32_header_ok(h, size) ==> r == Err::<UnifiedOptionalHeader, ExecutableLoadError>(ExecutableLoadError::Malformed)
            &&& r matches Ok(u) ==> {
                &&& u.image_base == h.image_base as u64
                &&& u.address_of_entry_point == h.address_of_entry_point
                &&& u.section_alignment == h.section_alignment
                &&& u.file_alignment == h.file_alignment
                &&& u.size_of_image == h.size_of_image
                &&& u.size_of_headers == h.size_of_headers
                &&& u.subsystem == h.subsystem
                &&& u.size_of_code == h.size_of_code
                &&& u.base_of_code == h.base_of_code
                &&& u.size_of_stack_reserve == h.size_of_stack_reserve as u64
                &&& u.size_of_stack_commit == h.size_of_stack_commit as u64
                &&& u.size_of_heap_reserve == h.size_of_heap_reserve as u64
                &&& u.size_of_heap_commit == h.size_of_heap_commit as u64
                &&& u.rva_and_sizes@ == directories_spec(
                    bytes@,
                    offset + PE32_OPTIONAL_HEADER_SIZE,
                    h.number_of_rva_and_sizes as int,
                )
            }
        }),
{
    let _len: usize = bytes.len();
    let h = Pe32OptionalHeader::parse(bytes, offset);
    if h.section_alignment != 0x1000 && h.section_alignment != h.file_alignment {
        return Err(ExecutableLoadError::Malformed);
    }
    if h.win32_version_value != 0 || h.size_of_image % h.section_alignment != 0
        || h.size_of_headers % h.file_alignment != 0 || h.loader_flags != 0 {
        return Err(ExecutableLoadError::Malformed);
    }
    let header_size = (PE32_OPTIONAL_HEADER_SIZE + 2) as u64;
    if header_size + (h.number_of_rva_and_sizes as u64) * 8 > size {
        return Err(ExecutableLoadError::Malformed);
    }
    if h.size_of_heap_commit % 0x1000 != 0 || h.size_of_heap_reserve != 0
        || h.size_of_stack_commit % 0x1000 != 0 || h.size_of_stack_reserve % 0x1000 != 0 {
        return Err(ExecutableLoadError::Malformed);
    }
    let rva_and_sizes = parse_directories(bytes, offset + PE32_OPTIONAL_HEADER_SIZE, h.number_of_rva_and_sizes);
    Ok(UnifiedOptionalHeader {
        major_linker_version: h.major_linker_version,
        minor_linker_version: h.minor_linker_version,
        size_of_code: h.size_of_code,
        size_of_initialized_data: h.size_of_initialized_data,
        size_of_unitinialized_data: h.size_of_uninitialized_data,
        address_of_entry_point: h.address_of_entry_point,
        base_of_code: h.base_of_code,
        image_base: h.image_base as u64,
        section_alignment: h.section_alignment,
        file_alignment: h.file_alignment,
        major_operating_system_version: h.major_operating_system_version,
        minor_operating_system_version: h.minor_operating_system_version,
        major_image_version: h.major_image_version,
        minor_image_version: h.minor_image_version,
        major_subsystem_version: h.major_subsystem_version,
        minor_subsystem_version: h.minor_subsystem_version,
        size_of_image: h.size_of_image,
        size_of_headers: h.size_of_headers,
        checksum: h.checksum,
        subsystem: h.subsystem,
        dll_characteristics: h.dll_characteristics,
        size_of_stack_reserve: h.size_of_stack_reserve as u64,
        size_of_stack_commit: h.size_of_stack_commit as u64,
        size_of_heap_reserve: h.size_of_heap_reserve as u64,
        size_of_heap_commit: h.size_of_heap_commit as u64,
        rva_and_sizes,
    })
}

/// Reads and checks the 64-bit optional header at byte `offset` of
/// `bytes`, `size` bytes long, followed by its data directory. The heap
/// reserve it gives is the header's heap commit. A header whose checks
/// would divide by zero is left out.
pub fn load_plus_optional_header(size: u64, bytes: &[u8], offset: usize) -> (r: Result<UnifiedOptionalHeader, ExecutableLoadError>)
    requires
        offset + PE32_PLUS_OPTIONAL_HEADER_SIZE <= bytes@.len(),
        offset + size <= bytes@.len(),
        ({
            let h = Pe32PlusOptionalHeader::parsed_spec(bytes@, offset as int);
            !header_divides_by_zero(h.section_alignment, h.file_alignment, h.win32_version_value as int, h.size_of_image)
        }),
    ensures
        ({
            let h = Pe32PlusOptionalHeader::parsed_spec(bytes@, offset as int);
            &&& pe32_plus_header_ok(h, size) <==> r is Ok
            &&& !pe32_plus_header_ok(h, size) ==> r == Err::<UnifiedOptionalHeader, ExecutableLoadError>(ExecutableLoadError::Malformed)
            &&& r matches Ok(u) ==> {
                &&& u.image_base == h.image_base
                &&& u.address_of_entry_point == h.address_of_entry_point
                &&& u.section_alignment == h.section_alignment
                &&& u.file_alignment == h.file_alignment
                &&& u.size_of_image == h.size_of_image
                &&& u.size_of_headers == h.size_of_headers
                &&& u.subsystem == h.subsystem as u32
                &&& u.size_of_code == h.size_of_code
                &&& u.base_of_code == h.base_of_code
                &&& u.size_of_stack_reserve == h.size_of_stack_reserve
                &&& u.size_of_stack_commit == h.size_of_stack_commit
                &&& u.size_of_heap_reserve == h.size_of_heap_commit
                &&& u.size_of_heap_commit == h.size_of_heap_commit
                &&& u.rva_and_sizes@ == directories_spec(
                    bytes@,
                    offset + PE32_PLUS_OPTIONAL_HEADER_SIZE,
                    h.number_of_rva_and_sizes as int,
                )
            }
        }),
{
    let _len: usize = bytes.len();
    let h = Pe32PlusOptionalHeader::parse(bytes, offset);
    if h.section_alignment != 0x1000 && h.section_alignment != h.file_alignment {
        return Err(ExecutableLoadError::Malformed);
    }
    if h.win32_version_value != 0 || h.size_of_image % h.section_alignment != 0
        || h.size_of_headers % h.file_alignment != 0 || h.loader_flags != 0 {
        return Err(ExecutableLoadError::Malformed);
    }
    let header_size = (PE32_PLUS_OPTIONAL_HEADER_SIZE + 2) as u64;
    if header_size + (h.number_of_rva_and_sizes as u64) * 8 > size {
        return Err(ExecutableLoadError::Malformed);
    }
    if h.size_of_heap_commit % 0x1000 != 0 || h.size_of_heap_reserve % 0x1000 != 0
        || h.size_of_stack_commit % 0x1000 != 0 || h.size_of_stack_reserve % 0x1000 != 0 {
        return Err(ExecutableLoadError::Malformed);
    }
    let rva_and_sizes = parse_directories(bytes, offset + PE32_PLUS_OPTIONAL_HEADER_SIZE, h.number_of_rva_and_sizes);
    Ok(UnifiedOptionalHeader {
        major_linker_version: h.major_linker_version,
        minor_linker_version: h.minor_linker_version,
        size_of_code: h.size_of_code,
        size_of_initialized_data: h.size_of_initialized_data,
        size_of_unitinialized_data: h.size_of_uninitialized_data,
        address_of_entry_point: h.address_of_entry_point,
        base_of_code: h.base_of_code,
        image_base: h.image_base,
        section_alignment: h.section_alignment,
        file_alignment: h.file_alignment,
        major_operating_system_version: h.major_operating_system_version,
        minor_operating_system_version: h.minor_operating_system_version,
        major_image_version: h.major_image_version,
        minor_image_version: h.minor_image_version,
        major_subsystem_version: h.major_subsystem_version,
        minor_subsystem_version: h.minor_subsystem_version,
        size_of_image: h.size_of_image,
        size_of_headers: h.size_of_headers,
        checksum: h.checksum,
        subsystem: h.subsystem as u32,
        dll_characteristics: h.dll_characteristics,
        size_of_stack_reserve: h.size_of_stack_reserve,
        size_of_stack_commit: h.size_of_stack_commit,
        size_of_heap_reserve: h.size_of_heap_commit,
        size_of_heap_commit: h.size_of_heap_commit,
        rva_and_sizes,
    })
}

/// The COFF file header is laid out as on disk: the signature in bytes 0 to 3,
/// then the machine, section count, time stamp, symbol table pointer and count,
/// optional header size and characteristics, little-endian, at bytes 4, 6, 8,
/// 12, 16, 20 and 22.
pub proof fn lemma_pe_header_layout(bytes: Seq<u8>, off: int)
    ensures
        ({
            let e = PeHeader::parsed_spec(bytes, off);
            &&& e.magic == le_u32_spec(bytes, off + 0)
            &&& e.machine == le_u16_spec(bytes, off + 4)
            &&& e.number_of_sections == le_u16_spec(bytes, off + 6)
            &&& e.time_date_stamp == le_u32_spec(bytes, off + 8)
            &&& e.pointer_to_symbol_table == le_u32_spec(bytes, off + 12)
            &&& e.number_of_symbols == le_u32_spec(bytes, off + 16)
            &&& e.size_of_optional_header == le_u16_spec(bytes, off + 20)
            &&& e.characteristics == le_u16_spec(bytes, off + 22)
        }),
{
}

/// The PE32 optional header is laid out as on disk, each field little-endian at
/// its offset from the header start.
pub proof fn lemma_pe32_optional_header_layout(bytes: Seq<u8>, off: int)
    ensures
        ({
            let e = Pe32OptionalHeader::parsed_spec(bytes, off);
            &&& e.major_linker_version == bytes[off + 0]
            &&& e.minor_linker_version == bytes[off + 1]
            &&& e.size_of_code == le_u32_spec(bytes, off + 2)
            &&& e.size_of_initialized_data == le_u32_spec(bytes, off + 6)
            &&& e.size_of_uninitialized_data == le_u32_spec(bytes, off + 10)
            &&& e.address_of_entry_point == le_u32_spec(bytes, off + 14)
            &&& e.base_of_code == le_u32_spec(bytes, off + 18)
            &&& e.base_of_data == le_u32_spec(bytes, off + 22)
            &&& e.image_base == le_u32_spec(bytes, off + 26)
            &&& e.section_alignment == le_u32_spec(bytes, off + 30)
            &&& e.file_alignment == le_u32_spec(bytes, off + 34)
            &&& e.major_operating_system_version == le_u16_spec(bytes, off + 38)
            &&& e.minor_operating_system_version == le_u16_spec(bytes, off + 40)
            &&& e.major_image_version == le_u16_spec(bytes, off + 42)
            &&& e.minor_image_version == le_u16_spec(bytes, off + 44)
            &&& e.major_subsystem_version == le_u16_spec(bytes, off + 46)
            &&& e.minor_subsystem_version == le_u16_spec(bytes, off + 48)
            &&& e.win32_version_value == le_u16_spec(bytes, off + 50)
            &&& e.size_of_image == le_u32_spec(bytes, off + 52)
            &&& e.size_of_headers == le_u32_spec(bytes, off + 56)
            &&& e.checksum == le_u32_spec(bytes, off + 60)
            &&& e.subsystem == le_u32_spec(bytes, off + 64)
            &&& e.dll_characteristics == le_u16_spec(bytes, off + 68)
            &&& e.size_of_stack_reserve == le_u32_spec(bytes, off + 70)
            &&& e.size_of_stack_commit == le_u32_spec(bytes, off + 74)
            &&& e.size_of_heap_reserve == le_u32_spec(bytes, off + 78)
            &&& e.size_of_heap_commit == le_u32_spec(bytes, off + 82)
            &&& e.loader_flags == le_u32_spec(bytes, off + 86)
            &&& e.number_of_rva_and_sizes == le_u32_spec(bytes, off + 90)
        }),
{
}

/// The PE32+ optional header is laid out as on disk, each field little-endian
/// at its offset from the header start; the image base and the stack and heap
/// sizes are 64 bits wide.
pub proof fn lemma_pe32_plus_optional_header_layout(bytes: Seq<u8>, off: int)
    ensures
        ({
            let e = Pe32PlusOptionalHeader::parsed_spec(bytes, off);
            &&& e.major_linker_version == bytes[off + 0]
            &&& e.minor_linker_version == bytes[off + 1]
            &&& e.size_of_code == le_u32_spec(bytes, off + 2)
            &&& e.size_of_initialized_data == le_u32_spec(bytes, off + 6)
            &&& e.size_of_uninitialized_data == le_u32_spec(bytes, off + 10)
            &&& e.address_of_entry_point == le_u32_spec(bytes, off + 14)
            &&& e.base_of_code == le_u32_spec(bytes, off + 18)
            &&& e.image_base == le_u64_spec(bytes, off + 22)
            &&& e.section_alignment == le_u32_spec(bytes, off + 30)
            &&& e.file_alignment == le_u32_spec(bytes, off + 34)
            &&& e.major_operating_system_version == le_u16_spec(bytes, off + 38)
            &&& e.minor_operating_system_version == le_u16_spec(bytes, off + 40)
            &&& e.major_image_version == le_u16_spec(bytes, off + 42)
            &&& e.minor_image_version == le_u16_spec(bytes, off + 44)
            &&& e.major_subsystem_version == le_u16_spec(bytes, off + 46)
            &&& e.minor_subsystem_version == le_u16_spec(bytes, off + 48)
            &&& e.win32_version_value == le_u32_spec(bytes, off + 50)
            &&& e.size_of_image == le_u32_spec(bytes, off + 54)
            &&& e.size_of_headers == le_u32_spec(bytes, off + 58)
            &&& e.checksum == le_u32_spec(bytes, off + 62)
            &&& e.subsystem == le_u16_spec(bytes, off + 66)
            &&& e.dll_characteristics == le_u16_spec(bytes, off + 68)
            &&& e.size_of_stack_reserve == le_u64_spec(bytes, off + 70)
            &&& e.size_of_stack_commit == le_u64_spec(bytes, off + 78)
            &&& e.size_of_heap_reserve == le_u64_spec(bytes, off + 86)
            &&& e.size_of_heap_commit == le_u64_spec(bytes, off + 94)
            &&& e.loader_flags == le_u32_spec(bytes, off + 102)
            &&& e.number_of_rva_and_sizes == le_u32_spec(bytes, off + 106)
        }),
{
}

/// A data directory entry is its address in bytes 0 to 3 and its size in bytes
/// 4 to 7, little-endian.
pub proof fn lemma_image_data_directory_layout(bytes: Seq<u8>, off: int)
    ensures
        ({
            let e = ImageDataDirectory::parsed_spec(bytes, off);
            &&& e.virtual_address == le_u32_spec(bytes, off + 0)
            &&& e.size == le_u32_spec(bytes, off + 4)
        }),
{
}

/// An import directory entry is five little-endian words: lookup table, time
/// stamp, forwarder chain, name and address table.
pub proof fn lemma_coff_import_directory_table_entry_layout(bytes: Seq<u8>, off: int)
    ensures
        ({
            let e = COFFImportDirectoryTableEntry::parsed_spec(bytes, off);
            &&& e.import_lookup_table_rva == le_u32_spec(bytes, off + 0)
            &&& e.time_date_stamp == le_u32_spec(bytes, off + 4)
            &&& e.forward_chainer == le_u32_spec(bytes, off + 8)
            &&& e.name_rva == le_u32_spec(bytes, off + 12)
            &&& e.import_address_table_rva == le_u32_spec(bytes, off + 16)
        }),
{
}

/// The export directory table is laid out as on disk, each field little-endian
/// at its offset.
pub proof fn lemma_export_directory_table_layout(bytes: Seq<u8>, off: int)
    ensures
        ({
            let e = ExportDirectoryTable::parsed_spec(bytes, off);
            &&& e.export_flags == le_u32_spec(bytes, off + 0)
            &&& e.time_data_stemp == le_u32_spec(bytes, off + 4)
            &&& e.major_version == le_u16_spec(bytes, off + 8)
            &&& e.minor_version == le_u16_spec(bytes, off + 10)
            &&& e.name_rva == le_u32_spec(bytes, off + 12)
            &&& e.ordinal_base == le_u32_spec(bytes, off + 16)
            &&& e.address_table_entries == le_u32_spec(bytes, off + 20)
            &&& e.number_of_name_pointers == le_u32_spec(bytes, off + 24)
            &&& e.export_address_table_pointer_rva == le_u32_spec(bytes, off + 28)
            &&& e.name_pointer_rva == le_u32_spec(bytes, off + 32)
            &&& e.ordinal_table_rva == le_u32_spec(bytes, off + 36)
        }),
{
}

/// An import directory table is five little-endian words: lookup table, time
/// stamp, forwarder chain, name and address table.
pub proof fn lemma_import_directory_table_layout(bytes: Seq<u8>, off: int)
    ensures
        ({
            let e = ImportDirectoryTable::parsed_spec(bytes, off);
            &&& e.import_lookup_table_rva == le_u32_spec(bytes, off + 0)
            &&& e.time_data_stamp == le_u32_spec(bytes, off + 4)
            &&& e.forwarder_chain == le_u32_spec(bytes, off + 8)
            &&& e.name_rva == le_u32_spec(bytes, off + 12)
            &&& e.import_address_table_rva == le_u32_spec(bytes, off + 16)
        }),
{
}

/// A base relocation block starts with its page address in bytes 0 to 3 and its
/// size in bytes 4 to 7, little-endian.
pub proof fn lemma_base_relocation_block_layout(bytes: Seq<u8>, off: int)
    ensures
        ({
            let e = BaseRelocationBlock::parsed_spec(bytes, off);
            &&& e.page_rva == le_u32_spec(bytes, off + 0)
            &&& e.block_size == le_u32_spec(bytes, off + 4)
        }),
{
}

} // verus!
