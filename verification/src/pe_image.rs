//! PE/COFF images as the executable loader reads them: the file header
//! and its checks, the section table, finding the section of a relative
//! address, how each section is paged, and the tables of imports and
//! exports.
use vstd::prelude::*;
use crate::allocator::MemoryBlock;
use crate::loader::ExecutableLoadError;
use crate::pe::{
    header_divides_by_zero, le_u16, le_u16_spec, le_u32, le_u32_spec, load_optional_header,
    load_plus_optional_header, pe32_header_ok, pe32_plus_header_ok, ImageDataDirectory, Pe32OptionalHeader,
    Pe32PlusOptionalHeader, PeHeader, UnifiedOptionalHeader, PE32_OPTIONAL_HEADER_SIZE,
    PE32_PLUS_OPTIONAL_HEADER_SIZE, PE_HEADER_SIZE,
};

verus! {

/// Machine type of x86-64 images.
pub const PE_IMAGE_FILE_MACHINE_AMD64: u16 = 0x8664;

/// File characteristics: an image that can run, one for a 32-bit machine,
/// one with its bytes reversed, and a library.
pub const PE_IMAGE_FILE_EXECUTABLE_IMAGE: u16 = 0x0002;

pub const PE_IMAGE_FILE_32BIT_MACHINE: u16 = 0x0100;

pub const PE_IMAGE_FILE_BYTES_REVERSED_HI: u16 = 0x8000;

pub const PE_IMAGE_FILE_DLL: u16 = 0x2000;

/// Magic numbers of the 32-bit and 64-bit optional headers.
pub const PE32_MAGIC: u16 = 0x10b;

pub const PE32_PLUS_MAGIC: u16 = 0x20b;

/// Size in bytes of a section header.
pub const IMAGE_SECTION_HEADER_SIZE: usize = 40;

/// A section header: the section's name, where it lies in memory (relative
/// address and size) and in the file, and its characteristics.
#[derive(Clone, Copy, Debug)]
pub struct ImageSectionHeader {
    pub name: [u8; 8],
    pub virtual_size: u32,
    pub virtual_address: u32,
    pub size_of_raw_data: u32,
    pub pointer_to_raw_data: u32,
    pub pointer_to_relocations: u32,
    pub pointer_to_line_numbers: u32,
    pub number_of_relocations: u16,
    pub number_of_line_numbers: u16,
    pub characteristics: u32,
}

/// `s` is the section header laid out from byte `off` of `bytes`.
pub open spec fn section_parsed(s: ImageSectionHeader, bytes: Seq<u8>, off: int) -> bool {
    &&& s.name@ == bytes.subrange(off, off + 8)
    &&& s.virtual_size == le_u32_spec(bytes, off + 8)
    &&& s.virtual_address == le_u32_spec(bytes, off + 12)
    &&& s.size_of_raw_data == le_u32_spec(bytes, off + 16)
    &&& s.pointer_to_raw_data == le_u32_spec(bytes, off + 20)
    &&& s.pointer_to_relocations == le_u32_spec(bytes, off + 24)
    &&& s.pointer_to_line_numbers == le_u32_spec(bytes, off + 28)
    &&& s.number_of_relocations == le_u16_spec(bytes, off + 32)
    &&& s.number_of_line_numbers == le_u16_spec(bytes, off + 34)
    &&& s.characteristics == le_u32_spec(bytes, off + 36)
}

impl ImageSectionHeader {
    /// Reads the header from byte `off` of `bytes`.
    pub fn parse(bytes: &[u8], off: usize) -> (r: ImageSectionHeader)
        requires
            off + 40 <= bytes@.len(),
        ensures
            section_parsed(r, bytes@, off as int),
    {
        let name = [
            bytes[off],
            bytes[off + 1],
            bytes[off + 2],
            bytes[off + 3],
            bytes[off + 4],
            bytes[off + 5],
            bytes[off + 6],
            bytes[off + 7],
        ];
        assert(name@ =~= bytes@.subrange(off as int, off + 8));
        ImageSectionHeader {
            name,
            virtual_size: le_u32(bytes, off + 8),
            virtual_address: le_u32(bytes, off + 12),
            size_of_raw_data: le_u32(bytes, off + 16),
            pointer_to_raw_data: le_u32(bytes, off + 20),
            pointer_to_relocations: le_u32(bytes, off + 24),
            pointer_to_line_numbers: le_u32(bytes, off + 28),
            number_of_relocations: le_u16(bytes, off + 32),
            number_of_line_numbers: le_u16(bytes, off + 34),
            characteristics: le_u32(bytes, off + 36),
        }
    }
}

/// The `n` section headers laid out from byte `off` of `bytes`.
pub open spec fn section_table_parsed(t: Seq<ImageSectionHeader>, bytes: Seq<u8>, off: int, n: int) -> bool {
    &&& t.len() == n
    &&& forall|i: int| 0 <= i < n ==> section_parsed(#[trigger] t[i], bytes, off + 40 * i)
}

/// Reads `n` section headers from byte `off` of `bytes`.
pub fn parse_section_table(bytes: &[u8], off: usize, n: u16) -> (r: Vec<ImageSectionHeader>)
    requires
        off + 40 * n <= bytes@.len(),
    ensures
        section_table_parsed(r@, bytes@, off as int, n as int),
{
    let len: usize = bytes.len();
    let mut r: Vec<ImageSectionHeader> = Vec::new();
    let mut i: u16 = 0;
    while i < n
        invariant
            len == bytes@.len(),
            off + 40 * n <= bytes@.len(),
            i <= n,
            section_table_parsed(r@, bytes@, off as int, i as int),
        decreases n - i,
    {
        let s = ImageSectionHeader::parse(bytes, off + 40 * (i as usize));
        r.push(s);
        i = i + 1;
    }
    r
}

/// Section `s` holds relative address `rva`: it starts at or below it and
/// ends at or above it.
pub open spec fn section_covers(s: ImageSectionHeader, rva: int) -> bool {
    rva >= s.virtual_address && s.virtual_address + s.virtual_size >= rva
}

/// Section `i` is the first of `sections` that holds `rva`.
pub open spec fn first_covering_at(sections: Seq<ImageSectionHeader>, rva: int, i: int) -> bool {
    &&& 0 <= i < sections.len()
    &&& section_covers(sections[i], rva)
    &&& forall|j: int| 0 <= j < i ==> !section_covers(#[trigger] sections[j], rva)
}

/// The index of the first section that holds relative address `rva`.
/// Sums are taken without wrapping.
pub fn find_section_for_rva(rva: u32, sections: &Vec<ImageSectionHeader>) -> (r: Option<usize>)
    ensures
        match r {
            Some(i) => first_covering_at(sections@, rva as int, i as int),
            None => forall|j: int| 0 <= j < sections@.len() ==> !section_covers(#[trigger] sections@[j], rva as int),
        },
{
    let mut i: usize = 0;
    while i < sections.len()
        invariant
            i <= sections@.len(),
            forall|j: int| 0 <= j < i ==> !section_covers(#[trigger] sections@[j], rva as int),
        decreases sections@.len() - i,
    {
        let s = &sections[i];
        if rva >= s.virtual_address && (s.virtual_address as u64) + (s.virtual_size as u64) >= rva as u64 {
            return Some(i);
        }
        i = i + 1;
    }
    None
}

/// Section `s` holds the whole table `d`.
pub open spec fn section_holds_directory(s: ImageSectionHeader, d: ImageDataDirectory) -> bool {
    d.virtual_address >= s.virtual_address && s.virtual_address + s.virtual_size >= d.virtual_address + d.size
}

/// The index of the first section that holds the whole table `data_directory`.
pub fn find_section_for_data_directory(data_directory: &ImageDataDirectory, sections: &Vec<ImageSectionHeader>) -> (r: Option<usize>)
    ensures
        match r {
            Some(i) => {
                &&& i < sections@.len()
                &&& section_holds_directory(sections@[i as int], *data_directory)
                &&& forall|j: int| 0 <= j < i ==> !section_holds_directory(#[trigger] sections@[j], *data_directory)
            },
            None => forall|j: int| 0 <= j < sections@.len() ==> !section_holds_directory(#[trigger] sections@[j], *data_directory),
        },
{
    let mut i: usize = 0;
    while i < sections.len()
        invariant
            i <= sections@.len(),
            forall|j: int| 0 <= j < i ==> !section_holds_directory(#[trigger] sections@[j], *data_directory),
        decreases sections@.len() - i,
    {
        let s = &sections[i];
        if data_directory.virtual_address >= s.virtual_address && (s.virtual_address as u64) + (s.virtual_size as u64)
            >= (data_directory.virtual_address as u64) + (data_directory.size as u64) {
            return Some(i);
        }
        i = i + 1;
    }
    None
}

/// Where the PE header starts: the 32-bit value at byte 0x3C.
pub open spec fn pe_offset_of(bytes: Seq<u8>) -> int {
    le_u32_spec(bytes, 0x3C) as int
}

/// The PE header of the file.
pub open spec fn pe_header_of(bytes: Seq<u8>) -> PeHeader {
    PeHeader::parsed_spec(bytes, pe_offset_of(bytes))
}

/// The magic number of the optional header.
pub open spec fn optional_magic_of(bytes: Seq<u8>) -> u16 {
    le_u16_spec(bytes, pe_offset_of(bytes) + 24)
}

/// Where the optional header's fields start, after its magic number.
pub open spec fn optional_offset_of(bytes: Seq<u8>) -> int {
    pe_offset_of(bytes) + 26
}

/// Where the section table starts: after the optional header.
pub open spec fn section_table_offset_of(bytes: Seq<u8>) -> int {
    pe_offset_of(bytes) + 24 + pe_header_of(bytes).size_of_optional_header
}

/// The PE header lies in the file and passes its checks: an optional
/// header, an x86-64 machine, an executable image that is neither for a
/// 32-bit machine nor byte-reversed.
pub open spec fn pe_header_usable(bytes: Seq<u8>) -> bool {
    let h = pe_header_of(bytes);
    &&& bytes.len() >= 0x40
    &&& pe_offset_of(bytes) + 26 <= bytes.len()
    &&& h.size_of_optional_header != 0
    &&& h.machine == PE_IMAGE_FILE_MACHINE_AMD64
    &&& h.characteristics & PE_IMAGE_FILE_EXECUTABLE_IMAGE != 0
    &&& h.characteristics & PE_IMAGE_FILE_32BIT_MACHINE == 0
    &&& h.characteristics & PE_IMAGE_FILE_BYTES_REVERSED_HI == 0
}

/// The optional header lies in the file.
pub open spec fn optional_header_in_file(bytes: Seq<u8>) -> bool {
    let o = optional_offset_of(bytes);
    let size = pe_header_of(bytes).size_of_optional_header;
    &&& o + size <= bytes.len()
    &&& optional_magic_of(bytes) == PE32_MAGIC ==> o + PE32_OPTIONAL_HEADER_SIZE <= bytes.len()
    &&& optional_magic_of(bytes) == PE32_PLUS_MAGIC ==> o + PE32_PLUS_OPTIONAL_HEADER_SIZE <= bytes.len()
}

/// The optional header passes its checks.
pub open spec fn optional_header_ok(bytes: Seq<u8>) -> bool {
    let o = optional_offset_of(bytes);
    let size = pe_header_of(bytes).size_of_optional_header as u64;
    if optional_magic_of(bytes) == PE32_MAGIC {
        pe32_header_ok(Pe32OptionalHeader::parsed_spec(bytes, o), size)
    } else {
        optional_magic_of(bytes) == PE32_PLUS_MAGIC && pe32_plus_header_ok(
            Pe32PlusOptionalHeader::parsed_spec(bytes, o),
            size,
        )
    }
}

/// The checks of the optional header would divide by an alignment of zero.
pub open spec fn pe_divides_by_zero(bytes: Seq<u8>) -> bool {
    let o = optional_offset_of(bytes);
    &&& pe_header_usable(bytes)
    &&& optional_header_in_file(bytes)
    &&& (optional_magic_of(bytes) == PE32_MAGIC ==> {
        let h = Pe32OptionalHeader::parsed_spec(bytes, o);
        header_divides_by_zero(h.section_alignment, h.file_alignment, h.win32_version_value as int, h.size_of_image)
    })
    &&& (optional_magic_of(bytes) == PE32_PLUS_MAGIC ==> {
        let h = Pe32PlusOptionalHeader::parsed_spec(bytes, o);
        header_divides_by_zero(h.section_alignment, h.file_alignment, h.win32_version_value as int, h.size_of_image)
    })
    &&& (optional_magic_of(bytes) == PE32_MAGIC || optional_magic_of(bytes) == PE32_PLUS_MAGIC)
}

/// The error a file is refused with, or none. Headers or tables that would
/// lie past the end of the file make it malformed.
pub open spec fn pe_load_error(bytes: Seq<u8>) -> Option<ExecutableLoadError> {
    let h = pe_header_of(bytes);
    if bytes.len() < 0x40 || pe_offset_of(bytes) > bytes.len() || pe_offset_of(bytes) + 26 > bytes.len() {
        Some(ExecutableLoadError::Malformed)
    } else if h.size_of_optional_header == 0 {
        Some(ExecutableLoadError::Malformed)
    } else if h.machine != PE_IMAGE_FILE_MACHINE_AMD64 {
        Some(ExecutableLoadError::InvalidISA)
    } else if !pe_header_usable(bytes) {
        Some(ExecutableLoadError::Malformed)
    } else if optional_magic_of(bytes) != PE32_MAGIC && optional_magic_of(bytes) != PE32_PLUS_MAGIC {
        Some(ExecutableLoadError::Malformed)
    } else if !optional_header_in_file(bytes) || !optional_header_ok(bytes) {
        Some(ExecutableLoadError::Malformed)
    } else if section_table_offset_of(bytes) + 40 * h.number_of_sections > bytes.len() {
        Some(ExecutableLoadError::Malformed)
    } else {
        None
    }
}

/// The fields of the optional header that the loader keeps, as read from
/// byte `o` of `bytes`.
pub open spec fn optional_header_loaded(u: UnifiedOptionalHeader, bytes: Seq<u8>, o: int, is_64bit: bool) -> bool {
    if is_64bit {
        let h = Pe32PlusOptionalHeader::parsed_spec(bytes, o);
        &&& u.image_base == h.image_base
        &&& u.address_of_entry_point == h.address_of_entry_point
        &&& u.section_alignment == h.section_alignment
        &&& u.file_alignment == h.file_alignment
        &&& u.size_of_image == h.size_of_image
        &&& u.size_of_stack_reserve == h.size_of_stack_reserve
        &&& u.size_of_stack_commit == h.size_of_stack_commit
        &&& u.rva_and_sizes@ == crate::pe::directories_spec(
            bytes,
            o + PE32_PLUS_OPTIONAL_HEADER_SIZE,
            h.number_of_rva_and_sizes as int,
        )
    } else {
        let h = Pe32OptionalHeader::parsed_spec(bytes, o);
        &&& u.image_base == h.image_base as u64
        &&& u.address_of_entry_point == h.address_of_entry_point
        &&& u.section_alignment == h.section_alignment
        &&& u.file_alignment == h.file_alignment
        &&& u.size_of_image == h.size_of_image
        &&& u.size_of_stack_reserve == h.size_of_stack_reserve as u64
        &&& u.size_of_stack_commit == h.size_of_stack_commit as u64
        &&& u.rva_and_sizes@ == crate::pe::directories_spec(
            bytes,
            o + PE32_OPTIONAL_HEADER_SIZE,
            h.number_of_rva_and_sizes as int,
        )
    }
}

/// A PE/COFF image: its file characteristics, optional header, section
/// table, and whether it is a 64-bit image.
pub struct PeCoff {
    pub pe_coff_characteristics: u16,
    pub optional_header: UnifiedOptionalHeader,
    pub section_table: Vec<ImageSectionHeader>,
    pub is_64bit: bool,
}

impl PeCoff {
    /// Whether the checks of the file's optional header would divide by an
    /// alignment of zero; such a file stops the loader.
    pub fn divides_by_zero(bytes: &[u8]) -> (r: bool)
        ensures
            r == pe_divides_by_zero(bytes@),
    {
        let len = bytes.len();
        if len < 0x40 {
            return false;
        }
        let pe_offset = le_u32(bytes, 0x3C) as usize;
        if pe_offset > len || len - pe_offset < 26 {
            return false;
        }
        let h = PeHeader::parse(bytes, pe_offset);
        if h.size_of_optional_header == 0 || h.machine != PE_IMAGE_FILE_MACHINE_AMD64
            || h.characteristics & PE_IMAGE_FILE_EXECUTABLE_IMAGE == 0
            || h.characteristics & PE_IMAGE_FILE_32BIT_MACHINE != 0
            || h.characteristics & PE_IMAGE_FILE_BYTES_REVERSED_HI != 0 {
            return false;
        }
        let magic = le_u16(bytes, pe_offset + 24);
        let o = pe_offset + 26;
        if len - o < h.size_of_optional_header as usize {
            return false;
        }
        if magic == PE32_MAGIC {
            if len - o < PE32_OPTIONAL_HEADER_SIZE {
                return false;
            }
            let oh = Pe32OptionalHeader::parse(bytes, o);
            !(oh.section_alignment != 0x1000 && oh.section_alignment != oh.file_alignment)
                && oh.win32_version_value == 0 && (oh.section_alignment == 0 || (oh.size_of_image
                % oh.section_alignment == 0 && oh.file_alignment == 0))
        } else if magic == PE32_PLUS_MAGIC {
            if len - o < PE32_PLUS_OPTIONAL_HEADER_SIZE {
                return false;
            }
            let oh = Pe32PlusOptionalHeader::parse(bytes, o);
            !(oh.section_alignment != 0x1000 && oh.section_alignment != oh.file_alignment)
                && oh.win32_version_value == 0 && (oh.section_alignment == 0 || (oh.size_of_image
                % oh.section_alignment == 0 && oh.file_alignment == 0))
        } else {
            false
        }
    }

    /// Reads the image in `bytes`: checks the PE header and the optional
    /// header, and reads the section table. Headers or tables that would
    /// lie past the end of the file make it malformed.
    pub fn load(bytes: &[u8]) -> (r: Result<PeCoff, ExecutableLoadError>)
        requires
            bytes@.len() <= u32::MAX,
            !pe_divides_by_zero(bytes@),
        ensures
            pe_load_error(bytes@) matches Some(e) ==> r == Err::<PeCoff, ExecutableLoadError>(e),
            pe_load_error(bytes@) is None ==> (r matches Ok(pe) && {
                let h = pe_header_of(bytes@);
                &&& pe.pe_coff_characteristics == h.characteristics
                &&& pe.is_64bit == (optional_magic_of(bytes@) == PE32_PLUS_MAGIC)
                &&& optional_header_loaded(pe.optional_header, bytes@, optional_offset_of(bytes@), pe.is_64bit)
                &&& section_table_parsed(
                    pe.section_table@,
                    bytes@,
                    section_table_offset_of(bytes@),
                    h.number_of_sections as int,
                )
            }),
    {
        let len = bytes.len();
        if len < 0x40 {
            return Err(ExecutableLoadError::Malformed);
        }
        let pe_offset = le_u32(bytes, 0x3C);
        if pe_offset > len as u32 {
            return Err(ExecutableLoadError::Malformed);
        }
        let pe_offset = pe_offset as usize;
        if len - pe_offset < 26 {
            return Err(ExecutableLoadError::Malformed);
        }
        let h = PeHeader::parse(bytes, pe_offset);
        if h.size_of_optional_header == 0 {
            return Err(ExecutableLoadError::Malformed);
        }
        if h.machine != PE_IMAGE_FILE_MACHINE_AMD64 {
            return Err(ExecutableLoadError::InvalidISA);
        }
        if h.characteristics & PE_IMAGE_FILE_EXECUTABLE_IMAGE == 0
            || h.characteristics & PE_IMAGE_FILE_32BIT_MACHINE != 0
            || h.characteristics & PE_IMAGE_FILE_BYTES_REVERSED_HI != 0 {
            return Err(ExecutableLoadError::Malformed);
        }
        let magic = le_u16(bytes, pe_offset + PE_HEADER_SIZE);
        let o = pe_offset + PE_HEADER_SIZE + 2;
        let size = h.size_of_optional_header as usize;
        if magic != PE32_MAGIC && magic != PE32_PLUS_MAGIC {
            return Err(ExecutableLoadError::Malformed);
        }
        if len - o < size {
            return Err(ExecutableLoadError::Malformed);
        }
        let optional = if magic == PE32_MAGIC {
            if len - o < PE32_OPTIONAL_HEADER_SIZE {
                return Err(ExecutableLoadError::Malformed);
            }
            load_optional_header(size as u64, bytes, o)
        } else {
            if len - o < PE32_PLUS_OPTIONAL_HEADER_SIZE {
                return Err(ExecutableLoadError::Malformed);
            }
            load_plus_optional_header(size as u64, bytes, o)
        };
        let optional_header = match optional {
            Ok(u) => u,
            Err(e) => return Err(e),
        };
        let table = pe_offset + PE_HEADER_SIZE + size;
        if len - table < 40 * (h.number_of_sections as usize) {
            return Err(ExecutableLoadError::Malformed);
        }
        let section_table = parse_section_table(bytes, table, h.number_of_sections);
        Ok(PeCoff { pe_coff_characteristics: h.characteristics, optional_header, section_table, is_64bit: magic == PE32_PLUS_MAGIC })
    }
}

/// Section characteristics the loader looks at.
pub const IMAGE_SCN_TYPE_NO_PAD: u32 = 0x0000_0008;

pub const IMAGE_SCN_CNT_CODE: u32 = 0x0000_0020;

pub const IMAGE_SCN_CNT_INITIALIZED_DATA: u32 = 0x0000_0040;

pub const IMAGE_SCN_CNT_UNINITIALIZED_DATA: u32 = 0x0000_0080;

pub const IMAGE_SCN_LNK_REMOVE: u32 = 0x0000_0800;

pub const IMAGE_SCN_LNK_COMDAT: u32 = 0x0000_1000;

/// All the alignment values an object file's section may name, bits 20..24.
pub const IMAGE_SCN_ALIGN_MASK: u32 = 0x00F0_0000;

pub const IMAGE_SCN_MEM_DISCARDABLE: u32 = 0x0200_0000;

pub const IMAGE_SCN_MEM_NOT_CACHED: u32 = 0x0400_0000;

pub const IMAGE_SCN_MEM_NOT_PAGED: u32 = 0x0800_0000;

pub const IMAGE_SCN_MEM_READ: u32 = 0x4000_0000;

pub const IMAGE_SCN_MEM_WRITE: u32 = 0x8000_0000;

/// Characteristics an image's section may not have: no padding, an
/// alignment, or link-time-only content.
pub const IMAGE_SCN_FORBIDDEN: u32 = 0x00F0_1808;

/// Page flags of a section: user accessible and present, writable if the
/// section is, uncached if it asks for it.
pub open spec fn section_flags(characteristics: u32) -> u16 {
    let writable: int = if characteristics & IMAGE_SCN_MEM_WRITE != 0 {
        2
    } else {
        0
    };
    let uncached: int = if characteristics & IMAGE_SCN_MEM_NOT_CACHED != 0 {
        0x10
    } else {
        0
    };
    (5 + writable + uncached) as u16
}

/// What the loader does with a section: refuse the image, leave the
/// section out of memory, or page it at `image_base` plus its address.
pub open spec fn section_paging_spec(
    s: ImageSectionHeader,
    section_alignment: u32,
    image_base: u64,
) -> Result<Option<crate::pe::ImageSectionPaging>, ExecutableLoadError> {
    if s.characteristics & IMAGE_SCN_FORBIDDEN != 0 {
        Err(ExecutableLoadError::MalformedSection)
    } else if s.virtual_address % section_alignment != 0 {
        Err(ExecutableLoadError::InvalidAlignment)
    } else if s.characteristics & (IMAGE_SCN_MEM_DISCARDABLE | IMAGE_SCN_MEM_NOT_PAGED) != 0
        || s.characteristics & IMAGE_SCN_MEM_READ == 0 {
        Ok(None)
    } else {
        Ok(
            Some(
                crate::pe::ImageSectionPaging {
                    flags: section_flags(s.characteristics),
                    rva: s.virtual_address as u64,
                    va: (image_base + s.virtual_address) as u64,
                },
            ),
        )
    }
}

/// How section `section` of an image with `section_alignment` based at
/// `image_base` is paged: refused when it has forbidden characteristics
/// or an address off the alignment, left out when discardable, not
/// paged or not readable, and otherwise paged at its virtual address.
pub fn section_paging(section: &ImageSectionHeader, section_alignment: u32, image_base: u64) -> (r: Result<Option<crate::pe::ImageSectionPaging>, ExecutableLoadError>)
    requires
        section_alignment != 0,
        image_base + section.virtual_address <= u64::MAX,
    ensures
        r == section_paging_spec(*section, section_alignment, image_base),
{
    if section.characteristics & IMAGE_SCN_FORBIDDEN != 0 {
        return Err(ExecutableLoadError::MalformedSection);
    }
    if section.virtual_address % section_alignment != 0 {
        return Err(ExecutableLoadError::InvalidAlignment);
    }
    if section.characteristics & (IMAGE_SCN_MEM_DISCARDABLE | IMAGE_SCN_MEM_NOT_PAGED) != 0
        || section.characteristics & IMAGE_SCN_MEM_READ == 0 {
        return Ok(None);
    }
    let mut flags: u16 = 5;
    if section.characteristics & IMAGE_SCN_MEM_WRITE != 0 {
        flags = flags + 2;
    }
    if section.characteristics & IMAGE_SCN_MEM_NOT_CACHED != 0 {
        flags = flags + 0x10;
    }
    Ok(
        Some(
            crate::pe::ImageSectionPaging {
                flags,
                rva: section.virtual_address as u64,
                va: image_base + section.virtual_address as u64,
            },
        ),
    )
}

/// A section that is paged is mapped present (bit 0) and user accessible
/// (bit 2), writable (bit 1) exactly when its characteristics have the
/// write bit `0x8000_0000`, uncached (bit 4) exactly when they have the
/// not-cached bit `0x0400_0000`, with no other flag; it is readable (bit
/// `0x4000_0000`) and lies at the image base plus its address.
pub proof fn lemma_section_paging_flags(s: ImageSectionHeader, section_alignment: u32, image_base: u64)
    requires
        image_base + s.virtual_address <= u64::MAX,
    ensures
        section_paging_spec(s, section_alignment, image_base) matches Ok(Some(p)) ==> {
            &&& p.flags % 2 == 1
            &&& (p.flags / 4) % 2 == 1
            &&& ((p.flags / 2) % 2 == 1) == (s.characteristics & 0x8000_0000u32 != 0)
            &&& ((p.flags / 16) % 2 == 1) == (s.characteristics & 0x0400_0000u32 != 0)
            &&& p.flags == 5 + 2 * ((p.flags / 2) % 2) + 16 * ((p.flags / 16) % 2)
            &&& s.characteristics & 0x4000_0000u32 != 0
            &&& p.rva == s.virtual_address
            &&& p.va == image_base + s.virtual_address
        },
{
}

/// What loading a paged section takes: whether it has contents at all
/// (code or data), the pages of memory for its virtual size, whether it
/// is mapped with large pages (more than 2 MiB), the bytes copied from the
/// file (code or initialized data only: the smaller of its raw and virtual
/// size), and the bytes zeroed after them.
#[derive(Clone, Copy, PartialEq, Eq, Structural, Debug)]
pub struct SectionLoad {
    pub has_contents: bool,
    pub pages: u32,
    pub efficient: bool,
    pub copy_length: u32,
    pub zero_length: u32,
}

pub open spec fn section_load_spec(s: ImageSectionHeader) -> SectionLoad {
    let copies = s.characteristics & (IMAGE_SCN_CNT_INITIALIZED_DATA | IMAGE_SCN_CNT_CODE) != 0;
    SectionLoad {
        has_contents: s.characteristics & (IMAGE_SCN_CNT_UNINITIALIZED_DATA | IMAGE_SCN_CNT_CODE
            | IMAGE_SCN_CNT_INITIALIZED_DATA) != 0,
        pages: (s.virtual_size / 0x1000 + if s.virtual_size % 0x1000 != 0 {
            1int
        } else {
            0int
        }) as u32,
        efficient: s.virtual_size > 0x200000,
        copy_length: if !copies {
            0
        } else if s.virtual_size > s.size_of_raw_data {
            s.size_of_raw_data
        } else {
            s.virtual_size
        },
        zero_length: if copies && s.virtual_size > s.size_of_raw_data {
            (s.virtual_size - s.size_of_raw_data) as u32
        } else {
            0
        },
    }
}

/// What loading section `section` takes.
pub fn section_load(section: &ImageSectionHeader) -> (r: SectionLoad)
    ensures
        r == section_load_spec(*section),
{
    let has_contents = section.characteristics & (IMAGE_SCN_CNT_UNINITIALIZED_DATA | IMAGE_SCN_CNT_CODE
        | IMAGE_SCN_CNT_INITIALIZED_DATA) != 0;
    let mut pages = section.virtual_size / 0x1000;
    if section.virtual_size % 0x1000 != 0 {
        pages = pages + 1;
    }
    let copies = section.characteristics & (IMAGE_SCN_CNT_INITIALIZED_DATA | IMAGE_SCN_CNT_CODE) != 0;
    let mut copy_length: u32 = 0;
    let mut zero_length: u32 = 0;
    if copies {
        if section.virtual_size > section.size_of_raw_data {
            copy_length = section.size_of_raw_data;
            zero_length = section.virtual_size - section.size_of_raw_data;
        } else {
            copy_length = section.virtual_size;
        }
    }
    SectionLoad { has_contents, pages, efficient: section.virtual_size > 0x200000, copy_length, zero_length }
}

/// Block `b` ends at `address`.
pub open spec fn block_ends_at(b: MemoryBlock, address: u64) -> bool {
    b.base + b.length == address
}

/// Records the block of `length` bytes at `base` in the list `blocks`,
/// whose entries from `from` up to `*count` were recorded by this load: the
/// first of them that ends at `base` grows by `length`, else the block is
/// put at `*count` and `*count` grows by one. Gives the index of the block
/// that grew, if any.
pub fn record_block(blocks: &mut Vec<MemoryBlock>, from: u32, count: &mut u32, base: u64, length: u64) -> (r: Option<u32>)
    requires
        from <= *old(count) <= old(blocks)@.len(),
        forall|i: int| from <= i < *old(count) ==> (#[trigger] old(blocks)@[i]).base + old(blocks)@[i].length <= u64::MAX,
        forall|i: int| from <= i < *old(count) ==> (#[trigger] old(blocks)@[i]).length + length <= u64::MAX,
        (forall|i: int| from <= i < *old(count) ==> !block_ends_at(#[trigger] old(blocks)@[i], base))
            ==> *old(count) < old(blocks)@.len() && *old(count) < u32::MAX,
    ensures
        match r {
            Some(i) => {
                &&& from <= i < *old(count)
                &&& block_ends_at(old(blocks)@[i as int], base)
                &&& forall|j: int| from <= j < i ==> !block_ends_at(#[trigger] old(blocks)@[j], base)
                &&& final(blocks)@ == old(blocks)@.update(
                    i as int,
                    MemoryBlock { base: old(blocks)@[i as int].base, length: (old(blocks)@[i as int].length + length) as u64 },
                )
                &&& *final(count) == *old(count)
            },
            None => {
                &&& forall|j: int| from <= j < *old(count) ==> !block_ends_at(#[trigger] old(blocks)@[j], base)
                &&& final(blocks)@ == old(blocks)@.update(*old(count) as int, MemoryBlock { base, length })
                &&& *final(count) == *old(count) + 1
            },
        },
{
    let mut i: u32 = from;
    while i < *count
        invariant
            from <= i <= *count,
            *count <= blocks@.len(),
            blocks@ == old(blocks)@,
            *count == *old(count),
            forall|k: int| from <= k < *old(count) ==> (#[trigger] old(blocks)@[k]).base + old(blocks)@[k].length <= u64::MAX,
            forall|k: int| from <= k < *old(count) ==> (#[trigger] old(blocks)@[k]).length + length <= u64::MAX,
            forall|j: int| from <= j < i ==> !block_ends_at(#[trigger] old(blocks)@[j], base),
        decreases *count - i,
    {
        let b = blocks[i as usize];
        if b.end() == base {
            blocks.set(i as usize, MemoryBlock { base: b.base, length: b.length + length });
            return Some(i);
        }
        i = i + 1;
    }
    let c = *count;
    blocks.set(c as usize, MemoryBlock { base, length });
    *count = c + 1;
    None
}

/// The stack the image asks for fits in 64 MiB, committed and reserved.
pub open spec fn stack_fits(optional_header: UnifiedOptionalHeader) -> bool {
    optional_header.size_of_stack_commit <= 0x200000 * 32 && optional_header.size_of_stack_reserve <= 0x200000 * 32
}

/// Where a loaded image starts running and where its stack lies: the
/// stack grows down from `stack_top`, its committed part is mapped from
/// `stack_map_vaddr` on, and it may grow down to `rsp_max`.
#[derive(Clone, Copy, PartialEq, Eq, Structural, Debug)]
pub struct ImageEntry {
    pub entry_point: u64,
    pub rbp_default: u64,
    pub rsp_max: u64,
    pub stack_map_vaddr: u64,
}

/// The entry of an image with `optional_header` whose stack tops out at
/// `stack_top`: the entry point is the image base plus the entry address,
/// the frame starts at the stack top, and the stack's lowest address is the
/// top less the reserved size.
pub fn image_entry(optional_header: &UnifiedOptionalHeader, stack_top: u64) -> (r: ImageEntry)
    requires
        optional_header.image_base + optional_header.address_of_entry_point <= u64::MAX,
        optional_header.size_of_stack_reserve <= stack_top,
        optional_header.size_of_stack_commit <= stack_top,
    ensures
        r == (ImageEntry {
            entry_point: (optional_header.image_base + optional_header.address_of_entry_point) as u64,
            rbp_default: stack_top,
            rsp_max: (stack_top - optional_header.size_of_stack_reserve) as u64,
            stack_map_vaddr: (stack_top - optional_header.size_of_stack_commit) as u64,
        }),
{
    ImageEntry {
        entry_point: optional_header.image_base + optional_header.address_of_entry_point as u64,
        rbp_default: stack_top,
        rsp_max: stack_top - optional_header.size_of_stack_reserve,
        stack_map_vaddr: stack_top - optional_header.size_of_stack_commit,
    }
}

/// Whether a DLL can be bound where its own page tables put it: where that
/// range is taken already, a DLL without relocations cannot be moved and
/// the import fails; one with relocations is to be moved (`Ok(true)`).
pub fn dll_placement(occupied: bool, num_relocations: u32) -> (r: Result<bool, ExecutableLoadError>)
    ensures
        r == if !occupied {
            Ok::<bool, ExecutableLoadError>(false)
        } else if num_relocations == 0 {
            Err(ExecutableLoadError::DependencyImportFailed)
        } else {
            Ok(true)
        },
{
    if !occupied {
        Ok(false)
    } else if num_relocations == 0 {
        Err(ExecutableLoadError::DependencyImportFailed)
    } else {
        Ok(true)
    }
}

/// Refuses an image whose stack, committed or reserved, is over 64 MiB.
pub fn check_stack(optional_header: &UnifiedOptionalHeader) -> (r: Option<ExecutableLoadError>)
    ensures
        r == if stack_fits(*optional_header) {
            None::<ExecutableLoadError>
        } else {
            Some(ExecutableLoadError::Malformed)
        },
{
    if optional_header.size_of_stack_commit > 0x200000 * 32 || optional_header.size_of_stack_reserve > 0x200000 * 32 {
        Some(ExecutableLoadError::Malformed)
    } else {
        None
    }
}

/// `x` rounded up to a multiple of 2 MiB.
pub open spec fn round_up_2mib(x: int) -> int {
    if x % 0x200000 != 0 {
        x + 0x200000 - x % 0x200000
    } else {
        x
    }
}

/// The end of the memory of an image: its base plus the end of its last
/// section, rounded up to 2 MiB.
pub fn image_memory_end(image_base: u64, sections: &Vec<ImageSectionHeader>) -> (r: u64)
    requires
        sections@.len() > 0,
        image_base + sections@.last().virtual_address + sections@.last().virtual_size + 0x200000 <= u64::MAX,
    ensures
        r == round_up_2mib(image_base + sections@.last().virtual_address + sections@.last().virtual_size),
{
    let last = &sections[sections.len() - 1];
    let mut mem_end = image_base + last.virtual_address as u64 + last.virtual_size as u64;
    if mem_end % 0x200000 != 0 {
        mem_end = mem_end + (0x200000 - mem_end % 0x200000);
    }
    mem_end
}

/// The first section that holds relative address `rva`, if any.
pub open spec fn section_of(sections: Seq<ImageSectionHeader>, rva: int) -> Option<ImageSectionHeader> {
    if exists|i: int| first_covering_at(sections, rva, i) {
        Some(sections[choose|i: int| first_covering_at(sections, rva, i)])
    } else {
        None
    }
}

/// Where relative address `rva` lies in the file: in the first section
/// that holds it, at the section's file offset plus the distance from the
/// section's start; `None` when no section holds it.
pub open spec fn file_offset_of(sections: Seq<ImageSectionHeader>, rva: int) -> Option<int> {
    match section_of(sections, rva) {
        Some(s) => Some(s.pointer_to_raw_data + (rva - s.virtual_address)),
        None => None,
    }
}

proof fn lemma_first_covering_unique(sections: Seq<ImageSectionHeader>, rva: int, i: int, k: int)
    requires
        first_covering_at(sections, rva, i),
        first_covering_at(sections, rva, k),
    ensures
        i == k,
{
    if i < k {
        assert(!section_covers(sections[i], rva));
    } else if k < i {
        assert(!section_covers(sections[k], rva));
    }
}

proof fn lemma_section_of(sections: Seq<ImageSectionHeader>, rva: int, r: Option<usize>)
    requires
        match r {
            Some(i) => first_covering_at(sections, rva, i as int),
            None => forall|j: int| 0 <= j < sections.len() ==> !section_covers(#[trigger] sections[j], rva),
        },
    ensures
        section_of(sections, rva) == match r {
            Some(i) => Some(sections[i as int]),
            None => None::<ImageSectionHeader>,
        },
{
    match r {
        Some(i) => {
            let k = choose|k: int| first_covering_at(sections, rva, k);
            lemma_first_covering_unique(sections, rva, i as int, k);
        },
        None => {
            if exists|k: int| first_covering_at(sections, rva, k) {
                let k = choose|k: int| first_covering_at(sections, rva, k);
                assert(!section_covers(sections[k], rva));
            }
        },
    }
}

/// The first section that holds relative address `rva`.
pub fn section_for_rva(rva: u32, sections: &Vec<ImageSectionHeader>) -> (r: Option<ImageSectionHeader>)
    ensures
        r == section_of(sections@, rva as int),
{
    let found = find_section_for_rva(rva, sections);
    proof {
        lemma_section_of(sections@, rva as int, found);
    }
    match found {
        Some(i) => Some(sections[i]),
        None => None,
    }
}

/// Where relative address `rva` lies in the file.
pub fn rva_to_file_offset(rva: u32, sections: &Vec<ImageSectionHeader>) -> (r: Option<u64>)
    ensures
        r matches Some(o) ==> file_offset_of(sections@, rva as int) == Some(o as int),
        r is None ==> file_offset_of(sections@, rva as int) is None,
{
    match section_for_rva(rva, sections) {
        Some(s) => Some(s.pointer_to_raw_data as u64 + (rva - s.virtual_address) as u64),
        None => None,
    }
}

/// The `n` 32-bit values laid out from byte `off`.
pub open spec fn u32_table(bytes: Seq<u8>, off: int, n: int) -> Seq<u32> {
    Seq::new(n as nat, |i: int| le_u32_spec(bytes, off + 4 * i))
}

/// The `n` 16-bit values laid out from byte `off`.
pub open spec fn u16_table(bytes: Seq<u8>, off: int, n: int) -> Seq<u16> {
    Seq::new(n as nat, |i: int| le_u16_spec(bytes, off + 2 * i))
}

/// Reads `n` 32-bit values from byte `off`, if they lie in the file.
pub fn read_u32_table(bytes: &[u8], off: u64, n: u32) -> (r: Option<Vec<u32>>)
    ensures
        off + 4 * n <= bytes@.len() ==> (r matches Some(v) && v@ == u32_table(bytes@, off as int, n as int)),
        off + 4 * n > bytes@.len() ==> r is None,
{
    let len = bytes.len();
    if (len as u64) < off {
        return None;
    }
    let avail: u64 = len as u64 - off;
    if avail / 4 < n as u64 {
        proof {
            if off + 4 * n <= bytes@.len() {
                assert(avail / 4 >= n) by (nonlinear_arith)
                    requires
                        4 * n <= avail,
                ;
            }
        }
        return None;
    }
    assert(4 * n <= avail) by (nonlinear_arith)
        requires
            avail / 4 >= n,
    ;
    let mut v: Vec<u32> = Vec::new();
    let mut i: u32 = 0;
    while i < n
        invariant
            len == bytes@.len(),
            off + 4 * n <= bytes@.len(),
            i <= n,
            v@ == u32_table(bytes@, off as int, i as int),
        decreases n - i,
    {
        v.push(le_u32(bytes, off as usize + 4 * (i as usize)));
        i = i + 1;
        assert(v@ =~= u32_table(bytes@, off as int, i as int));
    }
    Some(v)
}

/// Reads `n` 16-bit values from byte `off`, if they lie in the file.
pub fn read_u16_table(bytes: &[u8], off: u64, n: u32) -> (r: Option<Vec<u16>>)
    ensures
        off + 2 * n <= bytes@.len() ==> (r matches Some(v) && v@ == u16_table(bytes@, off as int, n as int)),
        off + 2 * n > bytes@.len() ==> r is None,
{
    let len = bytes.len();
    if (len as u64) < off {
        return None;
    }
    let avail: u64 = len as u64 - off;
    if avail / 2 < n as u64 {
        proof {
            if off + 2 * n <= bytes@.len() {
                assert(avail / 2 >= n) by (nonlinear_arith)
                    requires
                        2 * n <= avail,
                ;
            }
        }
        return None;
    }
    assert(2 * n <= avail) by (nonlinear_arith)
        requires
            avail / 2 >= n,
    ;
    let mut v: Vec<u16> = Vec::new();
    let mut i: u32 = 0;
    while i < n
        invariant
            len == bytes@.len(),
            off + 2 * n <= bytes@.len(),
            i <= n,
            v@ == u16_table(bytes@, off as int, i as int),
        decreases n - i,
    {
        v.push(le_u16(bytes, off as usize + 2 * (i as usize)));
        i = i + 1;
        assert(v@ =~= u16_table(bytes@, off as int, i as int));
    }
    Some(v)
}

/// The length of the string of bytes that starts at `off` and ends at the
/// first zero byte: `None` when no zero byte follows in the file.
pub open spec fn c_string_length_spec(bytes: Seq<u8>, off: int, r: Option<usize>) -> bool {
    match r {
        Some(n) => off + n < bytes.len() && bytes[off + n] == 0 && forall|k: int|
            off <= k < off + n ==> #[trigger] bytes[k] != 0,
        None => forall|k: int| off <= k < bytes.len() ==> #[trigger] bytes[k] != 0,
    }
}

/// The length of the zero-terminated string at byte `off`.
pub fn c_string_length(bytes: &[u8], off: u64) -> (r: Option<usize>)
    ensures
        c_string_length_spec(bytes@, off as int, r),
{
    let len = bytes.len();
    if off >= len as u64 {
        return None;
    }
    let start = off as usize;
    let mut i: usize = start;
    while i < len
        invariant
            len == bytes@.len(),
            start == off,
            start <= i <= len,
            forall|k: int| start <= k < i ==> #[trigger] bytes@[k] != 0,
        decreases len - i,
    {
        if bytes[i] == 0 {
            return Some(i - start);
        }
        i = i + 1;
    }
    None
}

/// The export data of a library: the address of each export, the name
/// pointers and ordinals of the named ones, the library's name and the
/// first ordinal.
pub struct PeEdata {
    pub export_address_table: Vec<u32>,
    pub name_pointer_table: Vec<u32>,
    pub ordinal_table: Vec<u16>,
    pub name: Vec<u8>,
    pub ordinal_base: u32,
}

/// Where the export directory and the tables it names lie in the file:
/// `(directory, address table, ordinal table, name pointer table, name)`,
/// or why the image is refused. The directory must lie in a section that
/// starts on a file alignment boundary, in the file, with no flags.
pub open spec fn edata_spec(
    sections: Seq<ImageSectionHeader>,
    entry: ImageDataDirectory,
    file_alignment: u32,
    bytes: Seq<u8>,
) -> Result<(int, int, int, int, int), ExecutableLoadError> {
    match section_of(sections, entry.virtual_address as int) {
        None => Err(ExecutableLoadError::MissingSection),
        Some(sec) => if sec.pointer_to_raw_data % file_alignment != 0 {
            Err(ExecutableLoadError::MissingSection)
        } else {
            let off = sec.pointer_to_raw_data + (entry.virtual_address - sec.virtual_address);
            if off + 40 > bytes.len() {
                Err(ExecutableLoadError::Malformed)
            } else {
                let d = crate::pe::ExportDirectoryTable::parsed_spec(bytes, off);
                if d.export_flags != 0 {
                    Err(ExecutableLoadError::Malformed)
                } else {
                    match (
                        file_offset_of(sections, d.export_address_table_pointer_rva as int),
                        file_offset_of(sections, d.ordinal_table_rva as int),
                        file_offset_of(sections, d.name_pointer_rva as int),
                        file_offset_of(sections, d.name_rva as int),
                    ) {
                        (None, _, _, _) => Err(ExecutableLoadError::Malformed),
                        (Some(_), None, _, _) => Err(ExecutableLoadError::Malformed),
                        (Some(_), Some(_), None, _) => Err(ExecutableLoadError::MissingSection),
                        (Some(_), Some(_), Some(_), None) => Err(ExecutableLoadError::Malformed),
                        (Some(e), Some(o), Some(np), Some(nm)) => Ok((off, e, o, np, nm)),
                    }
                }
            }
        },
    }
}

/// The tables of the export directory at `d` lie in the file.
pub open spec fn edata_tables_fit(d: crate::pe::ExportDirectoryTable, e: int, o: int, np: int, bytes: Seq<u8>) -> bool {
    &&& e + 4 * d.address_table_entries <= bytes.len()
    &&& o + 2 * d.number_of_name_pointers <= bytes.len()
    &&& np + 4 * d.number_of_name_pointers <= bytes.len()
}

impl PeCoff {
    /// Reads the export data of a library image in `bytes`, as the first
    /// entry of its data directory locates it. Tables or a name that would
    /// run past the end of the file make it malformed.
    pub fn load_edata(&self, bytes: &[u8]) -> (r: Result<PeEdata, ExecutableLoadError>)
        requires
            self.optional_header.rva_and_sizes@.len() >= 1,
            self.optional_header.file_alignment != 0,
        ensures
            match edata_spec(
                self.section_table@,
                self.optional_header.rva_and_sizes@[0],
                self.optional_header.file_alignment,
                bytes@,
            ) {
                Err(err) => r == Err::<PeEdata, ExecutableLoadError>(err),
                Ok((off, e, o, np, nm)) => {
                    let d = crate::pe::ExportDirectoryTable::parsed_spec(bytes@, off);
                    if !edata_tables_fit(d, e, o, np, bytes@) || c_string_length_spec(bytes@, nm, None) {
                        r == Err::<PeEdata, ExecutableLoadError>(ExecutableLoadError::Malformed)
                    } else {
                        r matches Ok(x) && {
                            &&& x.export_address_table@ == u32_table(bytes@, e, d.address_table_entries as int)
                            &&& x.ordinal_table@ == u16_table(bytes@, o, d.number_of_name_pointers as int)
                            &&& x.name_pointer_table@ == u32_table(bytes@, np, d.number_of_name_pointers as int)
                            &&& c_string_length_spec(bytes@, nm, Some(x.name@.len() as usize))
                            &&& x.name@ == bytes@.subrange(nm, nm + x.name@.len())
                            &&& x.ordinal_base == d.ordinal_base
                        }
                    }
                },
            },
    {
        let len = bytes.len();
        let entry = self.optional_header.rva_and_sizes[0];
        let sec = match section_for_rva(entry.virtual_address, &self.section_table) {
            Some(sec) => sec,
            None => return Err(ExecutableLoadError::MissingSection),
        };
        if sec.pointer_to_raw_data % self.optional_header.file_alignment != 0 {
            return Err(ExecutableLoadError::MissingSection);
        }
        let off: u64 = sec.pointer_to_raw_data as u64 + (entry.virtual_address - sec.virtual_address) as u64;
        if off > len as u64 || len as u64 - off < 40 {
            return Err(ExecutableLoadError::Malformed);
        }
        let d = crate::pe::ExportDirectoryTable::parse(bytes, off as usize);
        if d.export_flags != 0 {
            return Err(ExecutableLoadError::Malformed);
        }
        let e = match rva_to_file_offset(d.export_address_table_pointer_rva, &self.section_table) {
            Some(e) => e,
            None => return Err(ExecutableLoadError::Malformed),
        };
        let o = match rva_to_file_offset(d.ordinal_table_rva, &self.section_table) {
            Some(o) => o,
            None => return Err(ExecutableLoadError::Malformed),
        };
        let np = match rva_to_file_offset(d.name_pointer_rva, &self.section_table) {
            Some(np) => np,
            None => return Err(ExecutableLoadError::MissingSection),
        };
        let nm = match rva_to_file_offset(d.name_rva, &self.section_table) {
            Some(nm) => nm,
            None => return Err(ExecutableLoadError::Malformed),
        };
        let name_length = match c_string_length(bytes, nm) {
            Some(n) => n,
            None => {
                proof {
                    assert(c_string_length_spec(bytes@, nm as int, None));
                }
                return Err(ExecutableLoadError::Malformed);
            },
        };
        let export_address_table = match read_u32_table(bytes, e, d.address_table_entries) {
            Some(t) => t,
            None => return Err(ExecutableLoadError::Malformed),
        };
        let ordinal_table = match read_u16_table(bytes, o, d.number_of_name_pointers) {
            Some(t) => t,
            None => return Err(ExecutableLoadError::Malformed),
        };
        let name_pointer_table = match read_u32_table(bytes, np, d.number_of_name_pointers) {
            Some(t) => t,
            None => return Err(ExecutableLoadError::Malformed),
        };
        let mut name: Vec<u8> = Vec::new();
        let start = nm as usize;
        let mut i: usize = 0;
        while i < name_length
            invariant
                len == bytes@.len(),
                start == nm,
                start + name_length < len,
                i <= name_length,
                name@ == bytes@.subrange(start as int, start + i),
            decreases name_length - i,
        {
            name.push(bytes[start + i]);
            i = i + 1;
            assert(name@ =~= bytes@.subrange(start as int, start + i));
        }
        proof {
            if c_string_length_spec(bytes@, nm as int, None) {
                assert(bytes@[nm + name_length] != 0);
            }
        }
        Ok(PeEdata { export_address_table, name_pointer_table, ordinal_table, name, ordinal_base: d.ordinal_base })
    }
}

/// What the name an export name pointer points at says about a name
/// looked for: no section holds it, it is that name, or it differs.
#[derive(Clone, Copy, PartialEq, Eq, Structural, Debug)]
pub enum NameCheck {
    Missing,
    Match,
    Differs,
}

/// The zero-terminated string at byte `off` is `name`.
pub open spec fn name_at_is(bytes: Seq<u8>, off: int, name: Seq<u8>) -> bool {
    &&& off + name.len() < bytes.len()
    &&& bytes.subrange(off, off + name.len()) == name
    &&& bytes[off + name.len()] == 0
    &&& forall|k: int| 0 <= k < name.len() ==> #[trigger] name[k] != 0
}

pub open spec fn name_check_spec(bytes: Seq<u8>, sections: Seq<ImageSectionHeader>, name_rva: u32, name: Seq<u8>) -> NameCheck {
    match file_offset_of(sections, name_rva as int) {
        None => NameCheck::Missing,
        Some(off) => if name_at_is(bytes, off, name) {
            NameCheck::Match
        } else {
            NameCheck::Differs
        },
    }
}

/// Compares the name at relative address `name_rva` of the image in
/// `bytes` with `name`.
pub fn check_export_name(bytes: &[u8], sections: &Vec<ImageSectionHeader>, name_rva: u32, name: &[u8]) -> (r: NameCheck)
    ensures
        r == name_check_spec(bytes@, sections@, name_rva, name@),
{
    let len = bytes.len();
    let off = match rva_to_file_offset(name_rva, sections) {
        Some(off) => off,
        None => return NameCheck::Missing,
    };
    let n = match c_string_length(bytes, off) {
        Some(n) => n,
        None => {
            proof {
                if name_at_is(bytes@, off as int, name@) {
                    assert(bytes@[off + name@.len()] == 0);
                }
            }
            return NameCheck::Differs;
        },
    };
    if n != name.len() {
        proof {
            if name_at_is(bytes@, off as int, name@) {
                if name@.len() < n {
                    assert(bytes@[off + name@.len()] != 0);
                } else {
                    assert(bytes@[off + n] == bytes@.subrange(off as int, off + name@.len())[n as int]);
                }
            }
        }
        return NameCheck::Differs;
    }
    assert(off + n < len);
    let start = off as usize;
    let mut i: usize = 0;
    while i < n
        invariant
            len == bytes@.len(),
            file_offset_of(sections@, name_rva as int) == Some(off as int),
            bytes@.len() > start + n,
            start == off,
            n == name@.len(),
            c_string_length_spec(bytes@, off as int, Some(n)),
            i <= n,
            forall|k: int| 0 <= k < i ==> bytes@[start + k] == #[trigger] name@[k],
        decreases n - i,
    {
        if bytes[start + i] != name[i] {
            proof {
                if name_at_is(bytes@, off as int, name@) {
                    assert(bytes@[start + i] == bytes@.subrange(off as int, off + name@.len())[i as int]);
                }
            }
            return NameCheck::Differs;
        }
        i = i + 1;
    }
    proof {
        assert(bytes@.subrange(off as int, off + name@.len()) =~= name@);
        assert forall|k: int| 0 <= k < name@.len() implies #[trigger] name@[k] != 0 by {
            assert(bytes@[start + k] != 0);
        }
    }
    NameCheck::Match
}

/// The name pointer `i` is the first that settles the search for `name`:
/// its name is missing or matches, and all before it differ.
pub open spec fn first_settling(
    bytes: Seq<u8>,
    sections: Seq<ImageSectionHeader>,
    npt: Seq<u32>,
    name: Seq<u8>,
    i: int,
) -> bool {
    &&& 0 <= i < npt.len()
    &&& name_check_spec(bytes, sections, npt[i], name) != NameCheck::Differs
    &&& forall|j: int| 0 <= j < i ==> name_check_spec(bytes, sections, #[trigger] npt[j], name) == NameCheck::Differs
}

/// The index of the export named `name`: the hinted name pointer if it
/// matches; else the first name pointer that matches, unless one before
/// it points at no section. A hinted name pointer that points at no
/// section ends the search too.
pub open spec fn export_index(
    bytes: Seq<u8>,
    sections: Seq<ImageSectionHeader>,
    npt: Seq<u32>,
    hint: u16,
    name: Seq<u8>,
) -> Option<int> {
    let hinted = (npt.len() as u16) > hint;
    if hinted && name_check_spec(bytes, sections, npt[hint as int], name) == NameCheck::Missing {
        None
    } else if hinted && name_check_spec(bytes, sections, npt[hint as int], name) == NameCheck::Match {
        Some(hint as int)
    } else if exists|i: int| first_settling(bytes, sections, npt, name, i) {
        let i = choose|i: int| first_settling(bytes, sections, npt, name, i);
        if name_check_spec(bytes, sections, npt[i], name) == NameCheck::Match {
            Some(i)
        } else {
            None
        }
    } else {
        None
    }
}

proof fn lemma_first_settling_unique(
    bytes: Seq<u8>,
    sections: Seq<ImageSectionHeader>,
    npt: Seq<u32>,
    name: Seq<u8>,
    i: int,
    k: int,
)
    requires
        first_settling(bytes, sections, npt, name, i),
        first_settling(bytes, sections, npt, name, k),
    ensures
        i == k,
{
    if i < k {
        assert(name_check_spec(bytes, sections, npt[i], name) == NameCheck::Differs);
    } else if k < i {
        assert(name_check_spec(bytes, sections, npt[k], name) == NameCheck::Differs);
    }
}

/// The part of a relocation table the loader records: where its blocks
/// start in the file and how many there are.
pub struct PeRelocInformation {
    pub relocations: u64,
    pub num_relocations: u32,
}

/// A system library loaded for an image: its export data, section table,
/// relocations, base address and the pager of its own address space.
pub struct NtDll {
    pub export_data: PeEdata,
    pub section_table: Vec<ImageSectionHeader>,
    pub reloc_information: PeRelocInformation,
    pub image_base: u64,
    pub pager: crate::pager::Pager,
}

impl NtDll {
    /// The relative address of the export named `import_name`, looked up
    /// in the library's file `bytes`: first at name pointer `hint`, then
    /// through all name pointers.
    pub fn get_export(&self, bytes: &[u8], hint: u16, import_name: &[u8]) -> (r: Option<u64>)
        requires
            export_index(
                bytes@,
                self.section_table@,
                self.export_data.name_pointer_table@,
                hint,
                import_name@,
            ) matches Some(i) ==> i < self.export_data.export_address_table@.len(),
        ensures
            r == match export_index(
                bytes@,
                self.section_table@,
                self.export_data.name_pointer_table@,
                hint,
                import_name@,
            ) {
                Some(i) => Some(self.export_data.export_address_table@[i] as u64),
                None => None,
            },
    {
        let npt = &self.export_data.name_pointer_table;
        if (npt.len() as u16) > hint {
            let check = check_export_name(bytes, &self.section_table, npt[hint as usize], import_name);
            if check == NameCheck::Missing {
                return None;
            }
            if check == NameCheck::Match {
                return Some(self.export_data.export_address_table[hint as usize] as u64);
            }
        }
        let mut i: usize = 0;
        while i < npt.len()
            invariant
                npt == &self.export_data.name_pointer_table,
                (npt@.len() as u16) > hint ==> name_check_spec(bytes@, self.section_table@, npt@[hint as int], import_name@)
                    == NameCheck::Differs,
                export_index(bytes@, self.section_table@, npt@, hint, import_name@) matches Some(k) ==> k
                    < self.export_data.export_address_table@.len(),
                i <= npt@.len(),
                forall|j: int|
                    0 <= j < i ==> name_check_spec(bytes@, self.section_table@, #[trigger] npt@[j], import_name@)
                        == NameCheck::Differs,
            decreases npt@.len() - i,
        {
            let check = check_export_name(bytes, &self.section_table, npt[i], import_name);
            if check != NameCheck::Differs {
                proof {
                    assert(first_settling(bytes@, self.section_table@, npt@, import_name@, i as int));
                    let k = choose|k: int| first_settling(bytes@, self.section_table@, npt@, import_name@, k);
                    lemma_first_settling_unique(bytes@, self.section_table@, npt@, import_name@, i as int, k);
                }
                if check == NameCheck::Missing {
                    return None;
                }
                return Some(self.export_data.export_address_table[i] as u64);
            }
            i = i + 1;
        }
        proof {
            if exists|k: int| first_settling(bytes@, self.section_table@, npt@, import_name@, k) {
                let k = choose|k: int| first_settling(bytes@, self.section_table@, npt@, import_name@, k);
                assert(name_check_spec(bytes@, self.section_table@, npt@[k], import_name@) == NameCheck::Differs);
            }
        }
        None
    }
}

/// The import directory entry at byte `off` ends the table.
pub open spec fn import_entry_ends(bytes: Seq<u8>, off: int) -> bool {
    let e = crate::pe::ImportDirectoryTable::parsed_spec(bytes, off);
    e.import_address_table_rva == 0 && e.time_data_stamp == 0 && e.forwarder_chain == 0 && e.name_rva == 0
}

/// The import directory of an image: where its entries start in the file,
/// and how many there are before the entry that ends it.
#[derive(Clone, Copy, PartialEq, Eq, Structural, Debug)]
pub struct PeIdata {
    pub length: u32,
    pub pointer: u64,
}

impl PeCoff {
    /// Finds the import directory of the image in `bytes`, as the second
    /// entry of its data directory locates it, and counts its entries up
    /// to the one that ends it. A directory that runs past the end of the
    /// file is malformed.
    pub fn load_idata(&self, bytes: &[u8]) -> (r: Result<PeIdata, ExecutableLoadError>)
        requires
            self.optional_header.rva_and_sizes@.len() >= 2,
            bytes@.len() <= u32::MAX,
        ensures
            match file_offset_of(self.section_table@, self.optional_header.rva_and_sizes@[1].virtual_address as int) {
                None => r == Err::<PeIdata, ExecutableLoadError>(ExecutableLoadError::MissingSection),
                Some(off) => match r {
                    Ok(idata) => {
                        &&& idata.pointer == off
                        &&& off + 20 * idata.length + 20 <= bytes@.len()
                        &&& import_entry_ends(bytes@, off + 20 * idata.length)
                        &&& forall|k: int| 0 <= k < idata.length ==> !#[trigger] import_entry_ends(bytes@, off + 20 * k)
                    },
                    Err(e) => {
                        &&& e == ExecutableLoadError::Malformed
                        &&& forall|k: int| 0 <= k && off + 20 * k + 20 <= bytes@.len() ==> !#[trigger] import_entry_ends(bytes@, off + 20 * k)
                    },
                },
            },
    {
        let len = bytes.len();
        let entry = self.optional_header.rva_and_sizes[1];
        let off = match rva_to_file_offset(entry.virtual_address, &self.section_table) {
            Some(off) => off,
            None => return Err(ExecutableLoadError::MissingSection),
        };
        let mut length: u32 = 0;
        let mut at: u64 = off;
        loop
            invariant
                len == bytes@.len(),
                len <= u32::MAX,
                self.optional_header.rva_and_sizes@.len() >= 2,
                file_offset_of(self.section_table@, self.optional_header.rva_and_sizes@[1].virtual_address as int)
                    == Some(off as int),
                at == off + 20 * length,
                forall|k: int| 0 <= k < length ==> !#[trigger] import_entry_ends(bytes@, off + 20 * k),
            decreases len + 20 - at,
        {
            if at > len as u64 || len as u64 - at < 20 {
                proof {
                    assert forall|k: int| 0 <= k && off + 20 * k + 20 <= bytes@.len() implies !#[trigger] import_entry_ends(bytes@, off + 20 * k) by {
                        if k >= length {
                            assert(off + 20 * k >= at);
                        }
                    }
                }
                return Err(ExecutableLoadError::Malformed);
            }
            let e = crate::pe::ImportDirectoryTable::parse(bytes, at as usize);
            if e.is_zero() {
                return Ok(PeIdata { length, pointer: off });
            }
            length = length + 1;
            at = at + 20;
        }
    }
}

/// Where the tables of one imported library lie in the file: its name,
/// its import lookup table and its import address table.
#[derive(Clone, Copy, PartialEq, Eq, Structural, Debug)]
pub struct ImportTables {
    pub name: u64,
    pub lookup: u64,
    pub address: u64,
}

/// The tables of import directory entry `e`, or `MissingSection` when no
/// section holds its name, then its address table, then its lookup table.
pub open spec fn import_tables_spec(sections: Seq<ImageSectionHeader>, e: crate::pe::ImportDirectoryTable) -> Result<ImportTables, ExecutableLoadError> {
    match (
        file_offset_of(sections, e.name_rva as int),
        file_offset_of(sections, e.import_address_table_rva as int),
        file_offset_of(sections, e.import_lookup_table_rva as int),
    ) {
        (Some(n), Some(a), Some(l)) => Ok(ImportTables { name: n as u64, lookup: l as u64, address: a as u64 }),
        _ => Err(ExecutableLoadError::MissingSection),
    }
}

impl PeCoff {
    /// Where the tables of import directory entry `entry` lie in the file.
    pub fn import_tables(&self, entry: &crate::pe::ImportDirectoryTable) -> (r: Result<ImportTables, ExecutableLoadError>)
        ensures
            r == import_tables_spec(self.section_table@, *entry),
    {
        let name = match rva_to_file_offset(entry.name_rva, &self.section_table) {
            Some(n) => n,
            None => return Err(ExecutableLoadError::MissingSection),
        };
        let address = match rva_to_file_offset(entry.import_address_table_rva, &self.section_table) {
            Some(a) => a,
            None => return Err(ExecutableLoadError::MissingSection),
        };
        let lookup = match rva_to_file_offset(entry.import_lookup_table_rva, &self.section_table) {
            Some(l) => l,
            None => return Err(ExecutableLoadError::MissingSection),
        };
        Ok(ImportTables { name, lookup, address })
    }
}

/// Entry `i` of an import lookup table at byte `off`: 64-bit entries in a
/// 64-bit image, 32-bit ones otherwise.
pub open spec fn lookup_entry(bytes: Seq<u8>, off: int, is_64bit: bool, i: int) -> u64 {
    if is_64bit {
        crate::pe::le_u64_spec(bytes, off + 8 * i)
    } else {
        le_u32_spec(bytes, off + 4 * i) as u64
    }
}

/// Reads the entries of the import lookup table at byte `off` up to the
/// zero entry that ends it. A table that runs past the end of the file is
/// malformed.
pub fn lookup_entries(bytes: &[u8], off: u64, is_64bit: bool) -> (r: Result<Vec<u64>, ExecutableLoadError>)
    requires
        bytes@.len() <= u32::MAX,
    ensures
        match r {
            Ok(v) => {
                &&& forall|i: int| 0 <= i < v@.len() ==> #[trigger] v@[i] == lookup_entry(bytes@, off as int, is_64bit, i) && v@[i] != 0
                &&& lookup_entry(bytes@, off as int, is_64bit, v@.len() as int) == 0
                &&& off + (if is_64bit { 8int } else { 4int }) * (v@.len() + 1) <= bytes@.len()
            },
            Err(e) => e == ExecutableLoadError::Malformed,
        },
{
    let len = bytes.len();
    let size: u64 = if is_64bit { 8 } else { 4 };
    let mut v: Vec<u64> = Vec::new();
    let mut at: u64 = off;
    loop
        invariant
            len == bytes@.len(),
            len <= u32::MAX,
            size == if is_64bit { 8int } else { 4int },
            off <= at,
            at == off + size * v@.len(),
            forall|i: int| 0 <= i < v@.len() ==> #[trigger] v@[i] == lookup_entry(bytes@, off as int, is_64bit, i) && v@[i] != 0,
        decreases len + 8 - (at - off),
    {
        if at > len as u64 || len as u64 - at < size {
            return Err(ExecutableLoadError::Malformed);
        }
        let val: u64 = if is_64bit {
            crate::pe::le_u64(bytes, at as usize)
        } else {
            le_u32(bytes, at as usize) as u64
        };
        if val == 0 {
            return Ok(v);
        }
        v.push(val);
        at = at + size;
    }
}

/// Whether an import lookup entry imports by ordinal: its top bit.
pub open spec fn imports_by_ordinal(val: u64, is_64bit: bool) -> bool {
    if is_64bit {
        val & 0x8000_0000_0000_0000u64 != 0
    } else {
        val & 0x8000_0000u64 != 0
    }
}

/// The value written to the import address table for lookup entry `val`
/// of the image in `bytes`: the library's base plus the address of the
/// export whose name the entry's hint/name entry gives, or why the import
/// fails. Importing by ordinal is not supported.
pub open spec fn resolve_import_spec(
    sections: Seq<ImageSectionHeader>,
    bytes: Seq<u8>,
    val: u64,
    dll: NtDll,
    dll_bytes: Seq<u8>,
) -> Option<Result<u64, ExecutableLoadError>> {
    let rva = (val & 0xFFFF_FFFFu64) as u32;
    match file_offset_of(sections, rva as int) {
        None => Some(Err(ExecutableLoadError::MissingSection)),
        Some(off) => if off + 2 > bytes.len() {
            Some(Err(ExecutableLoadError::Malformed))
        } else {
            let hint = le_u16_spec(bytes, off);
            let name_end = choose|n: usize| c_string_length_spec(bytes, off + 2, Some(n));
            if c_string_length_spec(bytes, off + 2, None) {
                Some(Err(ExecutableLoadError::Malformed))
            } else {
                let name = bytes.subrange(off + 2, off + 2 + name_end);
                match export_index(
                    dll_bytes,
                    dll.section_table@,
                    dll.export_data.name_pointer_table@,
                    hint,
                    name,
                ) {
                    None => Some(Err(ExecutableLoadError::ImportMissing)),
                    Some(i) => if i < dll.export_data.export_address_table@.len() {
                        Some(Ok((dll.image_base + dll.export_data.export_address_table@[i]) as u64))
                    } else {
                        None
                    },
                }
            }
        },
    }
}

proof fn lemma_c_string_length_unique(bytes: Seq<u8>, off: int, n: usize, m: usize)
    requires
        c_string_length_spec(bytes, off, Some(n)),
        c_string_length_spec(bytes, off, Some(m)),
    ensures
        n == m,
{
    if n < m {
        assert(bytes[off + n] != 0);
    } else if m < n {
        assert(bytes[off + m] != 0);
    }
}

impl PeCoff {
    /// Resolves import lookup entry `val` of this image, whose file is
    /// `bytes`, against library `dll`, whose file is `dll_bytes`: looks up
    /// the hint and name the entry points at, and gives the value for the
    /// import address table. A hint or name that would run past the end of
    /// the file is malformed.
    pub fn resolve_import(&self, bytes: &[u8], val: u64, dll: &NtDll, dll_bytes: &[u8]) -> (r: Result<u64, ExecutableLoadError>)
        requires
            !imports_by_ordinal(val, self.is_64bit),
            resolve_import_spec(self.section_table@, bytes@, val, *dll, dll_bytes@) is Some,
            forall|i: int| 0 <= i < dll.export_data.export_address_table@.len() ==> dll.image_base
                + #[trigger] dll.export_data.export_address_table@[i] <= u64::MAX,
        ensures
            resolve_import_spec(self.section_table@, bytes@, val, *dll, dll_bytes@) == Some(r),
    {
        let len = bytes.len();
        let rva = (val & 0xFFFF_FFFF) as u32;
        let off = match rva_to_file_offset(rva, &self.section_table) {
            Some(off) => off,
            None => return Err(ExecutableLoadError::MissingSection),
        };
        if off > len as u64 || len as u64 - off < 2 {
            return Err(ExecutableLoadError::Malformed);
        }
        let hint = le_u16(bytes, off as usize);
        let n = match c_string_length(bytes, off + 2) {
            Some(n) => n,
            None => return Err(ExecutableLoadError::Malformed),
        };
        proof {
            let m = choose|m: usize| c_string_length_spec(bytes@, off + 2, Some(m));
            lemma_c_string_length_unique(bytes@, off + 2, n, m);
            if c_string_length_spec(bytes@, off + 2, None) {
                assert(bytes@[off + 2 + n] == 0);
            }
        }
        let start = (off + 2) as usize;
        let mut name: Vec<u8> = Vec::new();
        let mut i: usize = 0;
        while i < n
            invariant
                len == bytes@.len(),
                start + n < len,
                i <= n,
                name@ == bytes@.subrange(start as int, start + i),
            decreases n - i,
        {
            name.push(bytes[start + i]);
            i = i + 1;
            assert(name@ =~= bytes@.subrange(start as int, start + i));
        }
        match dll.get_export(dll_bytes, hint, name.as_slice()) {
            Some(export) => {
                proof {
                    let k = export_index(
                        dll_bytes@,
                        dll.section_table@,
                        dll.export_data.name_pointer_table@,
                        hint,
                        name@,
                    )->0;
                    assert(dll.image_base + dll.export_data.export_address_table@[k] <= u64::MAX);
                }
                Ok(dll.image_base + export)
            },
            None => Err(ExecutableLoadError::ImportMissing),
        }
    }
}

/// The relocation directory of the image: where its first block lies in
/// the file, or why the image is refused (`Unsupported` when there is
/// none, `MissingSection`, or `Malformed` when the block lies past the end
/// of the file).
pub open spec fn reloc_spec(sections: Seq<ImageSectionHeader>, entry: ImageDataDirectory, bytes: Seq<u8>) -> Result<int, ExecutableLoadError> {
    if entry.size == 0 || entry.virtual_address == 0 {
        Err(ExecutableLoadError::Unsupported)
    } else {
        match file_offset_of(sections, entry.virtual_address as int) {
            None => Err(ExecutableLoadError::MissingSection),
            Some(off) => if off + 8 > bytes.len() {
                Err(ExecutableLoadError::Malformed)
            } else {
                Ok(off)
            },
        }
    }
}

/// Counting the relocation blocks ends: the loader takes the size of the
/// first block again and again off the directory's size, so that size must
/// be a non-zero divisor of it.
pub open spec fn reloc_count_ends(sections: Seq<ImageSectionHeader>, entry: ImageDataDirectory, bytes: Seq<u8>) -> bool {
    match reloc_spec(sections, entry, bytes) {
        Ok(off) => {
            let b = crate::pe::BaseRelocationBlock::parsed_spec(bytes, off);
            b.block_size != 0 && entry.size % b.block_size == 0
        },
        Err(_) => true,
    }
}

impl PeCoff {
    /// Whether counting the relocation blocks of the image in `bytes`
    /// ends; the loader does not return where it does not.
    pub fn reloc_count_ends(&self, bytes: &[u8]) -> (r: bool)
        requires
            self.optional_header.rva_and_sizes@.len() >= 6,
        ensures
            r == reloc_count_ends(self.section_table@, self.optional_header.rva_and_sizes@[5], bytes@),
    {
        let len = bytes.len();
        let entry = self.optional_header.rva_and_sizes[5];
        if entry.size == 0 || entry.virtual_address == 0 {
            return true;
        }
        let off = match rva_to_file_offset(entry.virtual_address, &self.section_table) {
            Some(off) => off,
            None => return true,
        };
        if off > len as u64 || len as u64 - off < 8 {
            return true;
        }
        let b = crate::pe::BaseRelocationBlock::parse(bytes, off as usize);
        b.block_size != 0 && entry.size % b.block_size == 0
    }

    /// Reads the relocation directory of the image in `bytes`, as the sixth
    /// entry of its data directory locates it: where it starts and how
    /// many blocks it counts, which is its size over the size of its first
    /// block.
    pub fn load_reloc(&self, bytes: &[u8]) -> (r: Result<PeRelocInformation, ExecutableLoadError>)
        requires
            self.optional_header.rva_and_sizes@.len() >= 6,
            reloc_count_ends(self.section_table@, self.optional_header.rva_and_sizes@[5], bytes@),
        ensures
            match reloc_spec(self.section_table@, self.optional_header.rva_and_sizes@[5], bytes@) {
                Err(e) => r matches Err(x) && x == e,
                Ok(off) => r matches Ok(info) && {
                    let b = crate::pe::BaseRelocationBlock::parsed_spec(bytes@, off);
                    &&& info.relocations == off
                    &&& info.num_relocations == self.optional_header.rva_and_sizes@[5].size / b.block_size
                },
            },
    {
        let len = bytes.len();
        let entry = self.optional_header.rva_and_sizes[5];
        if entry.size == 0 || entry.virtual_address == 0 {
            return Err(ExecutableLoadError::Unsupported);
        }
        let off = match rva_to_file_offset(entry.virtual_address, &self.section_table) {
            Some(off) => off,
            None => return Err(ExecutableLoadError::MissingSection),
        };
        if off > len as u64 || len as u64 - off < 8 {
            return Err(ExecutableLoadError::Malformed);
        }
        let block = crate::pe::BaseRelocationBlock::parse(bytes, off as usize);
        let bs = block.block_size;
        let mut size_rem: u32 = entry.size;
        let mut num_relocations: u32 = 0;
        let ghost q: int = (entry.size / bs) as int;
        proof {
            assert(entry.size == bs * q) by (nonlinear_arith)
                requires
                    bs != 0,
                    entry.size % bs == 0,
                    q == (entry.size / bs) as int,
            ;
        }
        while size_rem != 0
            invariant
                bs != 0,
                q == (entry.size / bs) as int,
                0 <= num_relocations <= q,
                size_rem == bs * (q - num_relocations),
            decreases size_rem,
        {
            proof {
                assert(bs * (q - num_relocations) >= bs && bs * (q - num_relocations) - bs == bs * (q - num_relocations - 1)) by (nonlinear_arith)
                    requires
                        bs * (q - num_relocations) != 0,
                        q - num_relocations >= 0,
                        bs > 0,
                ;
                assert(q - num_relocations >= 1) by (nonlinear_arith)
                    requires
                        bs * (q - num_relocations) != 0,
                        q - num_relocations >= 0,
                ;
            }
            size_rem = size_rem - bs;
            num_relocations = num_relocations + 1;
        }
        proof {
            assert(num_relocations == q) by (nonlinear_arith)
                requires
                    bs * (q - num_relocations) == 0,
                    bs > 0,
            ;
        }
        Ok(PeRelocInformation { relocations: off, num_relocations })
    }
}

/// The import address table of one imported library: where it lies in
/// the image and whether its entries are 64-bit.
#[derive(Clone, Copy, PartialEq, Eq, Structural, Debug)]
pub struct PeAddressTable {
    pub is_64bit: bool,
    pub memory: u64,
}

impl PeAddressTable {
    pub fn new(is_64bit: bool, memory: u64) -> (r: Self)
        ensures
            r == (PeAddressTable { is_64bit, memory }),
    {
        PeAddressTable { is_64bit, memory }
    }

    /// Writes `val` to entry `index` of the table in `image`, little
    /// endian: all eight bytes in a 64-bit image, the low four otherwise.
    pub fn write(&self, image: &mut Vec<u8>, index: u32, val: u64)
        requires
            self.memory + (if self.is_64bit { 8int } else { 4int }) * (index + 1) <= old(image)@.len(),
        ensures
            final(image)@.len() == old(image)@.len(),
            forall|j: int| {
                let width = if self.is_64bit { 8int } else { 4int };
                let at = self.memory + width * index;
                0 <= j < old(image)@.len() ==> #[trigger] final(image)@[j] == if at <= j < at + width {
                    ((val >> (8 * (j - at)) as u64) & 0xFFu64) as u8
                } else {
                    old(image)@[j]
                }
            },
    {
        let len = image.len();
        let width: u64 = if self.is_64bit { 8 } else { 4 };
        proof {
            assert(width * index + width == width * (index + 1)) by (nonlinear_arith);
            assert(width * index >= 0) by (nonlinear_arith)
                requires
                    width > 0,
            ;
        }
        let at = self.memory + width * index as u64;
        let ghost before = image@;
        let mut k: u64 = 0;
        while k < width
            invariant
                len == image@.len(),
                width == if self.is_64bit { 8int } else { 4int },
                at == self.memory + width * index,
                at + width <= before.len(),
                image@.len() == before.len(),
                k <= width,
                forall|j: int| 0 <= j < before.len() ==> #[trigger] image@[j] == if at <= j < at + k {
                    ((val >> (8 * (j - at)) as u64) & 0xFFu64) as u8
                } else {
                    before[j]
                },
            decreases width - k,
        {
            image.set((at + k) as usize, ((val >> (8 * k)) & 0xFF) as u8);
            k = k + 1;
        }
    }
}

/// The number of data directory entries the optional header announces.
pub open spec fn directory_count_of(bytes: Seq<u8>) -> u32 {
    if optional_magic_of(bytes) == PE32_MAGIC {
        Pe32OptionalHeader::parsed_spec(bytes, optional_offset_of(bytes)).number_of_rva_and_sizes
    } else {
        Pe32PlusOptionalHeader::parsed_spec(bytes, optional_offset_of(bytes)).number_of_rva_and_sizes
    }
}

/// The first entry of the data directory.
pub open spec fn first_directory_of(bytes: Seq<u8>) -> ImageDataDirectory {
    if optional_magic_of(bytes) == PE32_MAGIC {
        ImageDataDirectory::parsed_spec(bytes, optional_offset_of(bytes) + PE32_OPTIONAL_HEADER_SIZE)
    } else {
        ImageDataDirectory::parsed_spec(bytes, optional_offset_of(bytes) + PE32_PLUS_OPTIONAL_HEADER_SIZE)
    }
}

/// The file alignment of the optional header.
pub open spec fn file_alignment_of(bytes: Seq<u8>) -> u32 {
    if optional_magic_of(bytes) == PE32_MAGIC {
        Pe32OptionalHeader::parsed_spec(bytes, optional_offset_of(bytes)).file_alignment
    } else {
        Pe32PlusOptionalHeader::parsed_spec(bytes, optional_offset_of(bytes)).file_alignment
    }
}

/// What reading the export data of the image with section table `t` gives
/// `r`: the name at the place the export directory names, or the error
/// reading it ends in.
pub open spec fn export_name_result(t: Seq<ImageSectionHeader>, bytes: Seq<u8>, r: Result<Vec<u8>, ExecutableLoadError>) -> bool {
    match edata_spec(t, first_directory_of(bytes), file_alignment_of(bytes), bytes) {
        Err(err) => r == Err::<Vec<u8>, ExecutableLoadError>(err),
        Ok((off, e, o, np, nm)) => {
            let d = crate::pe::ExportDirectoryTable::parsed_spec(bytes, off);
            if !edata_tables_fit(d, e, o, np, bytes) || c_string_length_spec(bytes, nm, None) {
                r == Err::<Vec<u8>, ExecutableLoadError>(ExecutableLoadError::Malformed)
            } else {
                r matches Ok(name) && c_string_length_spec(bytes, nm, Some(name@.len() as usize)) && name@
                    == bytes.subrange(nm, nm + name@.len())
            }
        },
    }
}

/// Reads the name a library gives itself in its export data. An image
/// that is no library is malformed. (The section table `t` of the
/// contract is the one in the file: the headers laid out there agree with
/// it in every field the search for a section reads.)
pub fn get_nt_dll_name(bytes: &[u8]) -> (r: Result<Vec<u8>, ExecutableLoadError>)
    requires
        bytes@.len() <= u32::MAX,
        !pe_divides_by_zero(bytes@),
        pe_load_error(bytes@) is None ==> directory_count_of(bytes@) >= 1,
    ensures
        pe_load_error(bytes@) matches Some(e) ==> r == Err::<Vec<u8>, ExecutableLoadError>(e),
        pe_load_error(bytes@) is None && pe_header_of(bytes@).characteristics & PE_IMAGE_FILE_DLL == 0 ==> r
            == Err::<Vec<u8>, ExecutableLoadError>(ExecutableLoadError::Malformed),
        pe_load_error(bytes@) is None && pe_header_of(bytes@).characteristics & PE_IMAGE_FILE_DLL != 0 ==> exists|
            t: Seq<ImageSectionHeader>,
        |
            #[trigger] section_table_parsed(
                t,
                bytes@,
                section_table_offset_of(bytes@),
                pe_header_of(bytes@).number_of_sections as int,
            ) && export_name_result(t, bytes@, r),
{
    let pe = match PeCoff::load(bytes) {
        Ok(pe) => pe,
        Err(e) => return Err(e),
    };
    if pe.pe_coff_characteristics & PE_IMAGE_FILE_DLL == 0 {
        return Err(ExecutableLoadError::Malformed);
    }
    proof {
        let o = optional_offset_of(bytes@);
        if pe.is_64bit {
            assert(pe.optional_header.rva_and_sizes@.len() == Pe32PlusOptionalHeader::parsed_spec(bytes@, o).number_of_rva_and_sizes);
        } else {
            assert(pe.optional_header.rva_and_sizes@.len() == Pe32OptionalHeader::parsed_spec(bytes@, o).number_of_rva_and_sizes);
        }
        assert(pe.optional_header.rva_and_sizes@[0] == first_directory_of(bytes@));
    }
    let r = match pe.load_edata(bytes) {
        Ok(edata) => Ok(edata.name),
        Err(e) => Err(e),
    };
    proof {
        assert(section_table_parsed(
            pe.section_table@,
            bytes@,
            section_table_offset_of(bytes@),
            pe_header_of(bytes@).number_of_sections as int,
        ));
        assert(export_name_result(pe.section_table@, bytes@, r));
    }
    r
}

} // verus!
