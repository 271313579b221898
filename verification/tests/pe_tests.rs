use emkk::loader::ExecutableLoadError;
use emkk::pager::Pager;
use emkk::pe_image::{
    c_string_length, check_export_name, find_section_for_rva, get_nt_dll_name, image_memory_end,
    lookup_entries, record_block, rva_to_file_offset, section_load, section_paging, NameCheck, NtDll,
    PeAddressTable, PeCoff, PeRelocInformation, SectionLoad,
};
use emkk::allocator::MemoryBlock;

fn put16(b: &mut Vec<u8>, at: usize, v: u16) {
    b[at..at + 2].copy_from_slice(&v.to_le_bytes());
}
fn put32(b: &mut Vec<u8>, at: usize, v: u32) {
    b[at..at + 4].copy_from_slice(&v.to_le_bytes());
}
fn put64(b: &mut Vec<u8>, at: usize, v: u64) {
    b[at..at + 8].copy_from_slice(&v.to_le_bytes());
}

/// A 64-bit library with a code section and an export section that
/// exports `alpha` and `beta`.
fn library() -> Vec<u8> {
    let mut b = vec![0u8; 0x800];
    b[0] = b'M';
    b[1] = b'Z';
    put32(&mut b, 0x3C, 0x40);
    let pe = 0x40;
    put32(&mut b, pe, 0x0000_4550);
    put16(&mut b, pe + 4, 0x8664);
    put16(&mut b, pe + 6, 2);
    put16(&mut b, pe + 20, 240);
    put16(&mut b, pe + 22, 0x2022);
    put16(&mut b, pe + 24, 0x20b);
    let o = pe + 26;
    put32(&mut b, o + 14, 0x1000);
    put64(&mut b, o + 22, 0x1_4000_0000);
    put32(&mut b, o + 30, 0x1000);
    put32(&mut b, o + 34, 0x200);
    put32(&mut b, o + 54, 0x3000);
    put32(&mut b, o + 58, 0x400);
    put64(&mut b, o + 70, 0x10_0000);
    put64(&mut b, o + 78, 0x1000);
    put64(&mut b, o + 86, 0x10_0000);
    put64(&mut b, o + 94, 0x1000);
    put32(&mut b, o + 106, 16);
    // Export directory: the first data directory entry.
    put32(&mut b, o + 110, 0x2000);
    put32(&mut b, o + 114, 0x100);
    // Section table after the 240-byte optional header.
    let t = pe + 24 + 240;
    b[t..t + 5].copy_from_slice(b".text");
    put32(&mut b, t + 8, 0x100);
    put32(&mut b, t + 12, 0x1000);
    put32(&mut b, t + 16, 0x200);
    put32(&mut b, t + 20, 0x400);
    put32(&mut b, t + 36, 0x6000_0020);
    let t = t + 40;
    b[t..t + 6].copy_from_slice(b".edata");
    put32(&mut b, t + 8, 0x200);
    put32(&mut b, t + 12, 0x2000);
    put32(&mut b, t + 16, 0x200);
    put32(&mut b, t + 20, 0x600);
    put32(&mut b, t + 36, 0x4000_0040);
    // Export directory table at file offset 0x600.
    let e = 0x600;
    put32(&mut b, e + 12, 0x2080);
    put32(&mut b, e + 16, 1);
    put32(&mut b, e + 20, 2);
    put32(&mut b, e + 24, 2);
    put32(&mut b, e + 28, 0x2028);
    put32(&mut b, e + 32, 0x2030);
    put32(&mut b, e + 36, 0x2038);
    put32(&mut b, 0x628, 0x1000);
    put32(&mut b, 0x62C, 0x1010);
    put32(&mut b, 0x630, 0x2040);
    put32(&mut b, 0x634, 0x2050);
    put16(&mut b, 0x638, 0);
    put16(&mut b, 0x63A, 1);
    b[0x640..0x645].copy_from_slice(b"alpha");
    b[0x650..0x654].copy_from_slice(b"beta");
    b[0x680..0x687].copy_from_slice(b"lib.dll");
    b
}

fn loaded() -> PeCoff {
    let bytes = library();
    assert!(!PeCoff::divides_by_zero(&bytes));
    match PeCoff::load(&bytes) {
        Ok(pe) => pe,
        Err(e) => panic!("refused: {:?}", e),
    }
}

#[test]
fn a_library_image_loads() {
    let pe = loaded();
    assert!(pe.is_64bit);
    assert_eq!(pe.pe_coff_characteristics, 0x2022);
    assert_eq!(pe.optional_header.image_base, 0x1_4000_0000);
    assert_eq!(pe.optional_header.rva_and_sizes.len(), 16);
    assert_eq!(pe.section_table.len(), 2);
    assert_eq!(&pe.section_table[1].name[..6], b".edata");
    assert_eq!(pe.section_table[1].pointer_to_raw_data, 0x600);
}

#[test]
fn header_checks_refuse_images() {
    let mut bytes = library();
    put16(&mut bytes, 0x44, 0x14c);
    assert!(matches!(PeCoff::load(&bytes), Err(ExecutableLoadError::InvalidISA)));
    let mut bytes = library();
    put16(&mut bytes, 0x40 + 24, 0x30b);
    assert!(matches!(PeCoff::load(&bytes), Err(ExecutableLoadError::Malformed)));
    let mut bytes = library();
    put32(&mut bytes, 0x3C, 0x900);
    assert!(matches!(PeCoff::load(&bytes), Err(ExecutableLoadError::Malformed)));
    let short = vec![0u8; 0x20];
    assert!(matches!(PeCoff::load(&short), Err(ExecutableLoadError::Malformed)));
}

#[test]
fn relative_addresses_are_found_in_their_sections() {
    let pe = loaded();
    assert_eq!(find_section_for_rva(0x2040, &pe.section_table), Some(1));
    assert_eq!(find_section_for_rva(0x1100, &pe.section_table), Some(0));
    assert_eq!(find_section_for_rva(0x10, &pe.section_table), None);
    assert_eq!(rva_to_file_offset(0x2040, &pe.section_table), Some(0x640));
}

#[test]
fn export_data_is_read() {
    let bytes = library();
    let pe = loaded();
    let edata = pe.load_edata(&bytes).unwrap();
    assert_eq!(edata.name, b"lib.dll".to_vec());
    assert_eq!(edata.export_address_table, vec![0x1000, 0x1010]);
    assert_eq!(edata.name_pointer_table, vec![0x2040, 0x2050]);
    assert_eq!(edata.ordinal_table, vec![0, 1]);
    assert_eq!(edata.ordinal_base, 1);
    assert_eq!(get_nt_dll_name(&bytes).unwrap(), b"lib.dll".to_vec());
}

#[test]
fn an_image_without_the_library_flag_has_no_library_name() {
    let mut bytes = library();
    put16(&mut bytes, 0x40 + 22, 0x0022);
    assert!(matches!(get_nt_dll_name(&bytes), Err(ExecutableLoadError::Malformed)));
}

#[test]
fn missing_directories_are_reported() {
    let bytes = library();
    let pe = loaded();
    assert!(matches!(pe.load_idata(&bytes), Err(ExecutableLoadError::MissingSection)));
    assert!(pe.reloc_count_ends(&bytes));
    assert!(matches!(pe.load_reloc(&bytes), Err(ExecutableLoadError::Unsupported)));
}

#[test]
fn exports_are_found_by_hint_or_by_name() {
    let bytes = library();
    let pe = loaded();
    let edata = pe.load_edata(&bytes).unwrap();
    let dll = NtDll {
        export_data: edata,
        section_table: pe.section_table,
        reloc_information: PeRelocInformation { relocations: 0, num_relocations: 0 },
        image_base: 0x1_4000_0000,
        pager: Pager { cr3: 0x1000 },
    };
    assert_eq!(check_export_name(&bytes, &dll.section_table, 0x2050, b"beta"), NameCheck::Match);
    assert_eq!(check_export_name(&bytes, &dll.section_table, 0x2050, b"bet"), NameCheck::Differs);
    assert_eq!(check_export_name(&bytes, &dll.section_table, 0x9000, b"beta"), NameCheck::Missing);
    assert_eq!(dll.get_export(&bytes, 1, b"beta"), Some(0x1010));
    assert_eq!(dll.get_export(&bytes, 0, b"beta"), Some(0x1010));
    assert_eq!(dll.get_export(&bytes, 7, b"alpha"), Some(0x1000));
    assert_eq!(dll.get_export(&bytes, 0, b"gamma"), None);
}

#[test]
fn sections_are_paged_by_their_characteristics() {
    let pe = loaded();
    let text = section_paging(&pe.section_table[0], 0x1000, pe.optional_header.image_base);
    assert_eq!(text.unwrap().unwrap().flags, 5);
    assert_eq!(text.unwrap().unwrap().va, 0x1_4000_1000);
    let mut s = pe.section_table[1];
    s.characteristics = 0xC000_0040;
    assert_eq!(section_paging(&s, 0x1000, 0).unwrap().unwrap().flags, 7);
    s.characteristics = 0x0200_0040 | 0x4000_0000;
    assert_eq!(section_paging(&s, 0x1000, 0).unwrap(), None);
    s.characteristics = 0x0030_0040;
    assert!(matches!(section_paging(&s, 0x1000, 0), Err(ExecutableLoadError::MalformedSection)));
    s.characteristics = 0x4000_0040;
    s.virtual_address = 0x2100;
    assert!(matches!(section_paging(&s, 0x1000, 0), Err(ExecutableLoadError::InvalidAlignment)));
}

#[test]
fn section_loads_copy_raw_data_and_zero_the_rest() {
    let pe = loaded();
    let mut s = pe.section_table[0];
    s.virtual_size = 0x2345;
    s.size_of_raw_data = 0x2000;
    assert_eq!(
        section_load(&s),
        SectionLoad { has_contents: true, pages: 3, efficient: false, copy_length: 0x2000, zero_length: 0x345 }
    );
    s.characteristics = 0x4000_0080;
    s.virtual_size = 0x30_0000;
    let l = section_load(&s);
    assert!(l.efficient);
    assert_eq!((l.copy_length, l.zero_length), (0, 0));
}

#[test]
fn blocks_that_continue_a_block_extend_it() {
    let mut blocks = vec![MemoryBlock { base: 0x1000, length: 0x1000 }, MemoryBlock { base: 0, length: 0 }, MemoryBlock { base: 0, length: 0 }];
    let mut count = 1;
    assert_eq!(record_block(&mut blocks, 0, &mut count, 0x2000, 0x3000), Some(0));
    assert_eq!(blocks[0].length, 0x4000);
    assert_eq!(record_block(&mut blocks, 0, &mut count, 0x9000, 0x1000), None);
    assert_eq!(count, 2);
    assert_eq!(blocks[1].base, 0x9000);
    // Blocks before `from` belong to an earlier load.
    assert_eq!(record_block(&mut blocks, 2, &mut count, 0xA000, 0x1000), None);
    assert_eq!(count, 3);
}

#[test]
fn memory_ends_on_a_two_megabyte_boundary() {
    let pe = loaded();
    assert_eq!(image_memory_end(0x1_4000_0000, &pe.section_table), 0x1_4020_0000);
}

#[test]
fn lookup_tables_end_at_a_zero_entry() {
    let mut b = vec![0u8; 64];
    put64(&mut b, 0, 0x2040);
    put64(&mut b, 8, 0x2050);
    assert_eq!(lookup_entries(&b, 0, true).unwrap(), vec![0x2040, 0x2050]);
    put32(&mut b, 32, 7);
    assert_eq!(lookup_entries(&b, 32, false).unwrap(), vec![7]);
    let full = vec![1u8; 16];
    assert!(matches!(lookup_entries(&full, 0, true), Err(ExecutableLoadError::Malformed)));
    assert_eq!(c_string_length(b"abc\0", 0), Some(3));
    assert_eq!(c_string_length(b"abc", 0), None);
}

#[test]
fn address_table_entries_are_written_little_endian() {
    let mut image = vec![0xEEu8; 24];
    PeAddressTable::new(true, 8).write(&mut image, 0, 0x1122_3344_5566_7788);
    assert_eq!(&image[8..16], &[0x88, 0x77, 0x66, 0x55, 0x44, 0x33, 0x22, 0x11]);
    assert_eq!(image[7], 0xEE);
    PeAddressTable::new(false, 0).write(&mut image, 1, 0x1122_3344_5566_7788);
    assert_eq!(&image[4..8], &[0x88, 0x77, 0x66, 0x55]);
    assert_eq!(image[3], 0xEE);
}
