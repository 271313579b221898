use emkk::pe_image::{dll_placement, image_entry, ImageEntry};
use emkk::allocator::MemoryBlock;
use emkk::containers::List;
use emkk::loader::{ExecutableLoadError, ExecutableType, FullExecutableImage, LoaderResources, NT64LoaderResources};
use emkk::mark_table::{MarkTable, MarkTableBucket, MarkTableResult};
use emkk::pager::{page_align, Address, Page, Pager};
use emkk::pci::{BarType, PciBar, PciBarIndex, PciBus};
use emkk::pe::{
    le_u32, load_optional_header, load_plus_optional_header, COFFImportDirectoryTableEntry, PeHeader,
    PE32_OPTIONAL_HEADER_SIZE, PE32_PLUS_OPTIONAL_HEADER_SIZE,
};
use emkk::pfs::{GptHeader, Gpt, PhysicalExt2, PhysicalExt2Directory, PhysicalExt2Inode, is_ext2};
use emkk::buffer::Buffer;
use emkk::print::{ModuleWriteMode, Module, StringAlignment};
use emkk::processes::{Application, ExecutionMode, IpiStatus};
use emkk::threading::{IoApic, Multithreading, Processor};
use emkk::traits::{AsU64, BasicRegion, Region};

#[test]
fn pci_identifiers_round_trip() {
    let id = PciBus::compress_ident(3, 0x1F, 7);
    assert_eq!(id, 0x3_1F07);
    assert_eq!(PciBus::decompress_ident(id), (3, 0x1F, 7));
}

fn bus_with(devices: Vec<u64>) -> PciBus {
    let n = devices.len() as u32;
    PciBus { pci_devices: List::new(MemoryBlock::empty(), devices, n), pci_base_address: 0xE000_0000 }
}

#[test]
fn pci_base_of_a_function() {
    let bus = bus_with(vec![0x0_0100]);
    assert_eq!(bus.pci_base(PciBus::compress_ident(0, 1, 0)), Some(0xE000_0000 + 8 * 0x1000));
    assert_eq!(bus_with(vec![]).pci_base(0), None);
}

#[test]
fn pci_bars_decode() {
    let bus = bus_with(vec![0x0_0100]);
    let io = bus.get_bar(0x0_0100, PciBarIndex::Index4, 0xC001, 0, 0).unwrap();
    assert_eq!(io.bar_type, BarType::Io);
    assert_eq!(io.get_address(), 0xC000);
    let mem = bus.get_bar(0x0_0100, PciBarIndex::Index0, 0xFEB0_0000, 0, 0xFFFF_F000).unwrap();
    assert_eq!(mem.bar_type, BarType::Memory);
    assert_eq!(mem.get_address(), 0xFEB0_0000);
    assert_eq!(mem.get_length(), 0x1000);
    let wide = bus.get_bar(0x0_0100, PciBarIndex::Index0, 0xFEB0_0004, 0x1, 0xFFFF_0004).unwrap();
    assert_eq!(wide.get_address(), 0x1_FEB0_0000);
    assert_eq!(wide.get_length(), 0x1_0000);
    assert_eq!(bus.get_bar(0x0_0200, PciBarIndex::Index0, 0, 0, 0xFFFF_F000), None);
}

#[test]
fn pci_capability_list() {
    let bus = bus_with(vec![0x0_0100]);
    let mut cfg = vec![0u8; 0x1000];
    cfg[0x34] = 0x40;
    cfg[0x40] = 0x05;
    cfg[0x41] = 0x50;
    cfg[0x50] = 0x11;
    cfg[0x51] = 0x00;
    assert_eq!(bus.get_capability(0x0_0100, 0x10, &cfg, 0x11), Some(0x50));
    assert!(bus.is_msi_capable(0x0_0100, 0x10, &cfg));
    assert!(bus.is_msi_x_capable(0x0_0100, 0x10, &cfg));
    assert!(!bus.is_msi_capable(0x0_0100, 0x00, &cfg));
    assert_eq!(bus.get_capability(0x0_0100, 0x10, &cfg, 0x09), None);
    let _ = PciBar { bar_type: BarType::Io, flags: 0, data: 0, length: 0 };
}

#[test]
fn pager_address_arithmetic() {
    let a = Pager::translate(0x0000_7F12_3456_7000);
    let v = Pager::into_address(a.pdp, a.pd, a.pt, a.page);
    assert_eq!(v, 0x0000_7F12_3456_7000);
    assert_eq!(Pager::translate(0x20_1000), Address { pdp: 0, pd: 0, pt: 1, page: 1 });
    assert_eq!(page_align(0x1FFF), 0x1000);
    let p = Page::new(0x5000, 0x9000);
    assert_eq!((p.get_physical(), p.get_virt()), (0x5000, 0x9000));
    assert_eq!(Pager::new(0x1000).get_cr3(), 0x1000);
}

fn pe32_header(section_alignment: u32, file_alignment: u32, heap_reserve: u32, dirs: u32) -> Vec<u8> {
    let mut h = vec![0u8; PE32_OPTIONAL_HEADER_SIZE];
    let put = |h: &mut Vec<u8>, off: usize, v: u32| h[off..off + 4].copy_from_slice(&v.to_le_bytes());
    put(&mut h, 14, 0x1000); // address_of_entry_point
    put(&mut h, 26, 0x40_0000); // image_base
    put(&mut h, 30, section_alignment);
    put(&mut h, 34, file_alignment);
    put(&mut h, 54, 0x2000); // size_of_image
    put(&mut h, 58, 0x400); // size_of_headers
    put(&mut h, 78, heap_reserve);
    put(&mut h, 90, dirs);
    for _ in 0..dirs {
        h.extend_from_slice(&[1, 0, 0, 0, 2, 0, 0, 0]);
    }
    h
}

#[test]
fn pe32_optional_header_checks() {
    let bytes = pe32_header(0x1000, 0x200, 0, 2);
    let size = (PE32_OPTIONAL_HEADER_SIZE + 2 + 16) as u64;
    let u = load_optional_header(size, &bytes, 0).unwrap();
    assert_eq!(u.image_base, 0x40_0000);
    assert_eq!(u.address_of_entry_point, 0x1000);
    assert_eq!(u.rva_and_sizes.len(), 2);
    assert_eq!(u.rva_and_sizes[1].virtual_address, 1);
    assert_eq!(u.rva_and_sizes[1].size, 2);
    let heap = pe32_header(0x1000, 0x200, 0x1000, 2);
    assert!(matches!(load_optional_header(size, &heap, 0), Err(ExecutableLoadError::Malformed)));
    let align = pe32_header(0x800, 0x200, 0, 2);
    assert!(matches!(load_optional_header(size, &align, 0), Err(ExecutableLoadError::Malformed)));
    assert!(matches!(load_optional_header(size - 1, &bytes, 0), Err(ExecutableLoadError::Malformed)));
}

#[test]
fn pe32_plus_optional_header_reads_commit_as_reserve() {
    let mut h = vec![0u8; PE32_PLUS_OPTIONAL_HEADER_SIZE];
    let put32 = |h: &mut Vec<u8>, off: usize, v: u32| h[off..off + 4].copy_from_slice(&v.to_le_bytes());
    let put64 = |h: &mut Vec<u8>, off: usize, v: u64| h[off..off + 8].copy_from_slice(&v.to_le_bytes());
    put64(&mut h, 22, 0x1_4000_0000);
    put32(&mut h, 30, 0x1000);
    put32(&mut h, 34, 0x1000);
    put32(&mut h, 58, 0x3000);
    put32(&mut h, 62, 0x1000);
    put64(&mut h, 70, 0x10_0000);
    put64(&mut h, 78, 0x1000);
    put64(&mut h, 86, 0x20_0000);
    put64(&mut h, 94, 0x2000);
    let u = load_plus_optional_header((PE32_PLUS_OPTIONAL_HEADER_SIZE + 2) as u64, &h, 0).unwrap();
    assert_eq!(u.image_base, 0x1_4000_0000);
    assert_eq!(u.size_of_heap_reserve, 0x2000);
    assert_eq!(u.size_of_heap_commit, 0x2000);
    assert_eq!(u.size_of_stack_reserve, 0x10_0000);
}

#[test]
fn pe_records() {
    let mut b = vec![0u8; 24];
    b[0..4].copy_from_slice(b"PE\0\0");
    b[4..6].copy_from_slice(&0x8664u16.to_le_bytes());
    b[6..8].copy_from_slice(&3u16.to_le_bytes());
    let h = PeHeader::parse(&b, 0);
    assert_eq!(h.magic, 0x4550);
    assert_eq!(h.machine, 0x8664);
    assert_eq!(h.number_of_sections, 3);
    assert_eq!(le_u32(&b, 0), 0x4550);
    let e = COFFImportDirectoryTableEntry {
        import_lookup_table_rva: 5,
        time_date_stamp: 0,
        forward_chainer: 0,
        name_rva: 0,
        import_address_table_rva: 0,
    };
    assert!(e.is_zero());
}

#[test]
fn gpt_and_ext2() {
    let mut hdr = vec![0u8; 92];
    hdr[72..80].copy_from_slice(&2u64.to_le_bytes());
    hdr[80..84].copy_from_slice(&2u32.to_le_bytes());
    hdr[84..88].copy_from_slice(&128u32.to_le_bytes());
    let h = GptHeader::parse(&hdr);
    assert_eq!(h.partition_entry_array_starting_lba, 2);
    assert_eq!(h.entry_array_size(), 256);
    let mut entries = vec![0u8; 256];
    entries[128 + 32..128 + 40].copy_from_slice(&2048u64.to_le_bytes());
    let gpt = Gpt::new(h, Buffer::empty(), &entries);
    assert_eq!(gpt.gpt_entries.len(), 2);
    assert_eq!(gpt.gpt_entries[1].starting_lba, 2048);

    let mut sb = vec![0u8; 1024];
    sb[56..58].copy_from_slice(&0xEF53u16.to_le_bytes());
    assert!(is_ext2(&sb));
    let mut dir = PhysicalExt2Directory::empty();
    dir.size = 24;
    let mut block = vec![0u8; 1024];
    block[0..4].copy_from_slice(&2u32.to_le_bytes());
    block[4..6].copy_from_slice(&12u16.to_le_bytes());
    block[6] = 1;
    block[7] = 2;
    block[8] = b'.';
    block[12..16].copy_from_slice(&11u32.to_le_bytes());
    block[16..18].copy_from_slice(&12u16.to_le_bytes());
    block[18] = 3;
    block[19] = 1;
    block[20..23].copy_from_slice(b"app");
    assert_eq!(dir.contains(0, &block, b"app"), Some((11, 1)));
    assert_eq!(dir.contains(0, &block, b"."), Some((2, 2)));
    assert_eq!(dir.contains(0, &block, b"ap"), None);
    let fs = PhysicalExt2 {
        memory: [MemoryBlock::empty()],
        block_groups: Vec::new(),
        root_directory: dir,
        starting_lba: 0,
        inodes_per_block_group: 2048,
        block_size: 2,
    };
    assert_eq!(fs.block_group_of_inode(2049), 1);
    assert_eq!(fs.index_into_block_group(2049), 0);
    assert_eq!(fs.block_containing_inode(100), 3);
    assert_eq!(fs.max_direct_data_pointer_memory(), 12 * 4096);
    let inode = PhysicalExt2Inode {
        type_and_permissions: 0x1C0,
        user_id: 0,
        low_size: 4096,
        flags: 0,
        disk_sectors_used: 8,
        direct_block_pointers: [7; 12],
        singly_indirect_block_pointer: 1,
        doubly_indirect_block_pointer: 2,
        triply_indirect_block_pointer: 3,
    };
    assert_eq!(inode.permissions(), 3);
    let d = fs.directory_from_inode(&inode);
    assert_eq!(d.size, 4096);
    assert_eq!(d.indirect_pointers, [1, 2, 3]);
}

#[test]
fn mark_table_lookups() {
    let bucket = MarkTableBucket { pairs: vec![(5, 1), (9, 2), (0, 0)], used: 2 };
    assert!(bucket.contains(9));
    assert!(!bucket.contains(0));
    assert!(!bucket.is_full());
    assert!(bucket.can_grow());
    assert_eq!(bucket.foreach(), vec![(5, 1), (9, 2)]);
    let h = MarkTable::hash(9, 1);
    assert!(h <= 1);
    let mut table = MarkTable { pairs: Vec::new(), buckets: vec![bucket, MarkTableBucket { pairs: vec![(9, 1)], used: 1 }], num_pairs: 3 };
    if MarkTable::hash(9, 2) < 2 {
        let found = table.contains(9);
        let r = table.increase(9);
        assert_eq!(r == MarkTableResult::Success, found);
    }
}

#[test]
fn applications_and_processors() {
    let mut app = Application::default(0x100);
    assert_eq!(app.allocate_handle(3), None);
    app.fs_handle_buffer.handles = vec![0; 2];
    assert_eq!(app.allocate_handle(3), Some(0x100));
    assert_eq!(app.allocate_handle(4), Some(0x101));
    assert_eq!(app.allocate_handle(5), None);
    assert_eq!(app.fs_handle_buffer.handles, vec![3, 4]);
    assert_eq!(ExecutionMode::Process.ring(), 3);
    assert_eq!(IpiStatus::Completed.code(), 3);
    let mut p = Processor {
        physical_store_address: 0,
        gdt: 0,
        idt: 0,
        isr: 0,
        pager: 0,
        physical_allocator: 0,
        kernel_allocator: 0,
        virtual_allocator: 0,
        next_free_isr_vector: 0xFD,
        activation_id: 1,
    };
    assert_eq!(p.request_isr_vector(), 0xFD);
    assert_eq!(p.request_isr_vector(), 0xFC);
    assert_eq!(p.get_activation_id(), 1);
    assert_eq!(Processor::isr_slot(0xFE), 0xDE);
    let io = IoApic::new(0xFEC0_0000, 0x9000, 0, 1);
    assert_eq!(io.write_register(0x10, 7), [(0x9000, 0x10), (0x9010, 7)]);
    let mt = Multithreading {
        memory: MemoryBlock::empty(),
        io_apics: List::new(MemoryBlock::empty(), vec![io], 1),
        gis_overrides: List::empty(),
        local_apics: List::empty(),
        application_complex_paddrs: Vec::new(),
        ipi_descriptor_packet_padds: vec![(1, 0x10), (2, 0x20), (1, 0x30)],
    };
    assert_eq!(mt.ipi_packets_for(1), vec![0x10, 0x30]);
    assert_eq!(mt.get_io_apics().entries, 1);
}

#[test]
fn loader_finds_libraries_by_name() {
    let res = LoaderResources {
        nt64_dlls: NT64LoaderResources {
            memory: [MemoryBlock::empty(), MemoryBlock::empty()],
            mappings: vec![(b"ntdll.dll".to_vec(), 4), (b"kernel32.dll".to_vec(), 9)],
            string_used: 0,
            used: 2,
        },
        context_switch_map_physical: 0x1000,
        gdt_physical: 0x2000,
        idt_physical: 0x3000,
    };
    assert_eq!(res.find_dll(b"kernel32.dll"), Some(9));
    assert_eq!(res.find_dll(b"user32.dll"), None);
    assert_eq!(res.get_gdt_physical(), 0x2000);
    let full = FullExecutableImage {
        cr3: 0,
        rbp_default: 0,
        rsp_max: 0,
        entry_point: 0,
        image_type: ExecutableType::Win,
        memory: MemoryBlock::new(0x1000, 0x5000),
        physical_memory: Vec::new(),
        virtual_memory: Vec::new(),
        inserted_physical_blocks: 1,
        inserted_virtual_blocks: 2,
    };
    let img = full.extract();
    assert_eq!(img.image_type, ExecutableType::Win);
    assert_eq!(img.virtual_blocks_present, 2);
}

#[test]
fn printing_and_regions() {
    assert_eq!(ModuleWriteMode::Error.color(), 0xFF0000);
    assert_eq!(StringAlignment::Right.column(80, 10), 70);
    assert_eq!(StringAlignment::Center.column(80, 10), 35);
    let mut m = Module::new("Pager");
    assert_eq!(m.name(), "Pager");
    m.destory();
    assert!(m.deconstructed);
    assert_eq!(Module::empty().name(), "INVALID MODULE");
    let r: BasicRegion<u64, u64> = BasicRegion::new(0x1000, 0x2000);
    assert_eq!(r.end(), 0x3000);
    assert!(r.within(&BasicRegion::new(0x10, 0x2100)));
    assert!(r.offset(1).is_none());
    assert_eq!(7u16.as_u64(), 7);
}

#[test]
fn image_entry_and_dll_placement() {
    let bytes = pe32_header(0x1000, 0x200, 0, 2);
    let size = (PE32_OPTIONAL_HEADER_SIZE + 2 + 16) as u64;
    let mut u = load_optional_header(size, &bytes, 0).unwrap();
    u.size_of_stack_reserve = 0x10_0000;
    u.size_of_stack_commit = 0x4000;
    assert_eq!(
        image_entry(&u, 0x7FFF_0000_0000),
        ImageEntry {
            entry_point: 0x40_1000,
            rbp_default: 0x7FFF_0000_0000,
            rsp_max: 0x7FFE_FFF0_0000,
            stack_map_vaddr: 0x7FFE_FFFF_C000,
        }
    );
    assert_eq!(dll_placement(false, 0), Ok(false));
    assert_eq!(dll_placement(true, 0), Err(ExecutableLoadError::DependencyImportFailed));
    assert_eq!(dll_placement(true, 3), Ok(true));
}
