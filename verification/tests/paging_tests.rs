use emkk::allocator::{Allocator, EfiMemoryDescriptor, MemoryBlock, VirtualAllocator, EFI_CONVENTIONAL_MEMORY};
use emkk::memory::MemoryResult;
use emkk::page_tables::PageTableMemory;
use emkk::pager::{Page, Pager};
use emkk::pci::{BarType, PciBar};
use emkk::processes::ExecutionMode;

fn allocator() -> Allocator {
    let mut map = vec![EfiMemoryDescriptor {
        descriptor_type: EFI_CONVENTIONAL_MEMORY,
        physical_start: 0x10_0000,
        virtual_start: 0,
        number_of_pages: 0x200,
        attribute: 0,
    }];
    Allocator::new(&mut map, &Vec::new()).unwrap().0
}

/// An address space with an empty top-level table taken from the allocator.
fn address_space() -> (PageTableMemory, Pager, Allocator) {
    let mut a = allocator();
    let root = a.alloc_pages(1).unwrap().get_base();
    let mut mem = PageTableMemory::new();
    mem.zero_page(root);
    (mem, Pager::new(root), a)
}

#[test]
fn map_4k_then_read_back() {
    let (mut mem, mut pager, mut a) = address_space();
    let r = pager.page_4_kb(&mut mem, 0x40_0000, 0x1234_5000, 3, &mut a);
    assert_eq!(r, Ok(Page::new(0x1234_5000, 0x40_0000)));
    assert_eq!(pager.get_physical(&mem, 0x40_0000), Ok(0x1234_5000));
    assert_eq!(pager.is_active(&mem, 0x40_0000), Ok(true));
    assert_eq!(pager.is_kernel_only(&mem, 0x40_0000), Ok(true));
    assert!(pager.is_suited_for(&mem, 0x40_0000, true, ExecutionMode::Kernel));
    assert!(!pager.is_suited_for(&mem, 0x40_0000, false, ExecutionMode::Process));
    // three tables were made below the top-level one
    assert_eq!(a.alloc_pages(1).unwrap().get_base(), 0x20_4000);
}

#[test]
fn unmapped_walks_fail() {
    let (mem, pager, _a) = address_space();
    assert_eq!(pager.get_physical(&mem, 0x40_0000), Err(MemoryResult::PagingError));
    assert_eq!(pager.get_physical(&mem, 0x40_0010), Err(MemoryResult::InvalidAddress));
    assert!(!pager.is_suited_for(&mem, 0x40_0000, false, ExecutionMode::Kernel));
}

#[test]
fn map_4k_rejects_bad_arguments() {
    let (mut mem, mut pager, mut a) = address_space();
    assert_eq!(pager.page_4_kb(&mut mem, 0x40_0001, 0x1000, 3, &mut a), Err(MemoryResult::InvalidAddress));
    assert_eq!(pager.page_4_kb(&mut mem, 0x40_0000, 0x1001, 3, &mut a), Err(MemoryResult::InvalidAddress));
    assert_eq!(pager.page_4_kb(&mut mem, 0x40_0000, 0x1000, 0x80, &mut a), Err(MemoryResult::InvalidFlags));
    assert_eq!(pager.page_4_kb(&mut mem, 0x40_0000, 0x1000, 0x2000, &mut a), Err(MemoryResult::InvalidFlags));
    // the page-attribute flag is accepted and moves into bit 7 of the entry
    assert_eq!(pager.page_4_kb(&mut mem, 0x40_0000, 0x1000, 0x1003, &mut a), Ok(Page::new(0x1000, 0x40_0000)));
    assert_eq!(pager.get_physical(&mem, 0x40_0000), Ok(0x1000));
}

#[test]
fn activate_deactivate_and_permission() {
    let (mut mem, mut pager, mut a) = address_space();
    pager.page_4_kb(&mut mem, 0x40_0000, 0x9000, 3, &mut a).unwrap();
    assert_eq!(pager.deactivate(&mut mem, 0x40_0000), None);
    assert_eq!(pager.is_active(&mem, 0x40_0000), Ok(false));
    assert_eq!(pager.activate(&mut mem, 0x40_0000), None);
    assert_eq!(pager.is_active(&mem, 0x40_0000), Ok(true));
    assert_eq!(pager.switch_permission(&mut mem, 0x40_0000), None);
    assert_eq!(pager.is_kernel_only(&mem, 0x40_0000), Ok(false));
    assert_eq!(pager.deactivate(&mut mem, 0x40_0008), Some(MemoryResult::InvalidAddress));
    assert_eq!(pager.unpage_4k(&mut mem, 0x40_0000), None);
    assert_eq!(pager.is_active(&mem, 0x40_0000), Ok(false));
    assert_eq!(pager.get_physical(&mem, 0x40_0000), Ok(0));
}

#[test]
fn map_2mb_then_split_into_4k() {
    let (mut mem, mut pager, mut a) = address_space();
    assert_eq!(pager.page_2_mb(&mut mem, 0x20_0000, 0x80_0000, 3, &mut a), Ok(Page::new(0x80_0000, 0x20_0000)));
    assert_eq!(pager.get_physical(&mem, 0x20_0000), Ok(0x80_0000));
    // a 2 MiB page answers with its base for every page in it
    assert_eq!(pager.get_physical(&mem, 0x20_1000), Ok(0x80_0000));
    assert_eq!(pager.unpage_4k(&mut mem, 0x20_1000), Some(MemoryResult::InvalidActivateFlags));
    assert_eq!(pager.page_2_mb(&mut mem, 0x20_0000, 0x80_1000, 3, &mut a), Err(MemoryResult::InvalidAddress));
    // mapping one 4 KiB page inside it splits it; its neighbours keep their frames
    assert_eq!(pager.page_4_kb(&mut mem, 0x20_3000, 0x5000, 3, &mut a), Ok(Page::new(0x5000, 0x20_3000)));
    assert_eq!(pager.get_physical(&mem, 0x20_3000), Ok(0x5000));
    assert_eq!(pager.get_physical(&mem, 0x20_1000), Ok(0x80_1000));
}

#[test]
fn map_2mb_over_a_table_gives_the_table_back() {
    let (mut mem, mut pager, mut a) = address_space();
    pager.page_4_kb(&mut mem, 0x20_0000, 0x5000, 3, &mut a).unwrap();
    assert_eq!(pager.page_2_mb(&mut mem, 0x20_0000, 0x80_0000, 3, &mut a), Ok(Page::new(0x80_0000, 0x20_0000)));
    assert_eq!(pager.get_physical(&mem, 0x20_0000), Ok(0x80_0000));
    // the table of 4 KiB pages was the last page taken; it is free again
    assert_eq!(a.alloc_pages(1).unwrap().get_base(), 0x20_3000);
}

#[test]
fn memory_block_and_kernel_space_mapping() {
    let (mut mem, mut pager, mut a) = address_space();
    let block = MemoryBlock::new(0x3000, 0x70_0000);
    assert_eq!(block.map(&mut mem, &mut a, &mut pager, 0x100_0000, 3), None);
    assert_eq!(pager.get_physical(&mem, 0x100_2000), Ok(0x70_2000));
    assert_eq!(MemoryBlock::new(0x1000, 0x70_0010).map(&mut mem, &mut a, &mut pager, 0x100_0000, 3), Some(MemoryResult::InvalidAddress));
    assert_eq!(MemoryBlock::new(0x800, 0x70_0010).map(&mut mem, &mut a, &mut pager, 0x100_0000, 3), None);
    let va = VirtualAllocator::new(MemoryBlock::new(0x2000, 0x90_0000), Allocator::empty());
    assert_eq!(pager.page_kernelspace_memory(&mut mem, &mut a, &va, 0x4000_0000), None);
    assert_eq!(pager.get_physical(&mem, 0x4000_1000), Ok(0x90_1000));
}

#[test]
fn pci_bar_mapping() {
    let (mut mem, mut pager, mut a) = address_space();
    let bar = PciBar { bar_type: BarType::Memory, flags: 0, data: 0xFEB0_0000, length: 0x2000 };
    assert!(bar.map(&mut mem, &mut pager, &mut a));
    assert_eq!(pager.get_physical(&mem, 0xFEB0_1000), Ok(0xFEB0_1000));
    assert!(bar.map_to_virtual(&mut mem, &mut pager, 0x50_0000, &mut a));
    assert_eq!(pager.get_physical(&mem, 0x50_1000), Ok(0xFEB0_1000));
    let io = PciBar { bar_type: BarType::Io, flags: 0, data: 0xC000, length: 0x20 };
    assert!(io.map(&mut mem, &mut pager, &mut a));
    let odd = PciBar { bar_type: BarType::Memory, flags: 0, data: 0xFEB0_0800, length: 0x1000 };
    assert!(!odd.map(&mut mem, &mut pager, &mut a));
}

#[test]
fn general_mapping_covers_two_gib() {
    let (mut mem, mut pager, mut a) = address_space();
    assert_eq!(pager.page_general(&mut mem, &mut a), None);
    assert_eq!(pager.get_physical(&mem, 0), Ok(0));
    assert_eq!(pager.get_physical(&mem, 0x4020_0000), Ok(0x4020_0000));
    assert_eq!(pager.get_physical(&mem, 0x7FE0_0000), Ok(0x7FE0_0000));
    // a page inside a 2 MiB mapping answers with the base of the 2 MiB page
    assert_eq!(pager.get_physical(&mem, 0x7FFF_F000), Ok(0x7FE0_0000));
    assert_eq!(pager.get_physical(&mem, 0x8000_0000), Err(MemoryResult::PagingError));
    // the top-level table, one directory and two tables of 2 MiB entries
    assert_eq!(a.alloc_pages(1).unwrap().get_base(), 0x20_4000);
}

#[test]
fn efficient_mapping_uses_a_2mb_page_in_the_middle() {
    let (mut mem, mut pager, mut a) = address_space();
    let block = MemoryBlock::new(0x20_2000, 0x1F_F000);
    assert_eq!(block.map_efficient(&mut mem, &mut a, &mut pager, 0x401F_F000, 3), None);
    assert_eq!(pager.get_physical(&mem, 0x401F_F000), Ok(0x1F_F000));
    assert_eq!(pager.get_physical(&mem, 0x4020_0000), Ok(0x20_0000));
    assert_eq!(pager.get_physical(&mem, 0x4040_0000), Ok(0x40_0000));
    assert_eq!(pager.unpage_4k(&mut mem, 0x4030_0000), Some(MemoryResult::InvalidActivateFlags));
    // a small block takes 4 KiB pages only
    let small = MemoryBlock::new(0x1800, 0x60_0000);
    assert_eq!(small.map_efficient(&mut mem, &mut a, &mut pager, 0x5000_0000, 3), None);
    assert_eq!(pager.get_physical(&mem, 0x5000_1000), Ok(0x60_1000));
}

#[test]
fn mapping_a_2mb_page_keeps_the_others() {
    let (mut mem, mut pager, mut a) = address_space();
    pager.page_2_mb(&mut mem, 0x20_0000, 0x80_0000, 3, &mut a).unwrap();
    pager.page_2_mb(&mut mem, 0x40_0000, 0xA0_0000, 3, &mut a).unwrap();
    pager.page_4_kb(&mut mem, 0x4000_0000, 0x7000, 3, &mut a).unwrap();
    assert_eq!(pager.get_physical(&mem, 0x20_0000), Ok(0x80_0000));
    assert_eq!(pager.get_physical(&mem, 0x40_0000), Ok(0xA0_0000));
}
