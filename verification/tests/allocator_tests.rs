use emkk::allocator::{
    make_mask, top_free_bits, Allocator, BitmapEntry, EfiMemoryDescriptor, Errno, ImageAllocation,
    MemoryBlock, EFI_CONVENTIONAL_MEMORY, EFI_UNUSABLE_MEMORY,
};
use emkk::memory::{alloc_zero_or_crash, free_or_crash, MemoryResult};

fn conventional(start: u64, pages: u64) -> EfiMemoryDescriptor {
    EfiMemoryDescriptor {
        descriptor_type: EFI_CONVENTIONAL_MEMORY,
        physical_start: start,
        virtual_start: 0,
        number_of_pages: pages,
        attribute: 0,
    }
}

/// A kernel allocator over a map with 0x100 free pages at 2 MiB.
fn kernel_allocator() -> Allocator {
    let mut map = vec![conventional(0x10_0000, 0x200)];
    let (a, bitmap_address) = Allocator::new(&mut map, &Vec::new()).unwrap();
    assert_eq!(bitmap_address, 0x10_0000);
    a
}

#[test]
fn new_places_bitmap_in_first_large_descriptor() {
    let mut map = vec![conventional(0x1000, 0x10), conventional(0x10_0000, 0x200)];
    let (_, bitmap_address) = Allocator::new(&mut map, &Vec::new()).unwrap();
    assert_eq!(bitmap_address, 0x10_0000);
    assert_eq!(map[1].physical_start, 0x20_0000);
    assert_eq!(map[1].number_of_pages, 0x100);
    assert_eq!(map[1].descriptor_type, EFI_CONVENTIONAL_MEMORY);
    assert_eq!(map[0], conventional(0x1000, 0x10));
}

#[test]
fn new_marks_an_exhausted_descriptor_unusable() {
    let mut map = vec![conventional(0x10_0000, 0x100)];
    let (mut a, _) = Allocator::new(&mut map, &Vec::new()).unwrap();
    assert_eq!(map[0].number_of_pages, 0);
    assert_eq!(map[0].descriptor_type, EFI_UNUSABLE_MEMORY);
    assert_eq!(a.alloc_pages(1), Err(MemoryResult::Nospace));
}

#[test]
fn new_without_room_for_bitmap_is_enobufs() {
    let mut map = vec![conventional(0x1000, 0xFF)];
    let r = Allocator::new(&mut map, &Vec::new());
    assert!(matches!(r, Err(Errno::ENOBUFS)));
    assert_eq!(map[0], conventional(0x1000, 0xFF));
}

#[test]
fn new_keeps_image_and_startup_pages_in_use() {
    let mut map = vec![conventional(0x10_0000, 0x200), conventional(0x0, 0x20)];
    let image = vec![ImageAllocation { allocated: 0x20_0000, phdr: 0, size: 0x2000 }];
    let (mut a, _) = Allocator::new(&mut map, &image).unwrap();
    // page 0 is free, the start-up pages 8..12 are not
    let first = a.alloc_pages(8).unwrap();
    assert_eq!(first, MemoryBlock::new(0x8000, 0));
    let next = a.alloc_pages(1).unwrap();
    assert_eq!(next.base, 0xC000);
    // the image pages at 2 MiB stay taken: a big block starts after them
    let big = a.alloc_pages(40).unwrap();
    assert!(big.base >= 0x20_2000 || big.base + big.length <= 0x20_0000);
}

#[test]
fn new_stops_at_memory_past_the_limit() {
    let mut map = vec![
        conventional(0x10_0000, 0x200),
        conventional(0x8_0000_0000, 0x10),
        conventional(0x0, 0x20),
    ];
    let (mut a, _) = Allocator::new(&mut map, &Vec::new()).unwrap();
    // the low pages come after the descriptor past the limit: never freed
    let b = a.alloc_pages(1).unwrap();
    assert_eq!(b.base, 0x20_0000);
}

#[test]
fn alloc_then_free_restores_the_allocator() {
    let mut a = kernel_allocator();
    let b = a.alloc_pages(3).unwrap();
    assert_eq!(b, MemoryBlock::new(0x3000, 0x20_0000));
    assert_eq!(a.free(&b), Ok(()));
    let again = a.alloc_pages(3).unwrap();
    assert_eq!(again, b);
}

#[test]
fn wide_allocation_starts_in_free_top_bits() {
    let mut a = kernel_allocator();
    let b = a.alloc_pages(64).unwrap();
    assert_eq!(b.length, 64 * 0x1000);
    assert_eq!(a.free(&b), Ok(()));
}

#[test]
fn free_errors() {
    let mut a = kernel_allocator();
    let b = a.alloc_pages(1).unwrap();
    assert_eq!(a.free(&MemoryBlock::new(0x800, b.base)), Err(MemoryResult::InvalidLength));
    assert_eq!(a.free(&MemoryBlock::new(0x1000, b.base + 0x10)), Err(MemoryResult::InvalidAddress));
    assert_eq!(a.free(&MemoryBlock::new(0x1000, 0x8_0000_0000)), Err(MemoryResult::InvalidAddress));
    assert_eq!(a.free(&MemoryBlock::new(0x1000, b.base + 0x1000)), Err(MemoryResult::InvalidBlock));
    assert_eq!(a.free(&b), Ok(()));
    assert_eq!(a.free(&b), Err(MemoryResult::InvalidBlock));
}

#[test]
fn alloc_errors() {
    let mut a = kernel_allocator();
    assert_eq!(a.alloc_pages(0), Err(MemoryResult::AllocationError));
    assert_eq!(a.alloc_pages(0x101), Err(MemoryResult::Nospace));
    let mut e = Allocator::empty();
    assert_eq!(e.alloc_pages(1), Err(MemoryResult::Nospace));
}

#[test]
fn subdivide_gives_an_empty_child() {
    let mut a = kernel_allocator();
    let mut child = a.subdivide(64).unwrap();
    let base = child.lowest_address();
    assert_eq!(base % 0x1000, 0);
    let b = child.alloc_pages(1).unwrap();
    assert_eq!(b.base, base);
    assert_eq!(child.free(&b), Ok(()));
}

#[test]
fn new_fake_starts_at_the_virtual_address() {
    let mut a = kernel_allocator();
    let mut fake = a.new_fake(32, 0x4000_0000).unwrap();
    assert_eq!(fake.lowest_address(), 0x4000_0000);
    let b = fake.alloc_pages(2).unwrap();
    assert_eq!(b, MemoryBlock::new(0x2000, 0x4000_0000));
}

#[test]
fn or_crash_helpers() {
    let mut a = kernel_allocator();
    let b = alloc_zero_or_crash(&mut a, 2);
    assert_eq!(b.length, 0x2000);
    free_or_crash(&mut a, &b);
    assert_eq!(a.alloc_pages(2).unwrap(), b);
}

#[test]
fn bitmap_entries_and_masks() {
    let e = BitmapEntry::from_address(0x21000);
    assert_eq!((e.offset, e.bit_offset), (1, 1));
    assert_eq!(e.get_frontbits(), 30);
    assert_eq!(e.get_backbits(), 1);
    assert_eq!(make_mask(0), 0);
    assert_eq!(make_mask(3), 0b111);
    assert_eq!(make_mask(32), 0xFFFF_FFFF);
    assert_eq!(top_free_bits(0x0000_FFFF), 16);
    assert_eq!(top_free_bits(0xFFFF_FFFF), 0);
    let mut bm = vec![0u32; 4];
    let e = BitmapEntry::new(0, 30);
    e.set_one(&mut bm, 4);
    assert_eq!(bm[0], 0xC000_0000);
    assert_eq!(bm[1], 0x3);
    assert!(e.is_occupied(&bm, 4));
    e.set_zero(&mut bm, 4);
    assert_eq!(bm, vec![0u32; 4]);
}

#[test]
fn memory_block_helpers() {
    let b = MemoryBlock::new(0x2000, 0x1000);
    assert_eq!(b.end(), 0x3000);
    assert!(b.within(&MemoryBlock::new(0x1000, 0x2000)));
    assert!(!b.within(&MemoryBlock::new(0x2000, 0x2000)));
    assert_eq!(b.offset(0x1000), Some(MemoryBlock::new(0x1000, 0x2000)));
    assert_eq!(b.offset(0x3000), None);
}

#[test]
fn a_second_free_of_the_same_block_is_refused() {
    let mut a = kernel_allocator();
    let b = a.alloc_pages(2).unwrap();
    assert_eq!(a.free(&b), Ok(()));
    assert_eq!(a.free(&b), Err(MemoryResult::InvalidBlock));
    assert_eq!(a.alloc_pages(2).unwrap(), b);
}
