use emkk::allocator::{Allocator, EfiMemoryDescriptor, MemoryBlock, EFI_CONVENTIONAL_MEMORY};
use emkk::buffer::Buffer;
use emkk::containers::{slice_end_address, slots_for, List, Queue, Stack};
use emkk::memory::MemoryResult;
use emkk::pools::{DynamicAllocator, Node, PageAllocator};

fn kernel_allocator() -> Allocator {
    let mut map = vec![EfiMemoryDescriptor {
        descriptor_type: EFI_CONVENTIONAL_MEMORY,
        physical_start: 0x10_0000,
        virtual_start: 0,
        number_of_pages: 0x200,
        attribute: 0,
    }];
    Allocator::new(&mut map, &Vec::new()).unwrap().0
}

#[test]
fn queue_is_first_in_first_out() {
    let mut q: Queue<u32> = Queue::new(vec![0; 8]);
    q.enqueue(1);
    q.enqueue(2);
    q.enqueue(3);
    assert_eq!(q.num_occupied(), 3);
    assert_eq!(q.dequeue(), 1);
    assert_eq!(q.dequeue(), 2);
    q.dequeue_silent();
    assert_eq!(q.num_occupied(), 0);
    assert_eq!(Queue::<u8>::empty().num_occupied(), 0);
}

#[test]
fn queue_positions_wrap_around_its_slots() {
    let mut q: Queue<u32> = Queue::new(vec![0; 2]);
    q.enqueue(1);
    q.enqueue(2);
    assert_eq!(q.current_enqueue, 0);
    assert_eq!(q.dequeue(), 1);
    q.enqueue(3);
    assert_eq!(q.dequeue(), 2);
    assert_eq!(q.current_dequeue, 0);
    assert_eq!(q.dequeue(), 3);
    assert_eq!(q.num_occupied(), 0);
    let mut one: Queue<u32> = Queue::new(vec![0; 1]);
    one.enqueue(7);
    assert_eq!(one.dequeue(), 7);
    one.enqueue(9);
    assert_eq!(one.current_enqueue, 0);
    assert_eq!(one.dequeue(), 9);
}

#[test]
fn stack_is_last_in_first_out() {
    let mut s: Stack<u64> = Stack::new(vec![0; 4]);
    s.push(10);
    s.push(20);
    assert_eq!(*s.ref_top(), 20);
    assert_eq!(s.pop(), 20);
    assert_eq!(s.num_occupied(), 1);
    s.pop_silent();
    assert_eq!(s.num_occupied(), 0);
    assert_eq!(*s.ref_top(), 10);
}

#[test]
fn list_accepts_index_of_entry_count() {
    let l: List<u8> = List::new(MemoryBlock::new(0x1000, 0x2000), vec![5, 6, 7], 2);
    assert_eq!(l.size(), 2);
    assert_eq!(l.ref_const(1), Some(&6));
    assert_eq!(l.ref_const(2), Some(&7));
    assert_eq!(l.ref_const(3), None);
    assert_eq!(List::<u8>::empty().size(), 0);
}

#[test]
fn slice_end_is_the_last_item() {
    assert_eq!(slice_end_address::<u32>(0x1000, 4), 0x100C);
    assert_eq!(slice_end_address::<u64>(0x1000, 1), 0x1000);
}

#[test]
fn page_allocator_rounds_capacity_to_pages() {
    let mut a = kernel_allocator();
    let mut p: PageAllocator<u64> = PageAllocator::new(&mut a, 10).unwrap();
    assert_eq!(p.capacity, 512);
    assert_eq!(p.memory.length, 0x1000);
    assert!(p.push_back(3));
    assert_eq!(p.size(), 1);
    assert_eq!(p.as_ref(0), Some(&3));
    assert_eq!(p.as_ref(5), None);
    assert_eq!(p.free(&mut a), None);
    assert_eq!(p.size(), 0);
    assert_eq!(p.memory.base, 0);
    assert_eq!(p.free(&mut a), None);
}

#[test]
fn page_allocator_full_refuses() {
    let mut p: PageAllocator<u8> = PageAllocator::empty();
    assert!(!p.push_back(1));
    assert_eq!(p.size(), 0);
}

#[test]
fn page_allocator_free_reports_errors() {
    let mut a = kernel_allocator();
    let mut p: PageAllocator<u8> = PageAllocator::empty();
    p.memory = MemoryBlock::new(0x1000, 0x20_0000);
    assert_eq!(p.free(&mut a), Some(MemoryResult::InvalidBlock));
    assert_eq!(p.memory, MemoryBlock::new(0x1000, 0x20_0000));
}

#[test]
fn dynamic_allocator_to_list() {
    let mut a = kernel_allocator();
    let d: DynamicAllocator<u32> = DynamicAllocator::new(&mut a, 2000).unwrap();
    assert_eq!(d.memory.length, 0x2000);
    assert_eq!(d.capacity, 2048);
    assert_eq!(d.size(), 0);
    let l = d.to_list();
    assert_eq!(l.entries, 0);
}

#[test]
fn nodes() {
    let mut n = Node::new(true, 4, 0x1000);
    assert!(n.is_reserving());
    assert!(!n.is_freeing());
    assert_eq!(n.end_address::<u64>(), 0x1020);
    assert_eq!(n.base_as_offset::<u64>(0x800), 0x100);
    assert_eq!(n.end_as_offset::<u64>(0x800), 0x104);
    n.change_base(0x2000);
    n.change_length(1);
    assert_eq!((n.get_base(), n.get_length()), (0x2000, 1));
}

#[test]
fn buffers() {
    let mut a = kernel_allocator();
    let mut b = Buffer::new(&mut a, false, 0x1800).unwrap();
    assert_eq!(b.allocated_size, 0x2000);
    assert_eq!(b.get_size(), 0x1800);
    assert_eq!(b.as_mut(), Some(b.address()));
    let sub = b.sub_buffer(0x100, 0x10).unwrap();
    assert_eq!(sub.address(), b.address() + 0x100);
    assert!(b.sub_buffer(0x1801, 1).is_none());
    b.release(&mut a);
    assert_eq!(b.address(), 0);
    assert!(b.is_readonly());
    let ro = Buffer::from_existing(0x4000, 0, 0x10, true);
    assert_eq!(ro.as_mut(), None);
    assert_eq!(ro.as_const(), 0x4000);
    assert!(Buffer::empty().is_readonly());
}

#[test]
fn slots_are_rounded_up_to_whole_pages() {
    assert_eq!(slots_for(10, 8), (1, 512));
    assert_eq!(slots_for(1024, 8), (2, 1024));
    assert_eq!(slots_for(0, 8), (0, 0));
}
