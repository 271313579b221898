use emkk::uhci_pool::{interrupt_run_of, UhciInterfaceData};

fn pool() -> UhciInterfaceData {
    let mut data = UhciInterfaceData::empty();
    data.initialize(0x10_0000, 0x20_0000, 0x30_0000, 0x40_0000, 20, 30);
    data
}

#[test]
fn pool_starts_empty_and_takes_pages() {
    let data = pool();
    assert_eq!(data.queue_heads, 0x10_0000);
    assert_eq!(data.transfer_descriptors, 0x20_0000);
    assert_eq!(data.interrupt_queue_heads_indices, vec![0u8; 11]);
    assert_eq!(data.allocated_interrupt_transfer_descriptors, vec![0u8; 11]);
    assert_eq!(data.allocated_control_endpoints, 0);
}

#[test]
fn control_records_come_in_order() {
    let mut data = pool();
    assert_eq!(data.acquire_default_control_endpoint(), 0);
    assert_eq!(data.acquire_default_control_endpoint(), 1);
    assert_eq!(data.acquire_td_array(), 0);
    assert_eq!(data.acquire_td_array(), 1);
    assert_eq!(data.allocated_control_endpoints, 2);
}

#[test]
fn control_descriptors_follow_the_bulk_ones() {
    let mut data = pool();
    // 128 bulk descriptors of 16 bytes come first.
    assert_eq!(data.acquire_control_tds(), 0x20_0000 + 0x800);
    assert_eq!(data.acquire_control_tds(), 0x20_0000 + 0x800 + 64);
    assert_eq!(data.allocated_control_transfer_descriptors, 8);
}

#[test]
fn queue_heads_are_laid_out_interrupt_bulk_control() {
    let mut data = pool();
    assert_eq!(data.acquire_bulk_qh(), 0x10_0000 + 11 * 16);
    assert_eq!(data.acquire_bulk_qh(), 0x10_0000 + 12 * 16);
    assert_eq!(data.acquire_control_qh(), 0x10_0000 + 22 * 16);
}

#[test]
fn bulk_descriptors_are_taken_in_runs() {
    let mut data = pool();
    assert_eq!(data.acquire_bulk_tds(5), 0x20_0000);
    assert_eq!(data.acquire_bulk_tds(3), 0x20_0000 + 5 * 16);
    assert_eq!(data.allocated_bulk_transfer_descriptors, 8);
}

#[test]
fn interrupt_descriptors_come_from_the_run_of_their_interval() {
    let mut data = pool();
    assert_eq!(interrupt_run_of(3), (168, 32));
    let (qh, tds) = data.acquire_qh_and_tds_for_interrupt(4, 3);
    assert_eq!(qh, 0x10_0000);
    assert_eq!(tds, 0x30_0000 + 168 * 16);
    let (qh2, tds2) = data.acquire_qh_and_tds_for_interrupt(2, 3);
    assert_eq!(qh2, 0x10_0000 + 16);
    assert_eq!(tds2, 0x30_0000 + 172 * 16);
    assert_eq!(data.allocated_interrupt_transfer_descriptors[3], 6);
    // The interval is noted at the slot counted by bulk queue heads.
    assert_eq!(data.interrupt_queue_heads_indices[0], 3);
}

use emkk::allocator::{Allocator, EfiMemoryDescriptor, EFI_CONVENTIONAL_MEMORY};
use emkk::xhci_memory::XhciControllerInterfaceData;

fn allocator() -> Allocator {
    let mut map = vec![EfiMemoryDescriptor {
        descriptor_type: EFI_CONVENTIONAL_MEMORY,
        physical_start: 0x10_0000,
        virtual_start: 0,
        number_of_pages: 0x200,
        attribute: 0,
    }];
    Allocator::new(&mut map, &Vec::new()).unwrap().0
}

#[test]
fn device_contexts_come_three_to_a_page() {
    let mut a = allocator();
    let mut data = XhciControllerInterfaceData::new(0x8000, 0x9000);
    assert_eq!(data.request_device_context(&mut a), 0x8000);
    assert_eq!(data.request_device_context(&mut a), 0x8400);
    assert_eq!(data.request_device_context(&mut a), 0x8800);
    let fresh = data.request_device_context(&mut a);
    assert_ne!(fresh, 0x8C00);
    assert_eq!(fresh % 0x1000, 0);
    assert_eq!(data.request_device_context(&mut a), fresh + 0x400);
}

#[test]
fn input_contexts_come_two_to_a_page() {
    let mut a = allocator();
    let mut data = XhciControllerInterfaceData::new(0x8000, 0x9000);
    assert_eq!(data.request_input_context(&mut a), 0x9000);
    assert_eq!(data.request_input_context(&mut a), 0x9420);
    let fresh = data.request_input_context(&mut a);
    assert_eq!(fresh % 0x1000, 0);
    assert_eq!(data.request_device(), 0);
    assert_eq!(data.request_device(), 1);
    assert_eq!(data.request_endpoint(), 0);
}
