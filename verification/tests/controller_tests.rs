use emkk::uhci::{UhciTransferDescriptor, UhciTransferDescriptorBitPart, UhciTransferDescriptorPart, UsbTransferType};
use emkk::uhci_transfers::{
    configure_transfer_descriptors, construct_closed_td_list, control_mark, interrupt_mark, interrupt_marker,
    rearm_interrupt_tds, reset_control_tds, tds_for_packet, UhciQueueMark,
};
use emkk::xhci_context::{XhciEndpointContext32, XhciEndpointContext32Part, XhciInputContext32, XhciInputContextConfigurationPart32, XhciSlotContext32, XhciSlotContext32Part};
use emkk::xhci_controller::{
    collect_supported_protocols, enabled_slot, prepare_address_device, scratchpad_array_pages, Direction,
    UsbProtocol, UsbSpeed, XhciController,
};
use emkk::xhci_endpoint::{
    advance_interrupt_ring, configure_endpoint_context, endpoint_dci, transfer_ring, xhci_event_action,
    UsbEndpointDescriptor, XhciEndpoint, XhciEndpointDescriptor, XhciEventAction, RING_LINK_DWORD3,
    RING_NORMAL_DWORD3,
};
use emkk::xhci_registers::XhciDoorbell;
use emkk::xhci_trb::{RawXhciNormalTrb, XhciCommandCompletionEventTrb, XhciLinkTrb, XhciTransferEventTrb, XhciTrbId};

/// Registers with two supported-protocol capabilities and a legacy one between them.
fn capability_registers() -> Vec<u32> {
    let mut regs = vec![0u32; 24];
    // USB 3.0 covering ports 1 and 2, one speed ID word for 5 Gb/s (and one more word)
    regs[4] = 0x0300_0802;
    regs[5] = 0x2042_5355;
    regs[6] = 0x1000_0201;
    regs[7] = 0x0000_0000;
    regs[8] = 0x0005_0134;
    regs[9] = 0;
    // a legacy capability four words further
    regs[12] = 0x0000_0401;
    // USB 2.0 covering ports 3 and 4, no speed ID words
    regs[16] = 0x0200_0002;
    regs[17] = 0x2042_5355;
    regs[18] = 0x0000_0203;
    regs[19] = 0;
    regs
}

fn controller() -> XhciController {
    let regs = capability_registers();
    let mut c = XhciController::not_present();
    c.supported_protocols = collect_supported_protocols(&regs, 4);
    c
}

#[test]
fn supported_protocols_are_read_from_the_capability_chain() {
    let regs = capability_registers();
    let ps = collect_supported_protocols(&regs, 4);
    assert_eq!(ps.len(), 2);
    assert_eq!(ps[0].revision_major, 3);
    assert_eq!(ps[0].revision_minor, 0);
    assert_eq!(ps[0].compatible_port_offset, 1);
    assert_eq!(ps[0].compatible_port_count, 2);
    assert_eq!(ps[0].psic, 1);
    assert_eq!(ps[0].name_string, *b"USB ");
    assert_eq!(ps[0].definitions.len(), 2);
    assert_eq!(ps[0].get_definition(0).dword0, 0x0005_0134);
    assert_eq!(ps[1].revision_major, 2);
    assert_eq!(ps[1].compatible_port_offset, 3);
    assert_eq!(ps[1].definitions.len(), 1);
}

#[test]
fn port_protocol_and_speed() {
    let c = controller();
    assert_eq!(c.get_protocol_for_port(1), Some(UsbProtocol::Usb3));
    assert_eq!(c.get_protocol_for_port(4), Some(UsbProtocol::Usb2));
    assert_eq!(c.get_protocol_for_port(5), None);
    assert_eq!(c.get_speed_for_port(2, 4 << 10), Some(UsbSpeed::SuperSpeedGen1x1));
    assert_eq!(c.get_speed_for_port(3, 3 << 10), Some(UsbSpeed::HighSpeed));
    assert_eq!(c.get_speed_for_port(3, 2 << 10), Some(UsbSpeed::LowSpeed));
    // no speed ID word of the covering protocol has value 2, and no other protocol covers port 1
    assert_eq!(c.get_speed_for_port(1, 2 << 10), None);
}

#[test]
fn scratchpad_pages_and_latencies() {
    assert_eq!(scratchpad_array_pages(0), 0);
    assert_eq!(scratchpad_array_pages(1), 1);
    assert_eq!(scratchpad_array_pages(512), 1);
    assert_eq!(scratchpad_array_pages(513), 2);
    let mut c = XhciController::not_present();
    c.set_service_latencies(0xA5);
    assert_eq!((c.dbesl, c.dbesld), (0x5, 0xA));
}

#[test]
fn enable_slot_and_address_device() {
    let event = XhciCommandCompletionEventTrb::from(0x1000, [0, 0, 1 << 24, 7 << 24]);
    assert_eq!(enabled_slot(&event), 7);
    let mut input = XhciInputContext32 {
        input_context_configuration: XhciInputContextConfigurationPart32 {
            d_line: 0,
            a_line: 0,
            reserved: [0; 5],
            configuration_value: 0,
            interface_number: 0,
            alternate_setting: 0,
            reserved5: 0,
        },
        slot_context: XhciSlotContext32 { dwords: [0; 8] },
        default_control_endpoint: XhciEndpointContext32 { dwords: [0; 8] },
        endpoints: [XhciEndpointContext32 { dwords: [0; 8] }; 30],
    };
    prepare_address_device(&mut input, 2, 4 << 10, 512, 0x4_0000);
    assert_eq!(input.input_context_configuration.a_line, 3);
    assert_eq!(input.slot_context.get_part(XhciSlotContext32Part::Speed), 4);
    assert_eq!(input.slot_context.get_part(XhciSlotContext32Part::RootHubPortNumber), 2);
    assert_eq!(input.slot_context.get_part(XhciSlotContext32Part::ContextEntries), 1);
    let ep = &input.default_control_endpoint;
    assert_eq!(ep.get_part(XhciEndpointContext32Part::EpType), 4);
    assert_eq!(ep.get_part(XhciEndpointContext32Part::MaxPacketSize), 512);
    assert_eq!(ep.get_part(XhciEndpointContext32Part::AverageTrbLength), 170);
    assert_eq!(ep.get_tr_dequeue_pointer(), 0x4_0000);
}

fn interrupt_in_endpoint() -> XhciEndpointDescriptor {
    XhciEndpointDescriptor::from_descriptor(&UsbEndpointDescriptor {
        b_length: 7,
        b_descriptor_type: 5,
        b_endpoint_address: 0x81,
        bm_attributes: 3,
        w_max_packet_size: 8,
        b_interval: 10,
    })
}

#[test]
fn endpoint_descriptor_fields() {
    let e = interrupt_in_endpoint();
    assert_eq!(e.endpoint_number(), 1);
    assert_eq!(e.get_direction(), Direction::In);
    assert_eq!(e.get_transfer_type(), UsbTransferType::Interrupt);
    assert_eq!(e.get_maximum_packet_size(), 8);
    assert_eq!(endpoint_dci(1, Direction::In), 3);
    assert_eq!(endpoint_dci(1, Direction::Out), 2);
}

#[test]
fn endpoint_context_for_an_interrupt_endpoint() {
    let e = interrupt_in_endpoint();
    let mut ctx = XhciEndpointContext32 { dwords: [0; 8] };
    configure_endpoint_context(&mut ctx, UsbProtocol::Usb2, &e, 0x9_0000);
    assert_eq!(ctx.get_part(XhciEndpointContext32Part::EpState), 3);
    assert_eq!(ctx.get_part(XhciEndpointContext32Part::EpType), 7);
    assert_eq!(ctx.get_part(XhciEndpointContext32Part::Interval), 10);
    assert_eq!(ctx.get_part(XhciEndpointContext32Part::CErr), 3);
    assert_eq!(ctx.get_part(XhciEndpointContext32Part::MaxPacketSize), 8);
    assert_eq!(ctx.get_part(XhciEndpointContext32Part::AverageTrbLength), 8);
    assert_eq!(ctx.get_esit_payload(), 8);
    assert_eq!(ctx.get_tr_dequeue_pointer(), 0x9_0000);
    // a SuperSpeed bulk OUT endpoint with a burst of 3
    let mut bulk = XhciEndpointDescriptor::from_descriptor(&UsbEndpointDescriptor {
        b_length: 7,
        b_descriptor_type: 5,
        b_endpoint_address: 0x02,
        bm_attributes: 2,
        w_max_packet_size: 1024,
        b_interval: 0,
    });
    bulk.superspeed_max_burst = 3;
    let mut ctx = XhciEndpointContext32 { dwords: [0; 8] };
    configure_endpoint_context(&mut ctx, UsbProtocol::Usb3, &bulk, 0xA_0000);
    assert_eq!(ctx.get_part(XhciEndpointContext32Part::EpType), 2);
    assert_eq!(ctx.get_part(XhciEndpointContext32Part::MaxBurstSize), 3);
    assert_eq!(ctx.get_part(XhciEndpointContext32Part::AverageTrbLength), 512);
    assert_eq!(ctx.get_esit_payload(), 0);
}

#[test]
fn fresh_transfer_ring() {
    let (normals, link) = transfer_ring(0x10_0000, 8);
    assert_eq!(normals.len(), 7);
    for n in &normals {
        assert_eq!((n.data_buffer, n.dword2, n.dword3), (0, 8, RING_NORMAL_DWORD3));
    }
    assert_eq!(RING_NORMAL_DWORD3, 0x421);
    assert_eq!(link.address, 0x10_0070);
    assert_eq!(link.dwords[3], RING_LINK_DWORD3);
    assert_eq!(link.ring_segment_pointer(), 0x10_0000);
}

#[test]
fn endpoint_ring_walk_and_doorbell() {
    let mut ep = XhciEndpoint::new(0x2000, 8, 0, Direction::TdDependent, UsbTransferType::Control, XhciDoorbell::new(0xF000));
    let mut plain = XhciLinkTrb::from(0x2000, [0, 0, 0, 1 << 10]);
    let t = ep.request_trb(&mut plain);
    assert_eq!((t.trb, t.cycle), (0x2000, true));
    assert_eq!(ep.enqueue_pointer, 0x2010);
    // a link TRB back to the start that toggles the cycle
    let mut link = XhciLinkTrb::from(0x2010, [0x2000, 0, 0, (6 << 10) | 2]);
    let t = ep.request_trb(&mut link);
    assert_eq!((t.trb, t.cycle), (0x2000, false));
    assert_eq!(ep.enqueue_pointer, 0x2010);
    assert_eq!(link.dwords[3] & 1, 1);
    assert_eq!(ep.ring(), 1);
    let ep2 = XhciEndpoint::new(0x3000, 8, 2, Direction::In, UsbTransferType::Interrupt, XhciDoorbell::new(0xF000));
    assert_eq!(ep2.ring(), 4);
    let mut ep3 = ep2;
    ep3.update_max_packet_size(64);
    assert_eq!(ep3.get_maximum_packet_size(), 64);
}

#[test]
fn events_and_interrupt_ring_advance() {
    let ok_ep3 = XhciTransferEventTrb::from(0, [0, 0, 1 << 24, (5 << 24) | (3 << 16)]);
    assert_eq!(xhci_event_action(XhciTrbId::TransferEvent, &ok_ep3), XhciEventAction::ServiceEndpoint(3));
    let ok_ep1 = XhciTransferEventTrb::from(0, [0, 0, 1 << 24, (5 << 24) | (1 << 16)]);
    assert_eq!(xhci_event_action(XhciTrbId::TransferEvent, &ok_ep1), XhciEventAction::SignalDevice(5));
    assert_eq!(xhci_event_action(XhciTrbId::PortStatusChangeEvent, &ok_ep1), XhciEventAction::Callback);
    let mut normal = RawXhciNormalTrb { data_buffer: 0, dword2: 8, dword3: RING_NORMAL_DWORD3 };
    let mut next = XhciLinkTrb::from(0x5010, [0, 0, 0, 1 << 10]);
    assert_eq!(advance_interrupt_ring(0x5000, &mut normal, &mut next), 0x5010);
    assert_eq!(normal.dword3 & 1, 0);
    let mut link = XhciLinkTrb::from(0x5070, [0x5000, 0, 0, RING_LINK_DWORD3]);
    assert_eq!(advance_interrupt_ring(0x5060, &mut normal, &mut link), 0x5000);
    assert_eq!(normal.dword3 & 1, 1);
    assert_eq!(link.dwords[3] & 1, 0);
}

fn tds(n: u32) -> Vec<UhciTransferDescriptor> {
    (0..n).map(|i| UhciTransferDescriptor::new(0x8000 + 16 * i, [0; 4])).collect()
}

#[test]
fn closed_td_list_links_and_terminates() {
    let mut list = tds(3);
    construct_closed_td_list(&mut list, true, true);
    assert_eq!(list[0].link_pointer(), 0x8010);
    assert_eq!(list[1].link_pointer(), 0x8020);
    assert!(list[2].is_set(UhciTransferDescriptorBitPart::T));
    assert!(!list[0].is_set(UhciTransferDescriptorBitPart::T));
    assert!(list[1].is_set(UhciTransferDescriptorBitPart::Vf));
    assert!(list[1].is_set(UhciTransferDescriptorBitPart::Ls));
    assert_eq!(list[0].get_part(UhciTransferDescriptorPart::CErr), 3);
}

#[test]
fn transfer_descriptors_for_a_packet() {
    assert_eq!(tds_for_packet(100), 2);
    assert_eq!(tds_for_packet(64), 1);
    assert_eq!(tds_for_packet(0), 0);
    let mut list = tds(2);
    configure_transfer_descriptors(&mut list, 2, Direction::In, 100, 5, false);
    assert_eq!(list[0].get_part(UhciTransferDescriptorPart::MaxLen), 63);
    assert_eq!(list[1].get_part(UhciTransferDescriptorPart::MaxLen), 35);
    assert_eq!(list[0].get_part(UhciTransferDescriptorPart::Pid), 0x69);
    assert_eq!(list[1].get_part(UhciTransferDescriptorPart::DeviceAddress), 5);
    assert_eq!(list[1].get_part(UhciTransferDescriptorPart::EndPt), 2);
    assert_eq!(list[0].get_part(UhciTransferDescriptorPart::Status), 0x80);
    assert!(!list[0].is_set(UhciTransferDescriptorBitPart::D));
    assert!(list[1].is_set(UhciTransferDescriptorBitPart::D));
    let mut out = tds(1);
    configure_transfer_descriptors(&mut out, 1, Direction::Out, 8, 5, true);
    assert_eq!(out[0].get_part(UhciTransferDescriptorPart::Pid), 0xE1);
    assert_eq!(out[0].get_part(UhciTransferDescriptorPart::MaxLen), 7);
    assert!(out[0].is_set(UhciTransferDescriptorBitPart::Ls));
}

#[test]
fn queue_marks() {
    let m = interrupt_marker(12, 3);
    assert_eq!(interrupt_mark(m), UhciQueueMark::InterruptFinished { td_offset: 12, num_tds: 3 });
    assert_eq!(interrupt_mark(0x1234_5670 & !0x2000_0000), UhciQueueMark::Running);
    assert_eq!(control_mark(0x4000_0500), UhciQueueMark::ControlFinished { td_index: 5, clear_count: 3 });
    assert_eq!(control_mark(0x6000_0500), UhciQueueMark::ControlFinished { td_index: 5, clear_count: 2 });
    assert_eq!(control_mark(0x8007_0300), UhciQueueMark::CustomFinished { page_to_free: 3, td_offset: 7 });
    assert_eq!(control_mark(0x0000_1230), UhciQueueMark::Running);
}

#[test]
fn rearm_and_reset() {
    let mut list = tds(3);
    rearm_interrupt_tds(&mut list);
    assert!(list[0].is_set(UhciTransferDescriptorBitPart::D));
    assert!(list[2].is_set(UhciTransferDescriptorBitPart::Ioc));
    assert_eq!(list[1].get_part(UhciTransferDescriptorPart::Status), 0x80);
    let mut control = tds(4);
    control[0].set_part(UhciTransferDescriptorPart::DeviceAddress, 9);
    control[1].write_buffer_pointer(0x7000);
    control[1].set(UhciTransferDescriptorBitPart::T, true);
    let addr = reset_control_tds(&mut control, 2);
    assert_eq!(addr, 9);
    assert_eq!(control[1].buffer_pointer(), 0);
    assert_eq!(control[1].link_pointer(), 0x8020);
    assert!(!control[1].is_set(UhciTransferDescriptorBitPart::T));
    assert_eq!(control[0].get_part(UhciTransferDescriptorPart::CErr), 3);
}

#[test]
fn writing_a_context_field_keeps_the_others() {
    let mut slot = XhciSlotContext32 { dwords: [0xFFFF_FFFF; 8] };
    let route = slot.get_route_string();
    let ports = slot.get_part(XhciSlotContext32Part::NumberOfPorts);
    slot.set_part(XhciSlotContext32Part::Speed, 2);
    assert_eq!(slot.get_part(XhciSlotContext32Part::Speed), 2);
    assert_eq!(slot.get_route_string(), route);
    assert_eq!(slot.get_part(XhciSlotContext32Part::NumberOfPorts), ports);
    assert_eq!(slot.get_part(XhciSlotContext32Part::ContextEntries), 0x1f);
    let mut ep = XhciEndpointContext32 { dwords: [0x1234_5679; 8] };
    let esit = ep.get_esit_payload();
    let dequeue = ep.get_tr_dequeue_pointer();
    ep.set_part(XhciEndpointContext32Part::MaxPacketSize, 64);
    assert_eq!(ep.get_part(XhciEndpointContext32Part::MaxPacketSize), 64);
    assert_eq!(ep.get_esit_payload(), esit);
    assert_eq!(ep.get_tr_dequeue_pointer(), dequeue);
}
