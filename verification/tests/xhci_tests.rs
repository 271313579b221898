use emkk::xhci_context::{
    XhciEndpointContext32, XhciEndpointContext32BitPart, XhciEndpointContext32Part, XhciSlotContext32,
    XhciSlotContext32Part,
};
use emkk::xhci_interrupter::XhciInterrupter;
use emkk::xhci_registers::{
    db_target_for_ep, XhciConfig, XhciCrCr, XhciDoorbell, XhciHcsParams2, XhciInterruptRegisterSet,
    XhciPortSc, XhciPortScBitPart, XhciPortScPart, XhciUsbSts,
};
use emkk::xhci_trb::{
    XhciCommand, XhciCommandCompletionEventTrb, XhciCommandCompletionEventTrbPart, XhciCommandRing,
    XhciDataStageTrb, XhciLinkTrb, XhciLinkTrbBitPart, XhciProtocolDefinition,
    XhciProtocolDefinitionPart, XhciSetupStageTrb, XhciTransferEventTrb, XhciTransferType, XhciTrbId,
};

#[test]
fn trb_ids_round_trip() {
    for id in [1u32, 2, 6, 9, 11, 16, 17, 22, 25, 32, 33, 34, 37, 39] {
        assert_eq!(XhciTrbId::from_u32(id).id(), id);
    }
    assert_eq!(XhciTrbId::from_u32(33), XhciTrbId::CommandCompletionEvent);
}

#[test]
fn link_trb_ring_segment_pointer() {
    let mut link = XhciLinkTrb::from(0x5000, [0xFFFF_FFFF; 4]);
    link.set_ring_segment_pointer(0x1_2345_678F);
    assert_eq!(link.ring_segment_pointer(), 0x1_2345_6780);
    link.set(XhciLinkTrbBitPart::Tc, false);
    assert!(!link.is_set(XhciLinkTrbBitPart::Tc));
    assert!(link.is_set(XhciLinkTrbBitPart::C));
    link.zero_out();
    assert_eq!(link.dwords, [0; 4]);
    assert_eq!(link.address(), 0x5000);
}

#[test]
fn command_completion_event_fields() {
    let ev = XhciCommandCompletionEventTrb::from(0, [0x1000, 0x2, 0x0100_0042, 0x0500_8401]);
    assert!(ev.cycle());
    assert_eq!(ev.get_part(XhciCommandCompletionEventTrbPart::CompletionCode), 1);
    assert_eq!(ev.get_part(XhciCommandCompletionEventTrbPart::SlotId), 5);
    assert_eq!(ev.get_part(XhciCommandCompletionEventTrbPart::TrbType), 33);
    assert_eq!(ev.command_completion_parameter(), 0x42);
    // the high word of the command's address is not read
    assert_eq!(ev.command_trb_pointer(), 0x1000);
}

#[test]
fn transfer_event_fields() {
    let ev = XhciTransferEventTrb::from(0, [0x10, 0x20, 0x0D00_0000, 0x0203_0000]);
    assert_eq!(ev.trb_pointer(), 0x10_0000_0010);
    assert_eq!(ev.completion_code(), 0x0D);
    assert_eq!(ev.slot_id(), 2);
    assert_eq!(ev.endpoint_id(), 3);
}

#[test]
fn setup_and_data_stage_words() {
    let mut s = XhciSetupStageTrb {
        bm_request_type: 0x80,
        b_request: 6,
        w_value: 0x100,
        w_index: 0,
        w_length: 18,
        dword2: 0,
        dword3: 0,
    };
    s.set_trb_transfer_length();
    s.set_type();
    s.set_trt(XhciTransferType::InDataStage);
    s.set_idt(true);
    s.set_c(true);
    assert_eq!(s.dword2, 8);
    assert_eq!(s.dword3, (2 << 10) | (3 << 16) | (1 << 6) | 1);
    let mut d = XhciDataStageTrb { data_buffer: 0, dword2: 0, dword3: 0 };
    d.trb_transfer_length(0x3_0012);
    d.set_td_size(0xFF);
    d.set_interrupter_target(0xFFFF);
    assert_eq!(d.dword2, 0x1_0012 | (0x1F << 17) | (0x3FF << 22));
}

#[test]
fn command_ring_places_commands() {
    let mut ring = XhciCommandRing::new(0x100, 0x200, 0x1_0000);
    let w = ring.process(XhciCommand::EnableSlot { slot_type: 0 });
    assert_eq!(w.dword3, 1 | (9 << 10));
    assert_eq!(w.dword0, None);
    let w = ring.process(XhciCommand::AddressDevice { slot_id: 3, input_context_address: 0x2_0000_4000, bsr: true });
    assert_eq!(w.dword0, Some(0x4000));
    assert_eq!(w.dword1, Some(2));
    assert_eq!(w.dword3, (3 << 24) | (11 << 10) | (1 << 9) | 1);
    assert_eq!(ring.enqueue_pointer, 0x1_0020);
}

#[test]
fn protocol_definition_fields() {
    let p = XhciProtocolDefinition { dword0: 0x0005_4134 };
    assert_eq!(p.get(XhciProtocolDefinitionPart::Psiv), 4);
    assert_eq!(p.get(XhciProtocolDefinitionPart::Psie), 3);
    assert_eq!(p.get(XhciProtocolDefinitionPart::Psim), 5);
    assert!(p.pfd());
}

#[test]
fn slot_context_initialization() {
    let mut slot = XhciSlotContext32 { dwords: [0xFFFF_FFFF; 8] };
    slot.initialize_for_address_device(0x12345, 4, 2, 0, 0, 7);
    assert_eq!(slot.get_route_string(), 0x12345);
    assert_eq!(slot.get_part(XhciSlotContext32Part::Speed), 4);
    assert_eq!(slot.get_part(XhciSlotContext32Part::ContextEntries), 1);
    assert_eq!(slot.get_part(XhciSlotContext32Part::RootHubPortNumber), 2);
    assert_eq!(slot.get_part(XhciSlotContext32Part::InterrupterTarget), 7);
    assert_eq!(slot.get_part(XhciSlotContext32Part::SlotState), 0);
}

#[test]
fn endpoint_context_round_trips() {
    let mut ep = XhciEndpointContext32 { dwords: [0; 8] };
    ep.set_max_esit_payload(0xAB_CDEF);
    assert_eq!(ep.get_esit_payload(), 0xAB_CDEF);
    ep.set(XhciEndpointContext32BitPart::Dcs, true);
    ep.set_tr_dequeue_pointer(0x1_2345_6780);
    assert_eq!(ep.get_tr_dequeue_pointer(), 0x1_2345_6780);
    assert!(ep.is_set(XhciEndpointContext32BitPart::Dcs));
    ep.initialize_for_address_device(4, 512, 0x8000, 8);
    assert_eq!(ep.get_part(XhciEndpointContext32Part::EpType), 4);
    assert_eq!(ep.get_part(XhciEndpointContext32Part::MaxPacketSize), 512);
    assert_eq!(ep.get_part(XhciEndpointContext32Part::CErr), 3);
    assert_eq!(ep.get_tr_dequeue_pointer(), 0x8000);
    assert!(ep.is_set(XhciEndpointContext32BitPart::Hid));
    assert_eq!(ep.get_esit_payload(), 0);
}

#[test]
fn registers() {
    let sts = XhciUsbSts::new(0);
    assert!(!sts.error_present(0x1));
    assert!(sts.error_present(1 << 12));
    assert!(sts.error_present(1 << 2));
    assert!(sts.error_present(1 << 10));
    assert_eq!(db_target_for_ep(0, true), 1);
    assert_eq!(db_target_for_ep(2, false), 4);
    assert_eq!(XhciDoorbell::new(0).ring(3, 2), 0x2_0003);
    let p2 = XhciHcsParams2::new(0);
    assert_eq!(p2.max_scratchpad_bufs((3 << 27) | (1 << 21)), 3 + 32);
    let crcr = XhciCrCr::new(0);
    assert_eq!(crcr.write_command_ring_pointer(0x3F, 0x1_0000_1041), (0x107F, 1));
    assert_eq!(XhciConfig::new(0).set_max_slots_en(0x1FF, 8), 0x108);
    let port = XhciPortSc::new(0);
    let v = port.set(0, XhciPortScBitPart::Pr, true);
    assert_eq!(v, 0x10);
    assert_eq!(port.get(3 << 10, XhciPortScPart::PortSpeed), 3);
    let ir = XhciInterruptRegisterSet::new(0);
    assert_eq!(ir.set_event_ring_table_base_address(0x1_0000_003F), (0x20, 1));
    assert_eq!(ir.set_event_ring_dequeue_pointer(0xF, 0x2_0000_0012), (0x1F, 2));
}

#[test]
fn event_ring_wraps_and_flips_cycle() {
    let mut ir = XhciInterrupter::new(XhciInterruptRegisterSet::new(0x3000), 0x9000, 0x10_0000);
    assert_eq!(ir.consume_event(0), None);
    let ev = (33u32 << 10) | 1;
    assert_eq!(ir.consume_event(ev), Some(XhciTrbId::CommandCompletionEvent));
    assert_eq!(ir.dequeue_pointer, 0x10_0010);
    assert!(ir.wait_for_events());
    assert!(!ir.wait_for_events());
    for _ in 1..512 {
        assert!(ir.consume_event(ev).is_some());
    }
    assert_eq!(ir.dequeue_pointer, 0x10_0000);
    assert!(!ir.css);
    assert_eq!(ir.consume_event(ev), None);
    assert_eq!(ir.clear_ip(0), 1);
    assert_eq!(ir.clear_ehb(0), 8);
}
