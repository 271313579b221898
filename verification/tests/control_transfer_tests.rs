use emkk::uhci::{UhciQueueHead, UhciTransferDescriptor, UhciTransferDescriptorBitPart, UhciTransferDescriptorPart};
use emkk::uhci_control::UhciControlEndpoint;
use emkk::usb_requests::{
    get_configuration_request, get_interface_request, get_status_request, recipient_fields, set_address_request,
    set_configuration_request, set_descriptor_request, set_feature_request, set_interface_request,
    set_protocol_request, synch_frame_request, uhci_clear_feature_request, uhci_get_descriptor_request,
    xhci_clear_feature_request, xhci_get_descriptor_request, UsbDescriptorType, UsbFeatureSelector, UsbRecipient,
    UsbRequestCode, UsbStandardDeviceRequest,
};

fn endpoint() -> UhciControlEndpoint {
    let mut ep = UhciControlEndpoint::default_control();
    ep.set_address_and_length(0x5000, 4);
    ep.transfer_descriptor_base_offset = 8;
    ep.queue_head = UhciQueueHead::new(0x6000, 1, 1);
    ep
}

fn own_tds(n: u32) -> Vec<UhciTransferDescriptor> {
    (0..n).map(|i| UhciTransferDescriptor::new(0x5000 + 16 * i, [0, 0, 0, 0])).collect()
}

fn page(n: u32) -> Vec<UhciTransferDescriptor> {
    (0..n).map(|i| UhciTransferDescriptor::new(0x9000 + 16 * i, [0, 0, 0, 0])).collect()
}

#[test]
fn requests_carry_the_standard_codes() {
    assert_eq!(UsbRequestCode::GetDescriptor.code(), 6);
    assert_eq!(UsbRequestCode::SetAddress.code(), 5);
    assert_eq!(recipient_fields(UsbRecipient::Endpoint(0x81)), (2, 0x81));
    let r = UsbStandardDeviceRequest::new(0x80, UsbRequestCode::GetDescriptor, 0x0100, 0, 18);
    assert_eq!(r.to_bytes(), [0x80, 6, 0x00, 0x01, 0, 0, 18, 0]);
}

#[test]
fn device_requests_are_built_as_each_driver_sends_them() {
    let uhci = uhci_get_descriptor_request(UsbDescriptorType::Configuration, 1, None, 9);
    assert_eq!(uhci, UsbStandardDeviceRequest { bm_request_type: 0x80, b_request: 6, w_value: 0x0201, w_index: 0, w_length: 9 });
    let xhci = xhci_get_descriptor_request(UsbDescriptorType::Configuration, 1, Some(0x409), 9);
    assert_eq!(xhci.w_value, 0x0200);
    assert_eq!(xhci.w_index, 0x409);
    let clear = uhci_clear_feature_request(UsbFeatureSelector::EndpointHalt, UsbRecipient::Endpoint(1));
    assert_eq!(clear, UsbStandardDeviceRequest { bm_request_type: 2, b_request: 1, w_value: 0, w_index: 1, w_length: 1 });
    let clear = xhci_clear_feature_request(UsbFeatureSelector::DeviceRemoteWakeup, UsbRecipient::Zero);
    assert_eq!(clear, UsbStandardDeviceRequest { bm_request_type: 0, b_request: 1, w_value: 1, w_index: 0, w_length: 0 });
    let set = set_feature_request(UsbFeatureSelector::TestMode, UsbRecipient::Interface(3));
    assert_eq!(set, UsbStandardDeviceRequest { bm_request_type: 1, b_request: 3, w_value: 2, w_index: 3, w_length: 0 });
    assert_eq!(get_status_request(UsbRecipient::Interface(2)).bm_request_type, 0x81);
    assert_eq!(set_address_request(7).w_value, 7);
    assert_eq!(set_configuration_request(1).b_request, 9);
    assert_eq!(set_interface_request(2, 1), UsbStandardDeviceRequest { bm_request_type: 1, b_request: 11, w_value: 2, w_index: 1, w_length: 0 });
    assert_eq!(get_interface_request(1).w_length, 1);
    assert_eq!(synch_frame_request(0x81).bm_request_type, 0x82);
    assert_eq!(get_configuration_request().b_request, 8);
    assert_eq!(set_descriptor_request(UsbDescriptorType::String, 2, Some(0x409), 4).w_value, 0x0302);
    assert_eq!(set_protocol_request(0x0B, 0, 1).bm_request_type, 0x21);
}

#[test]
fn a_short_read_uses_the_endpoint_descriptors() {
    let mut ep = endpoint();
    let mut tds = own_tds(3);
    let mut custom = page(0);
    ep.send_control_read(&mut tds, &mut custom, 0, 0x7000, 0x8000, 8, true);
    let setup = tds[0];
    assert_eq!(setup.get_part(UhciTransferDescriptorPart::Pid), 0x2D);
    assert_eq!(setup.get_part(UhciTransferDescriptorPart::Status), 0x80);
    assert_eq!(setup.get_part(UhciTransferDescriptorPart::MaxLen), 7);
    assert_eq!(setup.buffer_pointer(), 0x7000);
    assert_eq!(setup.link_pointer(), 0x5010);
    let data = tds[1];
    assert_eq!(data.get_part(UhciTransferDescriptorPart::Pid), 0x69);
    assert_eq!(data.get_part(UhciTransferDescriptorPart::MaxLen), 7);
    assert!(data.is_set(UhciTransferDescriptorBitPart::D));
    assert_eq!(data.buffer_pointer(), 0x8000);
    assert_eq!(data.link_pointer(), 0x5020);
    let status = tds[2];
    assert_eq!(status.get_part(UhciTransferDescriptorPart::Pid), 0xE1);
    assert!(status.is_set(UhciTransferDescriptorBitPart::T));
    assert!(status.is_set(UhciTransferDescriptorBitPart::Ioc));
    assert_eq!(status.link_pointer(), 0x4000_0800);
    assert_eq!(ep.queue_head.element_link, 0);
}

#[test]
fn a_request_without_data_marks_a_simple_transfer() {
    let mut ep = endpoint();
    let mut tds = own_tds(2);
    ep.send_control_without_data(&mut tds, 0x7000, true);
    assert_eq!(tds[0].link_pointer(), 0x5010);
    assert_eq!(tds[1].get_part(UhciTransferDescriptorPart::Pid), 0x69);
    assert_eq!(tds[1].link_pointer(), 0x6000_0800);
}

#[test]
fn a_long_read_gets_a_page_of_its_own() {
    let mut ep = endpoint();
    let mut tds = own_tds(3);
    tds[0].set_part(UhciTransferDescriptorPart::DeviceAddress, 5);
    tds[0].set_part(UhciTransferDescriptorPart::EndPt, 0);
    let mut custom = page(8);
    ep.send_control_read(&mut tds, &mut custom, 3, 0x7000, 0x8000, 18, true);
    // 18 bytes of 8-byte packets: three data stages, then status.
    let lens: Vec<u32> = (1..4).map(|i| custom[i].get_part(UhciTransferDescriptorPart::MaxLen)).collect();
    assert_eq!(lens, vec![7, 7, 1]);
    let bufs: Vec<u32> = (1..4).map(|i| custom[i].buffer_pointer()).collect();
    assert_eq!(bufs, vec![0x8000, 0x8008, 0x8010]);
    let toggles: Vec<bool> = (1..4).map(|i| custom[i].is_set(UhciTransferDescriptorBitPart::D)).collect();
    assert_eq!(toggles, vec![true, false, true]);
    assert_eq!(custom[3].link_pointer(), 0x9040);
    let status = custom[4];
    assert_eq!(status.get_part(UhciTransferDescriptorPart::Pid), 0xE1);
    assert!(!status.is_set(UhciTransferDescriptorBitPart::T));
    assert_eq!(status.link_pointer(), 0x8000_0000 | 8 << 16 | 3 << 8);
    assert_eq!(status.get_part(UhciTransferDescriptorPart::DeviceAddress), 5);
    assert_eq!(custom[0].get_part(UhciTransferDescriptorPart::Status), 0x80);
    assert_eq!(custom[5].dwords, [0, 0, 0, 0]);
    assert_eq!(ep.queue_head.element_link, 0x9000);
    // The endpoint's own descriptors stay as they were.
    assert_eq!(tds[1].dwords, [0, 0, 0, 0]);
}

#[test]
fn a_long_write_sends_out_packets() {
    let mut ep = endpoint();
    let mut tds = own_tds(3);
    let mut custom = page(4);
    ep.send_control_write(&mut tds, &mut custom, 0, 0x7000, 0x8000, 10, true);
    assert_eq!(custom[1].get_part(UhciTransferDescriptorPart::Pid), 0xE1);
    assert_eq!(custom[2].get_part(UhciTransferDescriptorPart::MaxLen), 1);
    assert_eq!(custom[3].get_part(UhciTransferDescriptorPart::Pid), 0x69);
}

#[test]
fn a_short_write_of_nothing_has_no_buffer() {
    let mut ep = endpoint();
    let mut tds = own_tds(3);
    tds[1].write_buffer_pointer(0x1234);
    let mut custom = page(0);
    ep.send_control_write(&mut tds, &mut custom, 0, 0x7000, 0x8000, 0, true);
    assert_eq!(tds[1].get_part(UhciTransferDescriptorPart::MaxLen), 0x7FF);
    assert_eq!(tds[1].buffer_pointer(), 0x1234);
    assert_eq!(tds[2].get_part(UhciTransferDescriptorPart::Pid), 0x69);
}
