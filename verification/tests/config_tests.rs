use emkk::xhci_config::{UsbHID, XhciDeviceConfiguration};

/// Two interfaces: a keyboard with a HID descriptor and one interrupt IN
/// endpoint, and a second interface after a SuperSpeed capability with a
/// bulk endpoint that has a companion descriptor and a plain one.
fn configuration() -> Vec<u8> {
    let mut b = Vec::new();
    // Interface 0: 1 endpoint, class 3, subclass 1, protocol 1.
    b.extend_from_slice(&[9, 4, 0, 0, 1, 3, 1, 1, 0]);
    // HID descriptor.
    b.extend_from_slice(&[9, 0x21, 0x11, 0x01, 0, 1, 0x22, 0x3F, 0]);
    // Endpoint 0x81, interrupt, 8 bytes, every 10 frames.
    b.extend_from_slice(&[7, 5, 0x81, 3, 8, 0, 10]);
    // Interface 1: 2 endpoints, class 8.
    b.extend_from_slice(&[9, 4, 1, 0, 2, 8, 6, 0x50, 0]);
    // SuperSpeed device capability, 10 bytes.
    b.extend_from_slice(&[10, 0x10, 3, 0, 0x0E, 0, 1, 0x0A, 0xFF, 0x01]);
    // Bulk IN endpoint with a companion descriptor (burst 2).
    b.extend_from_slice(&[7, 5, 0x82, 2, 0, 4, 0]);
    b.extend_from_slice(&[6, 48, 2, 0, 0, 0]);
    // Bulk OUT endpoint, then padding.
    b.extend_from_slice(&[7, 5, 0x02, 2, 0, 4, 0]);
    b.extend_from_slice(&[0, 0, 0, 0]);
    b
}

#[test]
fn a_configuration_is_read_interface_by_interface() {
    let bytes = configuration();
    let c = XhciDeviceConfiguration::new(&bytes, 0, 2);
    assert_eq!(c.num_endpoints, 3);
    assert_eq!(c.get_interface_count(), 2);
    let keyboard = c.get_interface(0).unwrap();
    assert_eq!((keyboard.get_class(), keyboard.get_sub_class(), keyboard.get_protocol()), (3, 1, 1));
    assert_eq!(keyboard.endpoint_count(), 1);
    let ep = keyboard.get_endpoint(0).unwrap();
    assert_eq!((ep.endpoint_address, ep.bm_attributes, ep.max_packet_size, ep.interval), (0x81, 3, 8, 10));
    let storage = c.get_interface(1).unwrap();
    assert_eq!(storage.get_class(), 8);
    assert_eq!(storage.endpoints[0].superspeed_max_burst, 2);
    assert_eq!(storage.endpoints[0].max_packet_size, 0x400);
    assert_eq!(storage.endpoints[1].endpoint_address, 0x02);
    assert_eq!(storage.endpoints[1].superspeed_max_burst, 0);
    assert!(storage.get_endpoint(2).is_none());
    assert!(c.get_interface(2).is_none());
    assert_eq!(c.get_hid_interface_count(), 1);
    assert_eq!(
        c.get_hid_interface(0),
        Some(UsbHID { bcd_hid: 0x0111, country_code: 0, num_descriptors: 1, descriptor_type: 0x22, descriptor_length: 0x3F, interface_index: 0 })
    );
    assert_eq!(c.u1_exit_latency, Some(0x0A));
    assert_eq!(c.u2_exit_latency, Some(0x01FF));
}

#[test]
fn an_empty_configuration_has_nothing() {
    let c = XhciDeviceConfiguration::empty();
    assert_eq!(c.get_interface_count(), 0);
    assert!(c.get_hid_interface(0).is_none());
    assert_eq!(c.u1_exit_latency, None);
}

use emkk::uhci::UsbTransferType;
use emkk::uhci_config::{UhciDeviceConfiguration, UhciGeneralEndpoint};
use emkk::xhci_controller::Direction;

#[test]
fn a_uhci_configuration_is_read_interface_by_interface() {
    let mut b = Vec::new();
    b.extend_from_slice(&[9, 4, 0, 0, 1, 3, 1, 2, 0]);
    b.extend_from_slice(&[9, 0x21, 0x10, 0x01, 0, 1, 0x22, 0x34, 0]);
    b.extend_from_slice(&[7, 5, 0x81, 3, 4, 0, 10]);
    b.extend_from_slice(&[9, 4, 1, 2, 2, 8, 6, 0x50, 0]);
    b.extend_from_slice(&[7, 5, 0x82, 2, 64, 0, 0]);
    b.extend_from_slice(&[7, 5, 0x02, 2, 64, 0, 0]);
    let c = UhciDeviceConfiguration::new(&b, 0, 2);
    assert_eq!(c.num_endpoints, 3);
    assert_eq!(c.get_interface_count(), 2);
    let mouse = c.get_interface(0).unwrap();
    assert_eq!((mouse.get_class(), mouse.get_protocol()), (3, 2));
    let ep = mouse.get_endpoint(0).unwrap();
    assert_eq!(ep.endpoint_number(), 1);
    assert_eq!(ep.get_direction(), Direction::In);
    assert!(matches!(ep.get_transfer_type(), UsbTransferType::Interrupt));
    assert_eq!(ep.get_interval_in_ms(), 10);
    let storage = c.get_interface(1).unwrap();
    assert_eq!((storage.interface_number, storage.alternate_setting), (1, 2));
    assert_eq!(storage.endpoint_count(), 2);
    assert_eq!(storage.get_endpoint(1).unwrap().get_direction(), Direction::Out);
    assert!(storage.get_endpoint(2).is_none());
    assert_eq!(c.get_hid_interface_count(), 1);
    assert_eq!(c.get_hid_interface(0).unwrap().descriptor_length, 0x34);
    let mut e: UhciGeneralEndpoint = *storage.endpoints.first().unwrap();
    e.update_max_packet_size(512);
    assert_eq!(e.get_maximum_packet_size(), 512);
    assert!(UhciDeviceConfiguration::empty().get_interface(0).is_none());
}
