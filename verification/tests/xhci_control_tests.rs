use emkk::uhci::UsbTransferType;
use emkk::usb_requests::{set_configuration_request, UsbStandardDeviceRequest};
use emkk::xhci_control::TrbRing;
use emkk::xhci_controller::Direction;
use emkk::xhci_endpoint::XhciEndpoint;
use emkk::xhci_registers::XhciDoorbell;

/// A ring of four TRBs at 0x5000 whose last TRB links back to the start
/// and toggles the cycle state.
fn ring() -> TrbRing {
    let mut words = vec![0u32; 16];
    words[12] = 0x5000;
    words[13] = 0;
    words[15] = (6 << 10) | 2;
    TrbRing { base: 0x5000, words }
}

fn endpoint() -> XhciEndpoint {
    XhciEndpoint::new(0x5020, 64, 0, Direction::TdDependent, UsbTransferType::Control, XhciDoorbell::new(0xF000))
}

#[test]
fn a_control_read_wraps_around_the_ring() {
    let mut ring = ring();
    let mut ep = endpoint();
    let request = UsbStandardDeviceRequest { bm_request_type: 0x80, b_request: 6, w_value: 0x0100, w_index: 0, w_length: 18 };
    let doorbell = ep.send_control_read(&mut ring, &request, 0, 0x1_2345_6000, 18, true);
    assert_eq!(doorbell, 1);
    // Setup stage in the third TRB, cycle one.
    assert_eq!(&ring.words[8..12], &[0x0100_0680, 0x0012_0000, 8, 0x0003_0841]);
    // The link TRB got the cycle bit and the data stage went to the start, cycle zero.
    assert_eq!(ring.words[15], (6 << 10) | 3);
    assert_eq!(&ring.words[0..4], &[0x2345_6000, 1, 18, 0x0001_0C00]);
    // Status stage, OUT, interrupt on completion, cycle zero.
    assert_eq!(&ring.words[4..8], &[0, 0, 0, 0x1020]);
    assert_eq!(ep.enqueue_pointer, 0x5020);
    assert!(!ep.pcs);
}

#[test]
fn a_request_without_data_leaves_the_value_bytes() {
    let mut ring = ring();
    ring.words[0] = 0xABCD_0000;
    let mut ep = XhciEndpoint::new(0x5000, 64, 2, Direction::In, UsbTransferType::Control, XhciDoorbell::new(0xF000));
    let request = set_configuration_request(1);
    let doorbell = ep.send_control_no_data(&mut ring, &request, 3, false);
    assert_eq!(doorbell, 4);
    assert_eq!(&ring.words[0..4], &[0xABCD_0900, 0, 8, 0x0841]);
    assert_eq!(&ring.words[4..8], &[0, 0, 3 << 22, 0x0001_1001]);
    assert_eq!(ep.enqueue_pointer, 0x5020);
}

use emkk::xhci_bar::{ilog2, XhciBar};

#[test]
fn register_addresses_follow_the_bases() {
    let mut bar = XhciBar::new(0xFEB0_0000);
    bar.set_operational_base(0x20);
    bar.set_runtime_base(0x2000);
    assert_eq!(bar.get_base(), 0xFEB0_0000);
    assert_eq!(bar.usbsts().addr, 0xFEB0_0024);
    assert_eq!(bar.config().addr, 0xFEB0_0058);
    assert_eq!(bar.portsc(1).addr, 0xFEB0_0420);
    assert_eq!(bar.portsc(3).addr, 0xFEB0_0440);
    assert_eq!(bar.portli_usb3(2).addr, 0xFEB0_0438);
    assert_eq!(bar.ir(0).addr, 0xFEB0_2020);
    assert_eq!(bar.ir(2).addr, 0xFEB0_2060);
    assert_eq!(bar.doorbell(3, 0x3000).addr, 0xFEB0_300C);
    assert_eq!(bar.hccparams1().addr, 0xFEB0_0010);
}

#[test]
fn register_values_are_composed() {
    let bar = XhciBar::new(0);
    assert!(bar.is_page_size_valid(0x1000, 1));
    assert!(!bar.is_page_size_valid(0x2000, 1));
    assert!(bar.is_page_size_valid(0x2FFF, 2));
    assert_eq!(ilog2(0x1000), 12);
    assert_eq!(ilog2(1), 0);
    assert_eq!(ilog2(u32::MAX), 31);
    assert!(bar.dnctrl_notification_enabled(1, 0b10));
    assert_eq!(bar.dnctrl_set_notification(1, false, 0b111), 0b101);
    assert_eq!(bar.dnctrl_set_notification(4, true, 0), 0b1_0000);
    assert_eq!(bar.write_dcbaap(0x1_2345_678F), (0x2345_6780, 1));
    assert_eq!(bar.microframe_index(0xFFFF_C123), 0x0123);
}
