use emkk::uhci_transfers::{interrupt_cause, UhciInterruptCause};
use emkk::uhci::{
    UhciBar, UhciPortResetStep, UhciPortStatusControlBitPart, UhciTransferDescriptor,
    UhciTransferDescriptorBitPart, UhciTransferDescriptorPart, UhciUsbCmd, UhciUsbCmdBitPart,
};

#[test]
fn usbcmd_set_and_test_bits() {
    let cmd = UhciUsbCmd::new(0xC000);
    let v = cmd.set(0, UhciUsbCmdBitPart::Rs, true);
    assert_eq!(v, 1);
    assert!(cmd.is_set(v, UhciUsbCmdBitPart::Rs));
    let v = cmd.set(v, UhciUsbCmdBitPart::MaxP, true);
    assert_eq!(v, 0x81);
    let v = cmd.set(v, UhciUsbCmdBitPart::Rs, false);
    assert_eq!(v, 0x80);
}

#[test]
fn bar_register_ports() {
    let bar = UhciBar::new(0xC000);
    assert_eq!(bar.usbcmd().ioaddr, 0xC000);
    assert_eq!(bar.usbsts().ioaddr, 0xC002);
    assert_eq!(bar.usbinterruptenable().ioaddr, 0xC004);
    assert_eq!(bar.port(1).ioaddr, 0xC010);
    assert_eq!(bar.port(2).ioaddr, 0xC012);
}

#[test]
fn port_reset_steps() {
    let port = UhciBar::new(0xC000).port(1);
    let (w, next) = port.reset(0x0001, UhciPortResetStep::Assert);
    assert_eq!(w, 0x0201);
    assert_eq!(next, Some(UhciPortResetStep::Release));
    let (w, next) = port.reset(w, UhciPortResetStep::Release);
    assert_eq!(w, 0x0001);
    assert_eq!(next, Some(UhciPortResetStep::Enable));
    let (w, next) = port.reset(w, UhciPortResetStep::Enable);
    assert_eq!(w, 0x0005);
    assert_eq!(next, None);
    assert!(port.is_set(w, UhciPortStatusControlBitPart::PortEnabledDisabled));
}

#[test]
fn transfer_descriptor_refresh_for_in() {
    let mut td = UhciTransferDescriptor::new(0x1000, [0; 4]);
    td.refresh_for_in(63, true, true, true);
    assert_eq!(td.get_part(UhciTransferDescriptorPart::Pid), 0x69);
    assert_eq!(td.get_part(UhciTransferDescriptorPart::MaxLen), 63);
    assert_eq!(td.get_part(UhciTransferDescriptorPart::Status), 0x80);
    assert_eq!(td.get_part(UhciTransferDescriptorPart::CErr), 3);
    assert!(td.is_set(UhciTransferDescriptorBitPart::Ioc));
    assert!(td.is_set(UhciTransferDescriptorBitPart::D));
    assert_eq!(td.address(), 0x1000);
}

#[test]
fn interrupt_status_decoding() {
    assert_eq!(interrupt_cause(1), UhciInterruptCause::TransferCompleted);
    // the halted bit does not change the cause
    assert_eq!(interrupt_cause(0x21), UhciInterruptCause::TransferCompleted);
    assert_eq!(interrupt_cause(2), UhciInterruptCause::TransferError);
    assert_eq!(interrupt_cause(4), UhciInterruptCause::ResumeDetected);
    assert_eq!(interrupt_cause(8), UhciInterruptCause::HostSystemError);
    assert_eq!(interrupt_cause(16), UhciInterruptCause::ProcessError);
    assert_eq!(interrupt_cause(3), UhciInterruptCause::Unknown);
    assert_eq!(interrupt_cause(0), UhciInterruptCause::Unknown);
}
