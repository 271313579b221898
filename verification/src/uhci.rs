//! UHCI controller registers and the in-memory transfer descriptors and
//! queue heads that the controller walks.
//!
//! An I/O register is named by its port; its methods take the value that
//! was read from the port and give the value to write back. Descriptors
//! and queue heads carry their physical address and the words they hold.
use vstd::prelude::*;
use crate::bits::{
    bit16, bit32, field16, field32, read_field16, read_field32, test_bit16, test_bit32,
    with_bit16, with_bit32, with_field16, with_field32, write_bit16, write_bit32,
    write_field16, write_field32,
};

verus! {

/// Bits of the USB command register.
#[derive(Clone, Copy)]
pub enum UhciUsbCmdBitPart {
    /// Run/Stop
    Rs,
    /// Host Controller Reset
    HcReset,
    /// Global Reset
    GReset,
    /// Enter Global Suspend Mode
    Egsm,
    /// Force Global Resume
    Fgr,
    /// Software Debug
    SwDbg,
    /// Configure Flag
    Cf,
    /// Max Packet
    MaxP,
}

impl UhciUsbCmdBitPart {
    /// Position of the bit in the register.
    pub open spec fn bit_spec(self) -> u16 {
        match self {
            UhciUsbCmdBitPart::Rs => 0,
            UhciUsbCmdBitPart::HcReset => 1,
            UhciUsbCmdBitPart::GReset => 2,
            UhciUsbCmdBitPart::Egsm => 3,
            UhciUsbCmdBitPart::Fgr => 4,
            UhciUsbCmdBitPart::SwDbg => 5,
            UhciUsbCmdBitPart::Cf => 6,
            UhciUsbCmdBitPart::MaxP => 7,
        }
    }

    /// Position of the bit in the register.
    pub fn bit(&self) -> (r: u16)
        ensures
            r == self.bit_spec(),
            r < 16,
    {
        match self {
            UhciUsbCmdBitPart::Rs => 0,
            UhciUsbCmdBitPart::HcReset => 1,
            UhciUsbCmdBitPart::GReset => 2,
            UhciUsbCmdBitPart::Egsm => 3,
            UhciUsbCmdBitPart::Fgr => 4,
            UhciUsbCmdBitPart::SwDbg => 5,
            UhciUsbCmdBitPart::Cf => 6,
            UhciUsbCmdBitPart::MaxP => 7,
        }
    }
}

/// Bits of the USB status register.
#[derive(Clone, Copy)]
pub enum UhciUsbStatusBitPart {
    /// USB Interrupt
    UsbInt,
    UsbErrorInterrupt,
    ResumeDetect,
    HostSystemError,
    HostControllerProcessError,
    HcHalted,
}

impl UhciUsbStatusBitPart {
    /// Position of the bit in the register.
    pub open spec fn bit_spec(self) -> u16 {
        match self {
            UhciUsbStatusBitPart::UsbInt => 0,
            UhciUsbStatusBitPart::UsbErrorInterrupt => 1,
            UhciUsbStatusBitPart::ResumeDetect => 2,
            UhciUsbStatusBitPart::HostSystemError => 3,
            UhciUsbStatusBitPart::HostControllerProcessError => 4,
            UhciUsbStatusBitPart::HcHalted => 5,
        }
    }

    /// Position of the bit in the register.
    pub fn bit(&self) -> (r: u16)
        ensures
            r == self.bit_spec(),
            r < 16,
    {
        match self {
            UhciUsbStatusBitPart::UsbInt => 0,
            UhciUsbStatusBitPart::UsbErrorInterrupt => 1,
            UhciUsbStatusBitPart::ResumeDetect => 2,
            UhciUsbStatusBitPart::HostSystemError => 3,
            UhciUsbStatusBitPart::HostControllerProcessError => 4,
            UhciUsbStatusBitPart::HcHalted => 5,
        }
    }
}

/// Bits of the USB interrupt enable register.
#[derive(Clone, Copy)]
pub enum UhciUsbInterrupt {
    /// Timeout/CRC
    Timeout,
    Resume,
    /// IOC
    InterruptOnCompletion,
    ShortPacket,
}

impl UhciUsbInterrupt {
    /// Position of the bit in the register.
    pub open spec fn bit_spec(self) -> u16 {
        match self {
            UhciUsbInterrupt::Timeout => 0,
            UhciUsbInterrupt::Resume => 1,
            UhciUsbInterrupt::InterruptOnCompletion => 2,
            UhciUsbInterrupt::ShortPacket => 3,
        }
    }

    /// Position of the bit in the register.
    pub fn bit(&self) -> (r: u16)
        ensures
            r == self.bit_spec(),
            r < 16,
    {
        match self {
            UhciUsbInterrupt::Timeout => 0,
            UhciUsbInterrupt::Resume => 1,
            UhciUsbInterrupt::InterruptOnCompletion => 2,
            UhciUsbInterrupt::ShortPacket => 3,
        }
    }
}

/// Bits of a port status and control register.
#[derive(Clone, Copy)]
pub enum UhciPortStatusControlBitPart {
    CurrentConnectStatus,
    ConnectStatusChange,
    PortEnabledDisabled,
    PortEnabledDisabledChange,
    ResumeDetect,
    LowSpeedDeviceAttached,
    PortReset,
    Suspend,
}

impl UhciPortStatusControlBitPart {
    /// Position of the bit in the register.
    pub open spec fn bit_spec(self) -> u16 {
        match self {
            UhciPortStatusControlBitPart::CurrentConnectStatus => 0,
            UhciPortStatusControlBitPart::ConnectStatusChange => 1,
            UhciPortStatusControlBitPart::PortEnabledDisabled => 2,
            UhciPortStatusControlBitPart::PortEnabledDisabledChange => 3,
            UhciPortStatusControlBitPart::ResumeDetect => 6,
            UhciPortStatusControlBitPart::LowSpeedDeviceAttached => 8,
            UhciPortStatusControlBitPart::PortReset => 9,
            UhciPortStatusControlBitPart::Suspend => 12,
        }
    }

    /// Position of the bit in the register.
    pub fn bit(&self) -> (r: u16)
        ensures
            r == self.bit_spec(),
            r < 16,
    {
        match self {
            UhciPortStatusControlBitPart::CurrentConnectStatus => 0,
            UhciPortStatusControlBitPart::ConnectStatusChange => 1,
            UhciPortStatusControlBitPart::PortEnabledDisabled => 2,
            UhciPortStatusControlBitPart::PortEnabledDisabledChange => 3,
            UhciPortStatusControlBitPart::ResumeDetect => 6,
            UhciPortStatusControlBitPart::LowSpeedDeviceAttached => 8,
            UhciPortStatusControlBitPart::PortReset => 9,
            UhciPortStatusControlBitPart::Suspend => 12,
        }
    }
}

/// Multi-bit fields of a port status and control register.
#[derive(Clone, Copy)]
pub enum UhciPortStatusPart {
    LineStatus,
}

impl UhciPortStatusPart {
    /// First bit and mask of the field.
    pub open spec fn layout_spec(self) -> (u16, u16) {
        match self {
            UhciPortStatusPart::LineStatus => (4, 0x3),
        }
    }

    /// First bit and mask of the field.
    pub fn layout(&self) -> (r: (u16, u16))
        ensures
            r.0 == self.layout_spec().0,
            r.1 == self.layout_spec().1,
            r.0 < 16,
    {
        match self {
            UhciPortStatusPart::LineStatus => (4, 0x3),
        }
    }
}

/// The USB command register.
pub struct UhciUsbCmd {
    pub ioaddr: u16,
}

impl UhciUsbCmd {
    /// The register at I/O port `ioaddr`.
    pub fn new(ioaddr: u16) -> (r: Self)
        ensures
            r.ioaddr == ioaddr,
    {
        UhciUsbCmd { ioaddr }
    }

    /// Whether a bit is set in `value`, the word read from the register.
    pub fn is_set(&self, value: u16, what_to_check: UhciUsbCmdBitPart) -> (r: bool)
        ensures
            r == bit16(value, what_to_check.bit_spec()),
    {
        test_bit16(value, what_to_check.bit())
    }

    /// The word to write to the register to change one bit of `value`.
    pub fn set(&self, value: u16, what_to_set: UhciUsbCmdBitPart, val: bool) -> (r: u16)
        ensures
            r == with_bit16(value, what_to_set.bit_spec(), val),
    {
        write_bit16(value, what_to_set.bit(), val)
    }
}

/// The USB status register.
pub struct UhciUsbSts {
    pub ioaddr: u16,
}

impl UhciUsbSts {
    /// The register at I/O port `ioaddr`.
    pub fn new(ioaddr: u16) -> (r: Self)
        ensures
            r.ioaddr == ioaddr,
    {
        UhciUsbSts { ioaddr }
    }

    /// Whether a bit is set in `value`, the word read from the register.
    pub fn is_set(&self, value: u16, what_to_check: UhciUsbStatusBitPart) -> (r: bool)
        ensures
            r == bit16(value, what_to_check.bit_spec()),
    {
        test_bit16(value, what_to_check.bit())
    }

    /// The word to write to the register to change one bit of `value`.
    pub fn set(&self, value: u16, what_to_set: UhciUsbStatusBitPart, val: bool) -> (r: u16)
        ensures
            r == with_bit16(value, what_to_set.bit_spec(), val),
    {
        write_bit16(value, what_to_set.bit(), val)
    }
}

/// The USB interrupt enable register.
pub struct UhciInterruptEnable {
    pub ioaddr: u16,
}

impl UhciInterruptEnable {
    /// The register at I/O port `ioaddr`.
    pub fn new(ioaddr: u16) -> (r: Self)
        ensures
            r.ioaddr == ioaddr,
    {
        UhciInterruptEnable { ioaddr }
    }

    /// Whether a bit is set in `value`, the word read from the register.
    pub fn is_set(&self, value: u16, what_to_check: UhciUsbInterrupt) -> (r: bool)
        ensures
            r == bit16(value, what_to_check.bit_spec()),
    {
        test_bit16(value, what_to_check.bit())
    }

    /// The word to write to the register to change one bit of `value`.
    pub fn set(&self, value: u16, what_to_set: UhciUsbInterrupt, val: bool) -> (r: u16)
        ensures
            r == with_bit16(value, what_to_set.bit_spec(), val),
    {
        write_bit16(value, what_to_set.bit(), val)
    }
}

/// The steps of a port reset: raise the reset bit, wait, lower it, enable the port.
#[derive(Clone, Copy, PartialEq, Eq, Structural, Debug)]
pub enum UhciPortResetStep {
    /// Raise the reset bit; the caller then waits `RESET_HOLD_MS`.
    Assert,
    /// Lower the reset bit.
    Release,
    /// Enable the port.
    Enable,
}

/// How long the reset bit of a port is held, in milliseconds.
pub const RESET_HOLD_MS: u64 = 40;


/// A port status and control register.
pub struct UhciUsbPortStatusControl {
    pub ioaddr: u16,
}

impl UhciUsbPortStatusControl {
    /// The register at I/O port `ioaddr`.
    pub fn new(ioaddr: u16) -> (r: Self)
        ensures
            r.ioaddr == ioaddr,
    {
        UhciUsbPortStatusControl { ioaddr }
    }

    /// Whether a bit is set in `value`, the word read from the register.
    pub fn is_set(&self, value: u16, what_to_check: UhciPortStatusControlBitPart) -> (r: bool)
        ensures
            r == bit16(value, what_to_check.bit_spec()),
    {
        test_bit16(value, what_to_check.bit())
    }

    /// The word to write to the register to change one bit of `value`.
    pub fn set(&self, value: u16, what_to_set: UhciPortStatusControlBitPart, val: bool) -> (r: u16)
        ensures
            r == with_bit16(value, what_to_set.bit_spec(), val),
    {
        write_bit16(value, what_to_set.bit(), val)
    }

    /// One step of a port reset: given the word read from the register before
    /// the step, the word to write and the step that follows, if any.
    pub fn reset(&self, value: u16, step: UhciPortResetStep) -> (r: (u16, Option<UhciPortResetStep>))
        ensures
            r == (match step {
                UhciPortResetStep::Assert => (
                    with_bit16(value, 9, true),
                    Some(UhciPortResetStep::Release),
                ),
                UhciPortResetStep::Release => (
                    with_bit16(value, 9, false),
                    Some(UhciPortResetStep::Enable),
                ),
                UhciPortResetStep::Enable => (with_bit16(value, 2, true), None),
            }),
    {
        match step {
            UhciPortResetStep::Assert => (
                self.set(value, UhciPortStatusControlBitPart::PortReset, true),
                Some(UhciPortResetStep::Release),
            ),
            UhciPortResetStep::Release => (
                self.set(value, UhciPortStatusControlBitPart::PortReset, false),
                Some(UhciPortResetStep::Enable),
            ),
            UhciPortResetStep::Enable => (
                self.set(value, UhciPortStatusControlBitPart::PortEnabledDisabled, true),
                None,
            ),
        }
    }

    /// A multi-bit field of `value`.
    pub fn get(&self, value: u16, what_to_get: UhciPortStatusPart) -> (r: u16)
        ensures
            r == field16(value, what_to_get.layout_spec().0, what_to_get.layout_spec().1),
    {
        let (shift, mask) = what_to_get.layout();
        read_field16(value, shift, mask)
    }

    /// The word to write to the register to change a multi-bit field of `value`.
    pub fn set_part(&self, value: u16, what_to_set: UhciPortStatusPart, val: u16) -> (r: u16)
        ensures
            r == with_field16(value, what_to_set.layout_spec().0, what_to_set.layout_spec().1, val),
    {
        let (shift, mask) = what_to_set.layout();
        write_field16(value, shift, mask, val)
    }

    /// Bit 7, which reads as one on every port.
    pub fn is_reserved_1_set(&self, value: u16) -> (r: bool)
        ensures
            r == bit16(value, 7),
    {
        test_bit16(value, 7)
    }
}

/// The I/O space of a UHCI controller.
pub struct UhciBar {
    pub ioaddr: u16,
}

impl UhciBar {
    /// The controller whose registers start at I/O port `ioaddr`.
    pub fn new(ioaddr: u16) -> (r: Self)
        ensures
            r.ioaddr == ioaddr,
    {
        UhciBar { ioaddr }
    }

    /// The command register, at offset 0.
    pub fn usbcmd(&self) -> (r: UhciUsbCmd)
        ensures
            r.ioaddr == self.ioaddr,
    {
        UhciUsbCmd::new(self.ioaddr)
    }

    /// The status register, at offset 2.
    pub fn usbsts(&self) -> (r: UhciUsbSts)
        requires
            self.ioaddr + 2 <= u16::MAX,
        ensures
            r.ioaddr == self.ioaddr + 2,
    {
        UhciUsbSts::new(self.ioaddr + 2)
    }

    /// The interrupt enable register, at offset 4.
    pub fn usbinterruptenable(&self) -> (r: UhciInterruptEnable)
        requires
            self.ioaddr + 4 <= u16::MAX,
        ensures
            r.ioaddr == self.ioaddr + 4,
    {
        UhciInterruptEnable::new(self.ioaddr + 4)
    }

    /// The port of the frame number register, at offset 6.
    pub fn frame_number_port(&self) -> (r: u16)
        requires
            self.ioaddr + 6 <= u16::MAX,
        ensures
            r == self.ioaddr + 6,
    {
        self.ioaddr + 6
    }

    /// The port of the frame list base address register, at offset 8.
    pub fn frame_list_base_address_port(&self) -> (r: u16)
        requires
            self.ioaddr + 8 <= u16::MAX,
        ensures
            r == self.ioaddr + 8,
    {
        self.ioaddr + 8
    }

    /// The port of the start-of-frame modify register, at offset 0xC.
    pub fn sofmod_port(&self) -> (r: u16)
        requires
            self.ioaddr + 0xC <= u16::MAX,
        ensures
            r == self.ioaddr + 0xC,
    {
        self.ioaddr + 0xC
    }

    /// The status and control register of port `port` (counted from one),
    /// at offset 0x10 + 2 * (port - 1).
    pub fn port(&self, port: u8) -> (r: UhciUsbPortStatusControl)
        requires
            1 <= port,
            self.ioaddr + 0x10 + (port - 1) * 2 <= u16::MAX,
        ensures
            r.ioaddr == self.ioaddr + 0x10 + (port - 1) * 2,
    {
        UhciUsbPortStatusControl::new(self.ioaddr + 0x10 + ((port as u16) - 1) * 2)
    }
}

/// Multi-bit fields of a transfer descriptor.
#[derive(Clone, Copy)]
pub enum UhciTransferDescriptorPart {
    /// Actual Length
    ActLen,
    Status,
    /// Error counter
    CErr,
    /// Packet Identification
    Pid,
    DeviceAddress,
    /// Endpoint
    EndPt,
    /// Maximum Length
    MaxLen,
}

impl UhciTransferDescriptorPart {
    /// Word index, first bit and mask of the field.
    pub open spec fn layout_spec(self) -> (int, u32, u32) {
        match self {
            UhciTransferDescriptorPart::ActLen => (1, 0, 0x7ff),
            UhciTransferDescriptorPart::Status => (1, 16, 0xff),
            UhciTransferDescriptorPart::CErr => (1, 27, 0x3),
            UhciTransferDescriptorPart::Pid => (2, 0, 0xff),
            UhciTransferDescriptorPart::DeviceAddress => (2, 8, 0x7f),
            UhciTransferDescriptorPart::EndPt => (2, 15, 0xf),
            UhciTransferDescriptorPart::MaxLen => (2, 21, 0x7ff),
        }
    }

    /// Word index, first bit and mask of the field.
    pub fn layout(&self) -> (r: (usize, u32, u32))
        ensures
            r.0 == self.layout_spec().0,
            r.1 == self.layout_spec().1,
            r.2 == self.layout_spec().2,
            r.1 < 32,
            r.0 <= 2,
    {
        match self {
            UhciTransferDescriptorPart::ActLen => (1, 0, 0x7ff),
            UhciTransferDescriptorPart::Status => (1, 16, 0xff),
            UhciTransferDescriptorPart::CErr => (1, 27, 0x3),
            UhciTransferDescriptorPart::Pid => (2, 0, 0xff),
            UhciTransferDescriptorPart::DeviceAddress => (2, 8, 0x7f),
            UhciTransferDescriptorPart::EndPt => (2, 15, 0xf),
            UhciTransferDescriptorPart::MaxLen => (2, 21, 0x7ff),
        }
    }
}

/// Single bits of a transfer descriptor.
#[derive(Clone, Copy)]
pub enum UhciTransferDescriptorBitPart {
    /// Terminate
    T,
    /// QH/TD Select
    Q,
    /// Depth/Breadth Select
    Vf,
    /// Interrupt On Completion
    Ioc,
    /// Isochronous Select
    Ios,
    /// Low Speed Device
    Ls,
    /// Short Packet Detect
    Spd,
    /// Data Toggle
    D,
}

impl UhciTransferDescriptorBitPart {
    /// Word index and position of the bit.
    pub open spec fn layout_spec(self) -> (int, u32) {
        match self {
            UhciTransferDescriptorBitPart::T => (0, 0),
            UhciTransferDescriptorBitPart::Q => (0, 1),
            UhciTransferDescriptorBitPart::Vf => (0, 2),
            UhciTransferDescriptorBitPart::Ioc => (1, 24),
            UhciTransferDescriptorBitPart::Ios => (1, 25),
            UhciTransferDescriptorBitPart::Ls => (1, 26),
            UhciTransferDescriptorBitPart::Spd => (1, 29),
            UhciTransferDescriptorBitPart::D => (2, 19),
        }
    }

    /// Word index and position of the bit.
    pub fn layout(&self) -> (r: (usize, u32))
        ensures
            r.0 == self.layout_spec().0,
            r.1 == self.layout_spec().1,
            r.1 < 32,
            r.0 <= 2,
    {
        match self {
            UhciTransferDescriptorBitPart::T => (0, 0),
            UhciTransferDescriptorBitPart::Q => (0, 1),
            UhciTransferDescriptorBitPart::Vf => (0, 2),
            UhciTransferDescriptorBitPart::Ioc => (1, 24),
            UhciTransferDescriptorBitPart::Ios => (1, 25),
            UhciTransferDescriptorBitPart::Ls => (1, 26),
            UhciTransferDescriptorBitPart::Spd => (1, 29),
            UhciTransferDescriptorBitPart::D => (2, 19),
        }
    }
}

/// The words of a descriptor after one bit was written.
pub open spec fn td_bit_written(w: Seq<u32>, part: UhciTransferDescriptorBitPart, val: bool) -> Seq<u32> {
    w.update(part.layout_spec().0, with_bit32(w[part.layout_spec().0], part.layout_spec().1, val))
}

/// The words of a descriptor after one field was written.
pub open spec fn td_part_written(w: Seq<u32>, part: UhciTransferDescriptorPart, val: u32) -> Seq<u32> {
    w.update(
        part.layout_spec().0,
        with_field32(w[part.layout_spec().0], part.layout_spec().1, part.layout_spec().2, val),
    )
}

/// The words of a descriptor made ready for a transfer: status, packet id,
/// an error count of three, maximum length, a cleared actual length, the
/// interrupt-on-completion bit and the data toggle, written in that order.
pub open spec fn td_refreshed(
    w: Seq<u32>,
    status: u32,
    pid: u32,
    max_len: u32,
    ioc: bool,
    toggle: bool,
) -> Seq<u32> {
    let w1 = td_part_written(w, UhciTransferDescriptorPart::Status, status);
    let w2 = td_part_written(w1, UhciTransferDescriptorPart::Pid, pid);
    let w3 = td_part_written(w2, UhciTransferDescriptorPart::CErr, 3);
    let w4 = td_part_written(w3, UhciTransferDescriptorPart::MaxLen, max_len);
    let w5 = td_part_written(w4, UhciTransferDescriptorPart::ActLen, 0);
    let w6 = td_bit_written(w5, UhciTransferDescriptorBitPart::Ioc, ioc);
    td_bit_written(w6, UhciTransferDescriptorBitPart::D, toggle)
}

/// A transfer descriptor as laid out in memory at `address`.
pub struct RawUhciTransferDescriptor {
    pub address: u32,
    pub dwords: [u32; 4],
}

impl RawUhciTransferDescriptor {
    /// The descriptor, as a value that reads and writes its fields.
    pub fn wrapped(&self) -> (r: UhciTransferDescriptor)
        ensures
            r.address == self.address,
            r.dwords@ == self.dwords@,
    {
        UhciTransferDescriptor { address: self.address, dwords: self.dwords }
    }

    /// Physical address of the descriptor.
    pub fn address(&self) -> (r: u32)
        ensures
            r == self.address,
    {
        self.address
    }
}

/// A transfer descriptor: its physical address and its four words.
#[derive(Clone, Copy)]
pub struct UhciTransferDescriptor {
    pub address: u32,
    pub dwords: [u32; 4],
}

impl UhciTransferDescriptor {
    /// The descriptor at `address` whose memory holds `dwords`.
    pub fn new(address: u32, dwords: [u32; 4]) -> (r: Self)
        ensures
            r.address == address,
            r.dwords@ == dwords@,
    {
        UhciTransferDescriptor { address, dwords }
    }

    /// The descriptor laid out in `raw`.
    pub fn from_raw(raw: &RawUhciTransferDescriptor) -> (r: Self)
        ensures
            r.address == raw.address,
            r.dwords@ == raw.dwords@,
    {
        raw.wrapped()
    }

    /// Physical address of the descriptor.
    pub fn address(&self) -> (r: u32)
        ensures
            r == self.address,
    {
        self.address
    }

    /// Clears all four words.
    pub fn zero_out(&mut self)
        ensures
            final(self).address == old(self).address,
            final(self).dwords@ == seq![0u32, 0u32, 0u32, 0u32],
    {
        self.dwords = [0u32; 4];
        assert(self.dwords@ =~= seq![0u32, 0u32, 0u32, 0u32]);
    }

    /// Whether a single bit is set.
    pub fn is_set(&self, bit_part: UhciTransferDescriptorBitPart) -> (r: bool)
        ensures
            r == bit32(self.dwords@[bit_part.layout_spec().0], bit_part.layout_spec().1),
    {
        let (i, b) = bit_part.layout();
        test_bit32(self.dwords[i], b)
    }

    /// Writes a single bit.
    pub fn set(&mut self, bit_part: UhciTransferDescriptorBitPart, val: bool)
        ensures
            final(self).address == old(self).address,
            final(self).dwords@ == td_bit_written(old(self).dwords@, bit_part, val),
    {
        let (i, b) = bit_part.layout();
        let w = write_bit32(self.dwords[i], b, val);
        self.dwords[i] = w;
    }

    /// Reads a multi-bit field.
    pub fn get_part(&self, part: UhciTransferDescriptorPart) -> (r: u32)
        ensures
            r == field32(
                self.dwords@[part.layout_spec().0],
                part.layout_spec().1,
                part.layout_spec().2,
            ),
    {
        let (i, s, m) = part.layout();
        read_field32(self.dwords[i], s, m)
    }

    /// Writes a multi-bit field with the low bits of `val`.
    pub fn set_part(&mut self, part: UhciTransferDescriptorPart, val: u32)
        ensures
            final(self).address == old(self).address,
            final(self).dwords@ == td_part_written(old(self).dwords@, part, val),
    {
        let (i, s, m) = part.layout();
        let w = write_field32(self.dwords[i], s, m, val);
        self.dwords[i] = w;
    }

    /// The link pointer: the first word without its four low bits.
    pub fn link_pointer(&self) -> (r: u32)
        ensures
            r == (self.dwords@[0] >> 4u32) << 4u32,
    {
        (self.dwords[0] >> 4) << 4
    }

    /// Replaces the link pointer, keeping the four low bits of the first word.
    pub fn write_link_pointer(&mut self, val: u32)
        ensures
            final(self).address == old(self).address,
            final(self).dwords@ == old(self).dwords@.update(
                0,
                (old(self).dwords@[0] & 0xFu32) | (val & !0xFu32),
            ),
    {
        let prev = self.dwords[0] & 0xF;
        self.dwords[0] = prev | (val & !0xFu32);
    }

    /// The buffer pointer, the fourth word.
    pub fn buffer_pointer(&self) -> (r: u32)
        ensures
            r == self.dwords@[3],
    {
        self.dwords[3]
    }

    /// Replaces the buffer pointer.
    pub fn write_buffer_pointer(&mut self, val: u32)
        ensures
            final(self).address == old(self).address,
            final(self).dwords@ == old(self).dwords@.update(3, val),
    {
        self.dwords[3] = val;
    }

    /// Writes the fields of one step of a transfer.
    fn refresh(&mut self, status: u32, pid: u32, max_len: u32, ioc: bool, toggle: bool)
        ensures
            final(self).address == old(self).address,
            final(self).dwords@ == td_refreshed(old(self).dwords@, status, pid, max_len, ioc, toggle),
    {
        self.set_part(UhciTransferDescriptorPart::Status, status);
        self.set_part(UhciTransferDescriptorPart::Pid, pid);
        self.set_part(UhciTransferDescriptorPart::CErr, 3);
        self.set_part(UhciTransferDescriptorPart::MaxLen, max_len);
        self.set_part(UhciTransferDescriptorPart::ActLen, 0);
        self.set(UhciTransferDescriptorBitPart::Ioc, ioc);
        self.set(UhciTransferDescriptorBitPart::D, toggle);
    }

    /// Prepares the setup stage of a control transfer (SETUP packet, eight
    /// bytes, inactive) whose request lies at physical address `request`.
    pub fn refresh_for_setup(&mut self, request: u32)
        ensures
            final(self).address == old(self).address,
            final(self).dwords@ == td_refreshed(old(self).dwords@, 0, 0x2D, 7, false, false).update(
                3,
                request,
            ),
    {
        self.refresh(0, 0x2D, 7, false, false);
        self.write_buffer_pointer(request);
    }

    /// Prepares an IN packet of at most `max_len + 1` bytes.
    pub fn refresh_for_in(&mut self, max_len: u16, ioc: bool, toggle: bool, active: bool)
        ensures
            final(self).address == old(self).address,
            final(self).dwords@ == td_refreshed(
                old(self).dwords@,
                if active { 0x80 } else { 0 },
                0x69,
                max_len as u32,
                ioc,
                toggle,
            ),
    {
        let status: u32 = if active { 0x80 } else { 0 };
        self.refresh(status, 0x69, max_len as u32, ioc, toggle);
    }

    /// Prepares an OUT packet of at most `max_len + 1` bytes.
    pub fn refresh_for_out(&mut self, max_len: u16, ioc: bool, toggle: bool, active: bool)
        ensures
            final(self).address == old(self).address,
            final(self).dwords@ == td_refreshed(
                old(self).dwords@,
                if active { 0x80 } else { 0 },
                0xE1,
                max_len as u32,
                ioc,
                toggle,
            ),
    {
        let status: u32 = if active { 0x80 } else { 0 };
        self.refresh(status, 0xE1, max_len as u32, ioc, toggle);
    }

    /// Prepares the active, zero-length status stage of a control transfer,
    /// in the direction given by `is_in`, with data toggle one.
    pub fn refresh_for_status(&mut self, is_in: bool)
        ensures
            final(self).address == old(self).address,
            final(self).dwords@ == td_refreshed(
                old(self).dwords@,
                0x80,
                if is_in { 0x69 } else { 0xE1 },
                0x7FF,
                true,
                true,
            ),
    {
        let pid: u32 = if is_in { 0x69 } else { 0xE1 };
        self.refresh(0x80, pid, 0x7FF, true, true);
    }

    /// Points the descriptor at the descriptor at `td_address`, depth first when `vf`.
    pub fn link_next_td(&mut self, td_address: u32, vf: bool)
        ensures
            final(self).address == old(self).address,
            final(self).dwords@ == old(self).dwords@.update(
                0,
                ((td_address >> 4u32) << 4u32) | (if vf { 4u32 } else { 0u32 }),
            ),
    {
        let v: u32 = if vf { 4 } else { 0 };
        self.dwords[0] = ((td_address >> 4) << 4) | v;
    }
}

/// A queue head as laid out in memory: its two link words and two words of padding.
pub struct RawUhciQueueHead {
    pub dword0: u32,
    pub dword1: u32,
    pub alignment0: u32,
    pub alignment1: u32,
}

impl RawUhciQueueHead {
    /// The queue head, placed at physical address `address`.
    pub fn wrapped(&self, address: u32) -> (r: UhciQueueHead)
        ensures
            r.address == address,
            r.head_link == self.dword0,
            r.element_link == self.dword1,
    {
        UhciQueueHead::new(address, self.dword0, self.dword1)
    }

    /// A queue head whose words are all zero.
    pub fn empty() -> (r: Self)
        ensures
            r.dword0 == 0 && r.dword1 == 0 && r.alignment0 == 0 && r.alignment1 == 0,
    {
        RawUhciQueueHead { dword0: 0, dword1: 0, alignment0: 0, alignment1: 0 }
    }

    /// A queue head with the given link words and zero padding.
    pub fn with_data(dw0: u32, dw1: u32) -> (r: Self)
        ensures
            r.dword0 == dw0 && r.dword1 == dw1 && r.alignment0 == 0 && r.alignment1 == 0,
    {
        RawUhciQueueHead { dword0: dw0, dword1: dw1, alignment0: 0, alignment1: 0 }
    }
}

/// The last entry of a chain of links: a queue head or a transfer descriptor.
#[derive(Clone, Copy, PartialEq, Eq, Structural, Debug)]
pub enum UhciQueuePointer {
    Queue(u32),
    Td(u32),
}

impl UhciQueuePointer {
    /// Physical address of the entry.
    pub fn address(&self) -> (r: u32)
        ensures
            r == (match *self {
                UhciQueuePointer::Queue(a) => a,
                UhciQueuePointer::Td(a) => a,
            }),
    {
        match self {
            UhciQueuePointer::Queue(a) => *a,
            UhciQueuePointer::Td(a) => *a,
        }
    }
}

/// A queue head: its physical address, its head link word and its element link word.
#[derive(Clone, Copy)]
pub struct UhciQueueHead {
    pub address: u32,
    pub head_link: u32,
    pub element_link: u32,
}

impl UhciQueueHead {
    /// The queue head at `address` holding the two link words.
    pub fn new(address: u32, head_link: u32, element_link: u32) -> (r: Self)
        ensures
            r.address == address,
            r.head_link == head_link,
            r.element_link == element_link,
    {
        UhciQueueHead { address, head_link, element_link }
    }

    /// Physical address of the queue head.
    pub fn address(&self) -> (r: u32)
        ensures
            r == self.address,
    {
        self.address
    }

    /// Clears both link words.
    pub fn zero_out(&mut self)
        ensures
            final(self).address == old(self).address,
            final(self).head_link == 0,
            final(self).element_link == 0,
    {
        self.head_link = 0;
        self.element_link = 0;
    }

    /// Sets the terminate bits of both links.
    pub fn terminate(&mut self, terminate_head: bool, terminate_element: bool)
        ensures
            final(self).address == old(self).address,
            final(self).head_link == with_bit32(old(self).head_link, 0, terminate_head),
            final(self).element_link == with_bit32(
                old(self).element_link,
                0,
                terminate_element,
            ),
    {
        self.head_link = write_bit32(self.head_link, 0, terminate_head);
        self.element_link = write_bit32(self.element_link, 0, terminate_element);
    }

    /// Terminate bit of the head link.
    pub fn queue_head_link_t(&self) -> (r: bool)
        ensures
            r == bit32(self.head_link, 0),
    {
        test_bit32(self.head_link, 0)
    }

    /// Queue/descriptor select bit of the head link.
    pub fn queue_head_link_q(&self) -> (r: bool)
        ensures
            r == bit32(self.head_link, 1),
    {
        test_bit32(self.head_link, 1)
    }

    /// The head link without its four low bits.
    pub fn queue_head_link_pointer(&self) -> (r: u32)
        ensures
            r == (self.head_link >> 4u32) << 4u32,
    {
        (self.head_link >> 4) << 4
    }

    /// Writes the terminate bit of the head link.
    pub fn set_queue_head_link_t(&mut self, val: bool)
        ensures
            final(self).address == old(self).address,
            final(self).element_link == old(self).element_link,
            final(self).head_link == with_bit32(old(self).head_link, 0, val),
    {
        self.head_link = write_bit32(self.head_link, 0, val);
    }

    /// Writes the queue/descriptor select bit of the head link.
    pub fn set_queue_head_link_q(&mut self, val: bool)
        ensures
            final(self).address == old(self).address,
            final(self).element_link == old(self).element_link,
            final(self).head_link == with_bit32(old(self).head_link, 1, val),
    {
        self.head_link = write_bit32(self.head_link, 1, val);
    }

    /// Replaces the head link pointer, keeping the four low bits.
    pub fn set_queue_head_link_pointer(&mut self, val: u32)
        ensures
            final(self).address == old(self).address,
            final(self).element_link == old(self).element_link,
            final(self).head_link == (val & !0xFu32) | (old(self).head_link & 0xFu32),
    {
        self.head_link = (val & !0xFu32) | (self.head_link & 0xF);
    }

    /// Terminate bit of the element link.
    pub fn queue_element_link_t(&self) -> (r: bool)
        ensures
            r == bit32(self.element_link, 0),
    {
        test_bit32(self.element_link, 0)
    }

    /// Compares the terminate bit of the element link with 0b10, which it
    /// never equals: the answer is always `false`.
    pub fn queue_element_link_q(&self) -> (r: bool)
        ensures
            r == ((self.element_link & 1u32) == 2u32),
    {
        (self.element_link & 1) == 2
    }

    /// Compares the terminate bit of the element link with 0b100, which it
    /// never equals: the answer is always `false`.
    pub fn queue_element_link_r(&self) -> (r: bool)
        ensures
            r == ((self.element_link & 1u32) == 4u32),
    {
        (self.element_link & 1) == 4
    }

    /// The element link without its four low bits.
    pub fn queue_element_link_pointer(&self) -> (r: u32)
        ensures
            r == self.element_link & !0xFu32,
    {
        self.element_link & !0xFu32
    }

    /// Writes the terminate bit of the element link.
    pub fn set_queue_element_link_t(&mut self, val: bool)
        ensures
            final(self).address == old(self).address,
            final(self).head_link == old(self).head_link,
            final(self).element_link == with_bit32(old(self).element_link, 0, val),
    {
        self.element_link = write_bit32(self.element_link, 0, val);
    }

    /// Writes the queue/descriptor select bit of the element link.
    pub fn set_queue_element_link_q(&mut self, val: bool)
        ensures
            final(self).address == old(self).address,
            final(self).head_link == old(self).head_link,
            final(self).element_link == with_bit32(old(self).element_link, 1, val),
    {
        self.element_link = write_bit32(self.element_link, 1, val);
    }

    /// Writes the reserved bit 2 of the element link.
    pub fn set_queue_element_link_r(&mut self, val: bool)
        ensures
            final(self).address == old(self).address,
            final(self).head_link == old(self).head_link,
            final(self).element_link == with_bit32(old(self).element_link, 2, val),
    {
        self.element_link = write_bit32(self.element_link, 2, val);
    }

    /// Replaces the element link pointer, keeping the four low bits.
    pub fn set_queue_element_link_pointer(&mut self, val: u32)
        ensures
            final(self).address == old(self).address,
            final(self).head_link == old(self).head_link,
            final(self).element_link == (old(self).element_link & 0xFu32) | (val & !0xFu32),
    {
        self.element_link = (self.element_link & 0xF) | (val & !0xFu32);
    }
}

/// Maximum length field of a descriptor's words.
pub open spec fn td_max_len(w: Seq<u32>) -> int {
    field32(w[2], 21, 0x7FF) as int
}

/// Bytes that the first `n` descriptors of `tds` transfer at most: each
/// moves its maximum length plus one.
pub open spec fn tds_span(tds: Seq<UhciTransferDescriptor>, n: int) -> int
    decreases n,
{
    if n <= 0 {
        0
    } else {
        tds_span(tds, n - 1) + td_max_len(tds[n - 1].dwords@) + 1
    }
}

/// The span of a prefix grows with the prefix.
pub proof fn lemma_tds_span_monotone(tds: Seq<UhciTransferDescriptor>, i: int, j: int)
    requires
        0 <= i <= j,
    ensures
        0 <= tds_span(tds, i) <= tds_span(tds, j),
    decreases j - i,
{
    if i < j {
        lemma_tds_span_monotone(tds, i, j - 1);
        assert(td_max_len(tds[j - 1].dwords@) >= 0);
    } else {
        lemma_tds_span_nonneg(tds, i);
    }
}

proof fn lemma_tds_span_nonneg(tds: Seq<UhciTransferDescriptor>, n: int)
    ensures
        tds_span(tds, n) >= 0,
    decreases n,
{
    if n > 0 {
        lemma_tds_span_nonneg(tds, n - 1);
    }
}

/// The descriptors of an interrupt or bulk endpoint, hung from one queue head.
pub struct UhciTransferDescriptorArray {
    pub transfer_descriptors: Vec<UhciTransferDescriptor>,
    pub interval: u16,
    pub queue_head: UhciQueueHead,
}

impl UhciTransferDescriptorArray {
    pub fn new(
        transfer_descriptors: Vec<UhciTransferDescriptor>,
        interval: u16,
        queue_head: UhciQueueHead,
    ) -> (r: Self)
        ensures
            r.transfer_descriptors@ == transfer_descriptors@,
            r.interval == interval,
            r.queue_head == queue_head,
    {
        UhciTransferDescriptorArray { transfer_descriptors, interval, queue_head }
    }

    /// Lets the controller follow the queue head: clears the terminate bit of its head link.
    pub fn activate(&mut self)
        ensures
            final(self).transfer_descriptors@ == old(self).transfer_descriptors@,
            final(self).interval == old(self).interval,
            final(self).queue_head.address == old(self).queue_head.address,
            final(self).queue_head.element_link == old(self).queue_head.element_link,
            final(self).queue_head.head_link == with_bit32(old(self).queue_head.head_link, 0, false),
    {
        self.queue_head.set_queue_head_link_t(false);
    }

    /// The queue head of the endpoint.
    pub fn queue_head(&self) -> (r: UhciQueueHead)
        ensures
            r == self.queue_head,
    {
        self.queue_head
    }

    /// Asks for an interrupt when the last descriptor completes.
    pub fn activate_ioc(&mut self)
        requires
            old(self).transfer_descriptors.len() > 0,
        ensures
            final(self).interval == old(self).interval,
            final(self).queue_head == old(self).queue_head,
            final(self).transfer_descriptors.len() == old(self).transfer_descriptors.len(),
            forall|i: int|
                0 <= i < old(self).transfer_descriptors.len() - 1
                    ==> #[trigger] final(self).transfer_descriptors@[i]
                    == old(self).transfer_descriptors@[i],
            final(self).transfer_descriptors@.last().address
                == old(self).transfer_descriptors@.last().address,
            final(self).transfer_descriptors@.last().dwords@ == td_bit_written(
                old(self).transfer_descriptors@.last().dwords@,
                UhciTransferDescriptorBitPart::Ioc,
                true,
            ),
    {
        let last = self.transfer_descriptors.len() - 1;
        let mut td = self.transfer_descriptors[last];
        td.set(UhciTransferDescriptorBitPart::Ioc, true);
        self.transfer_descriptors.set(last, td);
    }

    /// Points the descriptors at consecutive pieces of the buffer at
    /// `buffer`: each starts where the previous one's maximum length ends.
    pub fn set_buffer(&mut self, buffer: u32)
        requires
            buffer + tds_span(
                old(self).transfer_descriptors@,
                old(self).transfer_descriptors.len() as int,
            ) <= u32::MAX,
        ensures
            final(self).interval == old(self).interval,
            final(self).queue_head == old(self).queue_head,
            final(self).transfer_descriptors.len() == old(self).transfer_descriptors.len(),
            forall|i: int|
                0 <= i < old(self).transfer_descriptors.len() ==> {
                    &&& (#[trigger] final(self).transfer_descriptors@[i]).address
                        == old(self).transfer_descriptors@[i].address
                    &&& final(self).transfer_descriptors@[i].dwords@
                        == old(self).transfer_descriptors@[i].dwords@.update(
                        3,
                        (buffer + tds_span(old(self).transfer_descriptors@, i)) as u32,
                    )
                },
    {
        let ghost old_tds = self.transfer_descriptors@;
        let n = self.transfer_descriptors.len();
        let mut b: u32 = buffer;
        let mut i: usize = 0;
        while i < n
            invariant
                n == old_tds.len(),
                self.transfer_descriptors@.len() == n,
                self.interval == old(self).interval,
                self.queue_head == old(self).queue_head,
                old_tds == old(self).transfer_descriptors@,
                0 <= i <= n,
                b == buffer + tds_span(old_tds, i as int),
                buffer + tds_span(old_tds, n as int) <= u32::MAX,
                forall|j: int|
                    0 <= j < i ==> {
                        &&& (#[trigger] self.transfer_descriptors@[j]).address == old_tds[j].address
                        &&& self.transfer_descriptors@[j].dwords@ == old_tds[j].dwords@.update(
                            3,
                            (buffer + tds_span(old_tds, j)) as u32,
                        )
                    },
                forall|j: int| i <= j < n ==> #[trigger] self.transfer_descriptors@[j] == old_tds[j],
            decreases n - i,
        {
            let mut td = self.transfer_descriptors[i];
            td.write_buffer_pointer(b);
            let len = td.get_part(UhciTransferDescriptorPart::MaxLen);
            self.transfer_descriptors.set(i, td);
            proof {
                lemma_tds_span_monotone(old_tds, i as int + 1, n as int);
                assert(tds_span(old_tds, i as int + 1) == tds_span(old_tds, i as int) + len + 1);
            }
            b = b + len + 1;
            i = i + 1;
        }
    }

    /// Replaces the descriptors, the polling interval and the queue head.
    pub fn initialize(
        &mut self,
        transfer_descriptors: Vec<UhciTransferDescriptor>,
        interval: u16,
        queue_head: UhciQueueHead,
    )
        ensures
            final(self).transfer_descriptors@ == transfer_descriptors@,
            final(self).interval == interval,
            final(self).queue_head == queue_head,
    {
        self.interval = interval;
        self.queue_head = queue_head;
        self.transfer_descriptors = transfer_descriptors;
    }
}

/// Number of entries of a frame list.
pub const FRAME_LIST_ENTRIES: usize = 1024;

/// One entry of the frame list: the address of its word and its index.
#[derive(Clone, Copy)]
pub struct UhciFrameListRoot {
    pub employ: u64,
    pub index: u32,
}

/// The frame list of a controller with the queue heads hung from it.
pub struct UhciFrameList {
    pub roots: Vec<UhciFrameListRoot>,
    pub interrupt_qhs: Vec<RawUhciQueueHead>,
    pub control_qhs: Vec<RawUhciQueueHead>,
}

impl UhciFrameList {
    /// A frame list with no entries.
    pub fn empty() -> (r: Self)
        ensures
            r.roots@.len() == 0,
            r.interrupt_qhs@.len() == 0,
            r.control_qhs@.len() == 0,
    {
        UhciFrameList { roots: Vec::new(), interrupt_qhs: Vec::new(), control_qhs: Vec::new() }
    }

    /// The frame list whose 1024 words start at `employ_roots`: entry `i`
    /// is the word at `employ_roots + 4 * i`.
    pub fn new(
        employ_roots: u64,
        interrupt_qhs: Vec<RawUhciQueueHead>,
        control_qhs: Vec<RawUhciQueueHead>,
    ) -> (r: Self)
        requires
            employ_roots + 4 * FRAME_LIST_ENTRIES <= u64::MAX,
        ensures
            r.roots@.len() == FRAME_LIST_ENTRIES,
            forall|i: int|
                0 <= i < FRAME_LIST_ENTRIES ==> (#[trigger] r.roots@[i]).employ == employ_roots
                    + 4 * i && r.roots@[i].index == i,
            r.interrupt_qhs@ == interrupt_qhs@,
            r.control_qhs@ == control_qhs@,
    {
        let mut roots: Vec<UhciFrameListRoot> = Vec::new();
        let mut i: usize = 0;
        while i < FRAME_LIST_ENTRIES
            invariant
                i <= FRAME_LIST_ENTRIES,
                employ_roots + 4 * FRAME_LIST_ENTRIES <= u64::MAX,
                roots@.len() == i,
                forall|j: int|
                    0 <= j < i ==> (#[trigger] roots@[j]).employ == employ_roots + 4 * j
                        && roots@[j].index == j,
            decreases FRAME_LIST_ENTRIES - i,
        {
            roots.push(UhciFrameListRoot { employ: employ_roots + 4 * (i as u64), index: i as u32 });
            i = i + 1;
        }
        UhciFrameList { roots, interrupt_qhs, control_qhs }
    }

    /// Physical address of the frame list, that of its first word, cut to 32 bits.
    pub fn addr(&self) -> (r: u32)
        requires
            self.roots@.len() > 0,
        ensures
            r == self.roots@[0].employ as u32,
    {
        self.roots[0].employ as u32
    }

    /// The entries from which a queue head polled every `interval` frames
    /// hangs: `interval`, `2 * interval`, ... up to, not including, the
    /// last multiple of `interval` below 1024 (the range `1..1024 / interval`).
    pub fn place_qh(&self, interval: u32) -> (r: Vec<usize>)
        requires
            interval > 0,
        ensures
            r@.len() == if 1024u32 / interval >= 1 { 1024u32 / interval - 1 } else { 0 },
            forall|k: int| 0 <= k < r@.len() ==> #[trigger] r@[k] == (k + 1) * interval,
            forall|k: int| 0 <= k < r@.len() ==> #[trigger] r@[k] < FRAME_LIST_ENTRIES,
    {
        let top: u32 = 1024 / interval;
        let mut r: Vec<usize> = Vec::new();
        let mut i: u32 = 1;
        while i < top
            invariant
                interval > 0,
                top == 1024u32 / interval,
                1 <= i,
                top >= 1 ==> i <= top,
                top == 0 ==> i == 1,
                r@.len() == i - 1,
                forall|k: int| 0 <= k < r@.len() ==> #[trigger] r@[k] == (k + 1) * interval,
                forall|k: int| 0 <= k < r@.len() ==> #[trigger] r@[k] < FRAME_LIST_ENTRIES,
            decreases top - i,
        {
            proof {
                assert(i * interval < 1024) by (nonlinear_arith)
                    requires
                        i < top,
                        top == 1024u32 / interval,
                        interval > 0,
                ;
            }
            r.push((i as usize) * (interval as usize));
            i = i + 1;
        }
        r
    }
}

/// The kind of transfer that a queue head serves.
#[derive(Clone, Copy, PartialEq, Eq, Structural, Debug)]
pub enum UsbTransferType {
    Control,
    Isochronous,
    Bulk,
    Interrupt,
}

/// What one step of walking a chain of links decides.
#[derive(Clone, Copy, PartialEq, Eq, Structural, Debug)]
pub enum UhciWalkStep {
    /// The entry is on the chain already: nothing is to be done.
    Present,
    /// Read the link word at this address and take the next step with it.
    Read(u64),
    /// Link the entry in at this address: read the word there, link the
    /// entry to it and write the entry's address there.
    AppendAt(u64),
}

/// Where a walk along a chain of links stands: the link last read, the one
/// before it, and whether the entry reached is a queue head.
#[derive(Clone, Copy, PartialEq, Eq, Structural, Debug)]
pub struct UhciChainCursor {
    pub current: u32,
    pub previous: u32,
    pub is_queue: bool,
}

impl UhciChainCursor {
    /// One step of a walk to the end of a chain: given `val`, the link word
    /// read at the cursor, the cursor one entry on, or `None` when the word
    /// terminates the chain.
    pub fn step(&self, val: u32) -> (r: Option<UhciChainCursor>)
        ensures
            val & 1u32 == 1u32 ==> r is None,
            val & 1u32 != 1u32 ==> r == Some(
                UhciChainCursor { current: val & !0xFu32, previous: self.current, is_queue: val & 2u32 == 2u32 },
            ),
    {
        if val & 1 == 1 {
            return None;
        }
        Some(UhciChainCursor { current: val & !0xFu32, previous: self.current, is_queue: val & 2 == 2 })
    }

    /// The entry before the end of the chain, by its kind.
    pub fn result(&self) -> (r: UhciQueuePointer)
        ensures
            r == if self.is_queue { UhciQueuePointer::Queue(self.previous) } else { UhciQueuePointer::Td(self.previous) },
    {
        if self.is_queue {
            UhciQueuePointer::Queue(self.previous)
        } else {
            UhciQueuePointer::Td(self.previous)
        }
    }

    /// Where the next link word of an element walk lies: the element link
    /// (second word) of a queue head, the first word of a descriptor.
    pub fn element_link_address(&self) -> (r: u64)
        ensures
            r == if self.is_queue { self.current + 4 } else { self.current as int },
    {
        if self.is_queue {
            self.current as u64 + 4
        } else {
            self.current as u64
        }
    }
}

impl UhciQueueHead {
    /// Start of a walk along the head links from this queue head: the walk
    /// reads the word at the cursor's `current`, steps with it until the
    /// step ends, and the cursor's `result` is the last queue head or
    /// descriptor on the chain.
    pub fn last_head(&self) -> (r: UhciChainCursor)
        ensures
            r == (UhciChainCursor { current: self.address, previous: self.address, is_queue: true }),
    {
        UhciChainCursor { current: self.address, previous: self.address, is_queue: true }
    }

    /// Start of a walk along the element links from this queue head: as
    /// `last_head`, but each word is read at the cursor's `element_link_address`.
    pub fn last_element(&self) -> (r: UhciChainCursor)
        ensures
            r == (UhciChainCursor { current: self.address, previous: self.address, is_queue: true }),
    {
        UhciChainCursor { current: self.address, previous: self.address, is_queue: true }
    }
}

/// The descriptor linked in front of the entry whose link word is `next_value`:
/// it inherits that word's terminate and queue bits and its pointer, and is
/// depth-first off.
pub open spec fn td_linked(w: Seq<u32>, next_value: u32) -> Seq<u32> {
    let w1 = td_bit_written(w, UhciTransferDescriptorBitPart::T, next_value & 1u32 == 1u32);
    let w2 = td_bit_written(w1, UhciTransferDescriptorBitPart::Q, next_value & 2u32 == 2u32);
    let w3 = td_bit_written(w2, UhciTransferDescriptorBitPart::Vf, false);
    w3.update(0, (w3[0] & 0xFu32) | ((next_value & !0xFu32) & !0xFu32))
}

impl UhciFrameListRoot {
    /// One step of appending the descriptor at `td_address` to this entry's
    /// chain, given `current`, the link word last read (first the entry's
    /// own word). Descriptors come first: a terminated entry takes the
    /// descriptor at once.
    pub fn append_td(&self, td_address: u32, first: bool, current: u32) -> (r: UhciWalkStep)
        ensures
            first && current & 1u32 == 1u32 ==> r == UhciWalkStep::AppendAt(self.employ),
            !(first && current & 1u32 == 1u32) ==> r == if current == td_address {
                UhciWalkStep::Present
            } else if current & 1u32 == 1u32 {
                UhciWalkStep::AppendAt((current & !0xFu32) as u64)
            } else {
                UhciWalkStep::Read(current as u64)
            },
    {
        if first && current & 1 == 1 {
            return UhciWalkStep::AppendAt(self.employ);
        }
        if current == td_address {
            return UhciWalkStep::Present;
        }
        if current & 1 == 1 {
            return UhciWalkStep::AppendAt((current & !0xFu32) as u64);
        }
        UhciWalkStep::Read(current as u64)
    }

    /// Links `td` in front of the entry whose link word is `next_value` and
    /// gives the word that points at `td`.
    pub fn link_td(td: &mut UhciTransferDescriptor, next_value: u32) -> (r: u32)
        ensures
            final(td).address == old(td).address,
            final(td).dwords@ == td_linked(old(td).dwords@, next_value),
            r == old(td).address,
    {
        td.set(UhciTransferDescriptorBitPart::T, next_value & 1 == 1);
        td.set(UhciTransferDescriptorBitPart::Q, next_value & 2 == 2);
        td.set(UhciTransferDescriptorBitPart::Vf, false);
        td.write_link_pointer(next_value & !0xFu32);
        td.address()
    }

    /// One step of appending the queue head at `qh_address` to this entry's
    /// chain for a transfer of type `transfer_type`, given `current` and
    /// `previous`, the link words last read (first both the entry's own
    /// word). Interrupt queue heads go before the first terminated link;
    /// control queue heads also before the first interrupt queue head in
    /// `interrupt_span`, bulk ones before the first control queue head in
    /// `control_span` (first and last address of each block of queue heads).
    pub fn append_qh(
        &self,
        qh_address: u32,
        transfer_type: UsbTransferType,
        interrupt_span: (u32, u32),
        control_span: (u32, u32),
        first: bool,
        current: u32,
        previous: u32,
    ) -> (r: UhciWalkStep)
        requires
            transfer_type != UsbTransferType::Isochronous,
        ensures
            first && current & 1u32 == 1u32 ==> r == UhciWalkStep::AppendAt(self.employ),
            !(first && current & 1u32 == 1u32) ==> r == if current & !0xFu32 == qh_address {
                UhciWalkStep::Present
            } else if current & 1u32 == 1u32 || match transfer_type {
                UsbTransferType::Control => interrupt_span.0 <= current & !0xFu32
                    && current & !0xFu32 <= interrupt_span.1,
                UsbTransferType::Bulk => control_span.0 <= current & !0xFu32 && current
                    & !0xFu32 <= control_span.1,
                _ => false,
            } {
                UhciWalkStep::AppendAt((previous & !0xFu32) as u64)
            } else {
                UhciWalkStep::Read((current & !0xFu32) as u64)
            },
    {
        if first && current & 1 == 1 {
            return UhciWalkStep::AppendAt(self.employ);
        }
        let p = current & !0xFu32;
        if p == qh_address {
            return UhciWalkStep::Present;
        }
        let stop = match transfer_type {
            UsbTransferType::Control => interrupt_span.0 <= p && p <= interrupt_span.1,
            UsbTransferType::Bulk => control_span.0 <= p && p <= control_span.1,
            _ => false,
        };
        if current & 1 == 1 || stop {
            return UhciWalkStep::AppendAt((previous & !0xFu32) as u64);
        }
        UhciWalkStep::Read(p as u64)
    }

    /// Links `qh` in front of the entry whose link word is `next_val` and
    /// gives the word that points at `qh` as a queue head.
    pub fn link_qh(qh: &mut UhciQueueHead, next_val: u32) -> (r: u32)
        ensures
            final(qh).address == old(qh).address,
            final(qh).element_link == old(qh).element_link,
            final(qh).head_link == with_bit32(
                with_bit32(
                    (next_val & !0xFu32 & !0xFu32) | (old(qh).head_link & 0xFu32),
                    1,
                    next_val & 2u32 == 2u32,
                ),
                0,
                next_val & 1u32 == 1u32,
            ),
            r == old(qh).address | 2u32,
    {
        qh.set_queue_head_link_pointer(next_val & !0xFu32);
        qh.set_queue_head_link_q(next_val & 2 == 2);
        qh.set_queue_head_link_t(next_val & 1 == 1);
        qh.address() | 2
    }
}

} // verus!
