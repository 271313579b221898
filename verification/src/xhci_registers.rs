//! xHCI capability, operational, port and runtime registers.
//!
//! A register is named by its physical address. Its methods take the word
//! read from it and give the word to write back; the words themselves are
//! read and written by the caller.
use vstd::prelude::*;
use crate::bits::{bit32, field32, read_field32, test_bit32, with_bit32, with_field32, write_bit32, write_field32};

verus! {

/// Fields of the first structural parameters register.
#[derive(Clone, Copy)]
pub enum XhciHcsParams1Part {
    /// Number of Device Slots
    MaxSlots,
    /// Number Of Interrupters
    MaxIntrs,
    /// Number of Ports
    MaxPorts,
}

impl XhciHcsParams1Part {
    /// First bit and mask of the field.
    pub open spec fn layout_spec(self) -> (u32, u32) {
        match self {
            XhciHcsParams1Part::MaxSlots => (0, 0xff),
            XhciHcsParams1Part::MaxIntrs => (8, 0x7ff),
            XhciHcsParams1Part::MaxPorts => (24, 0xff),
        }
    }

    /// First bit and mask of the field.
    pub fn layout(&self) -> (r: (u32, u32))
        ensures
            r.0 == self.layout_spec().0,
            r.1 == self.layout_spec().1,
            r.0 < 32,
    {
        match self {
            XhciHcsParams1Part::MaxSlots => (0, 0xff),
            XhciHcsParams1Part::MaxIntrs => (8, 0x7ff),
            XhciHcsParams1Part::MaxPorts => (24, 0xff),
        }
    }
}

/// The first structural parameters register.
#[derive(Clone, Copy)]
pub struct XhciHcsParams1 {
    pub addr: u64,
}

impl XhciHcsParams1 {
    /// The register at physical address `addr`.
    pub fn new(addr: u64) -> (r: Self)
        ensures
            r.addr == addr,
    {
        XhciHcsParams1 { addr }
    }

    /// A field of `value`, the word read from the register.
    pub fn get(&self, value: u32, what_to_get: XhciHcsParams1Part) -> (r: u32)
        ensures
            r == field32(value, what_to_get.layout_spec().0, what_to_get.layout_spec().1),
    {
        let (s, m) = what_to_get.layout();
        read_field32(value, s, m)
    }
}

/// Fields of the second structural parameters register.
#[derive(Clone, Copy)]
pub enum XhciHcsParams2Part {
    /// Isochronous Scheduling Threshold
    Ist,
    /// Event Ring Segment Table Max
    ErstMax,
}

impl XhciHcsParams2Part {
    /// First bit and mask of the field.
    pub open spec fn layout_spec(self) -> (u32, u32) {
        match self {
            XhciHcsParams2Part::Ist => (0, 0xf),
            XhciHcsParams2Part::ErstMax => (4, 0xf),
        }
    }

    /// First bit and mask of the field.
    pub fn layout(&self) -> (r: (u32, u32))
        ensures
            r.0 == self.layout_spec().0,
            r.1 == self.layout_spec().1,
            r.0 < 32,
    {
        match self {
            XhciHcsParams2Part::Ist => (0, 0xf),
            XhciHcsParams2Part::ErstMax => (4, 0xf),
        }
    }
}

/// The second structural parameters register.
#[derive(Clone, Copy)]
pub struct XhciHcsParams2 {
    pub addr: u64,
}

impl XhciHcsParams2 {
    /// The register at physical address `addr`.
    pub fn new(addr: u64) -> (r: Self)
        ensures
            r.addr == addr,
    {
        XhciHcsParams2 { addr }
    }

    /// A field of `value`, the word read from the register.
    pub fn get(&self, value: u32, what_to_get: XhciHcsParams2Part) -> (r: u32)
        ensures
            r == field32(value, what_to_get.layout_spec().0, what_to_get.layout_spec().1),
    {
        let (s, m) = what_to_get.layout();
        read_field32(value, s, m)
    }

    /// Scratchpad Restore, bit 26.
    pub fn spr(&self, value: u32) -> (r: bool)
        ensures
            r == bit32(value, 26),
    {
        test_bit32(value, 26)
    }

    /// Max Scratchpad Buffers: bits 27..32 give the low five bits, bits
    /// 21..26 the high five.
    pub fn max_scratchpad_bufs(&self, value: u32) -> (r: u16)
        ensures
            r == field32(value, 27, 0x1F) + field32(value, 21, 0x1F) * 32,
    {
        let low = read_field32(value, 27, 0x1F);
        let high = read_field32(value, 21, 0x1F);
        assert(low <= 0x1F && high <= 0x1F) by (bit_vector)
            requires
                low == (value >> 27u32) & 0x1Fu32,
                high == (value >> 21u32) & 0x1Fu32,
        ;
        (low as u16) + (high as u16) * 32
    }
}

/// Fields of the third structural parameters register.
#[derive(Clone, Copy)]
pub enum XhciHcsParams3Part {
    U1DeviceExitLatency,
    U2DeviceExitLatency,
}

impl XhciHcsParams3Part {
    /// First bit and mask of the field.
    pub open spec fn layout_spec(self) -> (u32, u32) {
        match self {
            XhciHcsParams3Part::U1DeviceExitLatency => (0, 0xff),
            XhciHcsParams3Part::U2DeviceExitLatency => (16, 0xffff),
        }
    }

    /// First bit and mask of the field.
    pub fn layout(&self) -> (r: (u32, u32))
        ensures
            r.0 == self.layout_spec().0,
            r.1 == self.layout_spec().1,
            r.0 < 32,
    {
        match self {
            XhciHcsParams3Part::U1DeviceExitLatency => (0, 0xff),
            XhciHcsParams3Part::U2DeviceExitLatency => (16, 0xffff),
        }
    }
}

/// The third structural parameters register.
#[derive(Clone, Copy)]
pub struct XhciHcsParams3 {
    pub addr: u64,
}

impl XhciHcsParams3 {
    /// The register at physical address `addr`.
    pub fn new(addr: u64) -> (r: Self)
        ensures
            r.addr == addr,
    {
        XhciHcsParams3 { addr }
    }

    /// A field of `value`, the word read from the register.
    pub fn get(&self, value: u32, what_to_get: XhciHcsParams3Part) -> (r: u32)
        ensures
            r == field32(value, what_to_get.layout_spec().0, what_to_get.layout_spec().1),
    {
        let (s, m) = what_to_get.layout();
        read_field32(value, s, m)
    }
}

/// Fields of the first capability parameters register.
#[derive(Clone, Copy)]
pub enum XhciHccParams1Part {
    /// Maximum Primary Stream Array Size
    MaxPSASize,
    /// xHCI Extended Capabilities Pointer
    XEcp,
}

impl XhciHccParams1Part {
    /// First bit and mask of the field.
    pub open spec fn layout_spec(self) -> (u32, u32) {
        match self {
            XhciHccParams1Part::MaxPSASize => (12, 0xf),
            XhciHccParams1Part::XEcp => (16, 0xffff),
        }
    }

    /// First bit and mask of the field.
    pub fn layout(&self) -> (r: (u32, u32))
        ensures
            r.0 == self.layout_spec().0,
            r.1 == self.layout_spec().1,
            r.0 < 32,
    {
        match self {
            XhciHccParams1Part::MaxPSASize => (12, 0xf),
            XhciHccParams1Part::XEcp => (16, 0xffff),
        }
    }
}

/// Bits of the first capability parameters register.
#[derive(Clone, Copy)]
pub enum XhciHccParams1BitPart {
    /// 64-bit Addressing Capability
    Ac64,
    /// BW Negotiation Capability
    Bnc,
    /// Context Size
    Csz,
    /// Port Power Control
    Ppc,
    /// Port Indicators
    Pind,
    /// Light HC Reset Capability
    Lhrc,
    /// Latency Tolerance Messaging Capability
    Ltc,
    /// No Secondary SID Support
    Nss,
    /// Parse All Event Data
    Pae,
    /// Stopped - Short Packet Capability
    Spc,
    /// Stopped EDTLA Capability
    Sec,
    /// Contiguous Frame ID Capability
    Cfc,
}

impl XhciHccParams1BitPart {
    /// Position of the bit in the register.
    pub open spec fn bit_spec(self) -> u32 {
        match self {
            XhciHccParams1BitPart::Ac64 => 0,
            XhciHccParams1BitPart::Bnc => 1,
            XhciHccParams1BitPart::Csz => 2,
            XhciHccParams1BitPart::Ppc => 3,
            XhciHccParams1BitPart::Pind => 4,
            XhciHccParams1BitPart::Lhrc => 5,
            XhciHccParams1BitPart::Ltc => 6,
            XhciHccParams1BitPart::Nss => 7,
            XhciHccParams1BitPart::Pae => 8,
            XhciHccParams1BitPart::Spc => 9,
            XhciHccParams1BitPart::Sec => 10,
            XhciHccParams1BitPart::Cfc => 11,
        }
    }

    /// Position of the bit in the register.
    pub fn bit(&self) -> (r: u32)
        ensures
            r == self.bit_spec(),
            r < 32,
    {
        match self {
            XhciHccParams1BitPart::Ac64 => 0,
            XhciHccParams1BitPart::Bnc => 1,
            XhciHccParams1BitPart::Csz => 2,
            XhciHccParams1BitPart::Ppc => 3,
            XhciHccParams1BitPart::Pind => 4,
            XhciHccParams1BitPart::Lhrc => 5,
            XhciHccParams1BitPart::Ltc => 6,
            XhciHccParams1BitPart::Nss => 7,
            XhciHccParams1BitPart::Pae => 8,
            XhciHccParams1BitPart::Spc => 9,
            XhciHccParams1BitPart::Sec => 10,
            XhciHccParams1BitPart::Cfc => 11,
        }
    }
}

/// The first capability parameters register.
#[derive(Clone, Copy)]
pub struct XhciHccParams1 {
    pub addr: u64,
}

impl XhciHccParams1 {
    /// The register at physical address `addr`.
    pub fn new(addr: u64) -> (r: Self)
        ensures
            r.addr == addr,
    {
        XhciHccParams1 { addr }
    }

    /// A field of `value`, the word read from the register.
    pub fn get(&self, value: u32, what_to_get: XhciHccParams1Part) -> (r: u32)
        ensures
            r == field32(value, what_to_get.layout_spec().0, what_to_get.layout_spec().1),
    {
        let (s, m) = what_to_get.layout();
        read_field32(value, s, m)
    }

    /// Whether a bit is set in `value`, the word read from the register.
    pub fn is_set(&self, value: u32, what_to_check: XhciHccParams1BitPart) -> (r: bool)
        ensures
            r == bit32(value, what_to_check.bit_spec()),
    {
        test_bit32(value, what_to_check.bit())
    }
}

/// Bits of the second capability parameters register.
#[derive(Clone, Copy)]
pub enum XhciHccParams2BitPart {
    /// U3 Entry Capability
    U3c,
    /// Configure Endpoint Command Max Exit Latency Too Large Capability
    Cmc,
    /// Force Save Context Capability
    Fsc,
    /// Compliance Transition Capability
    Ctc,
    /// Large ESIT Payload Capability
    Lec,
    /// Configuration Information Capability
    Cic,
    /// Extended TBC Capability
    Etc,
    /// Extended TBC TRB Status Capability
    Tsc,
    /// Get/Set Extended Property Capability
    Gsc,
    /// Virtualization Based Trusted I/O Capability
    Vtc,
}

impl XhciHccParams2BitPart {
    /// Position of the bit in the register.
    pub open spec fn bit_spec(self) -> u32 {
        match self {
            XhciHccParams2BitPart::U3c => 0,
            XhciHccParams2BitPart::Cmc => 1,
            XhciHccParams2BitPart::Fsc => 2,
            XhciHccParams2BitPart::Ctc => 3,
            XhciHccParams2BitPart::Lec => 4,
            XhciHccParams2BitPart::Cic => 5,
            XhciHccParams2BitPart::Etc => 6,
            XhciHccParams2BitPart::Tsc => 7,
            XhciHccParams2BitPart::Gsc => 8,
            XhciHccParams2BitPart::Vtc => 9,
        }
    }

    /// Position of the bit in the register.
    pub fn bit(&self) -> (r: u32)
        ensures
            r == self.bit_spec(),
            r < 32,
    {
        match self {
            XhciHccParams2BitPart::U3c => 0,
            XhciHccParams2BitPart::Cmc => 1,
            XhciHccParams2BitPart::Fsc => 2,
            XhciHccParams2BitPart::Ctc => 3,
            XhciHccParams2BitPart::Lec => 4,
            XhciHccParams2BitPart::Cic => 5,
            XhciHccParams2BitPart::Etc => 6,
            XhciHccParams2BitPart::Tsc => 7,
            XhciHccParams2BitPart::Gsc => 8,
            XhciHccParams2BitPart::Vtc => 9,
        }
    }
}

/// The second capability parameters register.
#[derive(Clone, Copy)]
pub struct XhciHccParams2 {
    pub addr: u64,
}

impl XhciHccParams2 {
    /// The register at physical address `addr`.
    pub fn new(addr: u64) -> (r: Self)
        ensures
            r.addr == addr,
    {
        XhciHccParams2 { addr }
    }

    /// Whether a bit is set in `value`, the word read from the register.
    pub fn is_set(&self, value: u32, what_to_check: XhciHccParams2BitPart) -> (r: bool)
        ensures
            r == bit32(value, what_to_check.bit_spec()),
    {
        test_bit32(value, what_to_check.bit())
    }
}

/// Bits of the USB command register.
#[derive(Clone, Copy)]
pub enum XhciUsbCmdBitPart {
    /// Run/Stop
    Rs,
    /// Host Controller Reset
    HcRst,
    /// Interrupter Enable
    Inte,
    /// Host System Error Enable
    Hsee,
    /// Light Host Controller Reset
    LhcRst,
    /// Controller Save State
    Css,
    /// Controller Restore State
    Crs,
    /// Enable Wrap Event
    Ewe,
    /// Enable U3 MFINDEX Stop
    Eu3s,
    /// CEM Enable
    Cme,
    /// Extended TBC Enable
    Ete,
    /// Extended TBC TRB Status Enable
    TscEn,
    /// VTIO Enable
    VtioEn,
}

impl XhciUsbCmdBitPart {
    /// Position of the bit in the register.
    pub open spec fn bit_spec(self) -> u32 {
        match self {
            XhciUsbCmdBitPart::Rs => 0,
            XhciUsbCmdBitPart::HcRst => 1,
            XhciUsbCmdBitPart::Inte => 2,
            XhciUsbCmdBitPart::Hsee => 3,
            XhciUsbCmdBitPart::LhcRst => 7,
            XhciUsbCmdBitPart::Css => 8,
            XhciUsbCmdBitPart::Crs => 9,
            XhciUsbCmdBitPart::Ewe => 10,
            XhciUsbCmdBitPart::Eu3s => 11,
            XhciUsbCmdBitPart::Cme => 13,
            XhciUsbCmdBitPart::Ete => 14,
            XhciUsbCmdBitPart::TscEn => 15,
            XhciUsbCmdBitPart::VtioEn => 16,
        }
    }

    /// Position of the bit in the register.
    pub fn bit(&self) -> (r: u32)
        ensures
            r == self.bit_spec(),
            r < 32,
    {
        match self {
            XhciUsbCmdBitPart::Rs => 0,
            XhciUsbCmdBitPart::HcRst => 1,
            XhciUsbCmdBitPart::Inte => 2,
            XhciUsbCmdBitPart::Hsee => 3,
            XhciUsbCmdBitPart::LhcRst => 7,
            XhciUsbCmdBitPart::Css => 8,
            XhciUsbCmdBitPart::Crs => 9,
            XhciUsbCmdBitPart::Ewe => 10,
            XhciUsbCmdBitPart::Eu3s => 11,
            XhciUsbCmdBitPart::Cme => 13,
            XhciUsbCmdBitPart::Ete => 14,
            XhciUsbCmdBitPart::TscEn => 15,
            XhciUsbCmdBitPart::VtioEn => 16,
        }
    }
}

/// The USB command register.
#[derive(Clone, Copy)]
pub struct XhciUsbCmd {
    pub addr: u64,
}

impl XhciUsbCmd {
    /// The register at physical address `addr`.
    pub fn new(addr: u64) -> (r: Self)
        ensures
            r.addr == addr,
    {
        XhciUsbCmd { addr }
    }

    /// Whether a bit is set in `value`, the word read from the register.
    pub fn is_set(&self, value: u32, what_to_check: XhciUsbCmdBitPart) -> (r: bool)
        ensures
            r == bit32(value, what_to_check.bit_spec()),
    {
        test_bit32(value, what_to_check.bit())
    }

    /// The word to write to change one bit of `value`.
    pub fn set(&self, value: u32, what_to_set: XhciUsbCmdBitPart, val: bool) -> (r: u32)
        ensures
            r == with_bit32(value, what_to_set.bit_spec(), val),
    {
        write_bit32(value, what_to_set.bit(), val)
    }
}

/// Bits of the USB status register.
#[derive(Clone, Copy)]
pub enum XhciUsbStsBitPart {
    /// HCHalted
    HcH,
    /// Host System Error
    Hse,
    /// Event Interrupt
    Eint,
    /// Port Change Detected
    Pcd,
    /// Save State Status
    Sss,
    /// Restore State Status
    Rss,
    /// Save/Restore Error
    Sre,
    /// Controller Not Ready
    Cnr,
    /// Host Controller Error
    Hce,
}

impl XhciUsbStsBitPart {
    /// Position of the bit in the register.
    pub open spec fn bit_spec(self) -> u32 {
        match self {
            XhciUsbStsBitPart::HcH => 0,
            XhciUsbStsBitPart::Hse => 2,
            XhciUsbStsBitPart::Eint => 3,
            XhciUsbStsBitPart::Pcd => 4,
            XhciUsbStsBitPart::Sss => 8,
            XhciUsbStsBitPart::Rss => 9,
            XhciUsbStsBitPart::Sre => 10,
            XhciUsbStsBitPart::Cnr => 11,
            XhciUsbStsBitPart::Hce => 12,
        }
    }

    /// Position of the bit in the register.
    pub fn bit(&self) -> (r: u32)
        ensures
            r == self.bit_spec(),
            r < 32,
    {
        match self {
            XhciUsbStsBitPart::HcH => 0,
            XhciUsbStsBitPart::Hse => 2,
            XhciUsbStsBitPart::Eint => 3,
            XhciUsbStsBitPart::Pcd => 4,
            XhciUsbStsBitPart::Sss => 8,
            XhciUsbStsBitPart::Rss => 9,
            XhciUsbStsBitPart::Sre => 10,
            XhciUsbStsBitPart::Cnr => 11,
            XhciUsbStsBitPart::Hce => 12,
        }
    }
}

/// The USB status register.
#[derive(Clone, Copy)]
pub struct XhciUsbSts {
    pub addr: u64,
}

impl XhciUsbSts {
    /// The register at physical address `addr`.
    pub fn new(addr: u64) -> (r: Self)
        ensures
            r.addr == addr,
    {
        XhciUsbSts { addr }
    }

    /// Whether a bit is set in `value`, the word read from the register.
    pub fn is_set(&self, value: u32, what_to_check: XhciUsbStsBitPart) -> (r: bool)
        ensures
            r == bit32(value, what_to_check.bit_spec()),
    {
        test_bit32(value, what_to_check.bit())
    }

    /// The word to write to change one bit of `value`.
    pub fn set(&self, value: u32, what_to_set: XhciUsbStsBitPart, val: bool) -> (r: u32)
        ensures
            r == with_bit32(value, what_to_set.bit_spec(), val),
    {
        write_bit32(value, what_to_set.bit(), val)
    }

    /// Whether `value` reports an error: host controller error, host system
    /// error or save/restore error.
    pub fn error_present(&self, value: u32) -> (r: bool)
        ensures
            r == (bit32(value, 12) || bit32(value, 2) || bit32(value, 10)),
    {
        self.is_set(value, XhciUsbStsBitPart::Hce) || self.is_set(value, XhciUsbStsBitPart::Hse)
            || self.is_set(value, XhciUsbStsBitPart::Sre)
    }
}

/// Bits of the command ring control register.
#[derive(Clone, Copy)]
pub enum XhciCrCrBitPart {
    /// Ring Cycle State
    Rcs,
    /// Command Stop
    Cs,
    /// Command Abort
    Ca,
    /// Command Ring Running
    Crr,
}

impl XhciCrCrBitPart {
    /// Position of the bit in the register.
    pub open spec fn bit_spec(self) -> u32 {
        match self {
            XhciCrCrBitPart::Rcs => 0,
            XhciCrCrBitPart::Cs => 1,
            XhciCrCrBitPart::Ca => 2,
            XhciCrCrBitPart::Crr => 3,
        }
    }

    /// Position of the bit in the register.
    pub fn bit(&self) -> (r: u32)
        ensures
            r == self.bit_spec(),
            r < 32,
    {
        match self {
            XhciCrCrBitPart::Rcs => 0,
            XhciCrCrBitPart::Cs => 1,
            XhciCrCrBitPart::Ca => 2,
            XhciCrCrBitPart::Crr => 3,
        }
    }
}

/// The command ring control register.
#[derive(Clone, Copy)]
pub struct XhciCrCr {
    pub addr: u64,
}

impl XhciCrCr {
    /// The register at physical address `addr`.
    pub fn new(addr: u64) -> (r: Self)
        ensures
            r.addr == addr,
    {
        XhciCrCr { addr }
    }

    /// Whether a bit is set in `value`, the word read from the register.
    pub fn is_set(&self, value: u32, what_to_check: XhciCrCrBitPart) -> (r: bool)
        ensures
            r == bit32(value, what_to_check.bit_spec()),
    {
        test_bit32(value, what_to_check.bit())
    }

    /// The word to write to change one bit of `value`.
    pub fn set(&self, value: u32, what_to_set: XhciCrCrBitPart, val: bool) -> (r: u32)
        ensures
            r == with_bit32(value, what_to_set.bit_spec(), val),
    {
        write_bit32(value, what_to_set.bit(), val)
    }

    /// The two words to write to point the register at the command ring at
    /// `pointer`, whose low six bits are dropped; `value` is the first word
    /// read from the register, whose low six bits stay.
    pub fn write_command_ring_pointer(&self, value: u32, pointer: u64) -> (r: (u32, u32))
        ensures
            r.0 == (value & 0x3Fu32) | (((pointer & !0x3Fu64) & 0xFFFF_FFFFu64) as u32),
            r.1 == ((pointer & !0x3Fu64) >> 32u64) as u32,
    {
        let p = pointer & !0x3Fu64;
        ((value & 0x3F) | ((p & 0xFFFF_FFFF) as u32), (p >> 32) as u32)
    }
}

/// Bits of the configure register.
#[derive(Clone, Copy)]
pub enum XhciConfigBitPart {
    /// U3 Entry Enable
    U3e,
    /// Configuration Information Enable
    Cie,
}

impl XhciConfigBitPart {
    /// Position of the bit in the register.
    pub open spec fn bit_spec(self) -> u32 {
        match self {
            XhciConfigBitPart::U3e => 8,
            XhciConfigBitPart::Cie => 9,
        }
    }

    /// Position of the bit in the register.
    pub fn bit(&self) -> (r: u32)
        ensures
            r == self.bit_spec(),
            r < 32,
    {
        match self {
            XhciConfigBitPart::U3e => 8,
            XhciConfigBitPart::Cie => 9,
        }
    }
}

/// The configure register.
#[derive(Clone, Copy)]
pub struct XhciConfig {
    pub addr: u64,
}

impl XhciConfig {
    /// The register at physical address `addr`.
    pub fn new(addr: u64) -> (r: Self)
        ensures
            r.addr == addr,
    {
        XhciConfig { addr }
    }

    /// Whether a bit is set in `value`, the word read from the register.
    pub fn is_set(&self, value: u32, what_to_check: XhciConfigBitPart) -> (r: bool)
        ensures
            r == bit32(value, what_to_check.bit_spec()),
    {
        test_bit32(value, what_to_check.bit())
    }

    /// The word to write to change one bit of `value`.
    pub fn set(&self, value: u32, what_to_set: XhciConfigBitPart, val: bool) -> (r: u32)
        ensures
            r == with_bit32(value, what_to_set.bit_spec(), val),
    {
        write_bit32(value, what_to_set.bit(), val)
    }

    /// The word to write to enable `val` device slots.
    pub fn set_max_slots_en(&self, value: u32, val: u8) -> (r: u32)
        ensures
            r == (value & !0xFFu32) | (val as u32),
    {
        (value & !0xFFu32) | (val as u32)
    }
}

/// Bits of a port status and control register.
#[derive(Clone, Copy)]
pub enum XhciPortScBitPart {
    /// Current Connect Status
    Ccs,
    /// Port Enabled/Disabled
    Ped,
    /// Over-current Active
    Oca,
    /// Port Reset
    Pr,
    /// Port Power
    Pp,
    /// Port Link State Write Strobe
    Lws,
    /// Connect Status Change
    Csc,
    /// Port Enabled/Disabled Change
    Pec,
    /// Warm Port Reset Change
    Wrc,
    /// Over-current Change
    Occ,
    /// Port Reset Change
    Prc,
    /// Port Link State Change
    Plc,
    /// Port Config Error Change
    Cec,
    /// Cold Attach Status
    Cas,
    /// Wake on Connect Enable
    Wce,
    /// Wake on Disconnect Enable
    Wde,
    /// Wake on Over-current Enable
    Woe,
    /// Device Removable
    Dr,
    /// Warm Port Reset
    Wpr,
}

impl XhciPortScBitPart {
    /// Position of the bit in the register.
    pub open spec fn bit_spec(self) -> u32 {
        match self {
            XhciPortScBitPart::Ccs => 0,
            XhciPortScBitPart::Ped => 1,
            XhciPortScBitPart::Oca => 3,
            XhciPortScBitPart::Pr => 4,
            XhciPortScBitPart::Pp => 9,
            XhciPortScBitPart::Lws => 16,
            XhciPortScBitPart::Csc => 17,
            XhciPortScBitPart::Pec => 18,
            XhciPortScBitPart::Wrc => 19,
            XhciPortScBitPart::Occ => 20,
            XhciPortScBitPart::Prc => 21,
            XhciPortScBitPart::Plc => 22,
            XhciPortScBitPart::Cec => 23,
            XhciPortScBitPart::Cas => 24,
            XhciPortScBitPart::Wce => 25,
            XhciPortScBitPart::Wde => 26,
            XhciPortScBitPart::Woe => 27,
            XhciPortScBitPart::Dr => 30,
            XhciPortScBitPart::Wpr => 31,
        }
    }

    /// Position of the bit in the register.
    pub fn bit(&self) -> (r: u32)
        ensures
            r == self.bit_spec(),
            r < 32,
    {
        match self {
            XhciPortScBitPart::Ccs => 0,
            XhciPortScBitPart::Ped => 1,
            XhciPortScBitPart::Oca => 3,
            XhciPortScBitPart::Pr => 4,
            XhciPortScBitPart::Pp => 9,
            XhciPortScBitPart::Lws => 16,
            XhciPortScBitPart::Csc => 17,
            XhciPortScBitPart::Pec => 18,
            XhciPortScBitPart::Wrc => 19,
            XhciPortScBitPart::Occ => 20,
            XhciPortScBitPart::Prc => 21,
            XhciPortScBitPart::Plc => 22,
            XhciPortScBitPart::Cec => 23,
            XhciPortScBitPart::Cas => 24,
            XhciPortScBitPart::Wce => 25,
            XhciPortScBitPart::Wde => 26,
            XhciPortScBitPart::Woe => 27,
            XhciPortScBitPart::Dr => 30,
            XhciPortScBitPart::Wpr => 31,
        }
    }
}

/// Fields of a port status and control register.
#[derive(Clone, Copy)]
pub enum XhciPortScPart {
    /// Port Link State
    Pls,
    PortSpeed,
    /// Port Indicator Control
    Pic,
}

impl XhciPortScPart {
    /// First bit and mask of the field.
    pub open spec fn layout_spec(self) -> (u32, u32) {
        match self {
            XhciPortScPart::Pls => (5, 0xf),
            XhciPortScPart::PortSpeed => (10, 0xf),
            XhciPortScPart::Pic => (14, 0x3),
        }
    }

    /// First bit and mask of the field.
    pub fn layout(&self) -> (r: (u32, u32))
        ensures
            r.0 == self.layout_spec().0,
            r.1 == self.layout_spec().1,
            r.0 < 32,
    {
        match self {
            XhciPortScPart::Pls => (5, 0xf),
            XhciPortScPart::PortSpeed => (10, 0xf),
            XhciPortScPart::Pic => (14, 0x3),
        }
    }
}

/// A port status and control register.
#[derive(Clone, Copy)]
pub struct XhciPortSc {
    pub addr: u64,
}

impl XhciPortSc {
    /// The register at physical address `addr`.
    pub fn new(addr: u64) -> (r: Self)
        ensures
            r.addr == addr,
    {
        XhciPortSc { addr }
    }

    /// A field of `value`, the word read from the register.
    pub fn get(&self, value: u32, what_to_get: XhciPortScPart) -> (r: u32)
        ensures
            r == field32(value, what_to_get.layout_spec().0, what_to_get.layout_spec().1),
    {
        let (s, m) = what_to_get.layout();
        read_field32(value, s, m)
    }

    /// Whether a bit is set in `value`, the word read from the register.
    pub fn is_set(&self, value: u32, what_to_check: XhciPortScBitPart) -> (r: bool)
        ensures
            r == bit32(value, what_to_check.bit_spec()),
    {
        test_bit32(value, what_to_check.bit())
    }

    /// The word to write to change one bit of `value`.
    pub fn set(&self, value: u32, what_to_set: XhciPortScBitPart, val: bool) -> (r: u32)
        ensures
            r == with_bit32(value, what_to_set.bit_spec(), val),
    {
        write_bit32(value, what_to_set.bit(), val)
    }

    /// The word to write to change a field of `value`.
    pub fn set_part(&self, value: u32, what_to_set: XhciPortScPart, val: u32) -> (r: u32)
        ensures
            r == with_field32(value, what_to_set.layout_spec().0, what_to_set.layout_spec().1, val),
    {
        let (s, m) = what_to_set.layout();
        write_field32(value, s, m, val)
    }
}

/// Fields of the power management register of a USB3 port.
#[derive(Clone, Copy)]
pub enum XhciPortPmscUsb3Part {
    U1Timeout,
    U2Timeout,
}

impl XhciPortPmscUsb3Part {
    /// First bit and mask of the field.
    pub open spec fn layout_spec(self) -> (u32, u32) {
        match self {
            XhciPortPmscUsb3Part::U1Timeout => (0, 0xff),
            XhciPortPmscUsb3Part::U2Timeout => (8, 0xff),
        }
    }

    /// First bit and mask of the field.
    pub fn layout(&self) -> (r: (u32, u32))
        ensures
            r.0 == self.layout_spec().0,
            r.1 == self.layout_spec().1,
            r.0 < 32,
    {
        match self {
            XhciPortPmscUsb3Part::U1Timeout => (0, 0xff),
            XhciPortPmscUsb3Part::U2Timeout => (8, 0xff),
        }
    }
}

/// The power management register of a USB3 port.
#[derive(Clone, Copy)]
pub struct XhciPortPmscUsb3 {
    pub addr: u64,
}

impl XhciPortPmscUsb3 {
    /// The register at physical address `addr`.
    pub fn new(addr: u64) -> (r: Self)
        ensures
            r.addr == addr,
    {
        XhciPortPmscUsb3 { addr }
    }

    /// A field of `value`, the word read from the register.
    pub fn get(&self, value: u32, what_to_get: XhciPortPmscUsb3Part) -> (r: u32)
        ensures
            r == field32(value, what_to_get.layout_spec().0, what_to_get.layout_spec().1),
    {
        let (s, m) = what_to_get.layout();
        read_field32(value, s, m)
    }

    /// The word to write to change a field of `value`.
    pub fn set_part(&self, value: u32, what_to_set: XhciPortPmscUsb3Part, val: u32) -> (r: u32)
        ensures
            r == with_field32(value, what_to_set.layout_spec().0, what_to_set.layout_spec().1, val),
    {
        let (s, m) = what_to_set.layout();
        write_field32(value, s, m, val)
    }

    /// Force Link PM Accept, bit 16.
    pub fn fla(&self, value: u32) -> (r: bool)
        ensures
            r == bit32(value, 16),
    {
        test_bit32(value, 16)
    }

    /// The word to write to change Force Link PM Accept.
    pub fn set_fla(&self, value: u32, fla: bool) -> (r: u32)
        ensures
            r == with_bit32(value, 16, fla),
    {
        write_bit32(value, 16, fla)
    }
}

/// Bits of the power management register of a USB2 port.
#[derive(Clone, Copy)]
pub enum XhciPortPmscUsb2BitPart {
    /// Remote Wakeup Enable
    Rwe,
    /// Hardware LPM Enable
    Hle,
}

impl XhciPortPmscUsb2BitPart {
    /// Position of the bit in the register.
    pub open spec fn bit_spec(self) -> u32 {
        match self {
            XhciPortPmscUsb2BitPart::Rwe => 3,
            XhciPortPmscUsb2BitPart::Hle => 16,
        }
    }

    /// Position of the bit in the register.
    pub fn bit(&self) -> (r: u32)
        ensures
            r == self.bit_spec(),
            r < 32,
    {
        match self {
            XhciPortPmscUsb2BitPart::Rwe => 3,
            XhciPortPmscUsb2BitPart::Hle => 16,
        }
    }
}

/// Fields of the power management register of a USB2 port.
#[derive(Clone, Copy)]
pub enum XhciPortPmscUsb2Part {
    /// L1 Status
    L1S,
    /// Best Effort Service Latency
    Besl,
    L1DeviceSlot,
    /// Port Test Control
    TestMode,
}

impl XhciPortPmscUsb2Part {
    /// First bit and mask of the field.
    pub open spec fn layout_spec(self) -> (u32, u32) {
        match self {
            XhciPortPmscUsb2Part::L1S => (0, 0x7),
            XhciPortPmscUsb2Part::Besl => (4, 0xf),
            XhciPortPmscUsb2Part::L1DeviceSlot => (8, 0xff),
            XhciPortPmscUsb2Part::TestMode => (28, 0xf),
        }
    }

    /// First bit and mask of the field.
    pub fn layout(&self) -> (r: (u32, u32))
        ensures
            r.0 == self.layout_spec().0,
            r.1 == self.layout_spec().1,
            r.0 < 32,
    {
        match self {
            XhciPortPmscUsb2Part::L1S => (0, 0x7),
            XhciPortPmscUsb2Part::Besl => (4, 0xf),
            XhciPortPmscUsb2Part::L1DeviceSlot => (8, 0xff),
            XhciPortPmscUsb2Part::TestMode => (28, 0xf),
        }
    }
}

/// The power management register of a USB2 port.
#[derive(Clone, Copy)]
pub struct XhciPortPmscUsb2 {
    pub addr: u64,
}

impl XhciPortPmscUsb2 {
    /// The register at physical address `addr`.
    pub fn new(addr: u64) -> (r: Self)
        ensures
            r.addr == addr,
    {
        XhciPortPmscUsb2 { addr }
    }

    /// A field of `value`, the word read from the register.
    pub fn get(&self, value: u32, what_to_get: XhciPortPmscUsb2Part) -> (r: u32)
        ensures
            r == field32(value, what_to_get.layout_spec().0, what_to_get.layout_spec().1),
    {
        let (s, m) = what_to_get.layout();
        read_field32(value, s, m)
    }

    /// Whether a bit is set in `value`, the word read from the register.
    pub fn is_set(&self, value: u32, what_to_check: XhciPortPmscUsb2BitPart) -> (r: bool)
        ensures
            r == bit32(value, what_to_check.bit_spec()),
    {
        test_bit32(value, what_to_check.bit())
    }

    /// The word to write to change one bit of `value`.
    pub fn set(&self, value: u32, what_to_set: XhciPortPmscUsb2BitPart, val: bool) -> (r: u32)
        ensures
            r == with_bit32(value, what_to_set.bit_spec(), val),
    {
        write_bit32(value, what_to_set.bit(), val)
    }

    /// The word to write to change a field of `value`.
    pub fn set_part(&self, value: u32, what_to_set: XhciPortPmscUsb2Part, val: u32) -> (r: u32)
        ensures
            r == with_field32(value, what_to_set.layout_spec().0, what_to_set.layout_spec().1, val),
    {
        let (s, m) = what_to_set.layout();
        write_field32(value, s, m, val)
    }
}

/// Fields of the link info register of a USB3 port.
#[derive(Clone, Copy)]
pub enum XhciPortLiUsb3Part {
    LinkErrorCount,
    /// Rx Lane Count
    Rlc,
    /// Tx Lane Count
    Tlc,
}

impl XhciPortLiUsb3Part {
    /// First bit and mask of the field.
    pub open spec fn layout_spec(self) -> (u32, u32) {
        match self {
            XhciPortLiUsb3Part::LinkErrorCount => (0, 0xffff),
            XhciPortLiUsb3Part::Rlc => (16, 0xf),
            XhciPortLiUsb3Part::Tlc => (20, 0xf),
        }
    }

    /// First bit and mask of the field.
    pub fn layout(&self) -> (r: (u32, u32))
        ensures
            r.0 == self.layout_spec().0,
            r.1 == self.layout_spec().1,
            r.0 < 32,
    {
        match self {
            XhciPortLiUsb3Part::LinkErrorCount => (0, 0xffff),
            XhciPortLiUsb3Part::Rlc => (16, 0xf),
            XhciPortLiUsb3Part::Tlc => (20, 0xf),
        }
    }
}

/// The link info register of a USB3 port.
#[derive(Clone, Copy)]
pub struct XhciPortLiUsb3 {
    pub addr: u64,
}

impl XhciPortLiUsb3 {
    /// The register at physical address `addr`.
    pub fn new(addr: u64) -> (r: Self)
        ensures
            r.addr == addr,
    {
        XhciPortLiUsb3 { addr }
    }

    /// A field of `value`, the word read from the register.
    pub fn get(&self, value: u32, what_to_get: XhciPortLiUsb3Part) -> (r: u32)
        ensures
            r == field32(value, what_to_get.layout_spec().0, what_to_get.layout_spec().1),
    {
        let (s, m) = what_to_get.layout();
        read_field32(value, s, m)
    }
}

/// Fields of the hardware LPM control register of a USB2 port.
#[derive(Clone, Copy)]
pub enum XhciPortHlpMcUsb2Part {
    /// Host Initiated Resume Duration Mode
    Hirdm,
    L1Timeout,
    /// Best Effort Service Latency Deep
    Besld,
}

impl XhciPortHlpMcUsb2Part {
    /// First bit and mask of the field.
    pub open spec fn layout_spec(self) -> (u32, u32) {
        match self {
            XhciPortHlpMcUsb2Part::Hirdm => (0, 0x3),
            XhciPortHlpMcUsb2Part::L1Timeout => (2, 0xff),
            XhciPortHlpMcUsb2Part::Besld => (10, 0xf),
        }
    }

    /// First bit and mask of the field.
    pub fn layout(&self) -> (r: (u32, u32))
        ensures
            r.0 == self.layout_spec().0,
            r.1 == self.layout_spec().1,
            r.0 < 32,
    {
        match self {
            XhciPortHlpMcUsb2Part::Hirdm => (0, 0x3),
            XhciPortHlpMcUsb2Part::L1Timeout => (2, 0xff),
            XhciPortHlpMcUsb2Part::Besld => (10, 0xf),
        }
    }
}

/// The hardware LPM control register of a USB2 port.
#[derive(Clone, Copy)]
pub struct XhciPortHlpMcUsb2 {
    pub addr: u64,
}

impl XhciPortHlpMcUsb2 {
    /// The register at physical address `addr`.
    pub fn new(addr: u64) -> (r: Self)
        ensures
            r.addr == addr,
    {
        XhciPortHlpMcUsb2 { addr }
    }

    /// A field of `value`, the word read from the register.
    pub fn get(&self, value: u32, what_to_get: XhciPortHlpMcUsb2Part) -> (r: u32)
        ensures
            r == field32(value, what_to_get.layout_spec().0, what_to_get.layout_spec().1),
    {
        let (s, m) = what_to_get.layout();
        read_field32(value, s, m)
    }

    /// The word to write to change a field of `value`.
    pub fn set_part(&self, value: u32, what_to_set: XhciPortHlpMcUsb2Part, val: u32) -> (r: u32)
        ensures
            r == with_field32(value, what_to_set.layout_spec().0, what_to_set.layout_spec().1, val),
    {
        let (s, m) = what_to_set.layout();
        write_field32(value, s, m, val)
    }
}

/// Fields of an interrupter register set (word index, first bit, mask).
#[derive(Clone, Copy)]
pub enum XhciInterruptRegisterSetPart {
    /// Interrupt Moderation Interval
    ImodI,
    /// Interrupt Moderation Counter
    ImodC,
    EventRingSegmentTableSize,
    /// Dequeue ERST Segment Index
    Desi,
}

impl XhciInterruptRegisterSetPart {
    /// Word index, first bit and mask of the field.
    pub open spec fn layout_spec(self) -> (int, u32, u32) {
        match self {
            XhciInterruptRegisterSetPart::ImodI => (1, 0, 0xffff),
            XhciInterruptRegisterSetPart::ImodC => (1, 16, 0xffff),
            XhciInterruptRegisterSetPart::EventRingSegmentTableSize => (2, 0, 0xffff),
            XhciInterruptRegisterSetPart::Desi => (6, 0, 0x7),
        }
    }

    /// Word index, first bit and mask of the field.
    pub fn layout(&self) -> (r: (usize, u32, u32))
        ensures
            r.0 == self.layout_spec().0,
            r.1 == self.layout_spec().1,
            r.2 == self.layout_spec().2,
            r.1 < 32,
            r.0 <= 6,
    {
        match self {
            XhciInterruptRegisterSetPart::ImodI => (1, 0, 0xffff),
            XhciInterruptRegisterSetPart::ImodC => (1, 16, 0xffff),
            XhciInterruptRegisterSetPart::EventRingSegmentTableSize => (2, 0, 0xffff),
            XhciInterruptRegisterSetPart::Desi => (6, 0, 0x7),
        }
    }
}

/// Bits of an interrupter register set (word index, bit).
#[derive(Clone, Copy)]
pub enum XhciInterruptRegisterSetBitPart {
    /// Interrupt Pending
    Ip,
    /// Interrupt Enable
    Ie,
    /// Event Handler Busy
    Ehb,
}

impl XhciInterruptRegisterSetBitPart {
    /// Word index and position of the bit.
    pub open spec fn layout_spec(self) -> (int, u32) {
        match self {
            XhciInterruptRegisterSetBitPart::Ip => (0, 0),
            XhciInterruptRegisterSetBitPart::Ie => (0, 1),
            XhciInterruptRegisterSetBitPart::Ehb => (6, 3),
        }
    }

    /// Word index and position of the bit.
    pub fn layout(&self) -> (r: (usize, u32))
        ensures
            r.0 == self.layout_spec().0,
            r.1 == self.layout_spec().1,
            r.1 < 32,
            r.0 <= 6,
    {
        match self {
            XhciInterruptRegisterSetBitPart::Ip => (0, 0),
            XhciInterruptRegisterSetBitPart::Ie => (0, 1),
            XhciInterruptRegisterSetBitPart::Ehb => (6, 3),
        }
    }
}

/// The register set of one interrupter: eight words from `addr`. The
/// caller reads the word that a part's layout names and passes it in.
#[derive(Clone, Copy)]
pub struct XhciInterruptRegisterSet {
    pub addr: u64,
}

impl XhciInterruptRegisterSet {
    /// The register set at physical address `addr`.
    pub fn new(addr: u64) -> (r: Self)
        ensures
            r.addr == addr,
    {
        XhciInterruptRegisterSet { addr }
    }

    /// Whether a bit is set in `value`, the word named by the bit's layout.
    pub fn is_set(&self, value: u32, bit_part: XhciInterruptRegisterSetBitPart) -> (r: bool)
        ensures
            r == bit32(value, bit_part.layout_spec().1),
    {
        let (_i, b) = bit_part.layout();
        test_bit32(value, b)
    }

    /// The word to write back to change one bit of `value`.
    pub fn set(&self, value: u32, bit_part: XhciInterruptRegisterSetBitPart, val: bool) -> (r: u32)
        ensures
            r == with_bit32(value, bit_part.layout_spec().1, val),
    {
        let (_i, b) = bit_part.layout();
        write_bit32(value, b, val)
    }

    /// A field of `value`, the word named by the field's layout.
    pub fn get_part(&self, value: u32, part: XhciInterruptRegisterSetPart) -> (r: u32)
        ensures
            r == field32(value, part.layout_spec().1, part.layout_spec().2),
    {
        let (_i, s, m) = part.layout();
        read_field32(value, s, m)
    }

    /// The word to write back to change a field of `value`.
    pub fn set_part(&self, value: u32, part: XhciInterruptRegisterSetPart, val: u32) -> (r: u32)
        ensures
            r == with_field32(value, part.layout_spec().1, part.layout_spec().2, val),
    {
        let (_i, s, m) = part.layout();
        write_field32(value, s, m, val)
    }

    /// The words 4 and 5 to write to point the interrupter at its event ring
    /// segment table at `base`, whose low five bits are dropped.
    pub fn set_event_ring_table_base_address(&self, base: u64) -> (r: (u32, u32))
        ensures
            r.0 == ((base & !0x1Fu64) & 0xFFFF_FFFFu64) as u32,
            r.1 == ((base & !0x1Fu64) >> 32u64) as u32,
    {
        let b = base & !0x1Fu64;
        ((b & 0xFFFF_FFFF) as u32, (b >> 32) as u32)
    }

    /// The words 6 and 7 to write to move the event ring's dequeue pointer
    /// to `base`, whose low four bits are dropped; `value` is word 6 as
    /// read, whose low four bits stay.
    pub fn set_event_ring_dequeue_pointer(&self, value: u32, base: u64) -> (r: (u32, u32))
        ensures
            r.0 == (value & 0xFu32) | (((base & !0xFu64) & 0xFFFF_FFFFu64) as u32),
            r.1 == ((base & !0xFu64) >> 32u64) as u32,
    {
        let b = base & !0xFu64;
        ((value & 0xF) | ((b & 0xFFFF_FFFF) as u32), (b >> 32) as u32)
    }
}

/// The doorbell register of a slot.
#[derive(Clone, Copy)]
pub struct XhciDoorbell {
    pub addr: u64,
}

/// Doorbell target of the default control endpoint.
pub const XHCI_DB_TARGET_CONTROL_EP0: u8 = 0;

/// Doorbell target of endpoint `ep_index` in the direction given by `is_in`.
pub fn db_target_for_ep(ep_index: u8, is_in: bool) -> (r: u8)
    requires
        ep_index * 2 + 1 <= u8::MAX,
    ensures
        r == ep_index * 2 + (if is_in { 1int } else { 0int }),
{
    let d: u8 = if is_in { 1 } else { 0 };
    (ep_index * 2) + d
}

impl XhciDoorbell {
    /// The doorbell at physical address `addr`.
    pub fn new(addr: u64) -> (r: Self)
        ensures
            r.addr == addr,
    {
        XhciDoorbell { addr }
    }

    /// The word to write to ring the doorbell for a target and a stream.
    pub fn ring(&self, db_target: u8, db_stream_id: u16) -> (r: u32)
        ensures
            r == (db_target as u32) | ((db_stream_id as u32) << 16u32),
    {
        (db_target as u32) | ((db_stream_id as u32) << 16)
    }
}

} // verus!
