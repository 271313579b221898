//! xHCI transfer request blocks (TRBs): the 16-byte records of command,
//! transfer and event rings, and the protocol and capability words that
//! describe a controller.
//!
//! A ring entry is named by its physical address and carries its four
//! words; the methods read and write fields of those words.
use vstd::prelude::*;
use crate::bits::{
    bit32, field32, read_field32, test_bit32, with_bit32, with_field32, write_bit32,
    write_field32,
};

verus! {

/// Type codes of TRBs.
#[derive(Clone, Copy, PartialEq, Eq, Structural, Debug)]
pub enum XhciTrbId {
    Normal,
    Setup,
    Data,
    Status,
    Isoch,
    Link,
    EventData,
    NoOp,
    EnableSlotCommand,
    DisableSlotCommand,
    AddressDeviceCommand,
    ConfigureEndpointCommand,
    EvaluateContextCommand,
    ResetEndpointCommand,
    StopEndpointCommand,
    SetTRDequeuePointerCommand,
    ResetDeviceCommand,
    ForceHeaderCommand,
    NoOpCommandTrb,
    GetExtendedPropertyCommand,
    SetExtendedPropertyCommand,
    TransferEvent,
    CommandCompletionEvent,
    PortStatusChangeEvent,
    HostControllerEvent,
    DeviceNotificationEvent,
    MFindexWrapEvent,
}

/// Whether `n` is the type code of a TRB.
pub open spec fn is_trb_id(n: u32) -> bool {
    n == 1 || n == 2 || n == 3 || n == 4 || n == 5 || n == 6 || n == 7 || n == 8 || n == 9 || n == 10 || n == 11 || n == 12 || n == 13 || n == 14 || n == 15 || n == 16 || n == 17 || n == 22 || n == 23 || n == 24 || n == 25 || n == 32 || n == 33 || n == 34 || n == 37 || n == 38 || n == 39
}

impl XhciTrbId {
    /// The type code.
    pub open spec fn id_spec(self) -> u32 {
        match self {
            XhciTrbId::Normal => 1,
            XhciTrbId::Setup => 2,
            XhciTrbId::Data => 3,
            XhciTrbId::Status => 4,
            XhciTrbId::Isoch => 5,
            XhciTrbId::Link => 6,
            XhciTrbId::EventData => 7,
            XhciTrbId::NoOp => 8,
            XhciTrbId::EnableSlotCommand => 9,
            XhciTrbId::DisableSlotCommand => 10,
            XhciTrbId::AddressDeviceCommand => 11,
            XhciTrbId::ConfigureEndpointCommand => 12,
            XhciTrbId::EvaluateContextCommand => 13,
            XhciTrbId::ResetEndpointCommand => 14,
            XhciTrbId::StopEndpointCommand => 15,
            XhciTrbId::SetTRDequeuePointerCommand => 16,
            XhciTrbId::ResetDeviceCommand => 17,
            XhciTrbId::ForceHeaderCommand => 22,
            XhciTrbId::NoOpCommandTrb => 23,
            XhciTrbId::GetExtendedPropertyCommand => 24,
            XhciTrbId::SetExtendedPropertyCommand => 25,
            XhciTrbId::TransferEvent => 32,
            XhciTrbId::CommandCompletionEvent => 33,
            XhciTrbId::PortStatusChangeEvent => 34,
            XhciTrbId::HostControllerEvent => 37,
            XhciTrbId::DeviceNotificationEvent => 38,
            XhciTrbId::MFindexWrapEvent => 39,
        }
    }

    /// The type code.
    pub fn id(&self) -> (r: u32)
        ensures
            r == self.id_spec(),
            is_trb_id(r),
    {
        match self {
            XhciTrbId::Normal => 1,
            XhciTrbId::Setup => 2,
            XhciTrbId::Data => 3,
            XhciTrbId::Status => 4,
            XhciTrbId::Isoch => 5,
            XhciTrbId::Link => 6,
            XhciTrbId::EventData => 7,
            XhciTrbId::NoOp => 8,
            XhciTrbId::EnableSlotCommand => 9,
            XhciTrbId::DisableSlotCommand => 10,
            XhciTrbId::AddressDeviceCommand => 11,
            XhciTrbId::ConfigureEndpointCommand => 12,
            XhciTrbId::EvaluateContextCommand => 13,
            XhciTrbId::ResetEndpointCommand => 14,
            XhciTrbId::StopEndpointCommand => 15,
            XhciTrbId::SetTRDequeuePointerCommand => 16,
            XhciTrbId::ResetDeviceCommand => 17,
            XhciTrbId::ForceHeaderCommand => 22,
            XhciTrbId::NoOpCommandTrb => 23,
            XhciTrbId::GetExtendedPropertyCommand => 24,
            XhciTrbId::SetExtendedPropertyCommand => 25,
            XhciTrbId::TransferEvent => 32,
            XhciTrbId::CommandCompletionEvent => 33,
            XhciTrbId::PortStatusChangeEvent => 34,
            XhciTrbId::HostControllerEvent => 37,
            XhciTrbId::DeviceNotificationEvent => 38,
            XhciTrbId::MFindexWrapEvent => 39,
        }
    }

    /// The TRB type with code `n`; every code names exactly one type.
    pub fn from_u32(n: u32) -> (r: Self)
        requires
            is_trb_id(n),
        ensures
            r.id_spec() == n,
            forall|t: XhciTrbId| t.id_spec() == n ==> t == r,
    {
        match n {
            1 => XhciTrbId::Normal,
            2 => XhciTrbId::Setup,
            3 => XhciTrbId::Data,
            4 => XhciTrbId::Status,
            5 => XhciTrbId::Isoch,
            6 => XhciTrbId::Link,
            7 => XhciTrbId::EventData,
            8 => XhciTrbId::NoOp,
            9 => XhciTrbId::EnableSlotCommand,
            10 => XhciTrbId::DisableSlotCommand,
            11 => XhciTrbId::AddressDeviceCommand,
            12 => XhciTrbId::ConfigureEndpointCommand,
            13 => XhciTrbId::EvaluateContextCommand,
            14 => XhciTrbId::ResetEndpointCommand,
            15 => XhciTrbId::StopEndpointCommand,
            16 => XhciTrbId::SetTRDequeuePointerCommand,
            17 => XhciTrbId::ResetDeviceCommand,
            22 => XhciTrbId::ForceHeaderCommand,
            23 => XhciTrbId::NoOpCommandTrb,
            24 => XhciTrbId::GetExtendedPropertyCommand,
            25 => XhciTrbId::SetExtendedPropertyCommand,
            32 => XhciTrbId::TransferEvent,
            33 => XhciTrbId::CommandCompletionEvent,
            34 => XhciTrbId::PortStatusChangeEvent,
            37 => XhciTrbId::HostControllerEvent,
            38 => XhciTrbId::DeviceNotificationEvent,
            39 => XhciTrbId::MFindexWrapEvent,
            _ => XhciTrbId::MFindexWrapEvent,
        }
    }
}

/// Reading a type code back gives the type: `from_u32(t.id()) == t`.
pub proof fn lemma_trb_id_roundtrip(t: XhciTrbId)
    ensures
        is_trb_id(t.id_spec()),
        forall|u: XhciTrbId| u.id_spec() == t.id_spec() ==> u == t,
{
}

/// The header of an extended capability in the controller's register space.
#[derive(Clone, Copy)]
pub struct XhciExtendedCapability {
    pub capability_id: u8,
    pub next_ptr: u8,
    pub capability_specific: u16,
}

/// One protocol speed ID word of a supported-protocol capability.
#[derive(Clone, Copy)]
pub struct XhciProtocolDefinition {
    pub dword0: u32,
}

/// Fields of a protocol speed ID word.
#[derive(Clone, Copy)]
pub enum XhciProtocolDefinitionPart {
    /// Protocol Speed ID Value
    Psiv,
    /// Protocol Speed ID Exponent
    Psie,
    /// PSI Type
    Plt,
    /// Link Protocol
    Lp,
    /// Protocol Speed ID Mantissa
    Psim,
}

impl XhciProtocolDefinitionPart {
    /// First bit and mask of the field.
    pub open spec fn layout_spec(self) -> (u32, u32) {
        match self {
            XhciProtocolDefinitionPart::Psiv => (0, 0xf),
            XhciProtocolDefinitionPart::Psie => (4, 0x3),
            XhciProtocolDefinitionPart::Plt => (6, 0x3),
            XhciProtocolDefinitionPart::Lp => (14, 0x3),
            XhciProtocolDefinitionPart::Psim => (16, 0xffff),
        }
    }

    /// First bit and mask of the field.
    pub fn layout(&self) -> (r: (u32, u32))
        ensures
            r.0 == self.layout_spec().0,
            r.1 == self.layout_spec().1,
            r.0 < 32,
    {
        match self {
            XhciProtocolDefinitionPart::Psiv => (0, 0xf),
            XhciProtocolDefinitionPart::Psie => (4, 0x3),
            XhciProtocolDefinitionPart::Plt => (6, 0x3),
            XhciProtocolDefinitionPart::Lp => (14, 0x3),
            XhciProtocolDefinitionPart::Psim => (16, 0xffff),
        }
    }
}

impl XhciProtocolDefinition {
    /// A field of the word.
    pub fn get(&self, what_to_get: XhciProtocolDefinitionPart) -> (r: u32)
        ensures
            r == field32(self.dword0, what_to_get.layout_spec().0, what_to_get.layout_spec().1),
    {
        let (s, m) = what_to_get.layout();
        read_field32(self.dword0, s, m)
    }

    /// PSI Full-duplex, bit 8.
    pub fn pfd(&self) -> (r: bool)
        ensures
            r == bit32(self.dword0, 8),
    {
        test_bit32(self.dword0, 8)
    }
}

/// A command for the controller's command ring.
#[allow(inconsistent_fields)]
#[derive(Clone, Copy)]
pub enum XhciCommand {
    NoOp,
    EnableSlot { slot_type: u8 },
    DisableSlot { slot_id: u8 },
    /// `bsr`: Block Set Address Request.
    AddressDevice { slot_id: u8, input_context_address: u64, bsr: bool },
    /// `dc`: Deconfigure.
    ConfigureEndpoint { slot_id: u8, input_context_address: u64, dc: bool },
    EvaluateContext { slot_id: u8, input_context_address: u64 },
    /// `tsp`: Transfer State Preserve.
    ResetEndpoint { slot_id: u8, endpoint_id: u8, tsp: bool },
    /// `sp`: suspend.
    StopEndpoint { slot_id: u8, endpoint_id: u8, sp: bool },
    /// `dcs`: Dequeue Cycle State; `sct`: Stream Context Type.
    SetTRDequeuePointer {
        slot_id: u8,
        endpoint_id: u8,
        stream_id: u16,
        new_tr_dequeue_pointer_address: u64,
        dcs: bool,
        sct: bool,
    },
    ResetDevice { slot_id: bool },
    GetPortBandwidth { hub_slot_id: u8, dev_speed: u8, port_bandwidth_context_address: u64 },
    /// `header_info_lo` starts at bit 0, not bit 4.
    ForceHeader {
        packet_type: u8,
        root_hub_port_number: u8,
        header_info_lo: u32,
        header_info_mid: u32,
        header_info_hi: u32,
    },
    GetExtendedProperty {
        slot_id: u8,
        endpoint_id: u8,
        sub_type: u8,
        extended_capability_identifier: u16,
        extended_property_context_address: u64,
    },
    SetExtendedProperty {
        slot_id: u8,
        endpoint_id: u8,
        sub_type: u8,
        capability_parameter: u8,
        extended_capability_parameter: u16,
    },
}

/// A TRB as laid out in memory at `address`.
#[derive(Clone, Copy)]
pub struct RawXhciTrb {
    pub address: u64,
    pub dwords: [u32; 4],
}

impl RawXhciTrb {
    /// Where the TRB lies, as an address to read it through.
    pub fn as_ptr(&self) -> (r: u64)
        ensures
            r == self.address,
    {
        self.address
    }

    /// Physical address of the TRB.
    pub fn address(&self) -> (r: u64)
        ensures
            r == self.address,
    {
        self.address
    }
}

/// The 64-bit value of a low and a high word.
pub open spec fn words_to_u64(lo: u32, hi: u32) -> u64 {
    (lo as u64) | ((hi as u64) << 32u64)
}

/// Multi-bit fields of a link TRB.
#[derive(Clone, Copy)]
pub enum XhciLinkTrbPart {
    InterrupterTarget,
    TrbType,
}

impl XhciLinkTrbPart {
    /// Word index, first bit and mask of the field.
    pub open spec fn layout_spec(self) -> (int, u32, u32) {
        match self {
            XhciLinkTrbPart::InterrupterTarget => (2, 22, 0x3ff),
            XhciLinkTrbPart::TrbType => (3, 10, 0x3f),
        }
    }

    /// Word index, first bit and mask of the field.
    pub fn layout(&self) -> (r: (usize, u32, u32))
        ensures
            r.0 == self.layout_spec().0,
            r.1 == self.layout_spec().1,
            r.2 == self.layout_spec().2,
            r.1 < 32,
            r.0 <= 3,
    {
        match self {
            XhciLinkTrbPart::InterrupterTarget => (2, 22, 0x3ff),
            XhciLinkTrbPart::TrbType => (3, 10, 0x3f),
        }
    }
}

/// Single bits of a link TRB.
#[derive(Clone, Copy)]
pub enum XhciLinkTrbBitPart {
    /// Interrupt On Completion
    Ioc,
    /// Chain bit
    Ch,
    /// Toggle Cycle
    Tc,
    /// Cycle
    C,
}

impl XhciLinkTrbBitPart {
    /// Word index and position of the bit.
    pub open spec fn layout_spec(self) -> (int, u32) {
        match self {
            XhciLinkTrbBitPart::Ioc => (3, 5),
            XhciLinkTrbBitPart::Ch => (3, 4),
            XhciLinkTrbBitPart::Tc => (3, 1),
            XhciLinkTrbBitPart::C => (3, 0),
        }
    }

    /// Word index and position of the bit.
    pub fn layout(&self) -> (r: (usize, u32))
        ensures
            r.0 == self.layout_spec().0,
            r.1 == self.layout_spec().1,
            r.1 < 32,
            r.0 <= 3,
    {
        match self {
            XhciLinkTrbBitPart::Ioc => (3, 5),
            XhciLinkTrbBitPart::Ch => (3, 4),
            XhciLinkTrbBitPart::Tc => (3, 1),
            XhciLinkTrbBitPart::C => (3, 0),
        }
    }
}

/// A link TRB: points the ring at its next segment.
#[derive(Clone, Copy)]
pub struct XhciLinkTrb {
    pub address: u64,
    pub dwords: [u32; 4],
}

impl XhciLinkTrb {
    /// The link TRB at `address` whose memory holds `dwords`.
    pub fn from(address: u64, dwords: [u32; 4]) -> (r: Self)
        ensures
            r.address == address,
            r.dwords@ == dwords@,
    {
        XhciLinkTrb { address, dwords }
    }

    /// Clears all four words.
    pub fn zero_out(&mut self)
        ensures
            final(self).address == old(self).address,
            final(self).dwords@ == seq![0u32, 0u32, 0u32, 0u32],
    {
        self.dwords = [0u32; 4];
        assert(self.dwords@ =~= seq![0u32, 0u32, 0u32, 0u32]);
    }

    /// Physical address of the TRB.
    pub fn address(&self) -> (r: u64)
        ensures
            r == self.address,
    {
        self.address
    }

    /// Whether a single bit is set.
    pub fn is_set(&self, bit_part: XhciLinkTrbBitPart) -> (r: bool)
        ensures
            r == bit32(self.dwords@[bit_part.layout_spec().0], bit_part.layout_spec().1),
    {
        let (i, b) = bit_part.layout();
        test_bit32(self.dwords[i], b)
    }

    /// Writes a single bit.
    pub fn set(&mut self, bit_part: XhciLinkTrbBitPart, val: bool)
        ensures
            final(self).address == old(self).address,
            final(self).dwords@ == old(self).dwords@.update(
                bit_part.layout_spec().0,
                with_bit32(old(self).dwords@[bit_part.layout_spec().0], bit_part.layout_spec().1, val),
            ),
    {
        let (i, b) = bit_part.layout();
        let w = write_bit32(self.dwords[i], b, val);
        self.dwords[i] = w;
    }

    /// Reads a multi-bit field.
    pub fn get_part(&self, part: XhciLinkTrbPart) -> (r: u32)
        ensures
            r == field32(
                self.dwords@[part.layout_spec().0],
                part.layout_spec().1,
                part.layout_spec().2,
            ),
    {
        let (i, s, m) = part.layout();
        read_field32(self.dwords[i], s, m)
    }

    /// Writes a multi-bit field with the low bits of `val`.
    pub fn set_part(&mut self, part: XhciLinkTrbPart, val: u32)
        ensures
            final(self).address == old(self).address,
            final(self).dwords@ == old(self).dwords@.update(
                part.layout_spec().0,
                with_field32(
                    old(self).dwords@[part.layout_spec().0],
                    part.layout_spec().1,
                    part.layout_spec().2,
                    val,
                ),
            ),
    {
        let (i, s, m) = part.layout();
        let w = write_field32(self.dwords[i], s, m, val);
        self.dwords[i] = w;
    }

    /// Points the link at the segment at `addr`, whose four low bits are dropped.
    pub fn set_ring_segment_pointer(&mut self, addr: u64)
        ensures
            final(self).address == old(self).address,
            final(self).dwords@ == old(self).dwords@.update(
                0,
                ((addr & !0xFu64) & 0xFFFF_FFFFu64) as u32,
            ).update(1, ((addr & !0xFu64) >> 32u64) as u32),
            words_to_u64(final(self).dwords@[0], final(self).dwords@[1]) == addr & !0xFu64,
    {
        let a = addr & !0xFu64;
        self.dwords[0] = (a & 0xFFFF_FFFF) as u32;
        self.dwords[1] = (a >> 32) as u32;
        proof {
            lemma_split_join(a);
        }
    }

    /// The address of the next segment.
    pub fn ring_segment_pointer(&self) -> (r: u64)
        ensures
            r == words_to_u64(self.dwords@[0], self.dwords@[1]),
    {
        (self.dwords[0] as u64) | ((self.dwords[1] as u64) << 32)
    }
}

/// Cutting a 64-bit value into its low and high words and joining them gives it back.
pub proof fn lemma_split_join(a: u64)
    ensures
        words_to_u64((a & 0xFFFF_FFFFu64) as u32, (a >> 32u64) as u32) == a,
{
    assert((((a & 0xFFFF_FFFFu64) as u32) as u64) | ((((a >> 32u64) as u32) as u64) << 32u64) == a)
        by (bit_vector);
}


/// Fields of a command completion event.
#[derive(Clone, Copy)]
pub enum XhciCommandCompletionEventTrbPart {
    CompletionCode,
    SlotId,
    VfId,
    TrbType,
}

impl XhciCommandCompletionEventTrbPart {
    /// Word index, first bit and mask of the field.
    pub open spec fn layout_spec(self) -> (int, u32, u32) {
        match self {
            XhciCommandCompletionEventTrbPart::CompletionCode => (2, 24, 0xff),
            XhciCommandCompletionEventTrbPart::SlotId => (3, 24, 0xff),
            XhciCommandCompletionEventTrbPart::VfId => (3, 16, 0xff),
            XhciCommandCompletionEventTrbPart::TrbType => (3, 10, 0x3f),
        }
    }

    /// Word index, first bit and mask of the field.
    pub fn layout(&self) -> (r: (usize, u32, u32))
        ensures
            r.0 == self.layout_spec().0,
            r.1 == self.layout_spec().1,
            r.2 == self.layout_spec().2,
            r.1 < 32,
            r.0 <= 3,
    {
        match self {
            XhciCommandCompletionEventTrbPart::CompletionCode => (2, 24, 0xff),
            XhciCommandCompletionEventTrbPart::SlotId => (3, 24, 0xff),
            XhciCommandCompletionEventTrbPart::VfId => (3, 16, 0xff),
            XhciCommandCompletionEventTrbPart::TrbType => (3, 10, 0x3f),
        }
    }
}

/// A command completion event: the controller's answer to a command.
#[derive(Clone, Copy)]
pub struct XhciCommandCompletionEventTrb {
    pub address: u64,
    pub dwords: [u32; 4],
}

impl XhciCommandCompletionEventTrb {
    /// The event at `address` whose memory holds `dwords`.
    pub fn from(address: u64, dwords: [u32; 4]) -> (r: Self)
        ensures
            r.address == address,
            r.dwords@ == dwords@,
    {
        XhciCommandCompletionEventTrb { address, dwords }
    }

    /// Clears all four words.
    pub fn zero_out(&mut self)
        ensures
            final(self).address == old(self).address,
            final(self).dwords@ == seq![0u32, 0u32, 0u32, 0u32],
    {
        self.dwords = [0u32; 4];
        assert(self.dwords@ =~= seq![0u32, 0u32, 0u32, 0u32]);
    }

    /// Physical address of the event.
    pub fn address(&self) -> (r: u64)
        ensures
            r == self.address,
    {
        self.address
    }

    /// The cycle bit, bit 0 of the last word.
    pub fn cycle(&self) -> (r: bool)
        ensures
            r == bit32(self.dwords@[3], 0),
    {
        test_bit32(self.dwords[3], 0)
    }

    /// Reads a multi-bit field.
    pub fn get_part(&self, part: XhciCommandCompletionEventTrbPart) -> (r: u32)
        ensures
            r == field32(
                self.dwords@[part.layout_spec().0],
                part.layout_spec().1,
                part.layout_spec().2,
            ),
    {
        let (i, s, m) = part.layout();
        read_field32(self.dwords[i], s, m)
    }

    /// Writes a multi-bit field with the low bits of `val`.
    pub fn set_part(&mut self, part: XhciCommandCompletionEventTrbPart, val: u32)
        ensures
            final(self).address == old(self).address,
            final(self).dwords@ == old(self).dwords@.update(
                part.layout_spec().0,
                with_field32(
                    old(self).dwords@[part.layout_spec().0],
                    part.layout_spec().1,
                    part.layout_spec().2,
                    val,
                ),
            ),
    {
        let (i, s, m) = part.layout();
        let w = write_field32(self.dwords[i], s, m, val);
        self.dwords[i] = w;
    }

    /// The first word widened to 64 bits, or-ed with the second word moved
    /// right by 32 bits, which adds nothing: the high half of the command's
    /// address is not read.
    pub fn command_trb_pointer(&self) -> (r: u64)
        ensures
            r == (self.dwords@[0] as u64) | ((self.dwords@[1] as u64) >> 32u64),
    {
        (self.dwords[0] as u64) | ((self.dwords[1] as u64) >> 32)
    }

    /// The 24-bit completion parameter.
    pub fn command_completion_parameter(&self) -> (r: u32)
        ensures
            r == self.dwords@[2] & 0xFF_FFFFu32,
    {
        self.dwords[2] & 0xFF_FFFF
    }
}

/// The setup stage of a control transfer: the eight bytes of the request
/// and two control words.
#[derive(Clone, Copy)]
pub struct XhciSetupStageTrb {
    pub bm_request_type: u8,
    pub b_request: u8,
    pub w_value: u16,
    pub w_index: u16,
    pub w_length: u16,
    pub dword2: u32,
    pub dword3: u32,
}

/// Transfer type of a setup stage: whether a data stage follows, and its direction.
#[derive(Clone, Copy, PartialEq, Eq, Structural, Debug)]
pub enum XhciTransferType {
    NoDataStage,
    OutDataStage,
    InDataStage,
}

impl XhciTransferType {
    /// The code of the transfer type.
    pub open spec fn code_spec(self) -> u32 {
        match self {
            XhciTransferType::NoDataStage => 0,
            XhciTransferType::OutDataStage => 2,
            XhciTransferType::InDataStage => 3,
        }
    }

    /// The code of the transfer type.
    pub fn code(&self) -> (r: u32)
        ensures
            r == self.code_spec(),
    {
        match self {
            XhciTransferType::NoDataStage => 0,
            XhciTransferType::OutDataStage => 2,
            XhciTransferType::InDataStage => 3,
        }
    }
}

/// `w` with bits 10..16, the TRB type, replaced by `id`.
pub open spec fn with_trb_type(w: u32, id: u32) -> u32 {
    (w & !(0x3Fu32 << 10u32)) | (id << 10u32)
}

/// `w` with bits 22..32, the interrupter target, cleared and `target` or-ed in there.
pub open spec fn with_interrupter_target(w: u32, target: u32) -> u32 {
    (w & !(0x3FFu32 << 22u32)) | (target << 22u32)
}

/// `w` with bits 17..22, the TD size, cleared and `size` or-ed in there.
pub open spec fn with_td_size(w: u32, size: u32) -> u32 {
    (w & !(0x1Fu32 << 17u32)) | (size << 17u32)
}

/// `w` with its low 17 bits, the transfer length, replaced by those of `len`.
pub open spec fn with_transfer_length(w: u32, len: u32) -> u32 {
    (w & !0x1FFFFu32) | (len & 0x1FFFFu32)
}

impl XhciSetupStageTrb {
    /// Sets the interrupter target to `val`, moved to bit 22.
    pub fn set_interrupter_target(&mut self, val: u16)
        ensures
            *final(self) == (XhciSetupStageTrb {
                dword2: with_interrupter_target(old(self).dword2, val as u32),
                ..*old(self)
            }),
    {
        self.dword2 = (self.dword2 & !(0x3FFu32 << 22u32)) | ((val as u32) << 22u32);
    }

    /// Sets the transfer length to the eight bytes of a request.
    pub fn set_trb_transfer_length(&mut self)
        ensures
            *final(self) == (XhciSetupStageTrb {
                dword2: (old(self).dword2 & !0x1FFFFu32) | 8u32,
                ..*old(self)
            }),
    {
        self.dword2 = (self.dword2 & !0x1FFFFu32) | 8;
    }

    /// Writes the interrupt-on-completion bit, bit 5.
    pub fn set_ioc(&mut self, val: bool)
        ensures
            *final(self) == (XhciSetupStageTrb { dword3: with_bit32(old(self).dword3, 5, val), ..*old(self) }),
    {
        self.dword3 = write_bit32(self.dword3, 5, val);
    }

    /// Writes the immediate-data bit, bit 6.
    pub fn set_idt(&mut self, val: bool)
        ensures
            *final(self) == (XhciSetupStageTrb { dword3: with_bit32(old(self).dword3, 6, val), ..*old(self) }),
    {
        self.dword3 = write_bit32(self.dword3, 6, val);
    }

    /// Sets the TRB type to setup stage.
    pub fn set_type(&mut self)
        ensures
            *final(self) == (XhciSetupStageTrb {
                dword3: with_trb_type(old(self).dword3, XhciTrbId::Setup.id_spec()),
                ..*old(self)
            }),
    {
        let id = XhciTrbId::Setup.id();
        self.dword3 = (self.dword3 & !(0x3Fu32 << 10u32)) | (id << 10u32);
    }

    /// Sets the transfer type, bits 16..18.
    pub fn set_trt(&mut self, val: XhciTransferType)
        ensures
            *final(self) == (XhciSetupStageTrb {
                dword3: (old(self).dword3 & !(0x3u32 << 16u32)) | (val.code_spec() << 16u32),
                ..*old(self)
            }),
    {
        let code = val.code();
        self.dword3 = (self.dword3 & !(0x3u32 << 16u32)) | (code << 16u32);
    }

    /// Writes the cycle bit, bit 0.
    pub fn set_c(&mut self, val: bool)
        ensures
            *final(self) == (XhciSetupStageTrb { dword3: with_bit32(old(self).dword3, 0, val), ..*old(self) }),
    {
        self.dword3 = write_bit32(self.dword3, 0, val);
    }
}

/// Single bits of the last word of a data stage TRB.
#[derive(Clone, Copy)]
pub enum XhciDataStageTrbBitPart {
    /// Cycle
    C,
    /// Evaluate Next TRB
    Ent,
    /// Interrupt on Short Packet
    Isp,
    /// No Snoop
    Ns,
    /// Chain
    Ch,
    /// Interrupt On Completion
    Ioc,
    /// Immediate Data
    Idt,
    /// Direction
    Dir,
}

impl XhciDataStageTrbBitPart {
    /// Position of the bit in the register.
    pub open spec fn bit_spec(self) -> u32 {
        match self {
            XhciDataStageTrbBitPart::C => 0,
            XhciDataStageTrbBitPart::Ent => 1,
            XhciDataStageTrbBitPart::Isp => 2,
            XhciDataStageTrbBitPart::Ns => 3,
            XhciDataStageTrbBitPart::Ch => 4,
            XhciDataStageTrbBitPart::Ioc => 5,
            XhciDataStageTrbBitPart::Idt => 6,
            XhciDataStageTrbBitPart::Dir => 16,
        }
    }

    /// Position of the bit in the register.
    pub fn bit(&self) -> (r: u32)
        ensures
            r == self.bit_spec(),
            r < 32,
    {
        match self {
            XhciDataStageTrbBitPart::C => 0,
            XhciDataStageTrbBitPart::Ent => 1,
            XhciDataStageTrbBitPart::Isp => 2,
            XhciDataStageTrbBitPart::Ns => 3,
            XhciDataStageTrbBitPart::Ch => 4,
            XhciDataStageTrbBitPart::Ioc => 5,
            XhciDataStageTrbBitPart::Idt => 6,
            XhciDataStageTrbBitPart::Dir => 16,
        }
    }
}

/// The data stage of a control transfer.
#[derive(Clone, Copy)]
pub struct XhciDataStageTrb {
    pub data_buffer: u64,
    pub dword2: u32,
    pub dword3: u32,
}

impl XhciDataStageTrb {
    /// Sets the interrupter target to the low ten bits of `val`.
    pub fn set_interrupter_target(&mut self, val: u16)
        ensures
            *final(self) == (XhciDataStageTrb {
                dword2: with_interrupter_target(old(self).dword2, (val & 0x3FFu16) as u32),
                ..*old(self)
            }),
    {
        self.dword2 = (self.dword2 & !(0x3FFu32 << 22u32)) | (((val & 0x3FF) as u32) << 22u32);
    }

    /// Sets the TD size to the low five bits of `val`.
    pub fn set_td_size(&mut self, val: u8)
        ensures
            *final(self) == (XhciDataStageTrb {
                dword2: with_td_size(old(self).dword2, (val & 0x1Fu8) as u32),
                ..*old(self)
            }),
    {
        self.dword2 = (self.dword2 & !(0x1Fu32 << 17u32)) | (((val & 0x1F) as u32) << 17u32);
    }

    /// Sets the transfer length to the low 17 bits of `val`.
    pub fn trb_transfer_length(&mut self, val: u32)
        ensures
            *final(self) == (XhciDataStageTrb {
                dword2: with_transfer_length(old(self).dword2, val),
                ..*old(self)
            }),
    {
        self.dword2 = (self.dword2 & !0x1FFFFu32) | (val & 0x1FFFF);
    }

    /// Sets the TRB type to data stage.
    pub fn set_type(&mut self)
        ensures
            *final(self) == (XhciDataStageTrb {
                dword3: with_trb_type(old(self).dword3, XhciTrbId::Data.id_spec()),
                ..*old(self)
            }),
    {
        let id = XhciTrbId::Data.id();
        self.dword3 = (self.dword3 & !(0x3Fu32 << 10u32)) | (id << 10u32);
    }

    /// Writes one bit of the last word.
    pub fn set(&mut self, what_to_set: XhciDataStageTrbBitPart, val: bool)
        ensures
            *final(self) == (XhciDataStageTrb {
                dword3: with_bit32(old(self).dword3, what_to_set.bit_spec(), val),
                ..*old(self)
            }),
    {
        self.dword3 = write_bit32(self.dword3, what_to_set.bit(), val);
    }
}

/// Single bits of the last word of a status stage TRB.
#[derive(Clone, Copy)]
pub enum XhciStatusStageTrbBitPart {
    C,
    Ent,
    Ch,
    Ioc,
    Dir,
}

impl XhciStatusStageTrbBitPart {
    /// Position of the bit in the register.
    pub open spec fn bit_spec(self) -> u32 {
        match self {
            XhciStatusStageTrbBitPart::C => 0,
            XhciStatusStageTrbBitPart::Ent => 1,
            XhciStatusStageTrbBitPart::Ch => 4,
            XhciStatusStageTrbBitPart::Ioc => 5,
            XhciStatusStageTrbBitPart::Dir => 16,
        }
    }

    /// Position of the bit in the register.
    pub fn bit(&self) -> (r: u32)
        ensures
            r == self.bit_spec(),
            r < 32,
    {
        match self {
            XhciStatusStageTrbBitPart::C => 0,
            XhciStatusStageTrbBitPart::Ent => 1,
            XhciStatusStageTrbBitPart::Ch => 4,
            XhciStatusStageTrbBitPart::Ioc => 5,
            XhciStatusStageTrbBitPart::Dir => 16,
        }
    }
}

/// The status stage of a control transfer.
#[derive(Clone, Copy)]
pub struct XhciStatusStageTrb {
    pub reserved0: u32,
    pub reserved1: u32,
    pub dword2: u32,
    pub dword3: u32,
}

impl XhciStatusStageTrb {
    /// Sets the interrupter target to `val`, moved to bit 22.
    pub fn set_interrupter_target(&mut self, val: u16)
        ensures
            *final(self) == (XhciStatusStageTrb {
                dword2: with_interrupter_target(old(self).dword2, val as u32),
                ..*old(self)
            }),
    {
        self.dword2 = (self.dword2 & !(0x3FFu32 << 22u32)) | ((val as u32) << 22u32);
    }

    /// Sets the TRB type to status stage.
    pub fn set_type(&mut self)
        ensures
            *final(self) == (XhciStatusStageTrb {
                dword3: with_trb_type(old(self).dword3, XhciTrbId::Status.id_spec()),
                ..*old(self)
            }),
    {
        let id = XhciTrbId::Status.id();
        self.dword3 = (self.dword3 & !(0x3Fu32 << 10u32)) | (id << 10u32);
    }

    /// Writes one bit of the last word.
    pub fn set(&mut self, what_to_set: XhciStatusStageTrbBitPart, val: bool)
        ensures
            *final(self) == (XhciStatusStageTrb {
                dword3: with_bit32(old(self).dword3, what_to_set.bit_spec(), val),
                ..*old(self)
            }),
    {
        self.dword3 = write_bit32(self.dword3, what_to_set.bit(), val);
    }
}

/// Single bits of the last word of a normal TRB.
#[derive(Clone, Copy)]
pub enum XhciNormalTrbBitPart {
    /// Block Event Interrupt
    Bei,
    /// Immediate Data
    Idt,
    /// Interrupt On Completion
    Ioc,
    /// Chain bit
    Ch,
    /// No Snoop
    Ns,
    /// Interrupt-on Short Packet
    Isp,
    /// Evaluate Next TRB
    Ent,
    /// Cycle bit
    C,
}

impl XhciNormalTrbBitPart {
    /// Position of the bit in the register.
    pub open spec fn bit_spec(self) -> u32 {
        match self {
            XhciNormalTrbBitPart::Bei => 9,
            XhciNormalTrbBitPart::Idt => 6,
            XhciNormalTrbBitPart::Ioc => 5,
            XhciNormalTrbBitPart::Ch => 4,
            XhciNormalTrbBitPart::Ns => 3,
            XhciNormalTrbBitPart::Isp => 2,
            XhciNormalTrbBitPart::Ent => 1,
            XhciNormalTrbBitPart::C => 0,
        }
    }

    /// Position of the bit in the register.
    pub fn bit(&self) -> (r: u32)
        ensures
            r == self.bit_spec(),
            r < 32,
    {
        match self {
            XhciNormalTrbBitPart::Bei => 9,
            XhciNormalTrbBitPart::Idt => 6,
            XhciNormalTrbBitPart::Ioc => 5,
            XhciNormalTrbBitPart::Ch => 4,
            XhciNormalTrbBitPart::Ns => 3,
            XhciNormalTrbBitPart::Isp => 2,
            XhciNormalTrbBitPart::Ent => 1,
            XhciNormalTrbBitPart::C => 0,
        }
    }
}

/// A normal TRB: one piece of a bulk or interrupt transfer.
#[derive(Clone, Copy)]
pub struct RawXhciNormalTrb {
    pub data_buffer: u64,
    pub dword2: u32,
    pub dword3: u32,
}

impl RawXhciNormalTrb {
    /// Sets the interrupter target to `val`, moved to bit 22.
    pub fn set_interrupter_target(&mut self, val: u16)
        ensures
            *final(self) == (RawXhciNormalTrb {
                dword2: with_interrupter_target(old(self).dword2, val as u32),
                ..*old(self)
            }),
    {
        self.dword2 = (self.dword2 & !(0x3FFu32 << 22u32)) | ((val as u32) << 22u32);
    }

    /// Sets the TD size to `val`, moved to bit 17.
    pub fn set_td_size(&mut self, val: u8)
        ensures
            *final(self) == (RawXhciNormalTrb {
                dword2: with_td_size(old(self).dword2, val as u32),
                ..*old(self)
            }),
    {
        self.dword2 = (self.dword2 & !(0x1Fu32 << 17u32)) | ((val as u32) << 17u32);
    }

    /// Sets the transfer length to the low 17 bits of `val`.
    pub fn set_trb_transfer_length(&mut self, val: u32)
        ensures
            *final(self) == (RawXhciNormalTrb {
                dword2: with_transfer_length(old(self).dword2, val),
                ..*old(self)
            }),
    {
        self.dword2 = (self.dword2 & !0x1FFFFu32) | (val & 0x1FFFF);
    }

    /// Sets the TRB type to normal.
    pub fn set_type(&mut self)
        ensures
            *final(self) == (RawXhciNormalTrb {
                dword3: with_trb_type(old(self).dword3, XhciTrbId::Normal.id_spec()),
                ..*old(self)
            }),
    {
        let id = XhciTrbId::Normal.id();
        self.dword3 = (self.dword3 & !(0x3Fu32 << 10u32)) | (id << 10u32);
    }

    /// Writes one bit of the last word.
    pub fn set(&mut self, what_to_set: XhciNormalTrbBitPart, val: bool)
        ensures
            *final(self) == (RawXhciNormalTrb {
                dword3: with_bit32(old(self).dword3, what_to_set.bit_spec(), val),
                ..*old(self)
            }),
    {
        self.dword3 = write_bit32(self.dword3, what_to_set.bit(), val);
    }

    /// Whether one bit of the last word is set.
    pub fn is_set(&self, what_to_check: XhciNormalTrbBitPart) -> (r: bool)
        ensures
            r == bit32(self.dword3, what_to_check.bit_spec()),
    {
        test_bit32(self.dword3, what_to_check.bit())
    }
}

/// A transfer event: the controller's report on a transfer TRB.
#[derive(Clone, Copy)]
pub struct XhciTransferEventTrb {
    pub address: u64,
    pub dwords: [u32; 4],
}

impl XhciTransferEventTrb {
    /// The event at `address` whose memory holds `dwords`.
    pub fn from(address: u64, dwords: [u32; 4]) -> (r: Self)
        ensures
            r.address == address,
            r.dwords@ == dwords@,
    {
        XhciTransferEventTrb { address, dwords }
    }

    /// The first word taken as both the low and the high half of the TRB
    /// pointer: the second word is not read.
    pub fn trb_pointer(&self) -> (r: u64)
        ensures
            r == words_to_u64(self.dwords@[0], self.dwords@[0]),
    {
        let lo = self.dwords[0];
        let hi = self.dwords[0];
        (lo as u64) | ((hi as u64) << 32)
    }

    /// The completion code, bits 24..32 of the third word.
    pub fn completion_code(&self) -> (r: u8)
        ensures
            r == ((self.dwords@[2] >> 24u32) & 0xFFu32) as u8,
    {
        ((self.dwords[2] >> 24) & 0xFF) as u8
    }

    /// The slot, bits 24..32 of the last word.
    pub fn slot_id(&self) -> (r: u8)
        ensures
            r == ((self.dwords@[3] >> 24u32) & 0xFFu32) as u8,
    {
        ((self.dwords[3] >> 24) & 0xFF) as u8
    }

    /// The endpoint, bits 16..21 of the last word.
    pub fn endpoint_id(&self) -> (r: u8)
        ensures
            r == ((self.dwords@[3] >> 16u32) & 0x1Fu32) as u8,
    {
        ((self.dwords[3] >> 16) & 0x1F) as u8
    }
}

/// Whether the command ring knows how to place `command`.
pub open spec fn is_supported_command(command: XhciCommand) -> bool {
    match command {
        XhciCommand::NoOp => true,
        XhciCommand::EnableSlot { .. } => true,
        XhciCommand::AddressDevice { .. } => true,
        XhciCommand::EvaluateContext { .. } => true,
        XhciCommand::ConfigureEndpoint { .. } => true,
        XhciCommand::StopEndpoint { .. } => true,
        _ => false,
    }
}

/// The words that place a command on the ring: the first and second word
/// where the command carries an address, and the last word.
#[derive(Clone, Copy, PartialEq, Eq, Structural, Debug)]
pub struct XhciCommandTrbWrites {
    pub dword0: Option<u32>,
    pub dword1: Option<u32>,
    pub dword3: u32,
}

/// One for a set cycle bit, zero otherwise.
pub open spec fn bit_of(b: bool) -> u32 {
    if b { 1u32 } else { 0u32 }
}

/// The words of the TRB of a supported command placed with producer cycle state `pcs`.
pub open spec fn command_writes(command: XhciCommand, pcs: bool) -> XhciCommandTrbWrites {
    match command {
        XhciCommand::EnableSlot { slot_type } => XhciCommandTrbWrites {
            dword0: None,
            dword1: None,
            dword3: bit_of(pcs) | (XhciTrbId::EnableSlotCommand.id_spec() << 10u32) | ((
            slot_type as u32) << 16u32),
        },
        XhciCommand::AddressDevice { slot_id, input_context_address, bsr } => XhciCommandTrbWrites {
            dword0: Some((input_context_address & 0xFFFF_FFFFu64) as u32),
            dword1: Some((input_context_address >> 32u64) as u32),
            dword3: ((slot_id as u32) << 24u32) | (XhciTrbId::AddressDeviceCommand.id_spec()
                << 10u32) | (bit_of(bsr) << 9u32) | bit_of(pcs),
        },
        XhciCommand::EvaluateContext { slot_id, input_context_address } => XhciCommandTrbWrites {
            dword0: Some((input_context_address & 0xFFFF_FFFFu64) as u32),
            dword1: Some((input_context_address >> 32u64) as u32),
            dword3: ((slot_id as u32) << 24u32) | (XhciTrbId::EvaluateContextCommand.id_spec()
                << 10u32) | bit_of(pcs),
        },
        XhciCommand::ConfigureEndpoint { slot_id, input_context_address, dc } => XhciCommandTrbWrites {
            dword0: Some((input_context_address & 0xFFFF_FFFFu64) as u32),
            dword1: Some((input_context_address >> 32u64) as u32),
            dword3: ((slot_id as u32) << 24u32) | (XhciTrbId::ConfigureEndpointCommand.id_spec()
                << 10u32) | (bit_of(dc) << 9u32) | bit_of(pcs),
        },
        XhciCommand::StopEndpoint { slot_id, endpoint_id, sp } => XhciCommandTrbWrites {
            dword0: None,
            dword1: None,
            dword3: ((slot_id as u32) << 24u32) | (bit_of(sp) << 23u32) | ((endpoint_id as u32)
                << 16u32) | (XhciTrbId::StopEndpointCommand.id_spec() << 10u32) | bit_of(pcs),
        },
        _ => XhciCommandTrbWrites {
            dword0: None,
            dword1: None,
            dword3: bit_of(pcs) | (XhciTrbId::NoOpCommandTrb.id_spec() << 10u32),
        },
    }
}

/// The command ring: where the next command goes and the producer cycle state.
pub struct XhciCommandRing {
    pub dequeue_pointer: u64,
    pub enqueue_pointer: u64,
    pub crcr: u64,
    pub doorbell: u64,
    pub pcs: bool,
}

impl XhciCommandRing {
    /// A ring with no memory and no registers.
    pub fn empty() -> (r: Self)
        ensures
            r.dequeue_pointer == 0 && r.enqueue_pointer == 0,
            r.crcr == 0 && r.doorbell == 0,
            r.pcs,
    {
        XhciCommandRing { dequeue_pointer: 0, enqueue_pointer: 0, crcr: 0, doorbell: 0, pcs: true }
    }

    /// The ring that starts at `initial_address`, with the doorbell and
    /// command ring control registers at the given addresses.
    pub fn new(doorbell: u64, crcr: u64, initial_address: u64) -> (r: Self)
        ensures
            r.dequeue_pointer == initial_address && r.enqueue_pointer == initial_address,
            r.crcr == crcr && r.doorbell == doorbell,
            r.pcs,
    {
        XhciCommandRing {
            dequeue_pointer: initial_address,
            enqueue_pointer: initial_address,
            crcr,
            doorbell,
            pcs: true,
        }
    }

    /// Places `command` at the enqueue pointer: gives the words to write
    /// there and moves the enqueue pointer on by one TRB. The caller then
    /// rings the host controller's doorbell (target 0, stream 0).
    pub fn process(&mut self, command: XhciCommand) -> (r: XhciCommandTrbWrites)
        requires
            is_supported_command(command),
            old(self).enqueue_pointer + 16 <= u64::MAX,
        ensures
            r == command_writes(command, old(self).pcs),
            final(self).enqueue_pointer == old(self).enqueue_pointer + 16,
            final(self).dequeue_pointer == old(self).dequeue_pointer,
            final(self).crcr == old(self).crcr,
            final(self).doorbell == old(self).doorbell,
            final(self).pcs == old(self).pcs,
    {
        let c: u32 = if self.pcs { 1 } else { 0 };
        let r = match command {
            XhciCommand::EnableSlot { slot_type } => XhciCommandTrbWrites {
                dword0: None,
                dword1: None,
                dword3: c | (XhciTrbId::EnableSlotCommand.id() << 10u32) | ((slot_type as u32)
                    << 16u32),
            },
            XhciCommand::AddressDevice { slot_id, input_context_address, bsr } => {
                let b: u32 = if bsr { 1 } else { 0 };
                XhciCommandTrbWrites {
                    dword0: Some((input_context_address & 0xFFFF_FFFF) as u32),
                    dword1: Some((input_context_address >> 32) as u32),
                    dword3: ((slot_id as u32) << 24u32) | (XhciTrbId::AddressDeviceCommand.id()
                        << 10u32) | (b << 9u32) | c,
                }
            },
            XhciCommand::EvaluateContext { slot_id, input_context_address } => XhciCommandTrbWrites {
                dword0: Some((input_context_address & 0xFFFF_FFFF) as u32),
                dword1: Some((input_context_address >> 32) as u32),
                dword3: ((slot_id as u32) << 24u32) | (XhciTrbId::EvaluateContextCommand.id()
                    << 10u32) | c,
            },
            XhciCommand::ConfigureEndpoint { slot_id, input_context_address, dc } => {
                let d: u32 = if dc { 1 } else { 0 };
                XhciCommandTrbWrites {
                    dword0: Some((input_context_address & 0xFFFF_FFFF) as u32),
                    dword1: Some((input_context_address >> 32) as u32),
                    dword3: ((slot_id as u32) << 24u32) | (XhciTrbId::ConfigureEndpointCommand.id()
                        << 10u32) | (d << 9u32) | c,
                }
            },
            XhciCommand::StopEndpoint { slot_id, endpoint_id, sp } => {
                let s: u32 = if sp { 1 } else { 0 };
                XhciCommandTrbWrites {
                    dword0: None,
                    dword1: None,
                    dword3: ((slot_id as u32) << 24u32) | (s << 23u32) | ((endpoint_id as u32)
                        << 16u32) | (XhciTrbId::StopEndpointCommand.id() << 10u32) | c,
                }
            },
            _ => XhciCommandTrbWrites {
                dword0: None,
                dword1: None,
                dword3: c | (XhciTrbId::NoOpCommandTrb.id() << 10u32),
            },
        };
        self.enqueue_pointer = self.enqueue_pointer + 16;
        r
    }
}

} // verus!
