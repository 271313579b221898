//! xHCI input, slot and endpoint contexts: the 32-byte records through
//! which software tells the controller how a device and its endpoints are set up.
use vstd::prelude::*;
use crate::bits::{bit32, field32, read_field32, test_bit32, with_bit32, with_field32, write_bit32, write_field32};

verus! {

/// The input control context: which contexts to drop and add, and the
/// configuration they belong to.
#[derive(Clone, Copy)]
pub struct XhciInputContextConfigurationPart32 {
    pub d_line: u32,
    pub a_line: u32,
    pub reserved: [u32; 5],
    pub configuration_value: u8,
    pub interface_number: u8,
    pub alternate_setting: u8,
    pub reserved5: u8,
}

/// The words of a context after one field was written.
pub open spec fn ctx_field_written(w: Seq<u32>, layout: (int, u32, u32), val: u32) -> Seq<u32> {
    w.update(layout.0, with_field32(w[layout.0], layout.1, layout.2, val))
}

/// The words of a context after one bit was written.
pub open spec fn ctx_bit_written(w: Seq<u32>, layout: (int, u32), val: bool) -> Seq<u32> {
    w.update(layout.0, with_bit32(w[layout.0], layout.1, val))
}

/// Multi-bit fields of a slot context.
#[derive(Clone, Copy)]
pub enum XhciSlotContext32Part {
    Speed,
    ContextEntries,
    RootHubPortNumber,
    MaxExitLatency,
    NumberOfPorts,
    /// Parent Hub Slot Id
    TTHubSlotId,
    /// Parent Port Number
    TTPortNumber,
    /// TT Think Time
    TTT,
    InterrupterTarget,
    UsbDeviceAddress,
    SlotState,
}

impl XhciSlotContext32Part {
    /// Word index, first bit and mask of the field.
    pub open spec fn layout_spec(self) -> (int, u32, u32) {
        match self {
            XhciSlotContext32Part::Speed => (0, 20, 0xf),
            XhciSlotContext32Part::ContextEntries => (0, 27, 0x1f),
            XhciSlotContext32Part::RootHubPortNumber => (1, 16, 0xff),
            XhciSlotContext32Part::MaxExitLatency => (1, 0, 0xffff),
            XhciSlotContext32Part::NumberOfPorts => (1, 24, 0xff),
            XhciSlotContext32Part::TTHubSlotId => (2, 0, 0xff),
            XhciSlotContext32Part::TTPortNumber => (2, 8, 0xff),
            XhciSlotContext32Part::TTT => (2, 16, 0x3),
            XhciSlotContext32Part::InterrupterTarget => (2, 22, 0x7ff),
            XhciSlotContext32Part::UsbDeviceAddress => (3, 0, 0xff),
            XhciSlotContext32Part::SlotState => (3, 27, 0x1f),
        }
    }

    /// Word index, first bit and mask of the field.
    pub fn layout(&self) -> (r: (usize, u32, u32))
        ensures
            r.0 == self.layout_spec().0,
            r.1 == self.layout_spec().1,
            r.2 == self.layout_spec().2,
            r.1 < 32,
            r.0 <= 3,
    {
        match self {
            XhciSlotContext32Part::Speed => (0, 20, 0xf),
            XhciSlotContext32Part::ContextEntries => (0, 27, 0x1f),
            XhciSlotContext32Part::RootHubPortNumber => (1, 16, 0xff),
            XhciSlotContext32Part::MaxExitLatency => (1, 0, 0xffff),
            XhciSlotContext32Part::NumberOfPorts => (1, 24, 0xff),
            XhciSlotContext32Part::TTHubSlotId => (2, 0, 0xff),
            XhciSlotContext32Part::TTPortNumber => (2, 8, 0xff),
            XhciSlotContext32Part::TTT => (2, 16, 0x3),
            XhciSlotContext32Part::InterrupterTarget => (2, 22, 0x7ff),
            XhciSlotContext32Part::UsbDeviceAddress => (3, 0, 0xff),
            XhciSlotContext32Part::SlotState => (3, 27, 0x1f),
        }
    }
}

/// Single bits of a slot context.
#[derive(Clone, Copy)]
pub enum XhciSlotContext32BitPart {
    /// Multi-TT
    Mtt,
    Hub,
}

impl XhciSlotContext32BitPart {
    /// Word index and position of the bit.
    pub open spec fn layout_spec(self) -> (int, u32) {
        match self {
            XhciSlotContext32BitPart::Mtt => (0, 25),
            XhciSlotContext32BitPart::Hub => (0, 26),
        }
    }

    /// Word index and position of the bit.
    pub fn layout(&self) -> (r: (usize, u32))
        ensures
            r.0 == self.layout_spec().0,
            r.1 == self.layout_spec().1,
            r.1 < 32,
            r.0 <= 0,
    {
        match self {
            XhciSlotContext32BitPart::Mtt => (0, 25),
            XhciSlotContext32BitPart::Hub => (0, 26),
        }
    }
}

/// The words of a slot context after its route string was written.
pub open spec fn route_string_written(w: Seq<u32>, route_string: u32) -> Seq<u32> {
    w.update(0, (w[0] & !0xFFFFFu32) | (route_string & 0xFFFFFu32))
}

/// The words of a slot context prepared for an Address Device command.
pub open spec fn slot_initialized(
    w: Seq<u32>,
    route_string: u32,
    port_speed: u8,
    root_hub_port: u8,
    tt_hub_slot_id: u8,
    tt_port_number: u8,
    interrupter_target: u16,
) -> Seq<u32> {
    let w0 = route_string_written(w, route_string);
    let w1 = ctx_field_written(w0, XhciSlotContext32Part::Speed.layout_spec(), port_speed as u32);
    let w2 = ctx_field_written(w1, XhciSlotContext32Part::ContextEntries.layout_spec(), 1);
    let w3 = ctx_field_written(w2, XhciSlotContext32Part::MaxExitLatency.layout_spec(), 0);
    let w4 = ctx_field_written(
        w3,
        XhciSlotContext32Part::RootHubPortNumber.layout_spec(),
        root_hub_port as u32,
    );
    let w5 = ctx_field_written(w4, XhciSlotContext32Part::NumberOfPorts.layout_spec(), 0);
    let w6 = ctx_field_written(
        w5,
        XhciSlotContext32Part::TTHubSlotId.layout_spec(),
        tt_hub_slot_id as u32,
    );
    let w7 = ctx_field_written(
        w6,
        XhciSlotContext32Part::TTPortNumber.layout_spec(),
        tt_port_number as u32,
    );
    let w8 = ctx_field_written(w7, XhciSlotContext32Part::TTT.layout_spec(), 0);
    let w9 = ctx_field_written(
        w8,
        XhciSlotContext32Part::InterrupterTarget.layout_spec(),
        interrupter_target as u32,
    );
    let w10 = ctx_field_written(w9, XhciSlotContext32Part::UsbDeviceAddress.layout_spec(), 0);
    ctx_field_written(w10, XhciSlotContext32Part::SlotState.layout_spec(), 0)
}

/// A slot context: eight words describing a device.
#[derive(Clone, Copy)]
pub struct XhciSlotContext32 {
    pub dwords: [u32; 8],
}

impl XhciSlotContext32 {
    /// Prepares the context for an Address Device command: route string,
    /// speed, one context entry, root hub port, parent hub and port, the
    /// interrupter, and zero for everything else.
    pub fn initialize_for_address_device(
        &mut self,
        route_string: u32,
        port_speed: u8,
        root_hub_port: u8,
        tt_hub_slot_id: u8,
        tt_port_number: u8,
        interrupter_target: u16,
    )
        ensures
            final(self).dwords@ == slot_initialized(
                old(self).dwords@,
                route_string,
                port_speed,
                root_hub_port,
                tt_hub_slot_id,
                tt_port_number,
                interrupter_target,
            ),
    {
        self.set_route_string(route_string);
        self.set_part(XhciSlotContext32Part::Speed, port_speed as u32);
        self.set_part(XhciSlotContext32Part::ContextEntries, 1);
        self.set_part(XhciSlotContext32Part::MaxExitLatency, 0);
        self.set_part(XhciSlotContext32Part::RootHubPortNumber, root_hub_port as u32);
        self.set_part(XhciSlotContext32Part::NumberOfPorts, 0);
        self.set_part(XhciSlotContext32Part::TTHubSlotId, tt_hub_slot_id as u32);
        self.set_part(XhciSlotContext32Part::TTPortNumber, tt_port_number as u32);
        self.set_part(XhciSlotContext32Part::TTT, 0);
        self.set_part(XhciSlotContext32Part::InterrupterTarget, interrupter_target as u32);
        self.set_part(XhciSlotContext32Part::UsbDeviceAddress, 0);
        self.set_part(XhciSlotContext32Part::SlotState, 0);
    }

    /// Whether a single bit is set.
    pub fn is_set(&self, bit_part: XhciSlotContext32BitPart) -> (r: bool)
        ensures
            r == bit32(self.dwords@[bit_part.layout_spec().0], bit_part.layout_spec().1),
    {
        let (i, b) = bit_part.layout();
        test_bit32(self.dwords[i], b)
    }

    /// Writes a single bit.
    pub fn set(&mut self, bit_part: XhciSlotContext32BitPart, val: bool)
        ensures
            final(self).dwords@ == old(self).dwords@.update(
                bit_part.layout_spec().0,
                with_bit32(old(self).dwords@[bit_part.layout_spec().0], bit_part.layout_spec().1, val),
            ),
    {
        let (i, b) = bit_part.layout();
        let w = write_bit32(self.dwords[i], b, val);
        self.dwords[i] = w;
    }

    /// Reads a multi-bit field.
    pub fn get_part(&self, part: XhciSlotContext32Part) -> (r: u32)
        ensures
            r == field32(
                self.dwords@[part.layout_spec().0],
                part.layout_spec().1,
                part.layout_spec().2,
            ),
    {
        let (i, s, m) = part.layout();
        read_field32(self.dwords[i], s, m)
    }

    /// Writes a multi-bit field with the low bits of `val`.
    pub fn set_part(&mut self, part: XhciSlotContext32Part, val: u32)
        ensures
            final(self).dwords@ == old(self).dwords@.update(
                part.layout_spec().0,
                with_field32(
                    old(self).dwords@[part.layout_spec().0],
                    part.layout_spec().1,
                    part.layout_spec().2,
                    val,
                ),
            ),
    {
        let (i, s, m) = part.layout();
        let w = write_field32(self.dwords[i], s, m, val);
        self.dwords[i] = w;
    }

    /// Replaces the route string, the low 20 bits of the first word.
    pub fn set_route_string(&mut self, route_string: u32)
        ensures
            final(self).dwords@ == route_string_written(old(self).dwords@, route_string),
    {
        let prev = self.dwords[0] & !0xFFFFFu32;
        self.dwords[0] = prev | (route_string & 0xFFFFF);
    }

    /// The route string, the low 20 bits of the first word.
    pub fn get_route_string(&self) -> (r: u32)
        ensures
            r == self.dwords@[0] & 0xFFFFFu32,
    {
        self.dwords[0] & 0xFFFFF
    }
}

/// The route string read after a write is the low 20 bits of what was written.
pub proof fn lemma_route_string_roundtrip(w: Seq<u32>, route_string: u32)
    requires
        w.len() == 8,
    ensures
        route_string_written(w, route_string)[0] & 0xFFFFFu32 == route_string & 0xFFFFFu32,
{
    let x = w[0];
    assert(((x & !0xFFFFFu32) | (route_string & 0xFFFFFu32)) & 0xFFFFFu32 == route_string
        & 0xFFFFFu32) by (bit_vector);
}

/// Multi-bit fields of an endpoint context.
#[derive(Clone, Copy)]
pub enum XhciEndpointContext32Part {
    /// Endpoint State
    EpState,
    Mult,
    /// Max Primary Streams
    MaxPStreams,
    Interval,
    /// Error Count
    CErr,
    /// Endpoint Type
    EpType,
    MaxBurstSize,
    MaxPacketSize,
    AverageTrbLength,
}

impl XhciEndpointContext32Part {
    /// Word index, first bit and mask of the field.
    pub open spec fn layout_spec(self) -> (int, u32, u32) {
        match self {
            XhciEndpointContext32Part::EpState => (0, 0, 0x7),
            XhciEndpointContext32Part::Mult => (0, 8, 0x3),
            XhciEndpointContext32Part::MaxPStreams => (0, 10, 0x1f),
            XhciEndpointContext32Part::Interval => (0, 16, 0xff),
            XhciEndpointContext32Part::CErr => (1, 1, 0x3),
            XhciEndpointContext32Part::EpType => (1, 3, 0x7),
            XhciEndpointContext32Part::MaxBurstSize => (1, 8, 0xff),
            XhciEndpointContext32Part::MaxPacketSize => (1, 16, 0xffff),
            XhciEndpointContext32Part::AverageTrbLength => (4, 0, 0xffff),
        }
    }

    /// Word index, first bit and mask of the field.
    pub fn layout(&self) -> (r: (usize, u32, u32))
        ensures
            r.0 == self.layout_spec().0,
            r.1 == self.layout_spec().1,
            r.2 == self.layout_spec().2,
            r.1 < 32,
            r.0 <= 4,
    {
        match self {
            XhciEndpointContext32Part::EpState => (0, 0, 0x7),
            XhciEndpointContext32Part::Mult => (0, 8, 0x3),
            XhciEndpointContext32Part::MaxPStreams => (0, 10, 0x1f),
            XhciEndpointContext32Part::Interval => (0, 16, 0xff),
            XhciEndpointContext32Part::CErr => (1, 1, 0x3),
            XhciEndpointContext32Part::EpType => (1, 3, 0x7),
            XhciEndpointContext32Part::MaxBurstSize => (1, 8, 0xff),
            XhciEndpointContext32Part::MaxPacketSize => (1, 16, 0xffff),
            XhciEndpointContext32Part::AverageTrbLength => (4, 0, 0xffff),
        }
    }
}

/// Single bits of an endpoint context.
#[derive(Clone, Copy)]
pub enum XhciEndpointContext32BitPart {
    /// Linear Stream Array
    Lsa,
    /// Host Initiate Disable
    Hid,
    /// Dequeue Cycle State
    Dcs,
}

impl XhciEndpointContext32BitPart {
    /// Word index and position of the bit.
    pub open spec fn layout_spec(self) -> (int, u32) {
        match self {
            XhciEndpointContext32BitPart::Lsa => (0, 15),
            XhciEndpointContext32BitPart::Hid => (1, 7),
            XhciEndpointContext32BitPart::Dcs => (2, 0),
        }
    }

    /// Word index and position of the bit.
    pub fn layout(&self) -> (r: (usize, u32))
        ensures
            r.0 == self.layout_spec().0,
            r.1 == self.layout_spec().1,
            r.1 < 32,
            r.0 <= 2,
    {
        match self {
            XhciEndpointContext32BitPart::Lsa => (0, 15),
            XhciEndpointContext32BitPart::Hid => (1, 7),
            XhciEndpointContext32BitPart::Dcs => (2, 0),
        }
    }
}

/// The words of an endpoint context after the ESIT payload was written.
pub open spec fn esit_written(w: Seq<u32>, payload: u32) -> Seq<u32> {
    w.update(0, (w[0] & !(0xFFu32 << 24u32)) | ((payload >> 16u32) << 24u32)).update(
        4,
        (w[4] & !(0xFFFFu32 << 16u32)) | ((payload & 0xFFFFu32) << 16u32),
    )
}

/// The ESIT payload held in two words of an endpoint context.
pub open spec fn esit_of(w: Seq<u32>) -> u32 {
    (w[4] >> 16u32) | ((w[0] >> 24u32) << 16u32)
}

/// The words of an endpoint context after the dequeue pointer was written.
pub open spec fn dequeue_written(w: Seq<u32>, pointer: u64) -> Seq<u32> {
    w.update(2, (w[2] & 1u32) | ((pointer & 0xFFFF_FFFFu64) as u32)).update(
        3,
        (pointer >> 32u64) as u32,
    )
}

/// The dequeue pointer held in two words of an endpoint context.
pub open spec fn dequeue_of(w: Seq<u32>) -> u64 {
    ((w[2] & !1u32) as u64) | ((w[3] as u64) << 32u64)
}

/// The words of an endpoint context prepared for an Address Device command.
pub open spec fn endpoint_initialized(
    w: Seq<u32>,
    ep_type: u8,
    max_packet_size: u16,
    tr_dequeue_pointer: u64,
    average_trb_length: u16,
) -> Seq<u32> {
    let w1 = ctx_field_written(w, XhciEndpointContext32Part::EpState.layout_spec(), 0);
    let w2 = ctx_field_written(w1, XhciEndpointContext32Part::Mult.layout_spec(), 0);
    let w3 = ctx_field_written(w2, XhciEndpointContext32Part::MaxPStreams.layout_spec(), 0);
    let w4 = ctx_bit_written(w3, XhciEndpointContext32BitPart::Lsa.layout_spec(), false);
    let w5 = ctx_field_written(w4, XhciEndpointContext32Part::Interval.layout_spec(), 0);
    let w6 = esit_written(w5, 0);
    let w7 = ctx_field_written(w6, XhciEndpointContext32Part::CErr.layout_spec(), 3);
    let w8 = ctx_field_written(w7, XhciEndpointContext32Part::EpType.layout_spec(), ep_type as u32);
    let w9 = ctx_bit_written(w8, XhciEndpointContext32BitPart::Hid.layout_spec(), true);
    let w10 = ctx_field_written(w9, XhciEndpointContext32Part::MaxBurstSize.layout_spec(), 0);
    let w11 = ctx_field_written(
        w10,
        XhciEndpointContext32Part::MaxPacketSize.layout_spec(),
        max_packet_size as u32,
    );
    let w12 = ctx_bit_written(w11, XhciEndpointContext32BitPart::Dcs.layout_spec(), true);
    let w13 = dequeue_written(w12, tr_dequeue_pointer);
    ctx_field_written(
        w13,
        XhciEndpointContext32Part::AverageTrbLength.layout_spec(),
        average_trb_length as u32,
    )
}

/// An endpoint context: eight words describing one endpoint of a device.
#[derive(Clone, Copy)]
pub struct XhciEndpointContext32 {
    pub dwords: [u32; 8],
}

impl XhciEndpointContext32 {
    /// Prepares the context for an Address Device command: running state,
    /// no streams, an error count of three, the endpoint type, host-initiated
    /// disable, the packet size, dequeue cycle state one, the ring's dequeue
    /// pointer and the average TRB length.
    pub fn initialize_for_address_device(
        &mut self,
        ep_type: u8,
        max_packet_size: u16,
        tr_dequeue_pointer: u64,
        average_trb_length: u16,
    )
        ensures
            final(self).dwords@ == endpoint_initialized(
                old(self).dwords@,
                ep_type,
                max_packet_size,
                tr_dequeue_pointer,
                average_trb_length,
            ),
    {
        self.set_part(XhciEndpointContext32Part::EpState, 0);
        self.set_part(XhciEndpointContext32Part::Mult, 0);
        self.set_part(XhciEndpointContext32Part::MaxPStreams, 0);
        self.set(XhciEndpointContext32BitPart::Lsa, false);
        self.set_part(XhciEndpointContext32Part::Interval, 0);
        self.set_max_esit_payload(0);
        self.set_part(XhciEndpointContext32Part::CErr, 3);
        self.set_part(XhciEndpointContext32Part::EpType, ep_type as u32);
        self.set(XhciEndpointContext32BitPart::Hid, true);
        self.set_part(XhciEndpointContext32Part::MaxBurstSize, 0);
        self.set_part(XhciEndpointContext32Part::MaxPacketSize, max_packet_size as u32);
        self.set(XhciEndpointContext32BitPart::Dcs, true);
        self.set_tr_dequeue_pointer(tr_dequeue_pointer);
        self.set_part(XhciEndpointContext32Part::AverageTrbLength, average_trb_length as u32);
    }

    /// Whether a single bit is set.
    pub fn is_set(&self, bit_part: XhciEndpointContext32BitPart) -> (r: bool)
        ensures
            r == bit32(self.dwords@[bit_part.layout_spec().0], bit_part.layout_spec().1),
    {
        let (i, b) = bit_part.layout();
        test_bit32(self.dwords[i], b)
    }

    /// Writes a single bit.
    pub fn set(&mut self, bit_part: XhciEndpointContext32BitPart, val: bool)
        ensures
            final(self).dwords@ == old(self).dwords@.update(
                bit_part.layout_spec().0,
                with_bit32(old(self).dwords@[bit_part.layout_spec().0], bit_part.layout_spec().1, val),
            ),
    {
        let (i, b) = bit_part.layout();
        let w = write_bit32(self.dwords[i], b, val);
        self.dwords[i] = w;
    }

    /// Reads a multi-bit field.
    pub fn get_part(&self, part: XhciEndpointContext32Part) -> (r: u32)
        ensures
            r == field32(
                self.dwords@[part.layout_spec().0],
                part.layout_spec().1,
                part.layout_spec().2,
            ),
    {
        let (i, s, m) = part.layout();
        read_field32(self.dwords[i], s, m)
    }

    /// Writes a multi-bit field with the low bits of `val`.
    pub fn set_part(&mut self, part: XhciEndpointContext32Part, val: u32)
        ensures
            final(self).dwords@ == old(self).dwords@.update(
                part.layout_spec().0,
                with_field32(
                    old(self).dwords@[part.layout_spec().0],
                    part.layout_spec().1,
                    part.layout_spec().2,
                    val,
                ),
            ),
    {
        let (i, s, m) = part.layout();
        let w = write_field32(self.dwords[i], s, m, val);
        self.dwords[i] = w;
    }

    /// Writes the Max Endpoint Service Time Interval payload: its high bits
    /// to the top byte of the first word, its low 16 bits to the top half of
    /// the fifth word.
    pub fn set_max_esit_payload(&mut self, payload: u32)
        ensures
            final(self).dwords@ == esit_written(old(self).dwords@, payload),
    {
        let hi = payload >> 16;
        let lo = payload & 0xFFFF;
        let prev0 = self.dwords[0] & !(0xFFu32 << 24u32);
        let prev4 = self.dwords[4] & !(0xFFFFu32 << 16u32);
        self.dwords[0] = prev0 | (hi << 24);
        self.dwords[4] = prev4 | (lo << 16);
    }

    /// The Max Endpoint Service Time Interval payload.
    pub fn get_esit_payload(&self) -> (r: u32)
        ensures
            r == esit_of(self.dwords@),
    {
        let hi = self.dwords[0] >> 24;
        let lo = self.dwords[4] >> 16;
        lo | (hi << 16)
    }

    /// Writes the dequeue pointer of the endpoint's ring, keeping the dequeue cycle state.
    pub fn set_tr_dequeue_pointer(&mut self, pointer: u64)
        ensures
            final(self).dwords@ == dequeue_written(old(self).dwords@, pointer),
    {
        let prev = self.dwords[2] & 1;
        self.dwords[2] = prev | ((pointer & 0xFFFF_FFFF) as u32);
        self.dwords[3] = (pointer >> 32) as u32;
    }

    /// The dequeue pointer of the endpoint's ring, without the dequeue cycle state.
    pub fn get_tr_dequeue_pointer(&self) -> (r: u64)
        ensures
            r == dequeue_of(self.dwords@),
    {
        let lo = self.dwords[2] & !1u32;
        (lo as u64) | ((self.dwords[3] as u64) << 32)
    }
}

/// A payload of at most 24 bits reads back as written.
pub proof fn lemma_esit_roundtrip(w: Seq<u32>, payload: u32)
    requires
        w.len() == 8,
        payload < 0x100_0000,
    ensures
        esit_of(esit_written(w, payload)) == payload,
{
    let a = w[0];
    let b = w[4];
    assert((((b & !(0xFFFFu32 << 16u32)) | ((payload & 0xFFFFu32) << 16u32)) >> 16u32) | ((((a & !(
    0xFFu32 << 24u32)) | ((payload >> 16u32) << 24u32)) >> 24u32) << 16u32) == payload)
        by (bit_vector)
        requires
            payload < 0x100_0000,
    ;
}

/// An even dequeue pointer reads back as written, and the dequeue cycle state stays.
pub proof fn lemma_dequeue_roundtrip(w: Seq<u32>, pointer: u64)
    requires
        w.len() == 8,
        pointer & 1u64 == 0,
    ensures
        dequeue_of(dequeue_written(w, pointer)) == pointer,
        dequeue_written(w, pointer)[2] & 1u32 == w[2] & 1u32,
{
    let c = w[2];
    assert(((((c & 1u32) | ((pointer & 0xFFFF_FFFFu64) as u32)) & !1u32) as u64) | ((((pointer
        >> 32u64) as u32) as u64) << 32u64) == pointer) by (bit_vector)
        requires
            pointer & 1u64 == 0,
    ;
    assert(((c & 1u32) | ((pointer & 0xFFFF_FFFFu64) as u32)) & 1u32 == c & 1u32) by (bit_vector)
        requires
            pointer & 1u64 == 0,
    ;
}

/// The input context of an Address Device or Configure Endpoint command.
pub struct XhciInputContext32 {
    pub input_context_configuration: XhciInputContextConfigurationPart32,
    pub slot_context: XhciSlotContext32,
    pub default_control_endpoint: XhciEndpointContext32,
    pub endpoints: [XhciEndpointContext32; 30],
}

/// Writing one field of a slot context leaves every field and every bit
/// that does not meet it as it was, and the route string too unless the
/// field lies in it.
pub proof fn lemma_slot_set_part_frame(c: XhciSlotContext32, after: XhciSlotContext32, p: XhciSlotContext32Part, val: u32)
    requires
        c.dwords@.len() == 8,
        after.dwords@ == c.dwords@.update(
            p.layout_spec().0,
            with_field32(c.dwords@[p.layout_spec().0], p.layout_spec().1, p.layout_spec().2, val),
        ),
    ensures
        forall|q: XhciSlotContext32Part|
            q.layout_spec().0 != p.layout_spec().0 || (p.layout_spec().2 << p.layout_spec().1) & (q.layout_spec().2
                << q.layout_spec().1) == 0 ==> #[trigger] field32(
                after.dwords@[q.layout_spec().0],
                q.layout_spec().1,
                q.layout_spec().2,
            ) == field32(c.dwords@[q.layout_spec().0], q.layout_spec().1, q.layout_spec().2),
        forall|b: XhciSlotContext32BitPart|
            b.layout_spec().0 != p.layout_spec().0 || (p.layout_spec().2 << p.layout_spec().1) & (1u32
                << b.layout_spec().1) == 0 ==> #[trigger] bit32(after.dwords@[b.layout_spec().0], b.layout_spec().1)
                == bit32(c.dwords@[b.layout_spec().0], b.layout_spec().1),
        p.layout_spec().0 != 0 || (p.layout_spec().2 << p.layout_spec().1) & 0xFFFFFu32 == 0 ==> after.dwords@[0]
            & 0xFFFFFu32 == c.dwords@[0] & 0xFFFFFu32,
{
    let (i, sh, m) = p.layout_spec();
    let v = c.dwords@[i];
    assert forall|q: XhciSlotContext32Part|
        q.layout_spec().0 != i || (m << sh) & (q.layout_spec().2 << q.layout_spec().1) == 0 implies #[trigger] field32(
            after.dwords@[q.layout_spec().0],
            q.layout_spec().1,
            q.layout_spec().2,
        ) == field32(c.dwords@[q.layout_spec().0], q.layout_spec().1, q.layout_spec().2) by {
        if q.layout_spec().0 == i {
            crate::bits::lemma_field32_write_frame(v, sh, m, val, 0, q.layout_spec().1, q.layout_spec().2, 0, 0);
        }
    }
    assert forall|b: XhciSlotContext32BitPart|
        b.layout_spec().0 != i || (m << sh) & (1u32 << b.layout_spec().1) == 0 implies #[trigger] bit32(
            after.dwords@[b.layout_spec().0],
            b.layout_spec().1,
        ) == bit32(c.dwords@[b.layout_spec().0], b.layout_spec().1) by {
        if b.layout_spec().0 == i {
            crate::bits::lemma_field32_write_frame(v, sh, m, val, 0, 0, 0, b.layout_spec().1, 0);
        }
    }
    if i == 0 {
        crate::bits::lemma_field32_write_frame(v, sh, m, val, 0xFFFFFu32, 0, 0, 0, 0);
    }
}

/// Writing one field of an endpoint context leaves every field and every
/// bit that does not meet it as it was, and the ESIT payload and the
/// dequeue pointer too unless the field lies in them.
pub proof fn lemma_endpoint_set_part_frame(
    c: XhciEndpointContext32,
    after: XhciEndpointContext32,
    p: XhciEndpointContext32Part,
    val: u32,
)
    requires
        c.dwords@.len() == 8,
        after.dwords@ == c.dwords@.update(
            p.layout_spec().0,
            with_field32(c.dwords@[p.layout_spec().0], p.layout_spec().1, p.layout_spec().2, val),
        ),
    ensures
        forall|q: XhciEndpointContext32Part|
            q.layout_spec().0 != p.layout_spec().0 || (p.layout_spec().2 << p.layout_spec().1) & (q.layout_spec().2
                << q.layout_spec().1) == 0 ==> #[trigger] field32(
                after.dwords@[q.layout_spec().0],
                q.layout_spec().1,
                q.layout_spec().2,
            ) == field32(c.dwords@[q.layout_spec().0], q.layout_spec().1, q.layout_spec().2),
        forall|b: XhciEndpointContext32BitPart|
            b.layout_spec().0 != p.layout_spec().0 || (p.layout_spec().2 << p.layout_spec().1) & (1u32
                << b.layout_spec().1) == 0 ==> #[trigger] bit32(after.dwords@[b.layout_spec().0], b.layout_spec().1)
                == bit32(c.dwords@[b.layout_spec().0], b.layout_spec().1),
        (p.layout_spec().0 != 0 || (p.layout_spec().2 << p.layout_spec().1) & (0xFFFF_FFFFu32 << 24u32) == 0) && (
        p.layout_spec().0 != 4 || (p.layout_spec().2 << p.layout_spec().1) & (0xFFFF_FFFFu32 << 16u32) == 0)
            ==> esit_of(after.dwords@) == esit_of(c.dwords@),
        (p.layout_spec().0 != 2 || (p.layout_spec().2 << p.layout_spec().1) & !1u32 == 0) && p.layout_spec().0 != 3
            ==> dequeue_of(after.dwords@) == dequeue_of(c.dwords@),
{
    let (i, sh, m) = p.layout_spec();
    let v = c.dwords@[i];
    assert forall|q: XhciEndpointContext32Part|
        q.layout_spec().0 != i || (m << sh) & (q.layout_spec().2 << q.layout_spec().1) == 0 implies #[trigger] field32(
            after.dwords@[q.layout_spec().0],
            q.layout_spec().1,
            q.layout_spec().2,
        ) == field32(c.dwords@[q.layout_spec().0], q.layout_spec().1, q.layout_spec().2) by {
        if q.layout_spec().0 == i {
            crate::bits::lemma_field32_write_frame(v, sh, m, val, 0, q.layout_spec().1, q.layout_spec().2, 0, 0);
        }
    }
    assert forall|b: XhciEndpointContext32BitPart|
        b.layout_spec().0 != i || (m << sh) & (1u32 << b.layout_spec().1) == 0 implies #[trigger] bit32(
            after.dwords@[b.layout_spec().0],
            b.layout_spec().1,
        ) == bit32(c.dwords@[b.layout_spec().0], b.layout_spec().1) by {
        if b.layout_spec().0 == i {
            crate::bits::lemma_field32_write_frame(v, sh, m, val, 0, 0, 0, b.layout_spec().1, 0);
        }
    }
    if i == 0 {
        crate::bits::lemma_field32_write_frame(v, sh, m, val, 0, 0, 0, 0, 24);
    }
    if i == 4 {
        crate::bits::lemma_field32_write_frame(v, sh, m, val, 0, 0, 0, 0, 16);
    }
    if i == 2 {
        crate::bits::lemma_field32_write_frame(v, sh, m, val, !1u32, 0, 0, 0, 0);
    }
}

} // verus!
