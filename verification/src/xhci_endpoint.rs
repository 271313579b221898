//! Endpoints of an xHCI device: the descriptor a device reports for an
//! endpoint, the endpoint context that sets the endpoint up, the transfer
//! ring of an interrupt or bulk endpoint, and the walk of a ring's enqueue
//! pointer.
use vstd::prelude::*;
use crate::bits::{bit32, field32, lemma_field32_bound};
use crate::uhci::UsbTransferType;
use crate::xhci_context::{
    ctx_bit_written, ctx_field_written, dequeue_written, esit_written, XhciEndpointContext32,
    XhciEndpointContext32BitPart, XhciEndpointContext32Part,
};
use crate::xhci_controller::{Direction, UsbProtocol};
use crate::xhci_registers::XhciDoorbell;
use crate::xhci_trb::{
    with_interrupter_target, with_td_size, with_transfer_length, with_trb_type, words_to_u64,
    RawXhciNormalTrb, XhciLinkTrb, XhciLinkTrbBitPart, XhciLinkTrbPart, XhciNormalTrbBitPart,
    XhciTransferEventTrb, XhciTrbId,
};
use crate::bits::{with_bit32, with_field32};

verus! {

/// The endpoint descriptor of the USB standard, as a device reports it.
#[derive(Clone, Copy, PartialEq, Eq, Structural, Debug)]
pub struct UsbEndpointDescriptor {
    pub b_length: u8,
    pub b_descriptor_type: u8,
    pub b_endpoint_address: u8,
    pub bm_attributes: u8,
    pub w_max_packet_size: u16,
    pub b_interval: u8,
}

/// Which transfer ring serves an endpoint: none yet, one set up but not
/// polled, or one in use; each named by the address of its endpoint.
#[derive(Clone, Copy, PartialEq, Eq, Structural, Debug)]
pub enum XhciEndpointDescriptorRealEndpoint {
    Unassigned,
    Closed(u64),
    Open(u64),
}

/// What the controller keeps of an endpoint descriptor.
#[derive(Clone, Copy, PartialEq, Eq, Structural, Debug)]
pub struct XhciEndpointDescriptor {
    pub bm_attributes: u8,
    pub endpoint_address: u8,
    pub interval: u8,
    pub max_packet_size: u16,
    pub superspeed_max_burst: u8,
    pub superspeed_bm_attributes: u8,
    pub endpoint: XhciEndpointDescriptorRealEndpoint,
}

/// The transfer type in the low two bits of an endpoint's attributes.
pub open spec fn transfer_type_of(bm_attributes: u8) -> UsbTransferType {
    let t = bm_attributes & 3u8;
    if t == 0 {
        UsbTransferType::Control
    } else if t == 1 {
        UsbTransferType::Isochronous
    } else if t == 2 {
        UsbTransferType::Bulk
    } else {
        UsbTransferType::Interrupt
    }
}

/// The direction in the top bit of an endpoint address.
pub open spec fn direction_of(endpoint_address: u8) -> Direction {
    if endpoint_address >> 7u8 == 0 {
        Direction::Out
    } else {
        Direction::In
    }
}

impl XhciEndpointDescriptor {
    /// The descriptor of a device's endpoint, with no transfer ring yet and
    /// no SuperSpeed companion values.
    pub fn from_descriptor(endpoint_descriptor: &UsbEndpointDescriptor) -> (r: Self)
        ensures
            r == (XhciEndpointDescriptor {
                bm_attributes: endpoint_descriptor.bm_attributes,
                endpoint_address: endpoint_descriptor.b_endpoint_address,
                interval: endpoint_descriptor.b_interval,
                max_packet_size: endpoint_descriptor.w_max_packet_size,
                superspeed_max_burst: 0,
                superspeed_bm_attributes: 0,
                endpoint: XhciEndpointDescriptorRealEndpoint::Unassigned,
            }),
    {
        XhciEndpointDescriptor {
            bm_attributes: endpoint_descriptor.bm_attributes,
            endpoint_address: endpoint_descriptor.b_endpoint_address,
            interval: endpoint_descriptor.b_interval,
            max_packet_size: endpoint_descriptor.w_max_packet_size,
            superspeed_max_burst: 0,
            superspeed_bm_attributes: 0,
            endpoint: XhciEndpointDescriptorRealEndpoint::Unassigned,
        }
    }

    /// The endpoint number, the low four bits of the address.
    pub fn endpoint_number(&self) -> (r: u8)
        ensures
            r == self.endpoint_address & 0xFu8,
    {
        self.endpoint_address & 0xF
    }

    /// The direction of the endpoint.
    pub fn get_direction(&self) -> (r: Direction)
        ensures
            r == direction_of(self.endpoint_address),
    {
        if self.endpoint_address >> 7 == 0 {
            Direction::Out
        } else {
            Direction::In
        }
    }

    pub fn get_maximum_packet_size(&self) -> (r: u16)
        ensures
            r == self.max_packet_size,
    {
        self.max_packet_size
    }

    /// The transfer type of the endpoint.
    pub fn get_transfer_type(&self) -> (r: UsbTransferType)
        ensures
            r == transfer_type_of(self.bm_attributes),
    {
        let t = self.bm_attributes & 3;
        if t == 0 {
            UsbTransferType::Control
        } else if t == 1 {
            UsbTransferType::Isochronous
        } else if t == 2 {
            UsbTransferType::Bulk
        } else {
            UsbTransferType::Interrupt
        }
    }
}

/// The device context index of endpoint `number`: two more than the number
/// for an IN endpoint, one more otherwise.
pub fn endpoint_dci(number: u8, direction: Direction) -> (r: u8)
    requires
        number < 0xF0,
    ensures
        r == number + if direction == Direction::In {
            2int
        } else {
            1int
        },
{
    match direction {
        Direction::In => number + 2,
        _ => number + 1,
    }
}

/// The endpoint type code of a transfer type and direction, none for a
/// control endpoint or an endpoint without a direction.
pub open spec fn ep_type_code(t: UsbTransferType, d: Direction) -> Option<u32> {
    match (t, d) {
        (UsbTransferType::Isochronous, Direction::Out) => Some(1u32),
        (UsbTransferType::Bulk, Direction::Out) => Some(2u32),
        (UsbTransferType::Interrupt, Direction::Out) => Some(3u32),
        (UsbTransferType::Isochronous, Direction::In) => Some(5u32),
        (UsbTransferType::Bulk, Direction::In) => Some(6u32),
        (UsbTransferType::Interrupt, Direction::In) => Some(7u32),
        _ => None,
    }
}

/// A SuperSpeed protocol.
pub open spec fn is_superspeed(p: UsbProtocol) -> bool {
    p == UsbProtocol::Usb3 || p == UsbProtocol::Usb3_1 || p == UsbProtocol::Usb3_2
}

/// A field of context words.
pub open spec fn ctx_field(w: Seq<u32>, layout: (int, u32, u32)) -> u32 {
    field32(w[layout.0], layout.1, layout.2)
}

/// The words of an endpoint context after the mult, burst and stream
/// fields were set for `protocol`: a SuperSpeed endpoint takes its burst,
/// an isochronous one its mult and no streams, a bulk one its streams; other
/// protocols have none of them.
pub open spec fn burst_configured(w: Seq<u32>, protocol: UsbProtocol, e: XhciEndpointDescriptor) -> Seq<u32> {
    let tt = transfer_type_of(e.bm_attributes);
    if is_superspeed(protocol) {
        let a = ctx_field_written(
            w,
            XhciEndpointContext32Part::MaxBurstSize.layout_spec(),
            e.superspeed_max_burst as u32,
        );
        if tt == UsbTransferType::Isochronous {
            ctx_field_written(
                ctx_field_written(
                    a,
                    XhciEndpointContext32Part::Mult.layout_spec(),
                    e.superspeed_bm_attributes as u32 & 3,
                ),
                XhciEndpointContext32Part::MaxPStreams.layout_spec(),
                0,
            )
        } else {
            let b = if tt == UsbTransferType::Bulk {
                ctx_field_written(
                    a,
                    XhciEndpointContext32Part::MaxPStreams.layout_spec(),
                    e.superspeed_bm_attributes as u32 & 0x1F,
                )
            } else {
                a
            };
            ctx_field_written(b, XhciEndpointContext32Part::Mult.layout_spec(), 0)
        }
    } else {
        ctx_field_written(
            ctx_field_written(
                ctx_field_written(w, XhciEndpointContext32Part::Mult.layout_spec(), 0),
                XhciEndpointContext32Part::MaxBurstSize.layout_spec(),
                0,
            ),
            XhciEndpointContext32Part::MaxPStreams.layout_spec(),
            0,
        )
    }
}

/// The words of an endpoint context set up to run endpoint `e` of a device
/// that speaks `protocol`, with its transfer ring at `ring`: running state,
/// burst and streams, no linear stream array, the interval, the service
/// interval payload (none for bulk, else packet size times mult times
/// burst), three retries, the endpoint type, no host-initiated disable, the
/// packet size, dequeue cycle state one, the ring, and the average TRB
/// length (half a packet for bulk, a packet else).
pub open spec fn endpoint_configured(
    w: Seq<u32>,
    protocol: UsbProtocol,
    e: XhciEndpointDescriptor,
    ring: u64,
) -> Seq<u32> {
    let tt = transfer_type_of(e.bm_attributes);
    let mps = e.max_packet_size as u32;
    let w1 = ctx_field_written(w, XhciEndpointContext32Part::EpState.layout_spec(), 3);
    let w2 = burst_configured(w1, protocol, e);
    let w3 = ctx_bit_written(w2, XhciEndpointContext32BitPart::Lsa.layout_spec(), false);
    let w4 = ctx_field_written(w3, XhciEndpointContext32Part::Interval.layout_spec(), e.interval as u32);
    let payload = if tt == UsbTransferType::Bulk {
        0u32
    } else {
        (mps * (ctx_field(w4, XhciEndpointContext32Part::Mult.layout_spec()) + 1) * (ctx_field(
            w4,
            XhciEndpointContext32Part::MaxBurstSize.layout_spec(),
        ) + 1)) as u32
    };
    let w5 = esit_written(w4, payload);
    let w6 = ctx_field_written(w5, XhciEndpointContext32Part::CErr.layout_spec(), 3);
    let w7 = ctx_field_written(
        w6,
        XhciEndpointContext32Part::EpType.layout_spec(),
        ep_type_code(tt, direction_of(e.endpoint_address))->0,
    );
    let w8 = ctx_bit_written(w7, XhciEndpointContext32BitPart::Hid.layout_spec(), false);
    let w9 = ctx_field_written(w8, XhciEndpointContext32Part::MaxPacketSize.layout_spec(), mps);
    let w10 = ctx_bit_written(w9, XhciEndpointContext32BitPart::Dcs.layout_spec(), true);
    let w11 = dequeue_written(w10, ring);
    ctx_field_written(
        w11,
        XhciEndpointContext32Part::AverageTrbLength.layout_spec(),
        if tt == UsbTransferType::Bulk {
            mps / 2
        } else {
            mps
        },
    )
}

/// Sets up the context of endpoint `e` of a device that speaks `protocol`,
/// with its transfer ring at `ring`. A control endpoint has no endpoint
/// type here, and bulk streams on SuperSpeed are not handled.
pub fn configure_endpoint_context(
    desc: &mut XhciEndpointContext32,
    protocol: UsbProtocol,
    e: &XhciEndpointDescriptor,
    ring: u64,
)
    requires
        ep_type_code(transfer_type_of(e.bm_attributes), direction_of(e.endpoint_address)) is Some,
        is_superspeed(protocol) && transfer_type_of(e.bm_attributes) == UsbTransferType::Bulk
            ==> e.superspeed_bm_attributes & 0x1F == 0,
    ensures
        final(desc).dwords@ == endpoint_configured(old(desc).dwords@, protocol, *e, ring),
{
    let tt = e.get_transfer_type();
    let mps = e.get_maximum_packet_size() as u32;
    desc.set_part(XhciEndpointContext32Part::EpState, 3);
    match protocol {
        UsbProtocol::Usb3 | UsbProtocol::Usb3_1 | UsbProtocol::Usb3_2 => {
            desc.set_part(XhciEndpointContext32Part::MaxBurstSize, e.superspeed_max_burst as u32);
            if tt == UsbTransferType::Isochronous {
                desc.set_part(XhciEndpointContext32Part::Mult, e.superspeed_bm_attributes as u32 & 3);
                desc.set_part(XhciEndpointContext32Part::MaxPStreams, 0);
            } else {
                if tt == UsbTransferType::Bulk {
                    desc.set_part(
                        XhciEndpointContext32Part::MaxPStreams,
                        e.superspeed_bm_attributes as u32 & 0x1F,
                    );
                }
                desc.set_part(XhciEndpointContext32Part::Mult, 0);
            }
        },
        UsbProtocol::Usb1 | UsbProtocol::Usb2 => {
            desc.set_part(XhciEndpointContext32Part::Mult, 0);
            desc.set_part(XhciEndpointContext32Part::MaxBurstSize, 0);
            desc.set_part(XhciEndpointContext32Part::MaxPStreams, 0);
        },
    }
    desc.set(XhciEndpointContext32BitPart::Lsa, false);
    desc.set_part(XhciEndpointContext32Part::Interval, e.interval as u32);
    if tt == UsbTransferType::Bulk {
        desc.set_max_esit_payload(0);
    } else {
        let mult = desc.get_part(XhciEndpointContext32Part::Mult);
        let burst = desc.get_part(XhciEndpointContext32Part::MaxBurstSize);
        proof {
            lemma_field32_bound(desc.dwords@[0], 8, 0x3);
            lemma_field32_bound(desc.dwords@[1], 8, 0xff);
            assert(mps * (mult + 1) <= 0xFFFF * 4) by (nonlinear_arith)
                requires
                    mps <= 0xFFFF,
                    mult <= 3,
            ;
            assert(mps * (mult + 1) * (burst + 1) <= 0xFFFF * 4 * 256) by (nonlinear_arith)
                requires
                    mps * (mult + 1) <= 0xFFFF * 4,
                    burst <= 255,
            ;
        }
        desc.set_max_esit_payload(mps * (mult + 1) * (burst + 1));
    }
    desc.set_part(XhciEndpointContext32Part::CErr, 3);
    let dir = e.get_direction();
    let ep_type: u32 = match (tt, dir) {
        (UsbTransferType::Isochronous, Direction::Out) => 1,
        (UsbTransferType::Bulk, Direction::Out) => 2,
        (UsbTransferType::Interrupt, Direction::Out) => 3,
        (UsbTransferType::Isochronous, Direction::In) => 5,
        (UsbTransferType::Bulk, Direction::In) => 6,
        _ => 7,
    };
    desc.set_part(XhciEndpointContext32Part::EpType, ep_type);
    desc.set(XhciEndpointContext32BitPart::Hid, false);
    desc.set_part(XhciEndpointContext32Part::MaxPacketSize, mps);
    desc.set(XhciEndpointContext32BitPart::Dcs, true);
    desc.set_tr_dequeue_pointer(ring);
    if tt == UsbTransferType::Bulk {
        desc.set_part(XhciEndpointContext32Part::AverageTrbLength, mps / 2);
    } else {
        desc.set_part(XhciEndpointContext32Part::AverageTrbLength, mps);
    }
}

/// The last word of each normal TRB of a fresh transfer ring: type normal,
/// interrupt on completion, cycle bit set.
pub const RING_NORMAL_DWORD3: u32 = 0x421;

/// The last word of the link TRB that closes a fresh transfer ring: type
/// link, toggle cycle, cycle bit set.
pub const RING_LINK_DWORD3: u32 = 0x1803;

/// The TRBs of a transfer ring of an interrupt or bulk endpoint at `ring`,
/// made in zeroed memory: seven normal TRBs of one packet each and a link
/// TRB back to the first.
pub fn transfer_ring(ring: u64, max_packet_size: u16) -> (r: (Vec<RawXhciNormalTrb>, XhciLinkTrb))
    requires
        ring + 0x80 <= u64::MAX,
    ensures
        r.0@.len() == 7,
        forall|i: int|
            0 <= i < 7 ==> #[trigger] r.0@[i] == (RawXhciNormalTrb {
                data_buffer: 0,
                dword2: max_packet_size as u32,
                dword3: RING_NORMAL_DWORD3,
            }),
        r.1.address == ring + 0x70,
        r.1.dwords@[2] == 0,
        r.1.dwords@[3] == RING_LINK_DWORD3,
        words_to_u64(r.1.dwords@[0], r.1.dwords@[1]) == ring & !0xFu64,
{
    let mut normals: Vec<RawXhciNormalTrb> = Vec::new();
    let mut i: usize = 0;
    while i < 7
        invariant
            i <= 7,
            normals@.len() == i,
            forall|k: int|
                0 <= k < i ==> #[trigger] normals@[k] == (RawXhciNormalTrb {
                    data_buffer: 0,
                    dword2: max_packet_size as u32,
                    dword3: RING_NORMAL_DWORD3,
                }),
        decreases 7 - i,
    {
        let mut normal = RawXhciNormalTrb { data_buffer: 0, dword2: 0, dword3: 0 };
        normal.data_buffer = 0;
        normal.set_type();
        normal.set(XhciNormalTrbBitPart::Bei, false);
        normal.set(XhciNormalTrbBitPart::Idt, false);
        normal.set(XhciNormalTrbBitPart::Ioc, true);
        normal.set(XhciNormalTrbBitPart::Ch, false);
        normal.set(XhciNormalTrbBitPart::Ns, false);
        normal.set(XhciNormalTrbBitPart::Isp, false);
        normal.set(XhciNormalTrbBitPart::Ent, false);
        normal.set(XhciNormalTrbBitPart::C, true);
        normal.set_interrupter_target(0);
        normal.set_td_size(0);
        normal.set_trb_transfer_length(max_packet_size as u32);
        proof {
            lemma_fresh_ring_words(max_packet_size as u32);
        }
        normals.push(normal);
        i = i + 1;
    }
    let mut link = XhciLinkTrb::from(ring + 0x70, [0u32; 4]);
    link.set_ring_segment_pointer(ring);
    link.set_part(XhciLinkTrbPart::InterrupterTarget, 0);
    link.set_part(XhciLinkTrbPart::TrbType, XhciTrbId::Link.id());
    link.set(XhciLinkTrbBitPart::C, true);
    link.set(XhciLinkTrbBitPart::Ch, false);
    link.set(XhciLinkTrbBitPart::Ioc, false);
    link.set(XhciLinkTrbBitPart::Tc, true);
    proof {
        lemma_fresh_ring_words(max_packet_size as u32);
    }
    (normals, link)
}

/// The words that the setters write into zeroed TRBs of a fresh ring.
proof fn lemma_fresh_ring_words(mps: u32)
    requires
        mps <= 0xFFFF,
    ensures
        with_bit32(with_bit32(with_bit32(with_bit32(with_bit32(with_bit32(with_bit32(with_bit32(
            with_trb_type(0, 1), 9, false), 6, false), 5, true), 4, false), 3, false), 2, false), 1,
            false), 0, true) == RING_NORMAL_DWORD3,
        with_transfer_length(with_td_size(with_interrupter_target(0, 0), 0), mps) == mps,
        with_field32(0, 22, 0x3ff, 0) == 0,
        with_bit32(with_bit32(with_bit32(with_bit32(with_field32(0, 10, 0x3f, 6), 0, true), 4, false),
            5, false), 1, true) == RING_LINK_DWORD3,
{
    assert(with_bit32(with_bit32(with_bit32(with_bit32(with_bit32(with_bit32(with_bit32(with_bit32(
        with_trb_type(0, 1), 9, false), 6, false), 5, true), 4, false), 3, false), 2, false), 1,
        false), 0, true) == 0x421u32 && with_transfer_length(with_td_size(with_interrupter_target(0, 0), 0), mps)
        == mps && with_field32(0, 22, 0x3ff, 0) == 0 && with_bit32(with_bit32(with_bit32(with_bit32(
        with_field32(0, 10, 0x3f, 6), 0, true), 4, false), 5, false), 1, true) == 0x1803u32)
        by (bit_vector)
        requires
            mps <= 0xFFFF,
    ;
}

/// A TRB handed out for a transfer: its address and the cycle bit it must carry.
#[derive(Clone, Copy, PartialEq, Eq, Structural, Debug)]
pub struct RequestedTrb {
    pub trb: u64,
    pub cycle: bool,
}

/// The ring of one endpoint of a device: where the next TRB goes, the
/// endpoint's packet size, number, direction and transfer type, the
/// device's doorbell, and the producer cycle state.
#[derive(Clone, Copy)]
pub struct XhciEndpoint {
    pub enqueue_pointer: u64,
    pub max_packet_size: u16,
    pub endpoint_number: u8,
    pub direction: Direction,
    pub transfer_type: UsbTransferType,
    pub doorbell: XhciDoorbell,
    pub pcs: bool,
}

impl XhciEndpoint {
    /// An endpoint whose ring starts at `enqueue_pointer`, producer cycle
    /// state one.
    pub fn new(
        enqueue_pointer: u64,
        max_packet_size: u16,
        endpoint_number: u8,
        direction: Direction,
        transfer_type: UsbTransferType,
        doorbell: XhciDoorbell,
    ) -> (r: Self)
        ensures
            r.enqueue_pointer == enqueue_pointer,
            r.max_packet_size == max_packet_size,
            r.endpoint_number == endpoint_number,
            r.direction == direction,
            r.transfer_type == transfer_type,
            r.doorbell == doorbell,
            r.pcs,
    {
        XhciEndpoint {
            enqueue_pointer,
            max_packet_size,
            endpoint_number,
            direction,
            transfer_type,
            doorbell,
            pcs: true,
        }
    }

    /// Hands out the next TRB of the ring. `at_enqueue` is the TRB at the
    /// enqueue pointer; when it is a link TRB, it gets the producer cycle
    /// bit, the enqueue pointer follows it, and a link that toggles the
    /// cycle flips the producer cycle state.
    pub fn request_trb(&mut self, at_enqueue: &mut XhciLinkTrb) -> (r: RequestedTrb)
        requires
            field32(old(at_enqueue).dwords@[3], 10, 0x3f) == 6 ==> words_to_u64(
                old(at_enqueue).dwords@[0],
                old(at_enqueue).dwords@[1],
            ) + 16 <= u64::MAX,
            field32(old(at_enqueue).dwords@[3], 10, 0x3f) != 6 ==> old(self).enqueue_pointer + 16
                <= u64::MAX,
        ensures
            ({
                let is_link = field32(old(at_enqueue).dwords@[3], 10, 0x3f) == 6;
                let target = if is_link {
                    words_to_u64(old(at_enqueue).dwords@[0], old(at_enqueue).dwords@[1])
                } else {
                    old(self).enqueue_pointer
                };
                let cycle = if is_link && bit32(old(at_enqueue).dwords@[3], 1) {
                    !old(self).pcs
                } else {
                    old(self).pcs
                };
                &&& r == (RequestedTrb { trb: target, cycle })
                &&& *final(self) == (XhciEndpoint {
                    enqueue_pointer: (target + 16) as u64,
                    pcs: cycle,
                    ..*old(self)
                })
                &&& final(at_enqueue).address == old(at_enqueue).address
                &&& final(at_enqueue).dwords@ == if is_link {
                    old(at_enqueue).dwords@.update(3, with_bit32(old(at_enqueue).dwords@[3], 0, old(self).pcs))
                } else {
                    old(at_enqueue).dwords@
                }
            }),
    {
        let trb_type = at_enqueue.get_part(XhciLinkTrbPart::TrbType);
        if trb_type == XhciTrbId::Link.id() {
            at_enqueue.set(XhciLinkTrbBitPart::C, self.pcs);
            proof {
                crate::bits::lemma_bit32_write_frame(old(at_enqueue).dwords@[3], 0, 1, old(self).pcs);
            }
            self.enqueue_pointer = at_enqueue.ring_segment_pointer();
            if at_enqueue.is_set(XhciLinkTrbBitPart::Tc) {
                self.pcs = !self.pcs;
            }
        }
        let enqueue = self.enqueue_pointer;
        self.enqueue_pointer = self.enqueue_pointer + 16;
        RequestedTrb { trb: enqueue, cycle: self.pcs }
    }

    /// The word to write to the device's doorbell for this endpoint: target
    /// one for the default control endpoint, else the device context index.
    pub fn ring(&self) -> (r: u32)
        requires
            self.endpoint_number < 0xF0,
        ensures
            r == ((if self.endpoint_number == 0 {
                1u8
            } else {
                (self.endpoint_number + if self.direction == Direction::In {
                    2int
                } else {
                    1int
                }) as u8
            }) as u32) | ((0u16 as u32) << 16u32),
    {
        if self.endpoint_number == 0 {
            self.doorbell.ring(1, 0)
        } else {
            match self.direction {
                Direction::In => self.doorbell.ring(self.endpoint_number + 2, 0),
                _ => self.doorbell.ring(self.endpoint_number + 1, 0),
            }
        }
    }

    pub fn endpoint_number(&self) -> (r: u8)
        ensures
            r == self.endpoint_number,
    {
        self.endpoint_number
    }

    pub fn get_direction(&self) -> (r: Direction)
        ensures
            r == self.direction,
    {
        self.direction
    }

    pub fn get_maximum_packet_size(&self) -> (r: u16)
        ensures
            r == self.max_packet_size,
    {
        self.max_packet_size
    }

    pub fn get_transfer_type(&self) -> (r: UsbTransferType)
        ensures
            r == self.transfer_type,
    {
        self.transfer_type
    }

    pub fn update_max_packet_size(&mut self, max_packet_size: u16)
        ensures
            *final(self) == (XhciEndpoint { max_packet_size, ..*old(self) }),
    {
        self.max_packet_size = max_packet_size;
    }
}

/// What an event on the controller's event ring asks for: the waiting
/// command's callback, a signal to the device of a slot whose control
/// transfer completed, or service of the endpoint with a device context
/// index.
#[derive(Clone, Copy, PartialEq, Eq, Structural, Debug)]
pub enum XhciEventAction {
    Callback,
    SignalDevice(u8),
    ServiceEndpoint(u8),
}

/// The action for an event of type `trb_type`; `event` is the event read
/// as a transfer event. Only port status change, command completion and
/// successful transfer events are handled.
pub fn xhci_event_action(trb_type: XhciTrbId, event: &XhciTransferEventTrb) -> (r: XhciEventAction)
    requires
        trb_type == XhciTrbId::PortStatusChangeEvent || trb_type == XhciTrbId::CommandCompletionEvent
            || trb_type == XhciTrbId::TransferEvent,
        trb_type == XhciTrbId::TransferEvent ==> ((event.dwords@[2] >> 24u32) & 0xFFu32) == 1,
    ensures
        r == if trb_type == XhciTrbId::TransferEvent {
            let epid = ((event.dwords@[3] >> 16u32) & 0x1Fu32) as u8;
            if epid == 1 {
                XhciEventAction::SignalDevice(((event.dwords@[3] >> 24u32) & 0xFFu32) as u8)
            } else {
                XhciEventAction::ServiceEndpoint(epid)
            }
        } else {
            XhciEventAction::Callback
        },
{
    match trb_type {
        XhciTrbId::TransferEvent => {
            let epid = event.endpoint_id();
            if epid == 1 {
                XhciEventAction::SignalDevice(event.slot_id())
            } else {
                XhciEventAction::ServiceEndpoint(epid)
            }
        },
        _ => XhciEventAction::Callback,
    }
}

/// After a transfer on an interrupt ring completed: the TRB at `enqueue`
/// is handed back to the controller by flipping its cycle bit, and the
/// enqueue pointer moves on, following the link TRB that comes next.
/// `normal` is the TRB at `enqueue`, `next` the one after it. Gives the new
/// enqueue pointer.
pub fn advance_interrupt_ring(enqueue: u64, normal: &mut RawXhciNormalTrb, next: &mut XhciLinkTrb) -> (r: u64)
    requires
        field32(old(next).dwords@[3], 10, 0x3f) != 6 ==> enqueue + 16 <= u64::MAX,
    ensures
        *final(normal) == (RawXhciNormalTrb {
            dword3: with_bit32(old(normal).dword3, 0, !bit32(old(normal).dword3, 0)),
            ..*old(normal)
        }),
        final(next).address == old(next).address,
        field32(old(next).dwords@[3], 10, 0x3f) == 6 ==> {
            &&& r == words_to_u64(old(next).dwords@[0], old(next).dwords@[1])
            &&& final(next).dwords@ == old(next).dwords@.update(
                3,
                with_bit32(old(next).dwords@[3], 0, !bit32(old(next).dwords@[3], 0)),
            )
        },
        field32(old(next).dwords@[3], 10, 0x3f) != 6 ==> r == enqueue + 16 && final(next).dwords@
            == old(next).dwords@,
{
    let next_type = next.get_part(XhciLinkTrbPart::TrbType);
    if next_type == XhciTrbId::Link.id() {
        let c = normal.is_set(XhciNormalTrbBitPart::C);
        normal.set(XhciNormalTrbBitPart::C, !c);
        let target = next.ring_segment_pointer();
        let lc = next.is_set(XhciLinkTrbBitPart::C);
        next.set(XhciLinkTrbBitPart::C, !lc);
        target
    } else {
        let c = normal.is_set(XhciNormalTrbBitPart::C);
        normal.set(XhciNormalTrbBitPart::C, !c);
        enqueue + 16
    }
}

} // verus!
