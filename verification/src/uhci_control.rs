//! Control transfers on a UHCI control endpoint: the setup, data and
//! status stages written into transfer descriptors, and the queue head
//! pointed at them.
use vstd::prelude::*;
use crate::uhci::{
    td_bit_written, td_part_written, td_refreshed, UhciQueueHead, UhciTransferDescriptor,
    UhciTransferDescriptorBitPart, UhciTransferDescriptorPart, UsbTransferType,
};
use crate::uhci_transfers::{QUEUE_HEAD_CONTROL_SIMPLE, QUEUE_HEAD_WAS_CONTROL, QUEUE_HEAD_WAS_CUSTOM, TD_SIZE};
use crate::bits::{field32, with_bit32};
use crate::xhci_controller::Direction;

verus! {

/// How often, in milliseconds, the frame list visits control endpoints.
pub const CONTROL_ENDPOINT_CALL_TIME: u16 = 16;

/// The words of a descriptor linked to the descriptor at `next`.
pub open spec fn td_linked(w: Seq<u32>, next: u32, vf: bool) -> Seq<u32> {
    w.update(0, ((next >> 4u32) << 4u32) | (if vf { 4u32 } else { 0u32 }))
}

/// The words of a descriptor whose link pointer was replaced by `val`.
pub open spec fn td_link_written(w: Seq<u32>, val: u32) -> Seq<u32> {
    w.update(0, (w[0] & 0xFu32) | (val & !0xFu32))
}

/// The words of a descriptor that now names the device and endpoint.
pub open spec fn td_addressed(w: Seq<u32>, device_address: u32, endpoint_number: u32) -> Seq<u32> {
    td_part_written(
        td_part_written(w, UhciTransferDescriptorPart::DeviceAddress, device_address),
        UhciTransferDescriptorPart::EndPt,
        endpoint_number,
    )
}

/// The words of a descriptor made active.
pub open spec fn td_activated(w: Seq<u32>) -> Seq<u32> {
    td_part_written(w, UhciTransferDescriptorPart::Status, 0x80)
}

/// The setup stage: eight bytes of the request at `request`, linked depth
/// first to `next`.
pub open spec fn setup_stage(w: Seq<u32>, request: u32, next: u32) -> Seq<u32> {
    td_linked(td_refreshed(w, 0, 0x2D, 7, false, false).update(3, request), next, true)
}

/// The packet ID of the data stage of a read (IN) or write (OUT).
pub open spec fn data_pid(is_in: bool) -> u32 {
    if is_in {
        0x69
    } else {
        0xE1
    }
}

/// A status stage: zero bytes, active, interrupt on completion, toggle one.
pub open spec fn status_stage(w: Seq<u32>, is_in: bool) -> Seq<u32> {
    td_refreshed(w, 0x80, data_pid(is_in), 0x7FF, true, true)
}

/// The maximum-length field for `length` bytes: one less, or the null
/// length for none.
pub open spec fn length_field(length: u16) -> u32 {
    if length == 0 {
        0x7FF
    } else {
        (length - 1) as u32
    }
}

/// The mark a control transfer leaves in its queue head's element link.
pub open spec fn control_done_mark(base_offset: u8) -> u32 {
    QUEUE_HEAD_WAS_CONTROL | ((base_offset as u32) << 8u32)
}

/// The mark a control transfer with its own page of descriptors leaves.
pub open spec fn custom_done_mark(base_offset: u8, page_offset: u32) -> u32 {
    QUEUE_HEAD_WAS_CUSTOM | ((base_offset as u32) << 16u32) | (page_offset << 8u32)
}

/// Descriptors a transfer of `length` bytes needs, `max_packet_size` bytes
/// at a time.
pub open spec fn packets_for(length: int, max_packet_size: int) -> int {
    length / max_packet_size + if length % max_packet_size != 0 {
        1int
    } else {
        0int
    }
}

/// Bytes that packet `i` of a transfer of `length` bytes carries.
pub open spec fn packet_length(length: int, max_packet_size: int, i: int) -> int {
    let rem = length - i * max_packet_size;
    if max_packet_size >= rem {
        rem
    } else {
        max_packet_size
    }
}

/// Data packet `i` of a transfer with a page of its own: active, toggles
/// alternating from one, `packet_length` bytes at `buffer + i * mps`,
/// linked to `next`, naming the device and endpoint.
pub open spec fn custom_data_stage(
    w: Seq<u32>,
    is_in: bool,
    length: int,
    max_packet_size: int,
    i: int,
    buffer: u32,
    next: u32,
    device_address: u32,
    endpoint_number: u32,
) -> Seq<u32> {
    td_addressed(
        td_linked(
            td_refreshed(
                w,
                0x80,
                data_pid(is_in),
                (packet_length(length, max_packet_size, i) - 1) as u32,
                false,
                i % 2 == 0,
            ).update(3, (buffer + i * max_packet_size) as u32),
            next,
            true,
        ),
        device_address,
        endpoint_number,
    )
}

/// A field of a descriptor's words.
pub open spec fn td_field(w: Seq<u32>, part: UhciTransferDescriptorPart) -> u32 {
    field32(w[part.layout_spec().0], part.layout_spec().1, part.layout_spec().2)
}

/// The words of a page of descriptors after a control transfer of
/// `length` bytes was written into it: setup at the start, the data
/// packets after it, then the status stage, all naming the device and
/// endpoint of the endpoint's own first descriptor `first`.
pub open spec fn custom_transfer_written(
    before: Seq<UhciTransferDescriptor>,
    after: Seq<UhciTransferDescriptor>,
    first: Seq<u32>,
    is_in: bool,
    request: u32,
    buffer: u32,
    length: int,
    max_packet_size: int,
    done_mark: u32,
) -> bool {
    let n = packets_for(length, max_packet_size);
    let da = td_field(first, UhciTransferDescriptorPart::DeviceAddress);
    let ep = td_field(first, UhciTransferDescriptorPart::EndPt);
    &&& after.len() == before.len()
    &&& forall|k: int| 0 <= k < before.len() ==> (#[trigger] after[k]).address == before[k].address
    &&& after[0].dwords@ == td_activated(td_addressed(setup_stage(before[0].dwords@, request, before[1].address), da, ep))
    &&& forall|i: int|
        0 <= i < n ==> (#[trigger] after[1 + i]).dwords@ == custom_data_stage(
            before[1 + i].dwords@,
            is_in,
            length,
            max_packet_size,
            i,
            buffer,
            before[2 + i].address,
            da,
            ep,
        )
    &&& after[1 + n].dwords@ == td_addressed(
        td_link_written(
            td_bit_written(status_stage(before[1 + n].dwords@, !is_in), UhciTransferDescriptorBitPart::T, false),
            done_mark,
        ),
        da,
        ep,
    )
    &&& forall|k: int| n + 2 <= k < before.len() ==> #[trigger] after[k] == before[k]
}

proof fn lemma_packets(length: int, mps: int, i: int)
    requires
        0 <= length,
        0 < mps,
        0 <= i < packets_for(length, mps),
    ensures
        i * mps < length,
        i * mps + packet_length(length, mps, i) == (i + 1) * mps || i + 1 == packets_for(length, mps),
        0 < packet_length(length, mps, i) <= mps,
        i * mps + packet_length(length, mps, i) <= length,
{
    let q = length / mps;
    let r = length % mps;
    assert(length == q * mps + r && 0 <= r < mps) by (nonlinear_arith)
        requires
            0 < mps,
            q == length / mps,
            r == length % mps,
    ;
    assert(i * mps < length) by (nonlinear_arith)
        requires
            0 <= i,
            i < q + if r != 0 {
                1int
            } else {
                0int
            },
            length == q * mps + r,
            0 <= r < mps,
            0 < mps,
    ;
    assert((i + 1) * mps == i * mps + mps) by (nonlinear_arith);
    if i + 1 < packets_for(length, mps) {
        assert((i + 1) * mps <= length) by (nonlinear_arith)
            requires
                0 <= i,
                i + 1 < q + if r != 0 {
                    1int
                } else {
                    0int
                },
                length == q * mps + r,
                0 <= r < mps,
                0 < mps,
        ;
    }
}

proof fn lemma_packet_count_fits(length: u16, mps: u16)
    requires
        0 < mps,
    ensures
        packets_for(length as int, mps as int) <= length,
{
    let q = length as int / mps as int;
    let r = length as int % mps as int;
    assert(length == q * mps + r && 0 <= r < mps) by (nonlinear_arith)
        requires
            0 < mps,
            q == length as int / mps as int,
            r == length as int % mps as int,
    ;
    assert(q + if r != 0 {
        1int
    } else {
        0int
    } <= length) by (nonlinear_arith)
        requires
            length == q * mps + r,
            0 <= r < mps,
            0 < mps,
            0 <= q,
    ;
}

/// Bytes the first `k` packets of a transfer of `length` bytes carry.
pub open spec fn packets_total(length: int, max_packet_size: int, k: nat) -> int
    decreases k,
{
    if k == 0 {
        0
    } else {
        packets_total(length, max_packet_size, (k - 1) as nat) + packet_length(length, max_packet_size, k - 1)
    }
}

/// The data packets of a transfer split into packets of at most
/// `max_packet_size` bytes carry the whole transfer: packet `i` starts `i`
/// packets in, and together they carry `length` bytes.
pub proof fn lemma_packets_cover_transfer(length: int, max_packet_size: int)
    requires
        0 <= length,
        0 < max_packet_size,
    ensures
        packets_total(length, max_packet_size, packets_for(length, max_packet_size) as nat) == length,
        forall|i: int|
            0 <= i < packets_for(length, max_packet_size) ==> #[trigger] packets_total(length, max_packet_size, i as nat)
                == i * max_packet_size,
{
    let n = packets_for(length, max_packet_size);
    assert(n >= 0) by (nonlinear_arith)
        requires
            0 <= length,
            0 < max_packet_size,
            n == packets_for(length, max_packet_size),
    ;
    lemma_packets_prefix(length, max_packet_size, n as nat);
    if n == 0 {
        assert(length == 0) by (nonlinear_arith)
            requires
                0 <= length,
                0 < max_packet_size,
                n == length / max_packet_size + if length % max_packet_size != 0 { 1int } else { 0int },
                n == 0,
        ;
    } else {
        lemma_packets(length, max_packet_size, n - 1);
        assert(packets_total(length, max_packet_size, (n - 1) as nat) == (n - 1) * max_packet_size);
        let last = packet_length(length, max_packet_size, n - 1);
        assert((n - 1) * max_packet_size + last == length) by (nonlinear_arith)
            requires
                0 < max_packet_size,
                0 <= length,
                n == length / max_packet_size + if length % max_packet_size != 0 { 1int } else { 0int },
                n >= 1,
                last == (if max_packet_size >= length - (n - 1) * max_packet_size {
                    length - (n - 1) * max_packet_size
                } else {
                    max_packet_size
                }),
        ;
    }
}

proof fn lemma_packets_prefix(length: int, mps: int, k: nat)
    requires
        0 <= length,
        0 < mps,
        k <= packets_for(length, mps),
    ensures
        forall|i: int| 0 <= i < k ==> #[trigger] packets_total(length, mps, i as nat) == i * mps,
    decreases k,
{
    if k > 0 {
        lemma_packets_prefix(length, mps, (k - 1) as nat);
        let i = k - 1;
        if i > 0 {
            lemma_packets(length, mps, i - 1);
            assert(packets_total(length, mps, i as nat) == packets_total(length, mps, (i - 1) as nat) + packet_length(
                length,
                mps,
                i - 1,
            ));
            assert(packets_total(length, mps, i as nat) == i * mps);
        } else {
            assert(0 * mps == 0) by (nonlinear_arith);
        }
        assert forall|j: int| 0 <= j < k implies #[trigger] packets_total(length, mps, j as nat) == j * mps by {
            if j < i {
            } else {
                assert(j == i);
            }
        }
    }
}

/// The default control endpoint of a device, and the descriptors and queue
/// head its transfers go through.
pub struct UhciControlEndpoint {
    pub endpoint_number: u8,
    pub maximum_packet_size: u16,
    /// Physical address of the endpoint's own descriptors.
    pub transfer_descriptors: u32,
    pub num_transfer_descriptors: u8,
    pub queue_head: UhciQueueHead,
    /// Where the endpoint's descriptors start among the control ones.
    pub transfer_descriptor_base_offset: u8,
    pub interval: u16,
}

impl UhciControlEndpoint {
    /// An endpoint with nothing set.
    pub fn empty() -> (r: Self)
        ensures
            r.endpoint_number == 0 && r.maximum_packet_size == 0 && r.interval == 0,
            r.transfer_descriptors == 0 && r.num_transfer_descriptors == 0,
            r.transfer_descriptor_base_offset == 0,
            r.queue_head == (UhciQueueHead { address: 0, head_link: 0, element_link: 0 }),
    {
        UhciControlEndpoint {
            endpoint_number: 0,
            maximum_packet_size: 0,
            transfer_descriptors: 0,
            num_transfer_descriptors: 0,
            queue_head: UhciQueueHead::new(0, 0, 0),
            transfer_descriptor_base_offset: 0,
            interval: 0,
        }
    }

    /// Endpoint zero of a device that has just been reset: eight-byte
    /// packets, polled every control period.
    pub fn default_control() -> (r: Self)
        ensures
            r.endpoint_number == 0 && r.maximum_packet_size == 8,
            r.interval == CONTROL_ENDPOINT_CALL_TIME,
            r.transfer_descriptors == 0 && r.num_transfer_descriptors == 0,
            r.transfer_descriptor_base_offset == 0,
            r.queue_head == (UhciQueueHead { address: 0, head_link: 0, element_link: 0 }),
    {
        UhciControlEndpoint {
            endpoint_number: 0,
            maximum_packet_size: 8,
            transfer_descriptors: 0,
            num_transfer_descriptors: 0,
            queue_head: UhciQueueHead::new(0, 0, 0),
            transfer_descriptor_base_offset: 0,
            interval: CONTROL_ENDPOINT_CALL_TIME,
        }
    }

    pub fn endpoint_number(&self) -> (r: u8)
        ensures
            r == self.endpoint_number,
    {
        self.endpoint_number
    }

    /// A control endpoint has no direction of its own.
    pub fn get_direction(&self) -> (r: Direction)
        ensures
            r == Direction::Invalid,
    {
        Direction::Invalid
    }

    pub fn get_interval_in_ms(&self) -> (r: u16)
        ensures
            r == self.interval,
    {
        self.interval
    }

    pub fn get_maximum_packet_size(&self) -> (r: u16)
        ensures
            r == self.maximum_packet_size,
    {
        self.maximum_packet_size
    }

    pub fn get_transfer_type(&self) -> (r: UsbTransferType)
        ensures
            r == UsbTransferType::Control,
    {
        UsbTransferType::Control
    }

    /// Gives the endpoint its descriptors.
    pub fn set_address_and_length(&mut self, base: u32, transfer_descriptors: u8)
        ensures
            *final(self) == (UhciControlEndpoint {
                transfer_descriptors: base,
                num_transfer_descriptors: transfer_descriptors,
                ..*old(self)
            }),
    {
        self.num_transfer_descriptors = transfer_descriptors;
        self.transfer_descriptors = base;
    }

    pub fn update_max_packet_size(&mut self, max_packet_size: u16)
        ensures
            *final(self) == (UhciControlEndpoint { maximum_packet_size: max_packet_size, ..*old(self) }),
    {
        self.maximum_packet_size = max_packet_size;
    }

    /// A read that fits one packet, in the endpoint's first three
    /// descriptors: setup, one IN packet of `dst_length` bytes into
    /// `dst_buffer`, and an OUT status stage that terminates the queue and
    /// marks it as a finished control transfer. The setup stage is made
    /// active last, then the queue head is pointed at the descriptors.
    pub fn send_right_sized_control_read(
        &mut self,
        tds: &mut Vec<UhciTransferDescriptor>,
        request: u32,
        dst_buffer: u32,
        dst_length: u16,
        ioc: bool,
    )
        requires
            old(tds)@.len() == 3,
            forall|i: int| 0 <= i < 3 ==> (#[trigger] old(tds)@[i]).address == old(self).transfer_descriptors + TD_SIZE * i,
        ensures
            final(tds)@.len() == 3,
            forall|i: int| 0 <= i < 3 ==> (#[trigger] final(tds)@[i]).address == old(tds)@[i].address,
            final(tds)@[0].dwords@ == td_activated(setup_stage(old(tds)@[0].dwords@, request, old(tds)@[1].address)),
            final(tds)@[1].dwords@ == td_linked(
                td_refreshed(old(tds)@[1].dwords@, 0x80, 0x69, length_field(dst_length), false, true).update(
                    3,
                    dst_buffer,
                ),
                old(tds)@[2].address,
                true,
            ),
            final(tds)@[2].dwords@ == td_link_written(
                td_bit_written(status_stage(old(tds)@[2].dwords@, false), UhciTransferDescriptorBitPart::T, true).update(
                    3,
                    0,
                ),
                control_done_mark(old(self).transfer_descriptor_base_offset),
            ),
            *final(self) == (UhciControlEndpoint {
                queue_head: UhciQueueHead { element_link: with_bit32(old(self).queue_head.element_link, 0, false), ..old(self).queue_head },
                ..*old(self)
            }),
    {
        let mut setup_td = tds[0];
        let mut in_td = tds[1];
        let mut status_td = tds[2];
        setup_td.refresh_for_setup(request);
        if dst_length == 0 {
            in_td.refresh_for_in(0x7FF, false, true, true);
        } else {
            in_td.refresh_for_in(dst_length - 1, false, true, true);
        }
        status_td.refresh_for_status(false);
        setup_td.link_next_td(in_td.address(), true);
        in_td.write_buffer_pointer(dst_buffer);
        in_td.link_next_td(status_td.address(), true);
        status_td.set(UhciTransferDescriptorBitPart::T, true);
        status_td.write_buffer_pointer(0);
        status_td.write_link_pointer(QUEUE_HEAD_WAS_CONTROL | (self.transfer_descriptor_base_offset as u32) << 8);
        setup_td.set_part(UhciTransferDescriptorPart::Status, 0x80);
        tds.set(0, setup_td);
        tds.set(1, in_td);
        tds.set(2, status_td);
        self.queue_head.set_queue_element_link_t(false);
    }

    /// A write that fits one packet, in the endpoint's first three
    /// descriptors: setup, one OUT packet of `out_length` bytes from
    /// `dst_buffer` (no buffer for none), and an IN status stage.
    pub fn send_right_sized_control_write(
        &mut self,
        tds: &mut Vec<UhciTransferDescriptor>,
        request: u32,
        dst_buffer: u32,
        out_length: u16,
        ioc: bool,
    )
        requires
            old(tds)@.len() == 3,
            forall|i: int| 0 <= i < 3 ==> (#[trigger] old(tds)@[i]).address == old(self).transfer_descriptors + TD_SIZE * i,
        ensures
            final(tds)@.len() == 3,
            forall|i: int| 0 <= i < 3 ==> (#[trigger] final(tds)@[i]).address == old(tds)@[i].address,
            final(tds)@[0].dwords@ == td_activated(setup_stage(old(tds)@[0].dwords@, request, old(tds)@[1].address)),
            final(tds)@[1].dwords@ == td_linked(
                if out_length == 0 {
                    td_refreshed(old(tds)@[1].dwords@, 0x80, 0xE1, 0x7FF, false, true)
                } else {
                    td_refreshed(old(tds)@[1].dwords@, 0x80, 0xE1, (out_length - 1) as u32, false, true).update(
                        3,
                        dst_buffer,
                    )
                },
                old(tds)@[2].address,
                true,
            ),
            final(tds)@[2].dwords@ == td_link_written(
                td_bit_written(
                    status_stage(old(tds)@[2].dwords@, true).update(3, 0),
                    UhciTransferDescriptorBitPart::T,
                    true,
                ),
                control_done_mark(old(self).transfer_descriptor_base_offset),
            ),
            *final(self) == (UhciControlEndpoint {
                queue_head: UhciQueueHead { element_link: with_bit32(old(self).queue_head.element_link, 0, false), ..old(self).queue_head },
                ..*old(self)
            }),
    {
        let mut setup_td = tds[0];
        let mut out_td = tds[1];
        let mut status_td = tds[2];
        setup_td.refresh_for_setup(request);
        if out_length == 0 {
            out_td.refresh_for_out(0x7FF, false, true, true);
        } else {
            out_td.refresh_for_out(out_length - 1, false, true, true);
            out_td.write_buffer_pointer(dst_buffer);
        }
        status_td.refresh_for_status(true);
        status_td.write_buffer_pointer(0);
        setup_td.link_next_td(out_td.address(), true);
        out_td.link_next_td(status_td.address(), true);
        status_td.set(UhciTransferDescriptorBitPart::T, true);
        status_td.write_link_pointer(QUEUE_HEAD_WAS_CONTROL | (self.transfer_descriptor_base_offset as u32) << 8);
        setup_td.set_part(UhciTransferDescriptorPart::Status, 0x80);
        tds.set(0, setup_td);
        tds.set(1, out_td);
        tds.set(2, status_td);
        self.queue_head.set_queue_element_link_t(false);
    }

    /// A request without data stage, in the endpoint's first two
    /// descriptors: setup and an IN status stage, marked as a finished
    /// simple control transfer.
    pub fn send_control_without_data(&mut self, tds: &mut Vec<UhciTransferDescriptor>, request: u32, ioc: bool)
        requires
            old(tds)@.len() == 2,
            forall|i: int| 0 <= i < 2 ==> (#[trigger] old(tds)@[i]).address == old(self).transfer_descriptors + TD_SIZE * i,
        ensures
            final(tds)@.len() == 2,
            forall|i: int| 0 <= i < 2 ==> (#[trigger] final(tds)@[i]).address == old(tds)@[i].address,
            final(tds)@[0].dwords@ == td_activated(setup_stage(old(tds)@[0].dwords@, request, old(tds)@[1].address)),
            final(tds)@[1].dwords@ == td_link_written(
                td_bit_written(status_stage(old(tds)@[1].dwords@, true), UhciTransferDescriptorBitPart::T, true).update(
                    3,
                    0,
                ),
                control_done_mark(old(self).transfer_descriptor_base_offset) | QUEUE_HEAD_CONTROL_SIMPLE,
            ),
            *final(self) == (UhciControlEndpoint {
                queue_head: UhciQueueHead { element_link: with_bit32(old(self).queue_head.element_link, 0, false), ..old(self).queue_head },
                ..*old(self)
            }),
    {
        let mut setup_td = tds[0];
        let mut status_td = tds[1];
        setup_td.refresh_for_setup(request);
        status_td.refresh_for_status(true);
        setup_td.link_next_td(status_td.address(), true);
        status_td.set(UhciTransferDescriptorBitPart::T, true);
        status_td.write_buffer_pointer(0);
        status_td.write_link_pointer(
            (QUEUE_HEAD_WAS_CONTROL | (self.transfer_descriptor_base_offset as u32) << 8) | QUEUE_HEAD_CONTROL_SIMPLE,
        );
        setup_td.set_part(UhciTransferDescriptorPart::Status, 0x80);
        tds.set(0, setup_td);
        tds.set(1, status_td);
        self.queue_head.set_queue_element_link_t(false);
    }
    fn send_over_sized(
        &mut self,
        first: &UhciTransferDescriptor,
        page: &mut Vec<UhciTransferDescriptor>,
        page_offset: u32,
        request: u32,
        dst_buffer: u32,
        buffer_length: u16,
        is_in: bool,
    )
        requires
            old(self).maximum_packet_size > 0,
            old(page)@.len() >= packets_for(buffer_length as int, old(self).maximum_packet_size as int) + 2,
            dst_buffer + buffer_length <= u32::MAX,
        ensures
            custom_transfer_written(
                old(page)@,
                final(page)@,
                first.dwords@,
                is_in,
                request,
                dst_buffer,
                buffer_length as int,
                old(self).maximum_packet_size as int,
                custom_done_mark(old(self).transfer_descriptor_base_offset, page_offset),
            ),
            *final(self) == (UhciControlEndpoint {
                queue_head: UhciQueueHead {
                    element_link: with_bit32(
                        (old(self).queue_head.element_link & 0xFu32) | (old(page)@[0].address & !0xFu32),
                        0,
                        false,
                    ),
                    ..old(self).queue_head
                },
                ..*old(self)
            }),
    {
        let ghost before = page@;
        let mps = self.maximum_packet_size;
        let device_address = first.get_part(UhciTransferDescriptorPart::DeviceAddress);
        let endpoint_number = first.get_part(UhciTransferDescriptorPart::EndPt);
        proof {
            lemma_packet_count_fits(buffer_length, mps);
        }
        let mut tds_required: u16 = buffer_length / mps;
        if buffer_length % mps != 0 {
            tds_required = tds_required + 1;
        }
        let n = tds_required as usize;
        assert(n == packets_for(buffer_length as int, mps as int));

        let mut setup_td = page[0];
        setup_td.refresh_for_setup(request);
        setup_td.link_next_td(page[1].address(), true);
        setup_td.set_part(UhciTransferDescriptorPart::DeviceAddress, device_address);
        setup_td.set_part(UhciTransferDescriptorPart::EndPt, endpoint_number);

        let mut buf_rem: u16 = buffer_length;
        let mut dst: u32 = dst_buffer;
        let mut toggle = true;
        let mut i: usize = 0;
        while i < n
            invariant
                n == packets_for(buffer_length as int, mps as int),
                mps > 0,
                page@.len() == before.len(),
                before.len() >= n + 2,
                dst_buffer + buffer_length <= u32::MAX,
                i <= n,
                i < n ==> buf_rem == buffer_length - i * mps,
                i < n ==> dst == dst_buffer + i * mps,
                toggle == (i % 2 == 0),
                device_address == td_field(first.dwords@, UhciTransferDescriptorPart::DeviceAddress),
                endpoint_number == td_field(first.dwords@, UhciTransferDescriptorPart::EndPt),
                forall|k: int| 0 <= k < before.len() ==> (#[trigger] page@[k]).address == before[k].address,
                page@[0] == before[0],
                forall|k: int| 1 + i <= k < before.len() ==> #[trigger] page@[k] == before[k],
                forall|k: int|
                    0 <= k < i ==> (#[trigger] page@[1 + k]).dwords@ == custom_data_stage(
                        before[1 + k].dwords@,
                        is_in,
                        buffer_length as int,
                        mps as int,
                        k,
                        dst_buffer,
                        before[2 + k].address,
                        device_address,
                        endpoint_number,
                    ),
            decreases n - i,
        {
            proof {
                lemma_packets(buffer_length as int, mps as int, i as int);
            }
            let took: u16 = if mps >= buf_rem {
                buf_rem
            } else {
                mps
            };
            let mut td = page[1 + i];
            if is_in {
                td.refresh_for_in(took - 1, false, toggle, true);
            } else {
                td.refresh_for_out(took - 1, false, toggle, true);
            }
            td.write_buffer_pointer(dst);
            td.link_next_td(page[2 + i].address(), true);
            td.set_part(UhciTransferDescriptorPart::DeviceAddress, device_address);
            td.set_part(UhciTransferDescriptorPart::EndPt, endpoint_number);
            page.set(1 + i, td);
            buf_rem = buf_rem - took;
            dst = dst + took as u32;
            toggle = !toggle;
            i = i + 1;
        }
        let mut status_td = page[1 + n];
        status_td.refresh_for_status(!is_in);
        status_td.set(UhciTransferDescriptorBitPart::T, false);
        status_td.write_link_pointer(
            QUEUE_HEAD_WAS_CUSTOM | (self.transfer_descriptor_base_offset as u32) << 16 | page_offset << 8,
        );
        status_td.set_part(UhciTransferDescriptorPart::DeviceAddress, device_address);
        status_td.set_part(UhciTransferDescriptorPart::EndPt, endpoint_number);
        page.set(1 + n, status_td);
        setup_td.set_part(UhciTransferDescriptorPart::Status, 0x80);
        let setup_address = setup_td.address();
        page.set(0, setup_td);
        self.queue_head.set_queue_element_link_pointer(setup_address);
        self.queue_head.set_queue_element_link_t(false);
    }

    /// A read of more than one packet, in a fresh page of descriptors of its
    /// own: setup, one IN packet per `maximum_packet_size` bytes with
    /// alternating toggles, and an OUT status stage whose link marks the
    /// queue as finished through a page with offset `page_offset`. Every
    /// descriptor names the device and endpoint of the endpoint's first
    /// descriptor `first`; the queue head is pointed at the setup stage.
    pub fn send_over_sized_control_read(
        &mut self,
        first: &UhciTransferDescriptor,
        page: &mut Vec<UhciTransferDescriptor>,
        page_offset: u32,
        request: u32,
        dst_buffer: u32,
        buffer_length: u16,
        ioc: bool,
    )
        requires
            old(self).maximum_packet_size > 0,
            old(page)@.len() >= packets_for(buffer_length as int, old(self).maximum_packet_size as int) + 2,
            dst_buffer + buffer_length <= u32::MAX,
        ensures
            custom_transfer_written(
                old(page)@,
                final(page)@,
                first.dwords@,
                true,
                request,
                dst_buffer,
                buffer_length as int,
                old(self).maximum_packet_size as int,
                custom_done_mark(old(self).transfer_descriptor_base_offset, page_offset),
            ),
            *final(self) == (UhciControlEndpoint {
                queue_head: UhciQueueHead {
                    element_link: with_bit32(
                        (old(self).queue_head.element_link & 0xFu32) | (old(page)@[0].address & !0xFu32),
                        0,
                        false,
                    ),
                    ..old(self).queue_head
                },
                ..*old(self)
            }),
    {
        self.send_over_sized(first, page, page_offset, request, dst_buffer, buffer_length, true);
    }

    /// A write of more than one packet: as a read, with OUT packets from
    /// `dst_buffer` and an IN status stage.
    pub fn send_over_sized_control_write(
        &mut self,
        first: &UhciTransferDescriptor,
        page: &mut Vec<UhciTransferDescriptor>,
        page_offset: u32,
        request: u32,
        dst_buffer: u32,
        buffer_length: u16,
        ioc: bool,
    )
        requires
            old(self).maximum_packet_size > 0,
            old(page)@.len() >= packets_for(buffer_length as int, old(self).maximum_packet_size as int) + 2,
            dst_buffer + buffer_length <= u32::MAX,
        ensures
            custom_transfer_written(
                old(page)@,
                final(page)@,
                first.dwords@,
                false,
                request,
                dst_buffer,
                buffer_length as int,
                old(self).maximum_packet_size as int,
                custom_done_mark(old(self).transfer_descriptor_base_offset, page_offset),
            ),
            *final(self) == (UhciControlEndpoint {
                queue_head: UhciQueueHead {
                    element_link: with_bit32(
                        (old(self).queue_head.element_link & 0xFu32) | (old(page)@[0].address & !0xFu32),
                        0,
                        false,
                    ),
                    ..old(self).queue_head
                },
                ..*old(self)
            }),
    {
        self.send_over_sized(first, page, page_offset, request, dst_buffer, buffer_length, false);
    }
    /// A read of `buffer_length` bytes into `dst_buffer`: in the endpoint's
    /// own three descriptors `tds` when it fits one packet, else in the page
    /// of descriptors `page`, which is left alone otherwise (as `tds` is in
    /// the other case).
    pub fn send_control_read(
        &mut self,
        tds: &mut Vec<UhciTransferDescriptor>,
        page: &mut Vec<UhciTransferDescriptor>,
        page_offset: u32,
        request: u32,
        dst_buffer: u32,
        buffer_length: u16,
        ioc: bool,
    )
        requires
            old(tds)@.len() == 3,
            forall|i: int| 0 <= i < 3 ==> (#[trigger] old(tds)@[i]).address == old(self).transfer_descriptors + TD_SIZE * i,
            buffer_length > old(self).maximum_packet_size ==> {
                &&& old(self).maximum_packet_size > 0
                &&& old(page)@.len() >= packets_for(buffer_length as int, old(self).maximum_packet_size as int) + 2
                &&& dst_buffer + buffer_length <= u32::MAX
            },
        ensures
            buffer_length > old(self).maximum_packet_size ==> {
                &&& final(tds)@ == old(tds)@
                &&& custom_transfer_written(
                    old(page)@,
                    final(page)@,
                    old(tds)@[0].dwords@,
                    true,
                    request,
                    dst_buffer,
                    buffer_length as int,
                    old(self).maximum_packet_size as int,
                    custom_done_mark(old(self).transfer_descriptor_base_offset, page_offset),
                )
                &&& *final(self) == (UhciControlEndpoint {
                    queue_head: UhciQueueHead {
                        element_link: with_bit32(
                            (old(self).queue_head.element_link & 0xFu32) | (old(page)@[0].address & !0xFu32),
                            0,
                            false,
                        ),
                        ..old(self).queue_head
                    },
                    ..*old(self)
                })
            },
            buffer_length <= old(self).maximum_packet_size ==> {
                &&& final(page)@ == old(page)@
                &&& final(tds)@.len() == 3
                &&& forall|i: int| 0 <= i < 3 ==> (#[trigger] final(tds)@[i]).address == old(tds)@[i].address
                &&& final(tds)@[0].dwords@ == td_activated(
                    setup_stage(old(tds)@[0].dwords@, request, old(tds)@[1].address),
                )
                &&& final(tds)@[1].dwords@ == td_linked(
                    td_refreshed(old(tds)@[1].dwords@, 0x80, 0x69, length_field(buffer_length), false, true).update(
                        3,
                        dst_buffer,
                    ),
                    old(tds)@[2].address,
                    true,
                )
                &&& final(tds)@[2].dwords@ == td_link_written(
                    td_bit_written(
                        status_stage(old(tds)@[2].dwords@, false),
                        UhciTransferDescriptorBitPart::T,
                        true,
                    ).update(3, 0),
                    control_done_mark(old(self).transfer_descriptor_base_offset),
                )
                &&& *final(self) == (UhciControlEndpoint {
                    queue_head: UhciQueueHead {
                        element_link: with_bit32(old(self).queue_head.element_link, 0, false),
                        ..old(self).queue_head
                    },
                    ..*old(self)
                })
            },
    {
        if buffer_length > self.maximum_packet_size {
            let first = tds[0];
            self.send_over_sized_control_read(&first, page, page_offset, request, dst_buffer, buffer_length, ioc);
        } else {
            self.send_right_sized_control_read(tds, request, dst_buffer, buffer_length, ioc);
        }
    }

    /// A write of `dst_length` bytes from `dst_buffer`, chosen as for reads.
    pub fn send_control_write(
        &mut self,
        tds: &mut Vec<UhciTransferDescriptor>,
        page: &mut Vec<UhciTransferDescriptor>,
        page_offset: u32,
        request: u32,
        dst_buffer: u32,
        dst_length: u16,
        ioc: bool,
    )
        requires
            old(tds)@.len() == 3,
            forall|i: int| 0 <= i < 3 ==> (#[trigger] old(tds)@[i]).address == old(self).transfer_descriptors + TD_SIZE * i,
            dst_length > old(self).maximum_packet_size ==> {
                &&& old(self).maximum_packet_size > 0
                &&& old(page)@.len() >= packets_for(dst_length as int, old(self).maximum_packet_size as int) + 2
                &&& dst_buffer + dst_length <= u32::MAX
            },
        ensures
            dst_length > old(self).maximum_packet_size ==> {
                &&& final(tds)@ == old(tds)@
                &&& custom_transfer_written(
                    old(page)@,
                    final(page)@,
                    old(tds)@[0].dwords@,
                    false,
                    request,
                    dst_buffer,
                    dst_length as int,
                    old(self).maximum_packet_size as int,
                    custom_done_mark(old(self).transfer_descriptor_base_offset, page_offset),
                )
                &&& *final(self) == (UhciControlEndpoint {
                    queue_head: UhciQueueHead {
                        element_link: with_bit32(
                            (old(self).queue_head.element_link & 0xFu32) | (old(page)@[0].address & !0xFu32),
                            0,
                            false,
                        ),
                        ..old(self).queue_head
                    },
                    ..*old(self)
                })
            },
            dst_length <= old(self).maximum_packet_size ==> {
                &&& final(page)@ == old(page)@
                &&& final(tds)@.len() == 3
                &&& forall|i: int| 0 <= i < 3 ==> (#[trigger] final(tds)@[i]).address == old(tds)@[i].address
                &&& final(tds)@[0].dwords@ == td_activated(
                    setup_stage(old(tds)@[0].dwords@, request, old(tds)@[1].address),
                )
                &&& final(tds)@[1].dwords@ == td_linked(
                    if dst_length == 0 {
                        td_refreshed(old(tds)@[1].dwords@, 0x80, 0xE1, 0x7FF, false, true)
                    } else {
                        td_refreshed(old(tds)@[1].dwords@, 0x80, 0xE1, (dst_length - 1) as u32, false, true).update(
                            3,
                            dst_buffer,
                        )
                    },
                    old(tds)@[2].address,
                    true,
                )
                &&& final(tds)@[2].dwords@ == td_link_written(
                    td_bit_written(
                        status_stage(old(tds)@[2].dwords@, true).update(3, 0),
                        UhciTransferDescriptorBitPart::T,
                        true,
                    ),
                    control_done_mark(old(self).transfer_descriptor_base_offset),
                )
                &&& *final(self) == (UhciControlEndpoint {
                    queue_head: UhciQueueHead {
                        element_link: with_bit32(old(self).queue_head.element_link, 0, false),
                        ..old(self).queue_head
                    },
                    ..*old(self)
                })
            },
    {
        if dst_length > self.maximum_packet_size {
            let first = tds[0];
            self.send_over_sized_control_write(&first, page, page_offset, request, dst_buffer, dst_length, ioc);
        } else {
            self.send_right_sized_control_write(tds, request, dst_buffer, dst_length, ioc);
        }
    }
}

} // verus!
