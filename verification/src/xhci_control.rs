//! Control transfers on an xHCI endpoint: the setup, data and status stage
//! TRBs written into the endpoint's transfer ring, and the doorbell that
//! starts them.
use vstd::prelude::*;
use crate::bits::{bit32, field32, with_bit32};
use crate::usb_requests::UsbStandardDeviceRequest;
use crate::xhci_controller::Direction;
use crate::xhci_endpoint::{RequestedTrb, XhciEndpoint};
use crate::xhci_trb::{
    with_interrupter_target, with_transfer_length, with_trb_type, words_to_u64, XhciDataStageTrb,
    XhciDataStageTrbBitPart, XhciLinkTrb, XhciSetupStageTrb, XhciStatusStageTrb, XhciStatusStageTrbBitPart,
    XhciTransferType, XhciTrbId,
};

verus! {

/// A transfer ring as laid out in memory from `base`: four words per TRB.
pub struct TrbRing {
    pub base: u64,
    pub words: Vec<u32>,
}

/// The TRB at `address` lies in the ring of `len` words at `base`.
pub open spec fn trb_in_ring(base: u64, len: int, address: u64) -> bool {
    &&& address >= base
    &&& (address - base) % 16 == 0
    &&& (address - base) / 16 * 4 + 4 <= len
}

/// Index of the first word of the TRB at `address`.
pub open spec fn trb_word(base: u64, address: u64) -> int {
    (address - base) / 16 * 4
}

/// The four words of the TRB at word `k`.
pub open spec fn trb_at(words: Seq<u32>, k: int) -> Seq<u32> {
    words.subrange(k, k + 4)
}

/// The ring's words with the TRB at word `k` replaced by `w`.
pub open spec fn trb_written(words: Seq<u32>, k: int, w: Seq<u32>) -> Seq<u32> {
    words.update(k, w[0]).update(k + 1, w[1]).update(k + 2, w[2]).update(k + 3, w[3])
}

/// Handing out the next TRB of the ring: the TRB and its cycle bit, the
/// endpoint after, and the ring after. A link TRB at the enqueue pointer
/// gets the producer cycle bit and is followed, flipping the cycle state
/// if it says to.
pub open spec fn next_trb_spec(ep: XhciEndpoint, base: u64, words: Seq<u32>) -> (RequestedTrb, XhciEndpoint, Seq<u32>) {
    let k = trb_word(base, ep.enqueue_pointer);
    let is_link = field32(words[k + 3], 10, 0x3f) == 6;
    let target = if is_link {
        words_to_u64(words[k], words[k + 1])
    } else {
        ep.enqueue_pointer
    };
    let cycle = if is_link && bit32(words[k + 3], 1) {
        !ep.pcs
    } else {
        ep.pcs
    };
    (
        RequestedTrb { trb: target, cycle },
        XhciEndpoint { enqueue_pointer: (target + 16) as u64, pcs: cycle, ..ep },
        if is_link {
            words.update(k + 3, with_bit32(words[k + 3], 0, ep.pcs))
        } else {
            words
        },
    )
}

/// The next TRB can be handed out: the enqueue pointer, and the TRB handed
/// out, lie in the ring, and the enqueue pointer can move past it.
pub open spec fn next_trb_ok(ep: XhciEndpoint, base: u64, words: Seq<u32>) -> bool {
    let k = trb_word(base, ep.enqueue_pointer);
    let is_link = field32(words[k + 3], 10, 0x3f) == 6;
    let target = if is_link {
        words_to_u64(words[k], words[k + 1])
    } else {
        ep.enqueue_pointer
    };
    &&& trb_in_ring(base, words.len() as int, ep.enqueue_pointer)
    &&& trb_in_ring(base, words.len() as int, target)
    &&& target + 16 <= u64::MAX
}

/// The first word of a setup stage: request type, request and value.
pub open spec fn setup_word0(bm: u8, b: u8, w_value: u16) -> u32 {
    (bm as u32) | ((b as u32) << 8u32) | ((w_value as u32) << 16u32)
}

/// The second word of a setup stage: index and length.
pub open spec fn setup_word1(w_index: u16, w_length: u16) -> u32 {
    (w_index as u32) | ((w_length as u32) << 16u32)
}

/// The third word of a setup stage: eight bytes, interrupter zero.
pub open spec fn setup_word2(old: u32) -> u32 {
    with_interrupter_target((old & !0x1FFFFu32) | 8u32, 0)
}

/// `w` with the transfer type bits 16..18 set to `code`.
pub open spec fn with_trt(w: u32, code: u32) -> u32 {
    (w & !(0x3u32 << 16u32)) | (code << 16u32)
}

impl TrbRing {
    /// The TRB at `address`, as a link TRB.
    fn trb(&self, address: u64) -> (r: XhciLinkTrb)
        requires
            trb_in_ring(self.base, self.words@.len() as int, address),
        ensures
            r.address == address,
            r.dwords@ == trb_at(self.words@, trb_word(self.base, address)),
    {
        let len = self.words.len();
        assert(trb_word(self.base, address) + 4 <= len);
        let k = ((address - self.base) / 16 * 4) as usize;
        assert(k == trb_word(self.base, address));
        let r = XhciLinkTrb { address, dwords: [self.words[k], self.words[k + 1], self.words[k + 2], self.words[k + 3]] };
        assert(r.dwords@ =~= trb_at(self.words@, trb_word(self.base, address)));
        r
    }

    /// Writes the TRB at `address`.
    fn write(&mut self, address: u64, w0: u32, w1: u32, w2: u32, w3: u32)
        requires
            trb_in_ring(old(self).base, old(self).words@.len() as int, address),
        ensures
            final(self).base == old(self).base,
            final(self).words@ == trb_written(old(self).words@, trb_word(old(self).base, address), seq![w0, w1, w2, w3]),
    {
        let len = self.words.len();
        assert(trb_word(self.base, address) + 4 <= len);
        let k = ((address - self.base) / 16 * 4) as usize;
        assert(k == trb_word(self.base, address));
        self.words.set(k, w0);
        self.words.set(k + 1, w1);
        self.words.set(k + 2, w2);
        self.words.set(k + 3, w3);
    }
}

impl XhciEndpoint {
    /// Hands out the next TRB of the endpoint's ring `ring`, as
    /// `request_trb` does with the TRB at the enqueue pointer.
    pub fn next_trb(&mut self, ring: &mut TrbRing) -> (r: RequestedTrb)
        requires
            next_trb_ok(*old(self), old(ring).base, old(ring).words@),
        ensures
            final(ring).base == old(ring).base,
            (r, *final(self), final(ring).words@) == next_trb_spec(*old(self), old(ring).base, old(ring).words@),
    {
        let mut at = ring.trb(self.enqueue_pointer);
        let ghost k = trb_word(ring.base, self.enqueue_pointer);
        let r = self.request_trb(&mut at);
        let len = ring.words.len();
        assert(k + 4 <= len);
        let k3 = ((at.address - ring.base) / 16 * 4 + 3) as usize;
        assert(k3 == k + 3);
        ring.words.set(k3, at.dwords[3]);
        proof {
            let spec = next_trb_spec(*old(self), old(ring).base, old(ring).words@);
            if field32(old(ring).words@[k + 3], 10, 0x3f) != 6 {
                assert(ring.words@ =~= old(ring).words@);
            } else {
                assert(ring.words@ =~= spec.2);
            }
        }
        r
    }
}

/// The setup stage of a read, written over `old`: the request, eight
/// bytes, interrupter zero, immediate data, no interrupt, an IN data stage
/// (the cycle bit is written last, apart).
pub open spec fn setup_read_words(old: Seq<u32>, request: UsbStandardDeviceRequest) -> Seq<u32> {
    seq![
        setup_word0(request.bm_request_type, request.b_request, request.w_value),
        setup_word1(request.w_index, request.w_length),
        setup_word2(old[2]),
        with_trt(
            with_bit32(with_bit32(with_trb_type(old[3], XhciTrbId::Setup.id_spec()), 6, true), 5, false),
            XhciTransferType::InDataStage.code_spec(),
        ),
    ]
}

/// The data stage of a read of `len` bytes into `buffer`, written over
/// `old`: IN, interrupter zero, no flags, cycle bit `cycle`.
pub open spec fn data_read_words(old: Seq<u32>, buffer: u64, len: u32, cycle: bool) -> Seq<u32> {
    seq![
        buffer as u32,
        (buffer >> 32u64) as u32,
        with_interrupter_target(with_transfer_length(old[2], len), (0u16 & 0x3FFu16) as u32),
        with_bit32(
            with_bit32(
                with_bit32(
                    with_bit32(
                        with_bit32(
                            with_bit32(
                                with_bit32(with_bit32(with_trb_type(old[3], XhciTrbId::Data.id_spec()), 16, true), 6, false),
                                5,
                                false,
                            ),
                            4,
                            false,
                        ),
                        3,
                        false,
                    ),
                    2,
                    false,
                ),
                1,
                false,
            ),
            0,
            cycle,
        ),
    ]
}

/// The status stage of a read, written over `old`: OUT, interrupter
/// `target`, interrupt on completion as `ioc` says, cycle bit `cycle`.
pub open spec fn status_read_words(old: Seq<u32>, target: u16, ioc: bool, cycle: bool) -> Seq<u32> {
    seq![
        old[0],
        old[1],
        with_interrupter_target(old[2], target as u32),
        with_bit32(
            with_bit32(
                with_bit32(
                    with_bit32(with_bit32(with_trb_type(old[3], XhciTrbId::Status.id_spec()), 16, false), 5, ioc),
                    4,
                    false,
                ),
                1,
                false,
            ),
            0,
            cycle,
        ),
    ]
}

/// The setup stage of a request without data, written over `old`: the
/// request without its value (the value bytes stay as they were), eight
/// bytes, no data stage, no interrupt, immediate data, interrupter zero,
/// cycle bit `cycle`.
pub open spec fn setup_no_data_words(old: Seq<u32>, request: UsbStandardDeviceRequest, cycle: bool) -> Seq<u32> {
    seq![
        setup_word0(request.bm_request_type, request.b_request, (old[0] >> 16u32) as u16),
        setup_word1(request.w_index, request.w_length),
        setup_word2(old[2]),
        with_bit32(
            with_bit32(
                with_bit32(
                    with_trt(
                        with_trb_type(old[3], XhciTrbId::Setup.id_spec()),
                        XhciTransferType::NoDataStage.code_spec(),
                    ),
                    5,
                    false,
                ),
                6,
                true,
            ),
            0,
            cycle,
        ),
    ]
}

/// The status stage of a request without data, written over `old`: IN,
/// interrupter `target`, interrupt on completion as `ioc` says.
pub open spec fn status_no_data_words(old: Seq<u32>, target: u16, ioc: bool, cycle: bool) -> Seq<u32> {
    seq![
        old[0],
        old[1],
        with_interrupter_target(old[2], target as u32),
        with_bit32(
            with_bit32(
                with_bit32(
                    with_bit32(with_bit32(with_trb_type(old[3], XhciTrbId::Status.id_spec()), 5, ioc), 4, false),
                    0,
                    cycle,
                ),
                16,
                true,
            ),
            1,
            false,
        ),
    ]
}

/// The doorbell word of an endpoint: target one for the default control
/// endpoint, else its device context index.
pub open spec fn doorbell_word(ep: XhciEndpoint) -> u32 {
    ((if ep.endpoint_number == 0 {
        1u8
    } else {
        (ep.endpoint_number + if ep.direction == Direction::In {
            2int
        } else {
            1int
        }) as u8
    }) as u32) | ((0u16 as u32) << 16u32)
}

impl XhciEndpoint {
    /// Puts a control read of `buffer_len` bytes into `buffer` on the ring:
    /// setup, data and status stages in the next three TRBs, the setup
    /// stage's cycle bit written last so the controller sees the transfer
    /// whole. Gives the word to write to the device's doorbell.
    pub fn send_control_read(
        &mut self,
        ring: &mut TrbRing,
        request: &UsbStandardDeviceRequest,
        interrupter_target: u16,
        buffer: u64,
        buffer_len: u32,
        ioc: bool,
    ) -> (r: u32)
        requires
            old(self).endpoint_number < 0xF0,
            next_trb_ok(*old(self), old(ring).base, old(ring).words@),
            ({
                let (s, e1, w1) = next_trb_spec(*old(self), old(ring).base, old(ring).words@);
                let (d, e2, w2) = next_trb_spec(e1, old(ring).base, w1);
                next_trb_ok(e1, old(ring).base, w1) && next_trb_ok(e2, old(ring).base, w2)
            }),
        ensures
            final(ring).base == old(ring).base,
            ({
                let base = old(ring).base;
                let (s, e1, w1) = next_trb_spec(*old(self), base, old(ring).words@);
                let (d, e2, w2) = next_trb_spec(e1, base, w1);
                let (t, e3, w3) = next_trb_spec(e2, base, w2);
                let ks = trb_word(base, s.trb);
                let kd = trb_word(base, d.trb);
                let kt = trb_word(base, t.trb);
                let w4 = trb_written(w3, ks, setup_read_words(trb_at(w3, ks), *request));
                let w5 = trb_written(w4, kd, data_read_words(trb_at(w4, kd), buffer, buffer_len, d.cycle));
                let w6 = trb_written(w5, kt, status_read_words(trb_at(w5, kt), interrupter_target, ioc, t.cycle));
                &&& final(ring).words@ == w6.update(ks + 3, with_bit32(w6[ks + 3], 0, s.cycle))
                &&& *final(self) == e3
                &&& r == doorbell_word(e3)
            }),
    {
        let setup = self.next_trb(ring);
        let data = self.next_trb(ring);
        let status = self.next_trb(ring);

        let old_setup = ring.trb(setup.trb);
        let mut setup_trb = XhciSetupStageTrb {
            bm_request_type: 0,
            b_request: 0,
            w_value: 0,
            w_index: 0,
            w_length: 0,
            dword2: old_setup.dwords[2],
            dword3: old_setup.dwords[3],
        };
        setup_trb.w_value = request.w_value;
        setup_trb.b_request = request.b_request;
        setup_trb.bm_request_type = request.bm_request_type;
        setup_trb.w_length = request.w_length;
        setup_trb.w_index = request.w_index;
        setup_trb.set_type();
        setup_trb.set_trb_transfer_length();
        setup_trb.set_interrupter_target(0);
        setup_trb.set_idt(true);
        setup_trb.set_ioc(false);
        setup_trb.set_trt(XhciTransferType::InDataStage);
        ring.write(
            setup.trb,
            (setup_trb.bm_request_type as u32) | ((setup_trb.b_request as u32) << 8) | ((setup_trb.w_value as u32) << 16),
            (setup_trb.w_index as u32) | ((setup_trb.w_length as u32) << 16),
            setup_trb.dword2,
            setup_trb.dword3,
        );

        let old_data = ring.trb(data.trb);
        let mut data_trb = XhciDataStageTrb { data_buffer: 0, dword2: old_data.dwords[2], dword3: old_data.dwords[3] };
        data_trb.set_type();
        data_trb.data_buffer = buffer;
        data_trb.trb_transfer_length(buffer_len);
        data_trb.set_interrupter_target(0);
        data_trb.set(XhciDataStageTrbBitPart::Dir, true);
        data_trb.set(XhciDataStageTrbBitPart::Idt, false);
        data_trb.set(XhciDataStageTrbBitPart::Ioc, false);
        data_trb.set(XhciDataStageTrbBitPart::Ch, false);
        data_trb.set(XhciDataStageTrbBitPart::Ns, false);
        data_trb.set(XhciDataStageTrbBitPart::Isp, false);
        data_trb.set(XhciDataStageTrbBitPart::Ent, false);
        data_trb.set(XhciDataStageTrbBitPart::C, data.cycle);
        ring.write(data.trb, data_trb.data_buffer as u32, (data_trb.data_buffer >> 32) as u32, data_trb.dword2, data_trb.dword3);

        let old_status = ring.trb(status.trb);
        let mut status_trb = XhciStatusStageTrb {
            reserved0: old_status.dwords[0],
            reserved1: old_status.dwords[1],
            dword2: old_status.dwords[2],
            dword3: old_status.dwords[3],
        };
        status_trb.set_type();
        status_trb.set_interrupter_target(interrupter_target);
        status_trb.set(XhciStatusStageTrbBitPart::Dir, false);
        status_trb.set(XhciStatusStageTrbBitPart::Ioc, ioc);
        status_trb.set(XhciStatusStageTrbBitPart::Ch, false);
        status_trb.set(XhciStatusStageTrbBitPart::Ent, false);
        status_trb.set(XhciStatusStageTrbBitPart::C, status.cycle);
        ring.write(status.trb, status_trb.reserved0, status_trb.reserved1, status_trb.dword2, status_trb.dword3);

        let len = ring.words.len();
        assert(trb_word(ring.base, setup.trb) + 4 <= len);
        let ks3 = ((setup.trb - ring.base) / 16 * 4 + 3) as usize;
        assert(ks3 == trb_word(ring.base, setup.trb) + 3);
        let w = ring.words[ks3];
        ring.words.set(ks3, crate::bits::write_bit32(w, 0, setup.cycle));
        proof {
            let w3 = old_setup.dwords@;
            assert(setup_read_words(w3, *request) =~= seq![
                (setup_trb.bm_request_type as u32) | ((setup_trb.b_request as u32) << 8) | ((setup_trb.w_value as u32) << 16),
                (setup_trb.w_index as u32) | ((setup_trb.w_length as u32) << 16),
                setup_trb.dword2,
                setup_trb.dword3,
            ]);
        }
        self.ring()
    }
}

impl XhciEndpoint {
    /// Puts a request without data stage on the ring: setup and status
    /// stages in the next two TRBs. The request's value field is not
    /// written: the setup stage keeps the value bytes it held. Gives the
    /// word to write to the device's doorbell.
    pub fn send_control_no_data(
        &mut self,
        ring: &mut TrbRing,
        request: &UsbStandardDeviceRequest,
        interrupter_target: u16,
        ioc: bool,
    ) -> (r: u32)
        requires
            old(self).endpoint_number < 0xF0,
            next_trb_ok(*old(self), old(ring).base, old(ring).words@),
            ({
                let (s, e1, w1) = next_trb_spec(*old(self), old(ring).base, old(ring).words@);
                next_trb_ok(e1, old(ring).base, w1)
            }),
        ensures
            final(ring).base == old(ring).base,
            ({
                let base = old(ring).base;
                let (s, e1, w1) = next_trb_spec(*old(self), base, old(ring).words@);
                let (t, e2, w2) = next_trb_spec(e1, base, w1);
                let ks = trb_word(base, s.trb);
                let kt = trb_word(base, t.trb);
                let w3 = trb_written(w2, ks, setup_no_data_words(trb_at(w2, ks), *request, s.cycle));
                &&& final(ring).words@ == trb_written(
                    w3,
                    kt,
                    status_no_data_words(trb_at(w3, kt), interrupter_target, ioc, t.cycle),
                )
                &&& *final(self) == e2
                &&& r == doorbell_word(e2)
            }),
    {
        let setup = self.next_trb(ring);
        let status = self.next_trb(ring);

        let old_setup = ring.trb(setup.trb);
        let mut setup_trb = XhciSetupStageTrb {
            bm_request_type: 0,
            b_request: 0,
            w_value: (old_setup.dwords[0] >> 16) as u16,
            w_index: 0,
            w_length: 0,
            dword2: old_setup.dwords[2],
            dword3: old_setup.dwords[3],
        };
        setup_trb.b_request = request.b_request;
        setup_trb.bm_request_type = request.bm_request_type;
        setup_trb.w_index = request.w_index;
        setup_trb.w_length = request.w_length;
        setup_trb.set_type();
        setup_trb.set_trb_transfer_length();
        setup_trb.set_trt(XhciTransferType::NoDataStage);
        setup_trb.set_ioc(false);
        setup_trb.set_idt(true);
        setup_trb.set_interrupter_target(0);
        setup_trb.set_c(setup.cycle);
        ring.write(
            setup.trb,
            (setup_trb.bm_request_type as u32) | ((setup_trb.b_request as u32) << 8) | ((setup_trb.w_value as u32) << 16),
            (setup_trb.w_index as u32) | ((setup_trb.w_length as u32) << 16),
            setup_trb.dword2,
            setup_trb.dword3,
        );

        let old_status = ring.trb(status.trb);
        let mut status_trb = XhciStatusStageTrb {
            reserved0: old_status.dwords[0],
            reserved1: old_status.dwords[1],
            dword2: old_status.dwords[2],
            dword3: old_status.dwords[3],
        };
        status_trb.set_type();
        status_trb.set_interrupter_target(interrupter_target);
        status_trb.set(XhciStatusStageTrbBitPart::Ioc, ioc);
        status_trb.set(XhciStatusStageTrbBitPart::Ch, false);
        status_trb.set(XhciStatusStageTrbBitPart::C, status.cycle);
        status_trb.set(XhciStatusStageTrbBitPart::Dir, true);
        status_trb.set(XhciStatusStageTrbBitPart::Ent, false);
        ring.write(status.trb, status_trb.reserved0, status_trb.reserved1, status_trb.dword2, status_trb.dword3);
        proof {
            let w = old_setup.dwords@;
            assert(setup_no_data_words(w, *request, setup.cycle) =~= seq![
                (setup_trb.bm_request_type as u32) | ((setup_trb.b_request as u32) << 8) | ((setup_trb.w_value as u32) << 16),
                (setup_trb.w_index as u32) | ((setup_trb.w_length as u32) << 16),
                setup_trb.dword2,
                setup_trb.dword3,
            ]);
        }
        self.ring()
    }
}

} // verus!
