//! Transfer descriptor lists of UHCI endpoints: chaining descriptors into a
//! closed list, filling them for a transfer, re-arming them after an
//! interrupt transfer, and the marks that a finished transfer leaves in the
//! element link of its queue head.
use vstd::prelude::*;
use crate::bits::{bit32, field32, with_bit32};
use crate::uhci::{
    td_bit_written, td_part_written, UhciTransferDescriptor, UhciTransferDescriptorBitPart,
    UhciTransferDescriptorPart,
};
use crate::xhci_controller::Direction;

verus! {

/// Mark of a queue head whose interrupt transfer finished.
pub const QUEUE_HEAD_WAS_INTERRUPT: u32 = 0x2000_0000;

/// Mark of a queue head whose control transfer finished.
pub const QUEUE_HEAD_WAS_CONTROL: u32 = 0x4000_0000;

/// Mark of a finished control transfer without data stage.
pub const QUEUE_HEAD_CONTROL_SIMPLE: u32 = 0x2000_0000;

/// Mark of a queue head whose control transfer used a page of its own.
pub const QUEUE_HEAD_WAS_CUSTOM: u32 = 0x8000_0000;

/// Size of a transfer descriptor in memory.
pub const TD_SIZE: u32 = 16;

/// The words of descriptor `i` of `n` after it was chained into a closed
/// list: linked to the next descriptor at `next`, or terminated if it is
/// the last; depth first as `vf` says; marked low speed for a low-speed
/// device; three retries.
pub open spec fn closed_td(w: Seq<u32>, last: bool, next: u32, low_speed: bool, vf: bool) -> Seq<u32> {
    let w1 = if !last {
        w.update(0, (w[0] & 0xFu32) | (next & !0xFu32))
    } else {
        td_bit_written(w, UhciTransferDescriptorBitPart::T, true)
    };
    let w2 = td_bit_written(w1, UhciTransferDescriptorBitPart::Vf, vf);
    let w3 = if low_speed {
        td_bit_written(w2, UhciTransferDescriptorBitPart::Ls, true)
    } else {
        w2
    };
    td_part_written(w3, UhciTransferDescriptorPart::CErr, 0b11)
}

/// Chains the descriptors into a closed list: each links to the next, the
/// last terminates.
pub fn construct_closed_td_list(transfer_descriptors: &mut Vec<UhciTransferDescriptor>, low_speed: bool, vf: bool)
    ensures
        final(transfer_descriptors)@.len() == old(transfer_descriptors)@.len(),
        forall|i: int|
            0 <= i < old(transfer_descriptors)@.len() ==> {
                &&& (#[trigger] final(transfer_descriptors)@[i]).address == old(transfer_descriptors)@[i].address
                &&& final(transfer_descriptors)@[i].dwords@ == closed_td(
                    old(transfer_descriptors)@[i].dwords@,
                    i == old(transfer_descriptors)@.len() - 1,
                    if i + 1 < old(transfer_descriptors)@.len() {
                        old(transfer_descriptors)@[i + 1].address
                    } else {
                        0
                    },
                    low_speed,
                    vf,
                )
            },
{
    let ghost before = transfer_descriptors@;
    let n = transfer_descriptors.len();
    let mut i: usize = 0;
    while i < n
        invariant
            n == before.len(),
            transfer_descriptors@.len() == n,
            i <= n,
            forall|k: int| i <= k < n ==> #[trigger] transfer_descriptors@[k] == before[k],
            forall|k: int|
                0 <= k < i ==> {
                    &&& (#[trigger] transfer_descriptors@[k]).address == before[k].address
                    &&& transfer_descriptors@[k].dwords@ == closed_td(
                        before[k].dwords@,
                        k == n - 1,
                        if k + 1 < n {
                            before[k + 1].address
                        } else {
                            0
                        },
                        low_speed,
                        vf,
                    )
                },
        decreases n - i,
    {
        let mut td = transfer_descriptors[i];
        if i != n - 1 {
            let next = transfer_descriptors[i + 1].address();
            td.write_link_pointer(next);
        } else {
            td.set(UhciTransferDescriptorBitPart::T, true);
        }
        td.set(UhciTransferDescriptorBitPart::Vf, vf);
        if low_speed {
            td.set(UhciTransferDescriptorBitPart::Ls, true);
        }
        td.set_part(UhciTransferDescriptorPart::CErr, 0b11);
        transfer_descriptors.set(i, td);
        i = i + 1;
    }
}

/// The packet ID of a transfer in a direction: IN, or OUT.
pub open spec fn pid_of(d: Direction) -> u32 {
    if d == Direction::In {
        0x69
    } else {
        0xE1
    }
}

/// The words of descriptor `i` of a transfer of up to `max_packet_size`
/// bytes in pieces of 64: the device and endpoint, the packet ID, the
/// maximum length less one, low speed, active, no bytes moved yet, and a
/// data toggle that alternates from zero.
pub open spec fn transfer_td(
    w: Seq<u32>,
    i: int,
    device_address: u8,
    endpoint_number: u8,
    direction: Direction,
    max_packet_size: u16,
    low_speed: bool,
) -> Seq<u32> {
    let rem = max_packet_size - 64 * i;
    let w1 = td_part_written(w, UhciTransferDescriptorPart::DeviceAddress, device_address as u32);
    let w2 = td_part_written(w1, UhciTransferDescriptorPart::EndPt, endpoint_number as u32);
    let w3 = td_part_written(w2, UhciTransferDescriptorPart::Pid, pid_of(direction));
    let w4 = td_part_written(
        w3,
        UhciTransferDescriptorPart::MaxLen,
        if rem > 64 {
            63u32
        } else {
            (rem - 1) as u32
        },
    );
    let w5 = td_bit_written(w4, UhciTransferDescriptorBitPart::Ls, low_speed);
    let w6 = td_part_written(w5, UhciTransferDescriptorPart::Status, 0x80);
    let w7 = td_part_written(w6, UhciTransferDescriptorPart::ActLen, 0);
    td_bit_written(w7, UhciTransferDescriptorBitPart::D, i % 2 == 1)
}

/// Fills the descriptors for one transfer of up to `max_packet_size` bytes
/// of endpoint `endpoint_number` of the device at `device_address`, 64
/// bytes per descriptor, and makes them active. Every descriptor must get
/// at least one byte.
pub fn configure_transfer_descriptors(
    transfer_descriptors: &mut Vec<UhciTransferDescriptor>,
    endpoint_number: u8,
    direction: Direction,
    max_packet_size: u16,
    device_address: u8,
    low_speed: bool,
)
    requires
        direction != Direction::TdDependent,
        64 * old(transfer_descriptors)@.len() < max_packet_size + 64,
    ensures
        final(transfer_descriptors)@.len() == old(transfer_descriptors)@.len(),
        forall|i: int|
            0 <= i < old(transfer_descriptors)@.len() ==> {
                &&& (#[trigger] final(transfer_descriptors)@[i]).address == old(transfer_descriptors)@[i].address
                &&& final(transfer_descriptors)@[i].dwords@ == transfer_td(
                    old(transfer_descriptors)@[i].dwords@,
                    i,
                    device_address,
                    endpoint_number,
                    direction,
                    max_packet_size,
                    low_speed,
                )
            },
{
    let ghost before = transfer_descriptors@;
    let n = transfer_descriptors.len();
    let mut data_toggle = false;
    let mut length_rem = max_packet_size;
    let mut i: usize = 0;
    while i < n
        invariant
            n == before.len(),
            direction != Direction::TdDependent,
            64 * n < max_packet_size + 64,
            transfer_descriptors@.len() == n,
            i <= n,
            i < n ==> length_rem == max_packet_size - 64 * i,
            data_toggle == (i % 2 == 1),
            forall|k: int| i <= k < n ==> #[trigger] transfer_descriptors@[k] == before[k],
            forall|k: int|
                0 <= k < i ==> {
                    &&& (#[trigger] transfer_descriptors@[k]).address == before[k].address
                    &&& transfer_descriptors@[k].dwords@ == transfer_td(
                        before[k].dwords@,
                        k,
                        device_address,
                        endpoint_number,
                        direction,
                        max_packet_size,
                        low_speed,
                    )
                },
        decreases n - i,
    {
        let mut td = transfer_descriptors[i];
        td.set_part(UhciTransferDescriptorPart::DeviceAddress, device_address as u32);
        td.set_part(UhciTransferDescriptorPart::EndPt, endpoint_number as u32);
        match direction {
            Direction::In => td.set_part(UhciTransferDescriptorPart::Pid, 0x69),
            _ => td.set_part(UhciTransferDescriptorPart::Pid, 0xE1),
        }
        if length_rem > 64 {
            td.set_part(UhciTransferDescriptorPart::MaxLen, 63);
            length_rem = length_rem - 64;
        } else {
            td.set_part(UhciTransferDescriptorPart::MaxLen, length_rem as u32 - 1);
            length_rem = 0;
        }
        td.set(UhciTransferDescriptorBitPart::Ls, low_speed);
        td.set_part(UhciTransferDescriptorPart::Status, 0x80);
        td.set_part(UhciTransferDescriptorPart::ActLen, 0);
        td.set(UhciTransferDescriptorBitPart::D, data_toggle);
        data_toggle = !data_toggle;
        transfer_descriptors.set(i, td);
        i = i + 1;
    }
}

/// Descriptors needed for a packet: one per 64 bytes, rounded up.
pub fn tds_for_packet(max_packet_size: u16) -> (r: u16)
    ensures
        r == (max_packet_size + 63) / 64,
{
    let mut tds_needed = max_packet_size / 64;
    if max_packet_size % 64 != 0 {
        tds_needed = tds_needed + 1;
    }
    tds_needed
}

/// The words of a descriptor of a finished interrupt transfer re-armed for
/// the next one: the data toggle flipped when the transfer has an odd number
/// of descriptors, no bytes moved, interrupt on completion, active.
pub open spec fn rearmed_td(w: Seq<u32>, flip_toggle: bool) -> Seq<u32> {
    let w1 = if flip_toggle {
        td_bit_written(
            w,
            UhciTransferDescriptorBitPart::D,
            !bit32(w[UhciTransferDescriptorBitPart::D.layout_spec().0], UhciTransferDescriptorBitPart::D.layout_spec().1),
        )
    } else {
        w
    };
    let w2 = td_part_written(w1, UhciTransferDescriptorPart::ActLen, 0);
    let w3 = td_bit_written(w2, UhciTransferDescriptorBitPart::Ioc, true);
    td_part_written(w3, UhciTransferDescriptorPart::Status, 0x80)
}

/// The status field of a descriptor.
pub open spec fn td_status(w: Seq<u32>) -> u32 {
    field32(w[1], 16, 0xff)
}

/// Re-arms the descriptors of a finished interrupt transfer, which must all
/// have completed without error.
pub fn rearm_interrupt_tds(tds: &mut Vec<UhciTransferDescriptor>)
    requires
        forall|i: int| 0 <= i < old(tds)@.len() ==> td_status((#[trigger] old(tds)@[i]).dwords@) == 0,
    ensures
        final(tds)@.len() == old(tds)@.len(),
        forall|i: int|
            0 <= i < old(tds)@.len() ==> {
                &&& (#[trigger] final(tds)@[i]).address == old(tds)@[i].address
                &&& final(tds)@[i].dwords@ == rearmed_td(old(tds)@[i].dwords@, old(tds)@.len() % 2 != 0)
            },
{
    let ghost before = tds@;
    let n = tds.len();
    let flip_toggle = n % 2 != 0;
    let mut i: usize = 0;
    while i < n
        invariant
            n == before.len(),
            tds@.len() == n,
            flip_toggle == (n % 2 != 0),
            i <= n,
            forall|k: int| i <= k < n ==> #[trigger] tds@[k] == before[k],
            forall|k: int|
                0 <= k < i ==> {
                    &&& (#[trigger] tds@[k]).address == before[k].address
                    &&& tds@[k].dwords@ == rearmed_td(before[k].dwords@, flip_toggle)
                },
        decreases n - i,
    {
        let mut td = tds[i];
        if flip_toggle {
            let d = td.is_set(UhciTransferDescriptorBitPart::D);
            td.set(UhciTransferDescriptorBitPart::D, !d);
        }
        td.set_part(UhciTransferDescriptorPart::ActLen, 0);
        td.set(UhciTransferDescriptorBitPart::Ioc, true);
        td.set_part(UhciTransferDescriptorPart::Status, 0x80);
        tds.set(i, td);
        i = i + 1;
    }
}

/// The link that the last descriptor of an interrupt transfer carries: the
/// interrupt mark, the offset of the first descriptor in its list and the
/// number of descriptors.
pub fn interrupt_marker(td_offset: u32, num_tds: u32) -> (r: u32)
    ensures
        r == QUEUE_HEAD_WAS_INTERRUPT | ((td_offset & 0xFFF) << 12u32) | ((num_tds & 0xFF) << 4u32),
{
    QUEUE_HEAD_WAS_INTERRUPT | ((td_offset & 0xFFF) << 12) | ((num_tds & 0xFF) << 4)
}

/// What the element link of a queue head says about its transfer.
#[derive(Clone, Copy, PartialEq, Eq, Structural, Debug)]
pub enum UhciQueueMark {
    /// A control transfer finished; its descriptors start at `td_index` of
    /// the control descriptors, and `clear_count` of them are reset.
    ControlFinished { td_index: u32, clear_count: u32 },
    /// A control transfer with a page of its own finished: the page to give
    /// back, and the descriptor the queue head goes back to.
    CustomFinished { page_to_free: u32, td_offset: u32 },
    /// An interrupt transfer finished: where its descriptors start in their
    /// list, and how many there are.
    InterruptFinished { td_offset: u32, num_tds: u32 },
    /// Still running.
    Running,
}

/// Reads the element link of a control queue head.
pub fn control_mark(next_link: u32) -> (r: UhciQueueMark)
    ensures
        r == if next_link & QUEUE_HEAD_WAS_CONTROL != 0 {
            UhciQueueMark::ControlFinished {
                td_index: (next_link >> 8u32) & 0xFF,
                clear_count: if next_link & QUEUE_HEAD_CONTROL_SIMPLE != 0 {
                    2
                } else {
                    3
                },
            }
        } else if next_link & QUEUE_HEAD_WAS_CUSTOM != 0 {
            UhciQueueMark::CustomFinished {
                page_to_free: (next_link >> 8u32) & 0xFF,
                td_offset: (next_link >> 16u32) & 0xFF,
            }
        } else {
            UhciQueueMark::Running
        },
{
    if next_link & QUEUE_HEAD_WAS_CONTROL != 0 {
        let clear_count = if next_link & QUEUE_HEAD_CONTROL_SIMPLE != 0 {
            2
        } else {
            3
        };
        UhciQueueMark::ControlFinished { td_index: (next_link >> 8) & 0xFF, clear_count }
    } else if next_link & QUEUE_HEAD_WAS_CUSTOM != 0 {
        UhciQueueMark::CustomFinished {
            page_to_free: (next_link >> 8) & 0xFF,
            td_offset: (next_link >> 16) & 0xFF,
        }
    } else {
        UhciQueueMark::Running
    }
}

/// Reads the element link of an interrupt queue head.
pub fn interrupt_mark(qele: u32) -> (r: UhciQueueMark)
    ensures
        r == if qele & QUEUE_HEAD_WAS_INTERRUPT != 0 {
            UhciQueueMark::InterruptFinished { td_offset: (qele >> 12u32) & 0xFFF, num_tds: (qele >> 4u32) & 0xFF }
        } else {
            UhciQueueMark::Running
        },
{
    if qele & QUEUE_HEAD_WAS_INTERRUPT != 0 {
        UhciQueueMark::InterruptFinished { td_offset: (qele >> 12) & 0xFFF, num_tds: (qele >> 4) & 0xFF }
    } else {
        UhciQueueMark::Running
    }
}

/// The mark an interrupt transfer leaves is read back as finished, with the
/// offset and count it was made with.
pub proof fn lemma_interrupt_mark_roundtrip(td_offset: u32, num_tds: u32)
    requires
        td_offset < 0x1000,
        num_tds < 0x100,
    ensures
        ({
            let m = QUEUE_HEAD_WAS_INTERRUPT | ((td_offset & 0xFFF) << 12u32) | ((num_tds & 0xFF) << 4u32);
            &&& m & QUEUE_HEAD_WAS_INTERRUPT != 0
            &&& (m >> 12u32) & 0xFFF == td_offset
            &&& (m >> 4u32) & 0xFF == num_tds
        }),
{
    assert(({
        let m = 0x2000_0000u32 | ((td_offset & 0xFFF) << 12u32) | ((num_tds & 0xFF) << 4u32);
        &&& m & 0x2000_0000u32 != 0
        &&& (m >> 12u32) & 0xFFF == td_offset
        &&& (m >> 4u32) & 0xFF == num_tds
    })) by (bit_vector)
        requires
            td_offset < 0x1000,
            num_tds < 0x100,
    ;
}

/// The words of a descriptor of a finished control transfer made ready for
/// the next: three retries, no bytes moved, no maximum length, no status,
/// no buffer.
pub open spec fn cleared_td(w: Seq<u32>) -> Seq<u32> {
    let w1 = td_part_written(w, UhciTransferDescriptorPart::CErr, 0b11);
    let w2 = td_part_written(w1, UhciTransferDescriptorPart::ActLen, 0);
    let w3 = td_part_written(w2, UhciTransferDescriptorPart::MaxLen, 0);
    let w4 = td_part_written(w3, UhciTransferDescriptorPart::Status, 0);
    w4.update(3, 0)
}

/// Resets the first `clear_count` descriptors of a finished control
/// transfer and links the last of them, active, to the descriptor after
/// them. Gives the device address the transfer went to.
pub fn reset_control_tds(tds: &mut Vec<UhciTransferDescriptor>, clear_count: usize) -> (r: u32)
    requires
        1 <= clear_count <= old(tds)@.len(),
        old(tds)@[0].address + TD_SIZE * clear_count <= u32::MAX,
    ensures
        final(tds)@.len() == old(tds)@.len(),
        forall|i: int| clear_count <= i < old(tds)@.len() ==> #[trigger] final(tds)@[i] == old(tds)@[i],
        forall|i: int|
            0 <= i < clear_count - 1 ==> (#[trigger] final(tds)@[i]).address == old(tds)@[i].address
                && final(tds)@[i].dwords@ == cleared_td(old(tds)@[i].dwords@),
        final(tds)@[clear_count - 1].address == old(tds)@[clear_count - 1].address,
        final(tds)@[clear_count - 1].dwords@ == td_bit_written(
            ({
                let w = cleared_td(old(tds)@[clear_count - 1].dwords@);
                w.update(0, (w[0] & 0xFu32) | (((old(tds)@[0].address + TD_SIZE * clear_count) as u32) & !0xFu32))
            }),
            UhciTransferDescriptorBitPart::T,
            false,
        ),
        r == field32(final(tds)@[0].dwords@[2], 8, 0x7f),
{
    let ghost before = tds@;
    let base = tds[0].address();
    let mut i: usize = 0;
    while i < clear_count
        invariant
            before.len() == tds@.len(),
            clear_count <= tds@.len(),
            i <= clear_count,
            forall|k: int| i <= k < tds@.len() ==> #[trigger] tds@[k] == before[k],
            forall|k: int|
                0 <= k < i ==> (#[trigger] tds@[k]).address == before[k].address && tds@[k].dwords@
                    == cleared_td(before[k].dwords@),
        decreases clear_count - i,
    {
        let mut td = tds[i];
        td.set_part(UhciTransferDescriptorPart::CErr, 0b11);
        td.set_part(UhciTransferDescriptorPart::ActLen, 0);
        td.set_part(UhciTransferDescriptorPart::MaxLen, 0);
        td.set_part(UhciTransferDescriptorPart::Status, 0);
        td.write_buffer_pointer(0);
        tds.set(i, td);
        i = i + 1;
    }
    let mut end_td = tds[clear_count - 1];
    end_td.write_link_pointer(base + TD_SIZE * (clear_count as u32));
    end_td.set(UhciTransferDescriptorBitPart::T, false);
    tds.set(clear_count - 1, end_td);
    tds[0].get_part(UhciTransferDescriptorPart::DeviceAddress)
}

/// What the controller's status register reports when it interrupts.
#[derive(PartialEq, Eq, Structural, Clone, Copy, Debug)]
pub enum UhciInterruptCause {
    /// A transfer completed: the queue heads are to be checked.
    TransferCompleted,
    /// A transfer ended in an error.
    TransferError,
    /// A device signalled resume.
    ResumeDetected,
    /// The host system reported an error.
    HostSystemError,
    /// The controller met an inconsistent schedule.
    ProcessError,
    /// More than one cause, or none known.
    Unknown,
}

/// The cause of an interrupt, read from the status word with the halted bit
/// cleared; only a word with exactly one known bit names a cause.
pub open spec fn interrupt_cause_of(status: u16) -> UhciInterruptCause {
    let s = status & 0xFFDFu16;
    if s == 1 {
        UhciInterruptCause::TransferCompleted
    } else if s == 2 {
        UhciInterruptCause::TransferError
    } else if s == 4 {
        UhciInterruptCause::ResumeDetected
    } else if s == 8 {
        UhciInterruptCause::HostSystemError
    } else if s == 16 {
        UhciInterruptCause::ProcessError
    } else {
        UhciInterruptCause::Unknown
    }
}

/// Decodes the status word read when the controller interrupts.
pub fn interrupt_cause(status: u16) -> (r: UhciInterruptCause)
    ensures
        r == interrupt_cause_of(status),
{
    let s = status & 0xFFDF;
    if s == 1 {
        UhciInterruptCause::TransferCompleted
    } else if s == 2 {
        UhciInterruptCause::TransferError
    } else if s == 4 {
        UhciInterruptCause::ResumeDetected
    } else if s == 8 {
        UhciInterruptCause::HostSystemError
    } else if s == 16 {
        UhciInterruptCause::ProcessError
    } else {
        UhciInterruptCause::Unknown
    }
}

} // verus!
