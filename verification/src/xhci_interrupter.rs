//! The event ring of an xHCI interrupter: which TRB is consumed next, when
//! the ring wraps and the consumer cycle state flips.
//!
//! The ring's memory is read by the caller: each step is handed the last
//! word of the TRB at the dequeue pointer and says whether it was an event.
use vstd::prelude::*;
use crate::bits::{bit32, test_bit32, with_bit32, write_bit32};
use crate::xhci_registers::XhciInterruptRegisterSet;
use crate::xhci_trb::{is_trb_id, XhciTrbId};

verus! {

/// Number of TRBs in the event ring segment.
pub const EVENT_RING_TRBS: u64 = 512;

/// Size of a TRB in bytes.
pub const TRB_SIZE: u64 = 16;

/// An entry of the event ring segment table: where a segment starts and how many TRBs it holds.
#[derive(Clone, Copy)]
pub struct XhciEventRingSegmentTableEntry {
    pub address: u64,
    pub size: u16,
}

/// An interrupter and the state of its event ring.
pub struct XhciInterrupter {
    pub ir: XhciInterruptRegisterSet,
    pub er_segment_table: u64,
    pub segment_base: u64,
    pub dequeue_pointer: u64,
    pub end: u64,
    pub css: bool,
    pub got_events: bool,
}

impl XhciInterrupter {
    /// An interrupter with no registers and no ring.
    pub fn empty() -> (r: Self)
        ensures
            r.ir.addr == 0,
            r.er_segment_table == 0 && r.segment_base == 0,
            r.dequeue_pointer == 0 && r.end == 0,
            r.css,
            !r.got_events,
    {
        XhciInterrupter {
            ir: XhciInterruptRegisterSet::new(0),
            er_segment_table: 0,
            segment_base: 0,
            dequeue_pointer: 0,
            end: 0,
            css: true,
            got_events: false,
        }
    }

    /// The interrupter whose segment table lies at `er_segment_table` and
    /// whose one segment of 512 TRBs starts at `er_segment`.
    pub fn new(ir: XhciInterruptRegisterSet, er_segment_table: u64, er_segment: u64) -> (r: Self)
        requires
            er_segment + EVENT_RING_TRBS * TRB_SIZE <= u64::MAX,
        ensures
            r.ir == ir,
            r.er_segment_table == er_segment_table,
            r.segment_base == er_segment,
            r.dequeue_pointer == er_segment,
            r.end == er_segment + EVENT_RING_TRBS * TRB_SIZE,
            r.css,
            !r.got_events,
    {
        XhciInterrupter {
            ir,
            er_segment_table,
            segment_base: er_segment,
            dequeue_pointer: er_segment,
            end: er_segment + EVENT_RING_TRBS * TRB_SIZE,
            css: true,
            got_events: false,
        }
    }

    /// The entry to store in the segment table: the segment and its 512 TRBs.
    pub fn segment_table_entry(&self) -> (r: XhciEventRingSegmentTableEntry)
        ensures
            r.address == self.segment_base,
            r.size == 512,
    {
        XhciEventRingSegmentTableEntry { address: self.segment_base, size: 512 }
    }

    /// The word 0 to write back to acknowledge the interrupt: `value` with
    /// its interrupt-pending bit set (it is cleared by writing one).
    pub fn clear_ip(&self, value: u32) -> (r: u32)
        ensures
            r == with_bit32(value, 0, true),
    {
        write_bit32(value, 0, true)
    }

    /// The word 6 to write back to release the event handler: `value` with
    /// its event-handler-busy bit set (it is cleared by writing one).
    pub fn clear_ehb(&self, value: u32) -> (r: u32)
        ensures
            r == with_bit32(value, 3, true),
    {
        write_bit32(value, 3, true)
    }

    /// One step of consuming the event ring. `dword3` is the last word of
    /// the TRB at the dequeue pointer. When its cycle bit equals the
    /// consumer cycle state it is an event: its type is returned, the
    /// dequeue pointer moves on by one TRB and, at the end of the segment,
    /// wraps to its start with the cycle state flipped. Otherwise nothing
    /// changes and `None` says that the ring is empty.
    pub fn consume_event(&mut self, dword3: u32) -> (r: Option<XhciTrbId>)
        requires
            old(self).dequeue_pointer + TRB_SIZE <= u64::MAX,
            bit32(dword3, 0) == old(self).css ==> is_trb_id((dword3 >> 10u32) & 0x3Fu32),
        ensures
            bit32(dword3, 0) != old(self).css ==> r is None && *final(self) == *old(self),
            bit32(dword3, 0) == old(self).css ==> {
                &&& r matches Some(id) && id.id_spec() == (dword3 >> 10u32) & 0x3Fu32
                &&& final(self).got_events
                &&& final(self).ir == old(self).ir
                &&& final(self).er_segment_table == old(self).er_segment_table
                &&& final(self).segment_base == old(self).segment_base
                &&& final(self).end == old(self).end
                &&& if old(self).dequeue_pointer + TRB_SIZE == old(self).end {
                    final(self).dequeue_pointer == old(self).segment_base && final(self).css
                        == !old(self).css
                } else {
                    final(self).dequeue_pointer == old(self).dequeue_pointer + TRB_SIZE
                        && final(self).css == old(self).css
                }
            },
    {
        if test_bit32(dword3, 0) == self.css {
            let id = XhciTrbId::from_u32((dword3 >> 10) & 0x3F);
            self.got_events = true;
            self.dequeue_pointer = self.dequeue_pointer + TRB_SIZE;
            if self.dequeue_pointer == self.end {
                self.dequeue_pointer = self.segment_base;
                self.css = !self.css;
            }
            Some(id)
        } else {
            None
        }
    }

    /// One poll for events: whether events arrived since the last poll,
    /// which forgets them.
    pub fn wait_for_events(&mut self) -> (r: bool)
        ensures
            r == old(self).got_events,
            !final(self).got_events,
            final(self).dequeue_pointer == old(self).dequeue_pointer,
            final(self).css == old(self).css,
    {
        if self.got_events {
            self.got_events = false;
            true
        } else {
            false
        }
    }
}

} // verus!
