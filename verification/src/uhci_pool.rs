//! The memory a UHCI controller hands out to endpoints: queue heads and
//! transfer descriptors carved out of a few pages, and slots for endpoint
//! records, each taken in order and never given back.
use vstd::prelude::*;

verus! {

/// Size of a queue head or a transfer descriptor in memory.
pub const UHCI_RECORD_SIZE: u32 = 16;

/// Queue heads for interrupt endpoints, one per polling interval.
pub const INTERRUPT_QUEUE_HEADS: u32 = 11;

/// Queue heads for bulk endpoints.
pub const BULK_QUEUE_HEADS: u32 = 11;

/// Queue heads for control endpoints.
pub const CONTROL_QUEUE_HEADS: u32 = 234;

/// Transfer descriptors for bulk endpoints, and for control endpoints.
pub const BULK_TRANSFER_DESCRIPTORS: u32 = 128;

pub const CONTROL_TRANSFER_DESCRIPTORS: u32 = 128;

/// The transfer descriptors of one interrupt polling interval: where they
/// start in their page and how many there are.
pub open spec fn interrupt_run(index: int) -> (u32, u32) {
    if index == 0 {
        (0, 128)
    } else if index == 1 {
        (128, 20)
    } else if index == 2 {
        (148, 20)
    } else if index == 3 {
        (168, 32)
    } else if index == 4 {
        (200, 16)
    } else if index == 5 {
        (216, 16)
    } else if index == 6 {
        (232, 6)
    } else if index == 7 {
        (238, 6)
    } else if index == 8 {
        (244, 6)
    } else if index == 9 {
        (250, 4)
    } else {
        (254, 2)
    }
}

/// Where the descriptors of interrupt polling interval `index` start in
/// their page, and how many there are.
pub fn interrupt_run_of(index: usize) -> (r: (u32, u32))
    requires
        index < 11,
    ensures
        r == interrupt_run(index as int),
{
    if index == 0 {
        (0, 128)
    } else if index == 1 {
        (128, 20)
    } else if index == 2 {
        (148, 20)
    } else if index == 3 {
        (168, 32)
    } else if index == 4 {
        (200, 16)
    } else if index == 5 {
        (216, 16)
    } else if index == 6 {
        (232, 6)
    } else if index == 7 {
        (238, 6)
    } else if index == 8 {
        (244, 6)
    } else if index == 9 {
        (250, 4)
    } else {
        (254, 2)
    }
}

/// The pages and slots of a UHCI controller's endpoint memory, and how
/// much of each has been handed out.
pub struct UhciInterfaceData {
    /// Page of queue heads: interrupt ones first, then bulk, then control.
    pub queue_heads: u32,
    /// Page of transfer descriptors: bulk ones first, then control.
    pub transfer_descriptors: u32,
    /// Page of transfer descriptors of interrupt endpoints, in runs by
    /// polling interval.
    pub interrupt_transfer_descriptors: u32,
    /// Pages of transfer descriptors of isochronous endpoints.
    pub isochronous_transfer_descriptors: u32,
    pub control_endpoints: u32,
    pub td_arrays: u32,
    /// For each interrupt queue head, the polling interval it serves.
    pub interrupt_queue_heads_indices: Vec<u8>,
    pub allocated_control_endpoints: u8,
    pub allocated_td_arrays: u8,
    pub allocated_interrupt_queue_heads: u8,
    pub allocated_control_queue_heads: u8,
    pub allocated_bulk_queue_heads: u8,
    pub allocated_bulk_transfer_descriptors: u8,
    pub allocated_control_transfer_descriptors: u8,
    pub allocated_isochronous_transfer_descriptors: u16,
    pub allocated_interrupt_transfer_descriptors: Vec<u8>,
}

impl UhciInterfaceData {
    /// Nothing to hand out yet.
    pub fn empty() -> (r: Self)
        ensures
            r.control_endpoints == 0 && r.td_arrays == 0,
            r.interrupt_queue_heads_indices@.len() == 0,
            r.allocated_interrupt_transfer_descriptors@ == Seq::new(11, |i: int| 0u8),
            r.allocated_control_endpoints == 0 && r.allocated_td_arrays == 0,
            r.allocated_interrupt_queue_heads == 0 && r.allocated_control_queue_heads == 0,
            r.allocated_bulk_queue_heads == 0 && r.allocated_bulk_transfer_descriptors == 0,
            r.allocated_control_transfer_descriptors == 0 && r.allocated_isochronous_transfer_descriptors == 0,
    {
        let mut counts: Vec<u8> = Vec::new();
        let mut i: usize = 0;
        while i < 11
            invariant
                i <= 11,
                counts@ == Seq::new(i as nat, |k: int| 0u8),
            decreases 11 - i,
        {
            counts.push(0);
            i = i + 1;
            assert(counts@ =~= Seq::new(i as nat, |k: int| 0u8));
        }
        UhciInterfaceData {
            queue_heads: 0,
            transfer_descriptors: 0,
            interrupt_transfer_descriptors: 0,
            isochronous_transfer_descriptors: 0,
            control_endpoints: 0,
            td_arrays: 0,
            interrupt_queue_heads_indices: Vec::new(),
            allocated_control_endpoints: 0,
            allocated_td_arrays: 0,
            allocated_interrupt_queue_heads: 0,
            allocated_control_queue_heads: 0,
            allocated_bulk_queue_heads: 0,
            allocated_bulk_transfer_descriptors: 0,
            allocated_control_transfer_descriptors: 0,
            allocated_isochronous_transfer_descriptors: 0,
            allocated_interrupt_transfer_descriptors: counts,
        }
    }

    /// Takes the pages: one of queue heads, one of bulk and control
    /// descriptors, one of interrupt descriptors and two of isochronous
    /// ones, and room for `control_endpoints` control endpoint records and
    /// `td_arrays` descriptor arrays. Every interrupt queue head starts out
    /// serving the first polling interval.
    pub fn initialize(
        &mut self,
        queue_heads: u32,
        transfer_descriptors: u32,
        interrupt_transfer_descriptors: u32,
        isochronous_transfer_descriptors: u32,
        control_endpoints: u32,
        td_arrays: u32,
    )
        ensures
            final(self).queue_heads == queue_heads,
            final(self).transfer_descriptors == transfer_descriptors,
            final(self).interrupt_transfer_descriptors == interrupt_transfer_descriptors,
            final(self).isochronous_transfer_descriptors == isochronous_transfer_descriptors,
            final(self).control_endpoints == control_endpoints,
            final(self).td_arrays == td_arrays,
            final(self).interrupt_queue_heads_indices@ == Seq::new(11, |i: int| 0u8),
            final(self).allocated_interrupt_transfer_descriptors@ == old(self).allocated_interrupt_transfer_descriptors@,
            final(self).allocated_control_endpoints == old(self).allocated_control_endpoints,
            final(self).allocated_td_arrays == old(self).allocated_td_arrays,
            final(self).allocated_interrupt_queue_heads == old(self).allocated_interrupt_queue_heads,
            final(self).allocated_control_queue_heads == old(self).allocated_control_queue_heads,
            final(self).allocated_bulk_queue_heads == old(self).allocated_bulk_queue_heads,
            final(self).allocated_bulk_transfer_descriptors == old(self).allocated_bulk_transfer_descriptors,
            final(self).allocated_control_transfer_descriptors == old(self).allocated_control_transfer_descriptors,
    {
        self.queue_heads = queue_heads;
        self.transfer_descriptors = transfer_descriptors;
        self.interrupt_transfer_descriptors = interrupt_transfer_descriptors;
        self.isochronous_transfer_descriptors = isochronous_transfer_descriptors;
        self.control_endpoints = control_endpoints;
        self.td_arrays = td_arrays;
        let mut indices: Vec<u8> = Vec::new();
        let mut i: usize = 0;
        while i < 11
            invariant
                i <= 11,
                indices@ == Seq::new(i as nat, |k: int| 0u8),
            decreases 11 - i,
        {
            indices.push(0);
            i = i + 1;
            assert(indices@ =~= Seq::new(i as nat, |k: int| 0u8));
        }
        self.interrupt_queue_heads_indices = indices;
    }

    /// Takes the next control endpoint record; gives its slot.
    pub fn acquire_default_control_endpoint(&mut self) -> (r: u8)
        requires
            (old(self).allocated_control_endpoints as u32) < old(self).control_endpoints,
            old(self).allocated_control_endpoints < 255,
        ensures
            r == old(self).allocated_control_endpoints,
            *final(self) == (UhciInterfaceData {
                allocated_control_endpoints: (old(self).allocated_control_endpoints + 1) as u8,
                ..*old(self)
            }),
    {
        let r = self.allocated_control_endpoints;
        self.allocated_control_endpoints = self.allocated_control_endpoints + 1;
        r
    }

    /// Takes the next four control descriptors; gives the address of the first.
    pub fn acquire_control_tds(&mut self) -> (r: u32)
        requires
            old(self).allocated_control_transfer_descriptors + 4 <= CONTROL_TRANSFER_DESCRIPTORS,
            old(self).transfer_descriptors + 0x1000 <= u32::MAX,
        ensures
            r == old(self).transfer_descriptors + UHCI_RECORD_SIZE * (BULK_TRANSFER_DESCRIPTORS
                + old(self).allocated_control_transfer_descriptors),
            *final(self) == (UhciInterfaceData {
                allocated_control_transfer_descriptors: (old(self).allocated_control_transfer_descriptors + 4) as u8,
                ..*old(self)
            }),
    {
        let r = self.transfer_descriptors + UHCI_RECORD_SIZE * (BULK_TRANSFER_DESCRIPTORS
            + self.allocated_control_transfer_descriptors as u32);
        self.allocated_control_transfer_descriptors = self.allocated_control_transfer_descriptors + 4;
        r
    }

    /// Takes the next control queue head; gives its address.
    pub fn acquire_control_qh(&mut self) -> (r: u32)
        requires
            (old(self).allocated_control_queue_heads as u32) < CONTROL_QUEUE_HEADS,
            old(self).queue_heads + 0x1000 <= u32::MAX,
        ensures
            r == old(self).queue_heads + UHCI_RECORD_SIZE * (INTERRUPT_QUEUE_HEADS + BULK_QUEUE_HEADS
                + old(self).allocated_control_queue_heads),
            *final(self) == (UhciInterfaceData {
                allocated_control_queue_heads: (old(self).allocated_control_queue_heads + 1) as u8,
                ..*old(self)
            }),
    {
        let r = self.queue_heads + UHCI_RECORD_SIZE * (INTERRUPT_QUEUE_HEADS + BULK_QUEUE_HEADS
            + self.allocated_control_queue_heads as u32);
        self.allocated_control_queue_heads = self.allocated_control_queue_heads + 1;
        r
    }

    /// Takes the next bulk queue head; gives its address.
    pub fn acquire_bulk_qh(&mut self) -> (r: u32)
        requires
            (old(self).allocated_bulk_queue_heads as u32) < BULK_QUEUE_HEADS,
            old(self).queue_heads + 0x1000 <= u32::MAX,
        ensures
            r == old(self).queue_heads + UHCI_RECORD_SIZE * (INTERRUPT_QUEUE_HEADS
                + old(self).allocated_bulk_queue_heads),
            *final(self) == (UhciInterfaceData {
                allocated_bulk_queue_heads: (old(self).allocated_bulk_queue_heads + 1) as u8,
                ..*old(self)
            }),
    {
        let r = self.queue_heads + UHCI_RECORD_SIZE * (INTERRUPT_QUEUE_HEADS + self.allocated_bulk_queue_heads as u32);
        self.allocated_bulk_queue_heads = self.allocated_bulk_queue_heads + 1;
        r
    }

    /// Takes the next `tds_needed` bulk descriptors; gives the address of
    /// the first. There must be that many left.
    pub fn acquire_bulk_tds(&mut self, tds_needed: u8) -> (r: u32)
        requires
            old(self).allocated_bulk_transfer_descriptors + tds_needed <= BULK_TRANSFER_DESCRIPTORS,
            old(self).transfer_descriptors + 0x1000 <= u32::MAX,
        ensures
            r == old(self).transfer_descriptors + UHCI_RECORD_SIZE * old(self).allocated_bulk_transfer_descriptors,
            *final(self) == (UhciInterfaceData {
                allocated_bulk_transfer_descriptors: (old(self).allocated_bulk_transfer_descriptors + tds_needed) as u8,
                ..*old(self)
            }),
    {
        let r = self.transfer_descriptors + UHCI_RECORD_SIZE * self.allocated_bulk_transfer_descriptors as u32;
        self.allocated_bulk_transfer_descriptors = self.allocated_bulk_transfer_descriptors + tds_needed;
        r
    }

    /// Takes the next interrupt queue head and the next `tds_needed`
    /// descriptors of polling interval `index`, and notes the interval at
    /// the slot the count of bulk queue heads names. Gives the address of
    /// the queue head and of the first descriptor.
    pub fn acquire_qh_and_tds_for_interrupt(&mut self, tds_needed: u8, index: usize) -> (r: (u32, u32))
        requires
            index < 11,
            old(self).allocated_interrupt_transfer_descriptors@.len() == 11,
            old(self).interrupt_queue_heads_indices@.len() == 11,
            (old(self).allocated_interrupt_queue_heads as u32) < INTERRUPT_QUEUE_HEADS,
            (old(self).allocated_bulk_queue_heads as u32) < INTERRUPT_QUEUE_HEADS,
            old(self).allocated_interrupt_transfer_descriptors@[index as int] + tds_needed <= interrupt_run(
                index as int,
            ).1,
            old(self).queue_heads + 0x1000 <= u32::MAX,
            old(self).interrupt_transfer_descriptors + 0x1000 <= u32::MAX,
        ensures
            r.0 == old(self).queue_heads + UHCI_RECORD_SIZE * old(self).allocated_interrupt_queue_heads,
            r.1 == old(self).interrupt_transfer_descriptors + UHCI_RECORD_SIZE * (interrupt_run(index as int).0
                + old(self).allocated_interrupt_transfer_descriptors@[index as int]),
            final(self).interrupt_queue_heads_indices@ == old(self).interrupt_queue_heads_indices@.update(
                old(self).allocated_bulk_queue_heads as int,
                index as u8,
            ),
            final(self).allocated_interrupt_transfer_descriptors@
                == old(self).allocated_interrupt_transfer_descriptors@.update(
                index as int,
                (old(self).allocated_interrupt_transfer_descriptors@[index as int] + tds_needed) as u8,
            ),
            final(self).allocated_interrupt_queue_heads == old(self).allocated_interrupt_queue_heads + 1,
            final(self).allocated_bulk_queue_heads == old(self).allocated_bulk_queue_heads,
            final(self).queue_heads == old(self).queue_heads,
            final(self).interrupt_transfer_descriptors == old(self).interrupt_transfer_descriptors,
    {
        let qh = self.queue_heads + UHCI_RECORD_SIZE * self.allocated_interrupt_queue_heads as u32;
        let (start, _len) = interrupt_run_of(index);
        self.interrupt_queue_heads_indices.set(self.allocated_bulk_queue_heads as usize, index as u8);
        let used = self.allocated_interrupt_transfer_descriptors[index];
        let tds = self.interrupt_transfer_descriptors + UHCI_RECORD_SIZE * (start + used as u32);
        self.allocated_interrupt_queue_heads = self.allocated_interrupt_queue_heads + 1;
        self.allocated_interrupt_transfer_descriptors.set(index, used + tds_needed);
        (qh, tds)
    }

    /// Takes the next descriptor array record; gives its slot.
    pub fn acquire_td_array(&mut self) -> (r: u8)
        requires
            (old(self).allocated_td_arrays as u32) < old(self).td_arrays,
            old(self).allocated_td_arrays < 255,
        ensures
            r == old(self).allocated_td_arrays,
            *final(self) == (UhciInterfaceData {
                allocated_td_arrays: (old(self).allocated_td_arrays + 1) as u8,
                ..*old(self)
            }),
    {
        let r = self.allocated_td_arrays;
        self.allocated_td_arrays = self.allocated_td_arrays + 1;
        r
    }
}

} // verus!
