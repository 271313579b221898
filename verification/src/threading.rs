//! Interrupt controllers found in the ACPI tables, and the per-processor
//! record of interrupt vectors.
use vstd::prelude::*;
use crate::allocator::MemoryBlock;
use crate::containers::List;

verus! {

/// An I/O APIC: where its registers are and which interrupts it serves.
#[derive(Clone, Copy, PartialEq, Eq, Structural, Debug)]
pub struct IoApic {
    pub physical_address: u64,
    pub virtual_address: u64,
    pub gis_base: u32,
    pub ioapic_id: u8,
}

impl IoApic {
    pub fn new(physical_address: u64, virtual_address: u64, gis_base: u32, ioapic_id: u8) -> (r: Self)
        ensures
            r == (IoApic { physical_address, virtual_address, gis_base, ioapic_id }),
    {
        IoApic { physical_address, gis_base, ioapic_id, virtual_address }
    }

    /// The two writes that set register `offset` to `val`: the register
    /// number to the select register, then the value to the window at 0x10.
    pub fn write_register(&self, offset: u8, val: u32) -> (r: [(u64, u32); 2])
        requires
            self.virtual_address + 0x10 <= u64::MAX,
        ensures
            r@ == seq![(self.virtual_address, offset as u32), ((self.virtual_address + 0x10) as u64, val)],
    {
        let r = [(self.virtual_address, offset as u32), (self.virtual_address + 0x10, val)];
        assert(r@ =~= seq![(self.virtual_address, offset as u32), ((self.virtual_address + 0x10) as u64, val)]);
        r
    }

    /// To read register `offset`: the write of the register number to the
    /// select register, then the address of the window to read.
    pub fn read_register(&self, offset: u8) -> (r: ((u64, u32), u64))
        requires
            self.virtual_address + 0x10 <= u64::MAX,
        ensures
            r == ((self.virtual_address, offset as u32), (self.virtual_address + 0x10) as u64),
    {
        ((self.virtual_address, offset as u32), self.virtual_address + 0x10)
    }
}

/// An interrupt source override: which global system interrupt an ISA
/// interrupt is wired to.
#[derive(Clone, Copy, PartialEq, Eq, Structural, Debug)]
pub struct GsiOverride {
    pub io_apic_redirection_entry: u32,
    pub gsi: u32,
    pub flags: u16,
    pub corresponding_io_apic_index: u16,
    pub bus: u8,
    pub src: u8,
    pub registered: bool,
}

impl GsiOverride {
    pub fn new(
        io_apic_redirection_entry: u32,
        gsi: u32,
        flags: u16,
        corresponding_io_apic_index: u16,
        bus: u8,
        src: u8,
        registered: bool,
    ) -> (r: Self)
        ensures
            r == (GsiOverride {
                io_apic_redirection_entry,
                gsi,
                flags,
                corresponding_io_apic_index,
                bus,
                src,
                registered,
            }),
    {
        GsiOverride {
            io_apic_redirection_entry,
            gsi,
            flags,
            corresponding_io_apic_index,
            bus,
            src,
            registered,
        }
    }
}

/// A processor's local APIC as the ACPI tables list it.
#[derive(Clone, Copy, PartialEq, Eq, Structural, Debug)]
pub struct MultithreadingLocalApic {
    pub flags: u32,
    pub acpi_processor_id: u8,
    pub apic_id: u8,
}

impl MultithreadingLocalApic {
    pub fn new(flags: u32, acpi_processor_id: u8, apic_id: u8) -> (r: Self)
        ensures
            r == (MultithreadingLocalApic { flags, acpi_processor_id, apic_id }),
    {
        MultithreadingLocalApic { flags, acpi_processor_id, apic_id }
    }

    pub fn get_id(&self) -> (r: u8)
        ensures
            r == self.apic_id,
    {
        self.apic_id
    }
}

/// The interrupt controllers of the machine and where each processor's
/// shared records lie.
pub struct Multithreading {
    pub memory: MemoryBlock,
    pub io_apics: List<IoApic>,
    pub gis_overrides: List<GsiOverride>,
    pub local_apics: List<MultithreadingLocalApic>,
    pub application_complex_paddrs: Vec<(u8, u64)>,
    pub ipi_descriptor_packet_padds: Vec<(u8, u64)>,
}

impl Multithreading {
    /// The I/O APICs.
    pub fn get_io_apics(&self) -> (r: &List<IoApic>)
        ensures
            *r == self.io_apics,
    {
        &self.io_apics
    }

    /// The interrupt source overrides, to be updated.
    pub fn get_gis_overrides(&mut self) -> (r: &mut List<GsiOverride>)
        ensures
            *r == old(self).gis_overrides,
            final(self).gis_overrides == *final(r),
            final(self).io_apics == old(self).io_apics,
            final(self).local_apics == old(self).local_apics,
    {
        &mut self.gis_overrides
    }

    /// The addresses of the IPI packets of the processor with local APIC
    /// `apic_id`, in the order of the list.
    pub fn ipi_packets_for(&self, apic_id: u8) -> (r: Vec<u64>)
        ensures
            r@ == packets_matching(self.ipi_descriptor_packet_padds@, apic_id),
    {
        let mut r: Vec<u64> = Vec::new();
        let mut i: usize = 0;
        let ghost all = self.ipi_descriptor_packet_padds@;
        while i < self.ipi_descriptor_packet_padds.len()
            invariant
                i <= all.len(),
                all == self.ipi_descriptor_packet_padds@,
                r@ == packets_matching(all.subrange(0, i as int), apic_id),
            decreases all.len() - i,
        {
            let (id, paddr) = self.ipi_descriptor_packet_padds[i];
            proof {
                assert(all.subrange(0, i as int + 1).drop_last() =~= all.subrange(0, i as int));
            }
            if id == apic_id {
                r.push(paddr);
            }
            i = i + 1;
        }
        assert(all.subrange(0, all.len() as int) =~= all);
        r
    }
}

/// The packet addresses listed for `apic_id`, in order.
pub open spec fn packets_matching(s: Seq<(u8, u64)>, apic_id: u8) -> Seq<u64>
    decreases s.len(),
{
    if s.len() == 0 {
        Seq::empty()
    } else if s.last().0 == apic_id {
        packets_matching(s.drop_last(), apic_id).push(s.last().1)
    } else {
        packets_matching(s.drop_last(), apic_id)
    }
}

/// The part of a processor's record that its interrupt vectors and
/// identity live in; the record's tables are named by their addresses.
pub struct Processor {
    pub physical_store_address: u64,
    pub gdt: u64,
    pub idt: u64,
    pub isr: u64,
    pub pager: u64,
    pub physical_allocator: u64,
    pub kernel_allocator: u64,
    pub virtual_allocator: u64,
    pub next_free_isr_vector: u8,
    pub activation_id: u8,
}

/// Activation number of the processor that boots the machine.
pub const HOST_CORE_ACTIVATION_ID: u8 = 0;

impl Processor {
    /// Hands out the next free interrupt vector; vectors are handed out
    /// downwards. The vector 0 is the last one there is.
    pub fn request_isr_vector(&mut self) -> (r: u8)
        requires
            old(self).next_free_isr_vector > 0,
        ensures
            r == old(self).next_free_isr_vector,
            final(self).next_free_isr_vector == old(self).next_free_isr_vector - 1,
            final(self).activation_id == old(self).activation_id,
    {
        let r = self.next_free_isr_vector;
        self.next_free_isr_vector = self.next_free_isr_vector - 1;
        r
    }

    /// Slot of interrupt vector `index` in the handler table, which starts at vector 32.
    pub fn isr_slot(index: u8) -> (r: usize)
        requires
            index >= 32,
        ensures
            r == index - 32,
    {
        index as usize - 32
    }

    /// Activation number of the processor; 0 is the boot processor.
    pub fn get_activation_id(&self) -> (r: u8)
        ensures
            r == self.activation_id,
    {
        self.activation_id
    }
}

/// Vectors handed out one after another are distinct and descend.
pub proof fn lemma_isr_vectors_distinct(v0: u8, v1: u8, p0: Processor, p1: Processor, p2: Processor)
    requires
        p0.next_free_isr_vector > 0,
        v0 == p0.next_free_isr_vector,
        p1.next_free_isr_vector == p0.next_free_isr_vector - 1,
        p1.next_free_isr_vector > 0,
        v1 == p1.next_free_isr_vector,
        p2.next_free_isr_vector == p1.next_free_isr_vector - 1,
    ensures
        v1 == v0 - 1,
        v0 != v1,
{
}

} // verus!
