//! PCI devices in the enhanced configuration space: device identifiers,
//! the address of a device's configuration page, the capability list, and
//! the decoding of base address registers.
//!
//! Configuration space is memory that the caller reads; the functions here
//! take what was read.
use vstd::prelude::*;
use crate::allocator::Allocator;
use crate::containers::List;
use crate::memory::MemoryResult;
use crate::page_map::{map_pages, paging_consistent, run_page_mapped, run_page_refused, tables_layered};
use crate::page_tables::PageTableMemory;
use crate::pager::{Pager, PAGER_PCD, PAGER_PRESENT, PAGER_RW};

verus! {

/// A PCI device.
pub struct PciDevice {}

/// The devices found on the bus and the base of the configuration space.
pub struct PciBus {
    pub pci_devices: List<u64>,
    pub pci_base_address: u64,
}

/// Which of the six base address registers.
#[derive(Clone, Copy, PartialEq, Eq, Structural, Debug)]
pub enum PciBarIndex {
    Index0,
    Index1,
    Index2,
    Index3,
    Index4,
    Index5,
}

impl PciBarIndex {
    /// Offset of the register in configuration space.
    pub open spec fn offset_spec(self) -> usize {
        match self {
            PciBarIndex::Index0 => 0x10,
            PciBarIndex::Index1 => 0x14,
            PciBarIndex::Index2 => 0x18,
            PciBarIndex::Index3 => 0x1C,
            PciBarIndex::Index4 => 0x20,
            PciBarIndex::Index5 => 0x24,
        }
    }

    /// Offset of the register in configuration space.
    pub fn offset(&self) -> (r: usize)
        ensures
            r == self.offset_spec(),
    {
        match self {
            PciBarIndex::Index0 => 0x10,
            PciBarIndex::Index1 => 0x14,
            PciBarIndex::Index2 => 0x18,
            PciBarIndex::Index3 => 0x1C,
            PciBarIndex::Index4 => 0x20,
            PciBarIndex::Index5 => 0x24,
        }
    }
}

/// Whether a base address register maps memory or I/O ports.
#[derive(Clone, Copy, PartialEq, Eq, Structural, Debug)]
pub enum BarType {
    Memory,
    Io,
}

/// A decoded base address register.
#[derive(Clone, Copy, PartialEq, Eq, Structural, Debug)]
pub struct PciBar {
    pub bar_type: BarType,
    pub flags: u8,
    pub data: u64,
    pub length: u32,
}

impl PciBar {
    pub fn get_address(&self) -> (r: u64)
        ensures
            r == self.data,
    {
        self.data
    }

    pub fn get_length(&self) -> (r: u32)
        ensures
            r == self.length,
    {
        self.length
    }

    /// Maps the register of a memory BAR at its own address, uncached,
    /// writable and present, page by page; an I/O BAR needs no mapping.
    /// False when a page fails.
    pub fn map(&self, mem: &mut PageTableMemory, pager: &mut Pager, allocator: &mut Allocator) -> (r: bool)
        requires
            old(mem).wf(),
            old(allocator).wf(),
            paging_consistent(old(mem)@, *old(allocator)),
            tables_layered(old(mem)@, old(pager).cr3),
            self.data + self.length <= u64::MAX,
        ensures
            *final(pager) == *old(pager),
            final(mem).wf(),
            final(allocator).wf(),
            final(allocator).base_address() == old(allocator).base_address(),
            paging_consistent(final(mem)@, *final(allocator)),
            tables_layered(final(mem)@, old(pager).cr3),
            self.bar_type == BarType::Io ==> r && final(mem)@ == old(mem)@,
            self.bar_type == BarType::Memory && self.length < 0x1000 ==> r,
            self.bar_type == BarType::Memory && self.length >= 0x1000 && self.data & 0xFFF != 0 ==> !r,
            self.bar_type == BarType::Memory && r ==> forall|k: int|
                0 <= k < self.length / 0x1000 ==> #[trigger] run_page_mapped(
                    final(mem)@,
                    old(pager).cr3,
                    self.data,
                    self.data,
                    PAGER_PCD | PAGER_RW | PAGER_PRESENT,
                    k,
                ),
            !r ==> exists|k: int, e: MemoryResult|
                0 <= k < self.length / 0x1000 && #[trigger] run_page_refused(
                    final(mem)@,
                    *final(allocator),
                    old(pager).cr3,
                    self.data,
                    self.data,
                    PAGER_PCD | PAGER_RW | PAGER_PRESENT,
                    k,
                    e,
                ),
    {
        self.map_to_virtual(mem, pager, self.data, allocator)
    }

    /// Maps the register of a memory BAR at virtual address `map`,
    /// uncached, writable and present, page by page; an I/O BAR needs no
    /// mapping. False when a page fails.
    pub fn map_to_virtual(
        &self,
        mem: &mut PageTableMemory,
        pager: &mut Pager,
        map: u64,
        physical_allocator: &mut Allocator,
    ) -> (r: bool)
        requires
            old(mem).wf(),
            old(physical_allocator).wf(),
            paging_consistent(old(mem)@, *old(physical_allocator)),
            tables_layered(old(mem)@, old(pager).cr3),
            self.data + self.length <= u64::MAX,
            map + self.length <= u64::MAX,
        ensures
            *final(pager) == *old(pager),
            final(mem).wf(),
            final(physical_allocator).wf(),
            final(physical_allocator).base_address() == old(physical_allocator).base_address(),
            paging_consistent(final(mem)@, *final(physical_allocator)),
            tables_layered(final(mem)@, old(pager).cr3),
            self.bar_type == BarType::Io ==> r && final(mem)@ == old(mem)@,
            self.bar_type == BarType::Memory && self.length < 0x1000 ==> r,
            self.bar_type == BarType::Memory && self.length >= 0x1000 && (self.data & 0xFFF != 0
                || map & 0xFFF != 0) ==> !r,
            self.bar_type == BarType::Memory && r ==> forall|k: int|
                0 <= k < self.length / 0x1000 ==> #[trigger] run_page_mapped(
                    final(mem)@,
                    old(pager).cr3,
                    map,
                    self.data,
                    PAGER_PCD | PAGER_RW | PAGER_PRESENT,
                    k,
                ),
            !r ==> exists|k: int, e: MemoryResult|
                0 <= k < self.length / 0x1000 && #[trigger] run_page_refused(
                    final(mem)@,
                    *final(physical_allocator),
                    old(pager).cr3,
                    map,
                    self.data,
                    PAGER_PCD | PAGER_RW | PAGER_PRESENT,
                    k,
                    e,
                ),
    {
        if self.bar_type == BarType::Memory {
            let pages = (self.length / 0x1000) as u64;
            proof {
                assert(pages * 0x1000 <= self.length) by (nonlinear_arith)
                    requires
                        pages == self.length / 0x1000,
                ;
            }
            match map_pages(pager, mem, physical_allocator, map, self.data, pages, PAGER_PCD | PAGER_RW | PAGER_PRESENT) {
                Some(_) => false,
                None => true,
            }
        } else {
            true
        }
    }
}

/// The identifier of function `func` of device `device` on bus `bus`.
pub open spec fn ident_of(bus: u8, device: u8, func: u8) -> u64 {
    (func as u64) | ((device as u64) << 8u64) | ((bus as u64) << 16u64)
}

/// Bus, device and function of an identifier.
pub open spec fn ident_parts(pci_ident: u64) -> (u8, u8, u8) {
    (
        ((pci_ident >> 16u64) & 0xFFu64) as u8,
        ((pci_ident >> 8u64) & 0xFFu64) as u8,
        (pci_ident & 0xFFu64) as u8,
    )
}

/// Decompressing a compressed identifier gives back bus, device and function.
pub proof fn lemma_ident_roundtrip(bus: u8, device: u8, func: u8)
    ensures
        ident_parts(ident_of(bus, device, func)) == (bus, device, func),
{
    assert((((((func as u64) | ((device as u64) << 8u64) | ((bus as u64) << 16u64)) >> 16u64)
        & 0xFFu64) as u8 == bus) && (((((func as u64) | ((device as u64) << 8u64) | ((bus as u64)
        << 16u64)) >> 8u64) & 0xFFu64) as u8 == device) && ((((func as u64) | ((device as u64)
        << 8u64) | ((bus as u64) << 16u64)) & 0xFFu64) as u8 == func)) by (bit_vector);
}

/// Capability search: from position `pos`, follow the list through at most
/// `64 - steps` more entries for the capability `cap`.
pub open spec fn cap_search(cfg: Seq<u8>, pos: u8, steps: int, cap: u8) -> Option<u8>
    decreases 64 - steps,
{
    if pos == 0 || steps >= 64 {
        None
    } else if cfg[pos as int] == cap {
        Some(pos)
    } else {
        cap_search(cfg, cfg[pos as int + 1], steps + 1, cap)
    }
}

/// The decoded memory register `original` whose probe with all ones read back `probe`.
pub open spec fn bar_length(probe: u32) -> u32 {
    (!(probe & !7u32) + 1) as u32
}

/// Is the device on the bus.
pub open spec fn has_device(devices: Seq<u64>, n: int, pci_ident: u64) -> bool {
    exists|i: int| 0 <= i < n && devices[i] == pci_ident
}

impl PciBus {
    /// The identifier of a function: function in bits 0..8, device in 8..16, bus in 16..24.
    pub fn compress_ident(bus: u8, device: u8, func: u8) -> (r: u64)
        ensures
            r == ident_of(bus, device, func),
    {
        (func as u64) | ((device as u64) << 8) | ((bus as u64) << 16)
    }

    /// Bus, device and function of an identifier.
    pub fn decompress_ident(pci_ident: u64) -> (r: (u8, u8, u8))
        ensures
            r == ident_parts(pci_ident),
    {
        (((pci_ident >> 16) & 0xFF) as u8, ((pci_ident >> 8) & 0xFF) as u8, (pci_ident & 0xFF) as u8)
    }

    /// Address of the configuration page of a function, `None` when no
    /// device was found. The page number is bus * 256 + device * 8 +
    /// function; whichever device is asked for, the list must merely be non-empty.
    pub fn pci_base(&self, pci_ident: u64) -> (r: Option<u64>)
        requires
            self.pci_base_address + 0x1100_0000 <= u64::MAX,
        ensures
            self.pci_devices.entries == 0 ==> r is None,
            self.pci_devices.entries > 0 ==> r == Some(
                (self.pci_base_address + (ident_parts(pci_ident).0 as int * 256
                    + ident_parts(pci_ident).1 as int * 8 + ident_parts(pci_ident).2 as int)
                    * 0x1000) as u64,
            ),
    {
        if self.pci_devices.entries == 0 {
            return None;
        }
        let (bus, device, func) = PciBus::decompress_ident(pci_ident);
        let dev_desc = (bus as u64) * 256 + (device as u64) * 8 + (func as u64);
        Some(self.pci_base_address + dev_desc * 0x1000)
    }

    /// Position of capability `capability` in the configuration space `cfg`
    /// of a function whose status register reads `status`: `None` when the
    /// status has no capability list (bit 4) or the list, followed from the
    /// pointer at 0x34 for at most 64 entries, does not hold it.
    pub fn get_capability(&self, pci_ident: u64, status: u16, cfg: &Vec<u8>, capability: u8) -> (r: Option<u8>)
        requires
            self.pci_base_address + 0x1100_0000 <= u64::MAX,
            cfg@.len() > 0x100,
        ensures
            r == if self.pci_devices.entries == 0 || status & 0x10u16 == 0 {
                None
            } else {
                cap_search(cfg@, cfg@[0x34], 0, capability)
            },
    {
        if self.pci_base(pci_ident).is_none() {
            return None;
        }
        if status & 0x10 == 0 {
            return None;
        }
        let mut pos: u8 = cfg[0x34];
        let mut safety: u32 = 0;
        while pos != 0 && safety < 64
            invariant
                cfg@.len() > 0x100,
                self.pci_devices.entries != 0,
                status & 0x10u16 != 0,
                safety <= 64,
                cap_search(cfg@, pos, safety as int, capability) == cap_search(
                    cfg@,
                    cfg@[0x34],
                    0,
                    capability,
                ),
            decreases 64 - safety,
        {
            let cap_id = cfg[pos as usize];
            let next = cfg[pos as usize + 1];
            if cap_id == capability {
                assert(cap_search(cfg@, pos, safety as int, capability) == Some(pos));
                return Some(pos);
            }
            pos = next;
            safety = safety + 1;
        }
        None
    }

    /// Whether the function has an MSI-X capability (id 0x11).
    pub fn is_msi_x_capable(&self, pci_ident: u64, status: u16, cfg: &Vec<u8>) -> (r: bool)
        requires
            self.pci_base_address + 0x1100_0000 <= u64::MAX,
            cfg@.len() > 0x100,
        ensures
            r == (self.pci_devices.entries != 0 && status & 0x10u16 != 0 && cap_search(
                cfg@,
                cfg@[0x34],
                0,
                0x11,
            ) is Some),
    {
        self.get_capability(pci_ident, status, cfg, 0x11).is_some()
    }

    /// Whether the function has an MSI capability (id 0x05).
    pub fn is_msi_capable(&self, pci_ident: u64, status: u16, cfg: &Vec<u8>) -> (r: bool)
        requires
            self.pci_base_address + 0x1100_0000 <= u64::MAX,
            cfg@.len() > 0x100,
        ensures
            r == (self.pci_devices.entries != 0 && status & 0x10u16 != 0 && cap_search(
                cfg@,
                cfg@[0x34],
                0,
                0x5,
            ) is Some),
    {
        self.get_capability(pci_ident, status, cfg, 0x5).is_some()
    }

    /// Decodes base address register `bar` of a device on the bus, or
    /// `None` when the device is not on it. `original` is the register as
    /// read, `next` the register after it (the high half of a 64-bit memory
    /// register) and `probe` what the register read after all ones were
    /// written to it; the caller writes `original` back.
    pub fn get_bar(&self, pci_ident: u64, bar: PciBarIndex, original: u32, next: u32, probe: u32) -> (r: Option<PciBar>)
        requires
            self.pci_devices.entries <= self.pci_devices.items@.len(),
            original & 1u32 == 0 ==> probe & !7u32 != 0,
        ensures
            !has_device(self.pci_devices.items@, self.pci_devices.entries as int, pci_ident) ==> r
                is None,
            has_device(self.pci_devices.items@, self.pci_devices.entries as int, pci_ident) ==> r
                == Some(
                if original & 1u32 != 0 {
                    PciBar { bar_type: BarType::Io, flags: 0, data: ((original >> 2u32) << 2u32) as u64, length: 0 }
                } else if (original >> 1u32) & 3u32 == 0 {
                    PciBar {
                        bar_type: BarType::Memory,
                        flags: ((original >> 3u32) & 2u32) as u8,
                        data: ((original >> 4u32) << 4u32) as u64,
                        length: bar_length(probe),
                    }
                } else {
                    PciBar {
                        bar_type: BarType::Memory,
                        flags: ((original >> 3u32) & 2u32) as u8,
                        data: (((original >> 4u32) << 4u32) as u64) | ((next as u64) << 32u64),
                        length: bar_length(probe),
                    }
                },
            ),
    {
        let n = self.pci_devices.entries;
        let mut i: u32 = 0;
        while i < n
            invariant
                n == self.pci_devices.entries,
                n <= self.pci_devices.items@.len(),
                original & 1u32 == 0 ==> probe & !7u32 != 0,
                i <= n,
                forall|j: int| 0 <= j < i ==> self.pci_devices.items@[j] != pci_ident,
            decreases n - i,
        {
            if self.pci_devices.items[i as usize] == pci_ident {
                let _offset = bar.offset();
                if original & 1 == 0 {
                    let flags = ((original >> 3) & 2) as u8;
                    let data: u64 = if (original >> 1) & 3 == 0 {
                        ((original >> 4) << 4) as u64
                    } else {
                        (((original >> 4) << 4) as u64) | ((next as u64) << 32)
                    };
                    let mut v = probe & !7u32;
                    v = !v;
                    assert(v != 0xFFFF_FFFFu32) by (bit_vector)
                        requires
                            v == !(probe & !7u32),
                            probe & !7u32 != 0,
                    ;
                    v = v + 1;
                    return Some(PciBar { bar_type: BarType::Memory, flags, data, length: v });
                } else {
                    return Some(PciBar { bar_type: BarType::Io, flags: 0, data: ((original >> 2) << 2) as u64, length: 0 });
                }
            }
            i = i + 1;
        }
        None
    }
}

/// Where the probe of the bus stands: at function 0 of a device, at a
/// function of a device with several, or finished. Buses from the first
/// that the configuration space names up to bus 1 are probed, devices 0 to
/// 254 of each.
#[derive(Clone, Copy, PartialEq, Eq, Structural, Debug)]
pub enum PciProbe {
    Device { bus: u8, device: u8 },
    Function { bus: u8, device: u8, func: u8 },
    Done,
}

/// What to do with the configuration page that was just read.
#[derive(Clone, Copy, PartialEq, Eq, Structural, Debug)]
pub enum PciProbeAction {
    /// No device answers there: take the page's mapping away again.
    Unmap(u64),
    /// A device answers: record its identifier (and keep the page mapped).
    Record(u64),
    /// Nothing to do.
    Nothing,
}

/// The probe of the first device of `bus`, or none past bus 1.
pub open spec fn probe_start_spec(bus: u8) -> PciProbe {
    if bus < 2 {
        PciProbe::Device { bus, device: 0 }
    } else {
        PciProbe::Done
    }
}

/// The probe after device `device` of `bus`.
pub open spec fn next_device(bus: u8, device: u8) -> PciProbe {
    if device < 254 {
        PciProbe::Device { bus, device: (device + 1) as u8 }
    } else if bus < 1 {
        PciProbe::Device { bus: (bus + 1) as u8, device: 0 }
    } else {
        PciProbe::Done
    }
}

/// The configuration page read in a probe state: page bus * 256 + device *
/// 8 + function of the configuration space at `base`.
pub open spec fn probe_page_spec(base: u64, state: PciProbe) -> u64 {
    match state {
        PciProbe::Device { bus, device } => (base + (bus * 256 + device * 8) * 0x1000) as u64,
        PciProbe::Function { bus, device, func } => (base + (bus * 256 + device * 8 + func) * 0x1000) as u64,
        PciProbe::Done => 0,
    }
}

/// One step of probing the bus, from the vendor id and header type read in
/// the page of `state`: a device whose vendor id is all ones is absent; a
/// device with the multi-function bit of its header type has its eight
/// functions probed, each present one recorded; another device is recorded
/// as function 0.
pub open spec fn probe_step_spec(state: PciProbe, vendor_id: u16, header_type: u8) -> (PciProbe, PciProbeAction) {
    match state {
        PciProbe::Device { bus, device } => if vendor_id == 0xFFFF {
            (next_device(bus, device), PciProbeAction::Unmap(0))
        } else if header_type >> 7u8 == 1 {
            (PciProbe::Function { bus, device, func: 0 }, PciProbeAction::Nothing)
        } else {
            (next_device(bus, device), PciProbeAction::Record(ident_of(bus, device, 0)))
        },
        PciProbe::Function { bus, device, func } => {
            let next = if func < 7 {
                PciProbe::Function { bus, device, func: (func + 1) as u8 }
            } else {
                next_device(bus, device)
            };
            if vendor_id != 0xFFFF {
                (next, PciProbeAction::Record(ident_of(bus, device, func)))
            } else {
                (next, PciProbeAction::Unmap(0))
            }
        },
        PciProbe::Done => (PciProbe::Done, PciProbeAction::Nothing),
    }
}

/// The probe of the first device of `bus`, or none past bus 1.
pub fn probe_start(bus: u8) -> (r: PciProbe)
    ensures
        r == probe_start_spec(bus),
{
    if bus < 2 {
        PciProbe::Device { bus, device: 0 }
    } else {
        PciProbe::Done
    }
}

/// The configuration page that the probe in `state` reads.
pub fn probe_page(base: u64, state: PciProbe) -> (r: u64)
    requires
        base + 0x2000_0000 <= u64::MAX,
    ensures
        r == probe_page_spec(base, state),
{
    let bound = match state {
        PciProbe::Device { bus, device } => (bus, device, 0u8),
        PciProbe::Function { bus, device, func } => (bus, device, func),
        PciProbe::Done => (0u8, 0u8, 0u8),
    };
    proof {
        let (b, d, f) = bound;
        assert((b * 256 + d * 8 + f) * 0x1000 < 0x2000_0000) by (nonlinear_arith)
            requires
                b < 256,
                d < 256,
                f < 256,
        ;
        assert((b * 256 + d * 8) * 0x1000 < 0x2000_0000) by (nonlinear_arith)
            requires
                b < 256,
                d < 256,
        ;
    }
    match state {
        PciProbe::Device { bus, device } => base + ((bus as u64) * 256 + (device as u64) * 8) * 0x1000,
        PciProbe::Function { bus, device, func } => base + ((bus as u64) * 256 + (device as u64) * 8
            + (func as u64)) * 0x1000,
        PciProbe::Done => 0,
    }
}

/// One step of probing the bus; an `Unmap` names the page of `state` at
/// `base`.
pub fn probe_step(base: u64, state: PciProbe, vendor_id: u16, header_type: u8) -> (r: (PciProbe, PciProbeAction))
    requires
        base + 0x2000_0000 <= u64::MAX,
    ensures
        r.0 == probe_step_spec(state, vendor_id, header_type).0,
        r.1 == match probe_step_spec(state, vendor_id, header_type).1 {
            PciProbeAction::Unmap(_) => PciProbeAction::Unmap(probe_page_spec(base, state)),
            a => a,
        },
{
    let page = probe_page(base, state);
    match state {
        PciProbe::Device { bus, device } => {
            let next = if device < 254 {
                PciProbe::Device { bus, device: device + 1 }
            } else if bus < 1 {
                PciProbe::Device { bus: bus + 1, device: 0 }
            } else {
                PciProbe::Done
            };
            if vendor_id == 0xFFFF {
                (next, PciProbeAction::Unmap(page))
            } else if header_type >> 7 == 1 {
                (PciProbe::Function { bus, device, func: 0 }, PciProbeAction::Nothing)
            } else {
                (next, PciProbeAction::Record(PciBus::compress_ident(bus, device, 0)))
            }
        },
        PciProbe::Function { bus, device, func } => {
            let next = if func < 7 {
                PciProbe::Function { bus, device, func: func + 1 }
            } else if device < 254 {
                PciProbe::Device { bus, device: device + 1 }
            } else if bus < 1 {
                PciProbe::Device { bus: bus + 1, device: 0 }
            } else {
                PciProbe::Done
            };
            if vendor_id != 0xFFFF {
                (next, PciProbeAction::Record(PciBus::compress_ident(bus, device, func)))
            } else {
                (next, PciProbeAction::Unmap(page))
            }
        },
        PciProbe::Done => (PciProbe::Done, PciProbeAction::Nothing),
    }
}

} // verus!
