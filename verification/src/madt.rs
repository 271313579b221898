//! The interrupt controller structures of the ACPI MADT: I/O APICs, the
//! overrides of legacy interrupt sources, and the local APICs of the cores.
use vstd::prelude::*;
use crate::pe::{le_u16, le_u16_spec, le_u32, le_u32_spec};

verus! {

/// An I/O APIC: where its registers are, where they are mapped, the first
/// global system interrupt it serves, and its id.
#[derive(Clone, Copy, PartialEq, Eq, Structural, Debug)]
pub struct IoApic {
    pub physical_address: u64,
    pub virtual_address: u64,
    pub gis_base: u32,
    pub ioapic_id: u8,
}

/// A legacy interrupt source routed to a global system interrupt, with the
/// redirection entry of the I/O APIC that serves it.
#[derive(Clone, Copy, PartialEq, Eq, Structural, Debug)]
pub struct GsiOverride {
    pub io_apic_redirection_entry: u32,
    pub gsi: u32,
    pub flags: u16,
    pub corresponding_io_apic_index: u16,
    pub bus: u8,
    pub src: u8,
    pub registered: bool,
}

/// A core's local APIC.
#[derive(Clone, Copy, PartialEq, Eq, Structural, Debug)]
pub struct MultithreadingLocalApic {
    pub flags: u32,
    pub acpi_processor_id: u8,
    pub apic_id: u8,
}

impl MultithreadingLocalApic {
    /// The APIC id of the core.
    pub fn get_id(&self) -> (r: u8)
        ensures
            r == self.apic_id,
    {
        self.apic_id
    }
}

/// The I/O APICs, overrides and local APICs found so far.
pub type MadtFound = (Seq<IoApic>, Seq<GsiOverride>, Seq<MultithreadingLocalApic>);

/// The override of source `src` on `bus` to `gsi`, made for the first of the
/// I/O APICs from `i` on whose range of 25 interrupts from its base holds
/// `gsi`; `Some(None)` when none does, `None` when the end of a range
/// passes the 32-bit limit.
pub open spec fn override_from(ioapics: Seq<IoApic>, i: int, gsi: u32, flags: u16, bus: u8, src: u8) -> Option<
    Option<GsiOverride>,
>
    decreases (ioapics.len() as u16) - i,
{
    if i < 0 || i >= (ioapics.len() as u16) as int {
        Some(None)
    } else {
        let base = ioapics[i].gis_base;
        if gsi < base {
            override_from(ioapics, i + 1, gsi, flags, bus, src)
        } else if base + 24 > u32::MAX {
            None
        } else if gsi <= base + 24 {
            Some(
                Some(
                    GsiOverride {
                        io_apic_redirection_entry: (gsi - base) as u32,
                        gsi,
                        flags,
                        corresponding_io_apic_index: i as u16,
                        bus,
                        src,
                        registered: false,
                    },
                ),
            )
        } else {
            override_from(ioapics, i + 1, gsi, flags, bus, src)
        }
    }
}

/// Walks the entries from `pos` on with `rem` bytes left, adding what they
/// describe to `found`: an I/O APIC (type 1) mapped at `vaddr`, an override
/// (type 2) for the I/O APIC that serves it, a local APIC (type 0), and
/// nothing for other types. `None` where the entries cannot be walked: an
/// entry of no length or longer than the bytes left, a field past the
/// buffer, more than seventeen local APICs, or a range end past the
/// 32-bit limit.
pub open spec fn madt_walk(s: Seq<u8>, pos: int, rem: int, found: MadtFound, vaddr: u64) -> Option<MadtFound>
    decreases rem,
{
    if rem <= 0 {
        Some(found)
    } else if pos < 0 || pos + 2 > s.len() {
        None
    } else {
        let t = s[pos];
        let l = s[pos + 1] as int;
        let next = if t == 1u8 {
            if pos + 12 > s.len() {
                None
            } else {
                Some(
                    (
                        found.0.push(
                            IoApic {
                                physical_address: le_u32_spec(s, pos + 4) as u64,
                                virtual_address: vaddr,
                                gis_base: le_u32_spec(s, pos + 8),
                                ioapic_id: s[pos + 2],
                            },
                        ),
                        found.1,
                        found.2,
                    ),
                )
            }
        } else if t == 2u8 {
            if pos + 10 > s.len() {
                None
            } else {
                match override_from(found.0, 0, le_u32_spec(s, pos + 4), le_u16_spec(s, pos + 8), s[pos + 2], s[pos + 3]) {
                    None => None,
                    Some(None) => Some(found),
                    Some(Some(o)) => Some((found.0, found.1.push(o), found.2)),
                }
            }
        } else if t == 0u8 {
            if pos + 8 > s.len() || found.2.len() > 16 {
                None
            } else {
                Some(
                    (
                        found.0,
                        found.1,
                        found.2.push(
                            MultithreadingLocalApic {
                                flags: le_u32_spec(s, pos + 4),
                                acpi_processor_id: s[pos + 2],
                                apic_id: s[pos + 3],
                            },
                        ),
                    ),
                )
            }
        } else {
            Some(found)
        };
        if l == 0 || rem < l {
            None
        } else {
            match next {
                None => None,
                Some(f) => madt_walk(s, pos + l, rem - l, f, vaddr),
            }
        }
    }
}

/// What the MADT entries `s` describe, with the I/O APICs mapped at `vaddr`.
pub open spec fn madt_parsed(s: Seq<u8>, vaddr: u64) -> Option<MadtFound> {
    madt_walk(s, 0, s.len() as int, (Seq::empty(), Seq::empty(), Seq::empty()), vaddr)
}

/// The local APIC is the one that a type-0 entry at some `p` describes:
/// processor id in byte 2, APIC id in byte 3, flags in bytes 4 to 7.
pub open spec fn lapic_from_entry(s: Seq<u8>, a: MultithreadingLocalApic) -> bool {
    exists|p: int|
        #![trigger s[p]]
        0 <= p && p + 8 <= s.len() && s[p] == 0u8 && a.acpi_processor_id == s[p + 2] && a.apic_id == s[p + 3]
            && a.flags == le_u32_spec(s, p + 4)
}

/// The I/O APIC is the one that a type-1 entry at some `p` describes: id in
/// byte 2, register address in bytes 4 to 7, first interrupt in bytes 8 to
/// 11, mapped at `vaddr`.
pub open spec fn ioapic_from_entry(s: Seq<u8>, a: IoApic, vaddr: u64) -> bool {
    exists|p: int|
        #![trigger s[p]]
        0 <= p && p + 12 <= s.len() && s[p] == 1u8 && a.ioapic_id == s[p + 2] && a.physical_address
            == le_u32_spec(s, p + 4) as u64 && a.gis_base == le_u32_spec(s, p + 8) && a.virtual_address == vaddr
}

/// The override comes from a type-2 entry at some `p` (bus in byte 2,
/// source in byte 3, interrupt in bytes 4 to 7, flags in bytes 8 and 9),
/// is not registered yet, and names an I/O APIC of `ioapics` whose 25
/// interrupts from its base hold the override's, at the redirection entry
/// that is their distance.
pub open spec fn override_valid(s: Seq<u8>, ioapics: Seq<IoApic>, o: GsiOverride) -> bool {
    let i = o.corresponding_io_apic_index as int;
    &&& i < ioapics.len()
    &&& ioapics[i].gis_base <= o.gsi <= ioapics[i].gis_base + 24
    &&& o.io_apic_redirection_entry == o.gsi - ioapics[i].gis_base
    &&& !o.registered
    &&& exists|p: int|
        #![trigger s[p]]
        0 <= p && p + 10 <= s.len() && s[p] == 2u8 && o.bus == s[p + 2] && o.src == s[p + 3] && o.gsi
            == le_u32_spec(s, p + 4) && o.flags == le_u16_spec(s, p + 8)
}

/// An override made for a list of I/O APICs is one for the first of them,
/// from `i` on, whose range holds its interrupt.
proof fn lemma_override_from(ioapics: Seq<IoApic>, i: int, gsi: u32, flags: u16, bus: u8, src: u8)
    requires
        0 <= i,
    ensures
        override_from(ioapics, i, gsi, flags, bus, src) matches Some(Some(o)) ==> {
            let k = o.corresponding_io_apic_index as int;
            &&& i <= k < ioapics.len()
            &&& ioapics[k].gis_base <= gsi <= ioapics[k].gis_base + 24
            &&& o.io_apic_redirection_entry == gsi - ioapics[k].gis_base
            &&& o.gsi == gsi && o.flags == flags && o.bus == bus && o.src == src && !o.registered
        },
    decreases (ioapics.len() as u16) - i,
{
    if i < (ioapics.len() as u16) as int {
        lemma_override_from(ioapics, i + 1, gsi, flags, bus, src);
    }
}

/// Every local APIC and every I/O APIC that the walk collects comes from an
/// entry of its type, with its fields at their places in that entry.
pub proof fn lemma_madt_walk_sources(s: Seq<u8>, pos: int, rem: int, found: MadtFound, vaddr: u64)
    requires
        0 <= pos,
        forall|k: int| 0 <= k < found.2.len() ==> lapic_from_entry(s, #[trigger] found.2[k]),
        forall|k: int| 0 <= k < found.0.len() ==> ioapic_from_entry(s, #[trigger] found.0[k], vaddr),
        forall|k: int| 0 <= k < found.1.len() ==> override_valid(s, found.0, #[trigger] found.1[k]),
    ensures
        madt_walk(s, pos, rem, found, vaddr) matches Some(f) ==> (forall|k: int|
            0 <= k < f.2.len() ==> lapic_from_entry(s, #[trigger] f.2[k])) && (forall|k: int|
            0 <= k < f.0.len() ==> ioapic_from_entry(s, #[trigger] f.0[k], vaddr)) && (forall|k: int|
            0 <= k < f.1.len() ==> override_valid(s, f.0, #[trigger] f.1[k])),
    decreases rem,
{
    if rem > 0 && pos + 2 <= s.len() {
        let t = s[pos];
        let l = s[pos + 1] as int;
        if l != 0 && rem >= l {
            if t == 1u8 && pos + 12 <= s.len() {
                let a = IoApic {
                    physical_address: le_u32_spec(s, pos + 4) as u64,
                    virtual_address: vaddr,
                    gis_base: le_u32_spec(s, pos + 8),
                    ioapic_id: s[pos + 2],
                };
                let f2 = (found.0.push(a), found.1, found.2);
                assert(ioapic_from_entry(s, a, vaddr)) by {
                    assert(s[pos] == 1u8);
                }
                assert forall|k: int| 0 <= k < f2.0.len() implies ioapic_from_entry(s, #[trigger] f2.0[k], vaddr) by {
                    if k < found.0.len() {
                        assert(f2.0[k] == found.0[k]);
                    }
                }
                assert forall|k: int| 0 <= k < f2.1.len() implies override_valid(s, f2.0, #[trigger] f2.1[k]) by {
                    let o = found.1[k];
                    assert(override_valid(s, found.0, o));
                    assert(f2.0[o.corresponding_io_apic_index as int] == found.0[o.corresponding_io_apic_index as int]);
                }
                lemma_madt_walk_sources(s, pos + l, rem - l, f2, vaddr);
            } else if t == 2u8 && pos + 10 <= s.len() {
                match override_from(found.0, 0, le_u32_spec(s, pos + 4), le_u16_spec(s, pos + 8), s[pos + 2], s[pos + 3]) {
                    None => {},
                    Some(None) => {
                        lemma_madt_walk_sources(s, pos + l, rem - l, found, vaddr);
                    },
                    Some(Some(o)) => {
                        lemma_override_from(
                            found.0,
                            0,
                            le_u32_spec(s, pos + 4),
                            le_u16_spec(s, pos + 8),
                            s[pos + 2],
                            s[pos + 3],
                        );
                        let f2 = (found.0, found.1.push(o), found.2);
                        assert(override_valid(s, found.0, o)) by {
                            assert(s[pos] == 2u8);
                        }
                        assert forall|k: int| 0 <= k < f2.1.len() implies override_valid(s, f2.0, #[trigger] f2.1[k]) by {
                            if k < found.1.len() {
                                assert(f2.1[k] == found.1[k]);
                            }
                        }
                        lemma_madt_walk_sources(s, pos + l, rem - l, f2, vaddr);
                    },
                }
            } else if t == 0u8 && pos + 8 <= s.len() && found.2.len() <= 16 {
                let a = MultithreadingLocalApic {
                    flags: le_u32_spec(s, pos + 4),
                    acpi_processor_id: s[pos + 2],
                    apic_id: s[pos + 3],
                };
                let f2 = (found.0, found.1, found.2.push(a));
                assert(lapic_from_entry(s, a)) by {
                    assert(s[pos] == 0u8);
                }
                assert forall|k: int| 0 <= k < f2.2.len() implies lapic_from_entry(s, #[trigger] f2.2[k]) by {
                    if k < found.2.len() {
                        assert(f2.2[k] == found.2[k]);
                    }
                }
                lemma_madt_walk_sources(s, pos + l, rem - l, f2, vaddr);
            } else if t != 0u8 && t != 1u8 && t != 2u8 {
                lemma_madt_walk_sources(s, pos + l, rem - l, found, vaddr);
            }
        }
    }
}

/// Every local APIC that the MADT parse gives comes from a type-0 entry at
/// some `p`, with its processor id from byte `p + 2` and its APIC id from
/// byte `p + 3`; every I/O APIC from a type-1 entry, with its id from byte
/// `p + 2`, its address from bytes `p + 4` on and its first interrupt from
/// bytes `p + 8` on; every override from a type-2 entry, for an I/O APIC of
/// the result whose range holds its interrupt.
pub proof fn lemma_madt_sources(s: Seq<u8>, vaddr: u64)
    ensures
        madt_parsed(s, vaddr) matches Some(f) ==> (forall|k: int|
            0 <= k < f.2.len() ==> lapic_from_entry(s, #[trigger] f.2[k])) && (forall|k: int|
            0 <= k < f.0.len() ==> ioapic_from_entry(s, #[trigger] f.0[k], vaddr)) && (forall|k: int|
            0 <= k < f.1.len() ==> override_valid(s, f.0, #[trigger] f.1[k])),
{
    lemma_madt_walk_sources(s, 0, s.len() as int, (Seq::empty(), Seq::empty(), Seq::empty()), vaddr);
}

/// Finds the I/O APIC that serves `gsi` and makes the override for it.
fn find_override(ioapics: &Vec<IoApic>, gsi: u32, flags: u16, bus: u8, src: u8) -> (r: Option<GsiOverride>)
    requires
        override_from(ioapics@, 0, gsi, flags, bus, src) is Some,
    ensures
        Some(r) == override_from(ioapics@, 0, gsi, flags, bus, src),
{
    let n = ioapics.len() as u16;
    let mut i: u16 = 0;
    while i < n
        invariant
            n == (ioapics@.len() as u16),
            i <= n,
            override_from(ioapics@, 0, gsi, flags, bus, src) == override_from(ioapics@, i as int, gsi, flags, bus, src),
            override_from(ioapics@, i as int, gsi, flags, bus, src) is Some,
        decreases n - i,
    {
        let base = ioapics[i as usize].gis_base;
        if gsi >= base && gsi <= base + 24 {
            return Some(
                GsiOverride {
                    io_apic_redirection_entry: gsi - base,
                    gsi,
                    flags,
                    corresponding_io_apic_index: i,
                    bus,
                    src,
                    registered: false,
                },
            );
        }
        i = i + 1;
    }
    None
}

/// Reads the interrupt controller structures of the MADT, the bytes after
/// its header, with every I/O APIC mapped at `io_apic_vaddr`.
pub fn parse_madt(entries: &[u8], io_apic_vaddr: u64) -> (r: (Vec<IoApic>, Vec<GsiOverride>, Vec<MultithreadingLocalApic>))
    requires
        madt_parsed(entries@, io_apic_vaddr) is Some,
    ensures
        madt_parsed(entries@, io_apic_vaddr) == Some((r.0@, r.1@, r.2@)),
{
    let n = entries.len();
    let mut ioapics: Vec<IoApic> = Vec::new();
    let mut overrides: Vec<GsiOverride> = Vec::new();
    let mut lapics: Vec<MultithreadingLocalApic> = Vec::new();
    let mut pos: usize = 0;
    let mut rem: usize = n;
    while rem > 0
        invariant
            n == entries@.len(),
            pos + rem == n,
            madt_walk(entries@, pos as int, rem as int, (ioapics@, overrides@, lapics@), io_apic_vaddr)
                == madt_parsed(entries@, io_apic_vaddr),
            madt_parsed(entries@, io_apic_vaddr) is Some,
        decreases rem,
    {
        let t = entries[pos];
        let l = entries[pos + 1] as usize;
        if t == 1 {
            let ioapic_id = entries[pos + 2];
            let address = le_u32(entries, pos + 4);
            let gsib = le_u32(entries, pos + 8);
            ioapics.push(
                IoApic { physical_address: address as u64, virtual_address: io_apic_vaddr, gis_base: gsib, ioapic_id },
            );
        } else if t == 2 {
            let bus = entries[pos + 2];
            let source = entries[pos + 3];
            let gsi = le_u32(entries, pos + 4);
            let flags = le_u16(entries, pos + 8);
            match find_override(&ioapics, gsi, flags, bus, source) {
                Some(o) => {
                    overrides.push(o);
                },
                None => {},
            }
        } else if t == 0 {
            let acpi_processor_id = entries[pos + 2];
            let apic_id = entries[pos + 3];
            let flags = le_u32(entries, pos + 4);
            lapics.push(MultithreadingLocalApic { flags, acpi_processor_id, apic_id });
        }
        pos = pos + l;
        rem = rem - l;
    }
    (ioapics, overrides, lapics)
}

} // verus!
