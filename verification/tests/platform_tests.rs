use emkk::madt::{parse_madt, GsiOverride, IoApic, MultithreadingLocalApic};
use emkk::pci::{probe_page, probe_start, probe_step, PciProbe, PciProbeAction};
use emkk::pci_routing::{decode_crs_interrupt, routing_entry_matches, PciRoutingInterrupt};

#[test]
fn irq_descriptor_gives_the_indexed_interrupt() {
    // IRQ descriptor with IRQs 5 and 9, active low, then the end tag
    let crs = [0x23u8, 0x20, 0x02, 0x18, 0x79, 0x00];
    assert_eq!(
        decode_crs_interrupt(&crs, 0),
        Some(PciRoutingInterrupt { irq: 5, trigger_mode: 0, polarity: 1 })
    );
    assert_eq!(
        decode_crs_interrupt(&crs, 1),
        Some(PciRoutingInterrupt { irq: 9, trigger_mode: 0, polarity: 1 })
    );
    assert_eq!(decode_crs_interrupt(&crs, 2), None);
}

#[test]
fn extended_interrupt_descriptor_gives_its_interrupt() {
    let crs = [0x89u8, 0x06, 0x00, 0x0F, 0x01, 0x0B, 0x00, 0x00, 0x00, 0x79, 0x00];
    assert_eq!(
        decode_crs_interrupt(&crs, 0),
        Some(PciRoutingInterrupt { irq: 0x0B, trigger_mode: 1, polarity: 1 })
    );
}

#[test]
fn routing_entries_match_device_function_and_pin() {
    assert!(routing_entry_matches(0x0003_FFFF, 1, 3, 2, 1));
    assert!(routing_entry_matches(0x0003_0002, 0, 3, 2, 0));
    assert!(!routing_entry_matches(0x0003_0001, 0, 3, 2, 0));
    assert!(!routing_entry_matches(0x0003_FFFF, 1, 3, 2, 2));
}

#[test]
fn madt_entries_are_collected() {
    let mut e: Vec<u8> = Vec::new();
    // local APIC: processor 0, APIC id 0, enabled
    e.extend_from_slice(&[0, 8, 0, 0, 1, 0, 0, 0]);
    // I/O APIC id 2 at 0xFEC00000, GSI base 0
    e.extend_from_slice(&[1, 12, 2, 0, 0x00, 0x00, 0xC0, 0xFE, 0, 0, 0, 0]);
    // override: bus 0, source 0 to GSI 2, flags 0
    e.extend_from_slice(&[2, 10, 0, 0, 2, 0, 0, 0, 0, 0]);
    // override to GSI 40: no I/O APIC serves it
    e.extend_from_slice(&[2, 10, 0, 9, 40, 0, 0, 0, 0x0D, 0]);
    // another kind of entry
    e.extend_from_slice(&[4, 6, 0xFF, 0, 0, 1]);
    let (ioapics, overrides, lapics) = parse_madt(&e, 0xFFFF_8000_0000_0000);
    assert_eq!(
        ioapics,
        vec![IoApic { physical_address: 0xFEC0_0000, virtual_address: 0xFFFF_8000_0000_0000, gis_base: 0, ioapic_id: 2 }]
    );
    assert_eq!(
        overrides,
        vec![GsiOverride {
            io_apic_redirection_entry: 2,
            gsi: 2,
            flags: 0,
            corresponding_io_apic_index: 0,
            bus: 0,
            src: 0,
            registered: false
        }]
    );
    assert_eq!(lapics, vec![MultithreadingLocalApic { flags: 1, acpi_processor_id: 0, apic_id: 0 }]);
    assert_eq!(lapics[0].get_id(), 0);
}

#[test]
fn bus_probe_steps() {
    let base = 0xE000_0000u64;
    let s = probe_start(0);
    assert_eq!(s, PciProbe::Device { bus: 0, device: 0 });
    assert_eq!(probe_page(base, s), base);
    // single-function device is recorded as function 0
    let (s, a) = probe_step(base, s, 0x8086, 0x00);
    assert_eq!(a, PciProbeAction::Record(0));
    assert_eq!(s, PciProbe::Device { bus: 0, device: 1 });
    assert_eq!(probe_page(base, s), base + 8 * 0x1000);
    // absent device is unmapped
    let (s2, a) = probe_step(base, s, 0xFFFF, 0xFF);
    assert_eq!(a, PciProbeAction::Unmap(base + 8 * 0x1000));
    assert_eq!(s2, PciProbe::Device { bus: 0, device: 2 });
    // multi-function device: its functions are probed
    let (f, a) = probe_step(base, s, 0x8086, 0x80);
    assert_eq!(a, PciProbeAction::Nothing);
    assert_eq!(f, PciProbe::Function { bus: 0, device: 1, func: 0 });
    let (f, a) = probe_step(base, PciProbe::Function { bus: 0, device: 1, func: 3 }, 0x8086, 0);
    assert_eq!(a, PciProbeAction::Record(0x0103));
    assert_eq!(f, PciProbe::Function { bus: 0, device: 1, func: 4 });
    let (f, _) = probe_step(base, PciProbe::Function { bus: 1, device: 254, func: 7 }, 0xFFFF, 0);
    assert_eq!(f, PciProbe::Done);
    assert_eq!(probe_start(2), PciProbe::Done);
}
