//! What an xHCI controller decides from what it reads: the protocols that
//! its extended capabilities announce, the speed and protocol of a port,
//! the size of the scratchpad array, and the values read from its PCI
//! configuration space.
use vstd::prelude::*;
use crate::bits::{bit32, field32, lemma_field32_bound, read_field32, test_bit32};
use crate::xhci_context::{ctx_field_written, endpoint_initialized, slot_initialized, XhciEndpointContext32, XhciEndpointContext32Part, XhciInputContext32, XhciSlotContext32, XhciSlotContext32Part};
use crate::xhci_trb::{XhciCommandCompletionEventTrb, XhciCommandCompletionEventTrbPart, XhciProtocolDefinition, XhciProtocolDefinitionPart};

verus! {

/// Speed of a USB device.
#[derive(Clone, Copy, PartialEq, Eq, Structural, Debug)]
pub enum UsbSpeed {
    FullSpeed,
    LowSpeed,
    HighSpeed,
    SuperSpeedGen1x1,
    SuperSpeedPlusGen2x1,
    SuperSpeedPlusGen1x2,
    SuperSpeedPlusGen2x2,
}

/// Revision of the USB protocol a port speaks.
#[derive(Clone, Copy, PartialEq, Eq, Structural, Debug)]
pub enum UsbProtocol {
    Usb1,
    Usb2,
    Usb3,
    Usb3_1,
    Usb3_2,
}

/// Direction of an endpoint; a control endpoint's depends on the transfer.
#[derive(Clone, Copy, PartialEq, Eq, Structural, Debug)]
pub enum Direction {
    In,
    Out,
    TdDependent,
    Invalid,
}

/// A supported-protocol capability: the protocol's name and revision, the
/// ports it covers, and its protocol speed ID words.
pub struct XhciSupportedProtocol {
    pub name_string: [u8; 4],
    pub revision_minor: u8,
    pub revision_major: u8,
    pub compatible_port_offset: u8,
    pub compatible_port_count: u8,
    pub protcol_defined: u16,
    pub psic: u8,
    pub protocol_slot_type: u8,
    pub definitions: Vec<XhciProtocolDefinition>,
}

impl XhciSupportedProtocol {
    /// Protocol speed ID word `index`.
    pub fn get_definition(&self, index: u8) -> (r: XhciProtocolDefinition)
        requires
            index < self.definitions@.len(),
        ensures
            r == self.definitions@[index as int],
    {
        self.definitions[index as usize]
    }
}

/// The capability ID of a capability's first word.
pub open spec fn cap_id(d0: u32) -> u32 {
    d0 & 0xFFu32
}

/// How many words further the next capability starts; none when zero.
pub open spec fn cap_next(d0: u32) -> u32 {
    (d0 >> 8u32) & 0xFFu32
}

/// The number of protocol speed ID words, from the third word.
pub open spec fn psic_of(d2: u32) -> u32 {
    field32(d2, 28, 0xF)
}

/// The chain of capabilities from word `off` on stays inside `regs`: every
/// capability's first word, and the four words and the speed ID words that
/// follow a supported-protocol capability, and one word more, lie there.
pub open spec fn chain_ok(regs: Seq<u32>, off: int) -> bool
    decreases regs.len() - off,
{
    if off < 0 || off >= regs.len() {
        false
    } else {
        let d0 = regs[off];
        &&& cap_id(d0) == 2 ==> off + 4 <= regs.len() && off + 5 + psic_of(regs[off + 2])
            <= regs.len()
        &&& cap_next(d0) != 0 ==> off + cap_next(d0) < regs.len() && chain_ok(
            regs,
            off + cap_next(d0),
        )
    }
}

/// Where the supported-protocol capabilities of the chain from word `off`
/// start, in chain order.
pub open spec fn chain_protocols(regs: Seq<u32>, off: int) -> Seq<int>
    decreases regs.len() - off,
{
    if off < 0 || off >= regs.len() {
        Seq::empty()
    } else {
        let d0 = regs[off];
        let rest = if cap_next(d0) != 0 && off + cap_next(d0) < regs.len() {
            chain_protocols(regs, off + cap_next(d0))
        } else {
            Seq::empty()
        };
        if cap_id(d0) == 2 {
            seq![off].add(rest)
        } else {
            rest
        }
    }
}

/// `p` is the supported-protocol capability whose words start at `regs[o]`.
pub open spec fn protocol_at(p: XhciSupportedProtocol, regs: Seq<u32>, o: int) -> bool {
    let d0 = regs[o];
    let d1 = regs[o + 1];
    let d2 = regs[o + 2];
    let d3 = regs[o + 3];
    &&& p.name_string@ == seq![
        field32(d1, 0, 0xFF) as u8,
        field32(d1, 8, 0xFF) as u8,
        field32(d1, 16, 0xFF) as u8,
        field32(d1, 24, 0xFF) as u8,
    ]
    &&& p.revision_minor == field32(d0, 16, 0xFF)
    &&& p.revision_major == field32(d0, 24, 0xFF)
    &&& p.compatible_port_offset == field32(d2, 0, 0xFF)
    &&& p.compatible_port_count == field32(d2, 8, 0xFF)
    &&& p.protcol_defined == field32(d2, 16, 0xFFF)
    &&& p.psic == psic_of(d2)
    &&& p.protocol_slot_type == field32(d3, 0, 0x1F)
    &&& p.definitions@.len() == psic_of(d2) + 1
    &&& forall|j: int| 0 <= j < p.definitions@.len() ==> (#[trigger] p.definitions@[j]).dword0 == regs[o + 4 + j]
}

/// Reads the supported-protocol capability whose words start at `regs[o]`,
/// with its speed ID words and the word after them.
pub fn parse_supported_protocol(regs: &[u32], o: usize) -> (r: XhciSupportedProtocol)
    requires
        o + 4 <= regs@.len(),
        o + 5 + psic_of(regs@[o + 2]) <= regs@.len(),
    ensures
        protocol_at(r, regs@, o as int),
{
    let d0 = regs[o];
    let d1 = regs[o + 1];
    let d2 = regs[o + 2];
    let d3 = regs[o + 3];
    let psic = read_field32(d2, 28, 0xF);
    proof {
        lemma_field32_bound(d2, 28, 0xF);
        lemma_field32_bound(d1, 0, 0xFF);
        lemma_field32_bound(d1, 8, 0xFF);
        lemma_field32_bound(d1, 16, 0xFF);
        lemma_field32_bound(d1, 24, 0xFF);
        lemma_field32_bound(d0, 16, 0xFF);
        lemma_field32_bound(d0, 24, 0xFF);
        lemma_field32_bound(d2, 0, 0xFF);
        lemma_field32_bound(d2, 8, 0xFF);
        lemma_field32_bound(d2, 16, 0xFFF);
        lemma_field32_bound(d3, 0, 0x1F);
    }
    let n = regs.len();
    let mut definitions: Vec<XhciProtocolDefinition> = Vec::new();
    let mut j: usize = 0;
    while j < psic as usize + 1
        invariant
            psic <= 0xF,
            j <= psic + 1,
            psic == psic_of(d2),
            d2 == regs@[o + 2],
            o + 5 + psic <= regs@.len(),
            n == regs@.len(),
            definitions@.len() == j,
            forall|k: int| 0 <= k < j ==> (#[trigger] definitions@[k]).dword0 == regs@[o + 4 + k],
        decreases psic + 1 - j,
    {
        definitions.push(XhciProtocolDefinition { dword0: regs[o + 4 + j] });
        j = j + 1;
    }
    let name_string = [
        read_field32(d1, 0, 0xFF) as u8,
        read_field32(d1, 8, 0xFF) as u8,
        read_field32(d1, 16, 0xFF) as u8,
        read_field32(d1, 24, 0xFF) as u8,
    ];
    let r = XhciSupportedProtocol {
        name_string,
        revision_minor: read_field32(d0, 16, 0xFF) as u8,
        revision_major: read_field32(d0, 24, 0xFF) as u8,
        compatible_port_offset: read_field32(d2, 0, 0xFF) as u8,
        compatible_port_count: read_field32(d2, 8, 0xFF) as u8,
        protcol_defined: read_field32(d2, 16, 0xFFF) as u16,
        psic: psic as u8,
        protocol_slot_type: read_field32(d3, 0, 0x1F) as u8,
        definitions,
    };
    assert(r.name_string@ =~= seq![
        field32(d1, 0, 0xFF) as u8,
        field32(d1, 8, 0xFF) as u8,
        field32(d1, 16, 0xFF) as u8,
        field32(d1, 24, 0xFF) as u8,
    ]);
    r
}

/// Reads the supported-protocol capabilities of the chain of extended
/// capabilities that starts `x_ecp` words into the controller's registers.
pub fn collect_supported_protocols(regs: &[u32], x_ecp: u32) -> (r: Vec<XhciSupportedProtocol>)
    requires
        x_ecp != 0,
        chain_ok(regs@, x_ecp as int),
    ensures
        r@.len() == chain_protocols(regs@, x_ecp as int).len(),
        forall|i: int|
            0 <= i < r@.len() ==> protocol_at(#[trigger] r@[i], regs@, chain_protocols(regs@, x_ecp as int)[i]),
{
    let mut off: usize = x_ecp as usize;
    let mut r: Vec<XhciSupportedProtocol> = Vec::new();
    let ghost mut offs: Seq<int> = Seq::empty();
    let ghost all = chain_protocols(regs@, x_ecp as int);
    loop
        invariant_except_break
            offs + chain_protocols(regs@, off as int) == all,
        invariant
            chain_ok(regs@, off as int),
            r@.len() == offs.len(),
            forall|i: int| 0 <= i < r@.len() ==> protocol_at(#[trigger] r@[i], regs@, offs[i]),
        ensures
            r@.len() == all.len(),
            forall|i: int| 0 <= i < r@.len() ==> protocol_at(#[trigger] r@[i], regs@, all[i]),
        decreases regs@.len() - off,
    {
        let d0 = regs[off];
        let ghost rest = if cap_next(d0) != 0 && off + cap_next(d0) < regs@.len() {
            chain_protocols(regs@, off + cap_next(d0))
        } else {
            Seq::empty()
        };
        if d0 & 0xFF == 2 {
            let p = parse_supported_protocol(regs, off);
            r.push(p);
            proof {
                assert(chain_protocols(regs@, off as int) == seq![off as int].add(rest));
                offs = offs.push(off as int);
                assert(offs + rest =~= all);
            }
        } else {
            proof {
                assert(chain_protocols(regs@, off as int) == rest);
            }
        }
        let next = (d0 >> 8) & 0xFF;
        if next == 0 {
            proof {
                assert(rest == Seq::<int>::empty());
                assert(offs =~= all);
            }
            break;
        }
        off = off + next as usize;
    }
    r
}

/// The controller's state that its decisions read: whether it is there,
/// the best effective service latencies it announced, and the protocols of
/// its ports.
pub struct XhciController {
    pub present: bool,
    pub dbesl: u8,
    pub dbesld: u8,
    pub supported_protocols: Vec<XhciSupportedProtocol>,
}

/// `p` covers root hub port `port`.
pub open spec fn covers(p: XhciSupportedProtocol, port: u8) -> bool {
    port >= p.compatible_port_offset && p.compatible_port_offset + p.compatible_port_count > port
}

/// The first protocol at or after `i` that covers `port`.
pub open spec fn first_covering(ps: Seq<XhciSupportedProtocol>, port: u8, i: int) -> Option<int>
    decreases ps.len() - i,
{
    if i < 0 || i >= ps.len() {
        None
    } else if covers(ps[i], port) {
        Some(i)
    } else {
        first_covering(ps, port, i + 1)
    }
}

/// The protocol of a revision, none for a revision the controller does
/// not know.
pub open spec fn protocol_of_revision(major: u8, minor: u8) -> Option<UsbProtocol> {
    if major == 2 && minor == 0 {
        Some(UsbProtocol::Usb2)
    } else if major == 3 && minor == 0 {
        Some(UsbProtocol::Usb3)
    } else if major == 3 && minor == 0x10 {
        Some(UsbProtocol::Usb3_1)
    } else if major == 3 && minor == 0x20 {
        Some(UsbProtocol::Usb3_2)
    } else {
        None
    }
}

/// The speed a port-speed value means when a protocol defines no speed IDs.
pub open spec fn psiv_speed(v: u32) -> Option<UsbSpeed> {
    if v == 1 {
        Some(UsbSpeed::FullSpeed)
    } else if v == 2 {
        Some(UsbSpeed::LowSpeed)
    } else if v == 3 {
        Some(UsbSpeed::HighSpeed)
    } else if v == 4 {
        Some(UsbSpeed::SuperSpeedGen1x1)
    } else if v == 5 {
        Some(UsbSpeed::SuperSpeedPlusGen2x1)
    } else if v == 6 {
        Some(UsbSpeed::SuperSpeedPlusGen1x2)
    } else if v == 7 {
        Some(UsbSpeed::SuperSpeedPlusGen2x2)
    } else {
        None
    }
}

/// The speed a protocol speed ID word describes: its type, full-duplex
/// bit, exponent and mantissa; at 10 Gb/s the minor revision tells the two
/// kinds apart.
pub open spec fn definition_speed(d: XhciProtocolDefinition, minor: u8) -> Option<UsbSpeed> {
    let plt = field32(d.dword0, 6, 0x3);
    let pfd = bit32(d.dword0, 8);
    let psie = field32(d.dword0, 4, 0x3);
    let psim = field32(d.dword0, 16, 0xFFFF);
    if plt != 0 {
        None
    } else if !pfd && psie == 2 && psim == 12 {
        Some(UsbSpeed::FullSpeed)
    } else if !pfd && psie == 1 && psim == 1500 {
        Some(UsbSpeed::LowSpeed)
    } else if !pfd && psie == 2 && psim == 480 {
        Some(UsbSpeed::HighSpeed)
    } else if pfd && psie == 3 && psim == 5 {
        Some(UsbSpeed::SuperSpeedGen1x1)
    } else if pfd && psie == 3 && psim == 10 {
        Some(
            if minor == 0x10 {
                UsbSpeed::SuperSpeedPlusGen2x1
            } else {
                UsbSpeed::SuperSpeedPlusGen1x2
            },
        )
    } else if pfd && psie == 3 && psim == 20 {
        Some(UsbSpeed::SuperSpeedPlusGen2x2)
    } else {
        None
    }
}

/// The first of the first `n` speed ID words at or after `j` whose value is
/// `speed`.
pub open spec fn first_definition(defs: Seq<XhciProtocolDefinition>, n: int, speed: u32, j: int) -> Option<int>
    decreases n - j,
{
    if j < 0 || j >= n {
        None
    } else if field32(defs[j].dword0, 0, 0xF) == speed {
        Some(j)
    } else {
        first_definition(defs, n, speed, j + 1)
    }
}

/// The outcome of looking up the speed of a port.
#[derive(Clone, Copy, PartialEq, Eq, Structural, Debug)]
pub enum SpeedLookup {
    Found(UsbSpeed),
    Missing,
    Invalid,
}

/// Looks up the speed of `port` from protocol `i` on: the first protocol
/// that covers the port and defines no speed IDs reads the value directly;
/// one with speed IDs answers when one of its words has the value, else the
/// search goes on.
pub open spec fn speed_lookup(ps: Seq<XhciSupportedProtocol>, port: u8, speed: u32, i: int) -> SpeedLookup
    decreases ps.len() - i,
{
    if i < 0 || i >= ps.len() {
        SpeedLookup::Missing
    } else if covers(ps[i], port) {
        let p = ps[i];
        if p.psic == 0 {
            match psiv_speed(speed) {
                Some(s) => SpeedLookup::Found(s),
                None => SpeedLookup::Invalid,
            }
        } else {
            match first_definition(p.definitions@, p.psic + 1, speed, 0) {
                Some(j) => match definition_speed(p.definitions@[j], p.revision_minor) {
                    Some(s) => SpeedLookup::Found(s),
                    None => SpeedLookup::Invalid,
                },
                None => speed_lookup(ps, port, speed, i + 1),
            }
        }
    } else {
        speed_lookup(ps, port, speed, i + 1)
    }
}

impl XhciController {
    /// A controller that is not there.
    pub fn not_present() -> (r: Self)
        ensures
            !r.present,
            r.dbesl == 0 && r.dbesld == 0,
            r.supported_protocols@.len() == 0,
    {
        XhciController { present: false, dbesl: 0, dbesld: 0, supported_protocols: Vec::new() }
    }

    /// Every protocol has its speed ID words and covers ports below 256.
    pub open spec fn wf(&self) -> bool {
        forall|i: int|
            0 <= i < self.supported_protocols@.len() ==> {
                let p = #[trigger] self.supported_protocols@[i];
                &&& p.psic <= 15
                &&& p.definitions@.len() == p.psic + 1
                &&& p.compatible_port_offset + p.compatible_port_count <= 255
            }
    }

    /// The protocol of root hub port `port_index`: that of the first
    /// protocol that covers it.
    pub fn get_protocol_for_port(&self, port_index: u8) -> (r: Option<UsbProtocol>)
        requires
            self.wf(),
            first_covering(self.supported_protocols@, port_index, 0) matches Some(i)
                ==> protocol_of_revision(
                self.supported_protocols@[i].revision_major,
                self.supported_protocols@[i].revision_minor,
            ) is Some,
        ensures
            r == match first_covering(self.supported_protocols@, port_index, 0) {
                None => None,
                Some(i) => protocol_of_revision(
                    self.supported_protocols@[i].revision_major,
                    self.supported_protocols@[i].revision_minor,
                ),
            },
    {
        let mut i: usize = 0;
        while i < self.supported_protocols.len()
            invariant
                self.wf(),
                i <= self.supported_protocols@.len(),
                first_covering(self.supported_protocols@, port_index, 0) == first_covering(
                    self.supported_protocols@,
                    port_index,
                    i as int,
                ),
                first_covering(self.supported_protocols@, port_index, 0) matches Some(k)
                    ==> protocol_of_revision(
                    self.supported_protocols@[k].revision_major,
                    self.supported_protocols@[k].revision_minor,
                ) is Some,
            decreases self.supported_protocols@.len() - i,
        {
            let p = &self.supported_protocols[i];
            if port_index >= p.compatible_port_offset && p.compatible_port_offset
                + p.compatible_port_count > port_index {
                proof {
                    assert(covers(self.supported_protocols@[i as int], port_index));
                    assert(first_covering(self.supported_protocols@, port_index, i as int) == Some(i as int));
                }
                let major = p.revision_major;
                let minor = p.revision_minor;
                proof {
                    assert(major == self.supported_protocols@[i as int].revision_major);
                    assert(protocol_of_revision(major, minor) is Some);
                }
                if major == 2 && minor == 0 {
                    return Some(UsbProtocol::Usb2);
                } else if major == 3 && minor == 0 {
                    return Some(UsbProtocol::Usb3);
                } else if major == 3 && minor == 0x10 {
                    return Some(UsbProtocol::Usb3_1);
                } else {
                    return Some(UsbProtocol::Usb3_2);
                }
            }
            i = i + 1;
        }
        None
    }

    /// The speed of root hub port `port_index`, whose status and control
    /// register reads `portsc`.
    pub fn get_speed_for_port(&self, port_index: u8, portsc: u32) -> (r: Option<UsbSpeed>)
        requires
            self.wf(),
            speed_lookup(self.supported_protocols@, port_index, field32(portsc, 10, 0xF), 0)
                != SpeedLookup::Invalid,
        ensures
            r == match speed_lookup(self.supported_protocols@, port_index, field32(portsc, 10, 0xF), 0) {
                SpeedLookup::Found(s) => Some(s),
                _ => None,
            },
    {
        let port_speed = read_field32(portsc, 10, 0xF);
        let ghost ps = self.supported_protocols@;
        let mut i: usize = 0;
        while i < self.supported_protocols.len()
            invariant
                self.wf(),
                ps == self.supported_protocols@,
                i <= ps.len(),
                port_speed == field32(portsc, 10, 0xF),
                speed_lookup(ps, port_index, port_speed, 0) == speed_lookup(ps, port_index, port_speed, i as int),
                speed_lookup(ps, port_index, port_speed, 0) != SpeedLookup::Invalid,
            decreases ps.len() - i,
        {
            let p = &self.supported_protocols[i];
            if port_index >= p.compatible_port_offset && p.compatible_port_offset
                + p.compatible_port_count > port_index {
                if p.psic == 0 {
                    let s = if port_speed == 1 {
                        UsbSpeed::FullSpeed
                    } else if port_speed == 2 {
                        UsbSpeed::LowSpeed
                    } else if port_speed == 3 {
                        UsbSpeed::HighSpeed
                    } else if port_speed == 4 {
                        UsbSpeed::SuperSpeedGen1x1
                    } else if port_speed == 5 {
                        UsbSpeed::SuperSpeedPlusGen2x1
                    } else if port_speed == 6 {
                        UsbSpeed::SuperSpeedPlusGen1x2
                    } else {
                        UsbSpeed::SuperSpeedPlusGen2x2
                    };
                    return Some(s);
                } else {
                    let n: u8 = p.psic + 1;
                    let mut j: u8 = 0;
                    while j < n
                        invariant
                            ps == self.supported_protocols@,
                            i < ps.len(),
                            *p == ps[i as int],
                            covers(ps[i as int], port_index),
                            ps[i as int].psic != 0,
                            port_speed == field32(portsc, 10, 0xF),
                            speed_lookup(ps, port_index, port_speed, 0) == speed_lookup(ps, port_index, port_speed, i as int),
                            speed_lookup(ps, port_index, port_speed, 0) != SpeedLookup::Invalid,
                            n == p.psic + 1,
                            p.definitions@.len() == n,
                            j <= n,
                            first_definition(p.definitions@, n as int, port_speed, 0) == first_definition(
                                p.definitions@,
                                n as int,
                                port_speed,
                                j as int,
                            ),
                        decreases n - j,
                    {
                        let definition = p.get_definition(j);
                        if port_speed == definition.get(XhciProtocolDefinitionPart::Psiv) {
                            proof {
                                assert(first_definition(p.definitions@, n as int, port_speed, j as int) == Some(j as int));
                                assert(covers(ps[i as int], port_index));
                                assert(speed_lookup(ps, port_index, port_speed, i as int) == match definition_speed(
                                    p.definitions@[j as int],
                                    p.revision_minor,
                                ) {
                                    Some(s) => SpeedLookup::Found(s),
                                    None => SpeedLookup::Invalid,
                                });
                            }
                            let plt = definition.get(XhciProtocolDefinitionPart::Plt);
                            let pfd = definition.pfd();
                            let psie = definition.get(XhciProtocolDefinitionPart::Psie);
                            let psim = definition.get(XhciProtocolDefinitionPart::Psim);
                            let s = if plt == 0 && !pfd && psie == 2 && psim == 12 {
                                UsbSpeed::FullSpeed
                            } else if plt == 0 && !pfd && psie == 1 && psim == 1500 {
                                UsbSpeed::LowSpeed
                            } else if plt == 0 && !pfd && psie == 2 && psim == 480 {
                                UsbSpeed::HighSpeed
                            } else if plt == 0 && pfd && psie == 3 && psim == 5 {
                                UsbSpeed::SuperSpeedGen1x1
                            } else if plt == 0 && pfd && psie == 3 && psim == 10 {
                                if p.revision_minor == 0x10 {
                                    UsbSpeed::SuperSpeedPlusGen2x1
                                } else {
                                    UsbSpeed::SuperSpeedPlusGen1x2
                                }
                            } else {
                                UsbSpeed::SuperSpeedPlusGen2x2
                            };
                            return Some(s);
                        }
                        j = j + 1;
                    }
                }
            }
            i = i + 1;
        }
        None
    }
}

/// Pages that the scratchpad buffer array of `bufs` buffers takes, one
/// 8-byte pointer per buffer, rounded up to whole pages.
pub fn scratchpad_array_pages(bufs: u16) -> (r: u32)
    ensures
        r == (bufs * 8 + 0xFFF) / 0x1000,
{
    let bytes_needed = (bufs as u32) * 8;
    let mut pages_needed = bytes_needed / 0x1000;
    if bytes_needed % 0x1000 != 0 {
        pages_needed = pages_needed + 1;
    }
    pages_needed
}

impl XhciController {
    /// Keeps the best effective service latencies from the byte at offset
    /// 0x62 of the controller's PCI configuration space: the low four bits
    /// and the high four bits.
    pub fn set_service_latencies(&mut self, config_byte: u8)
        ensures
            final(self).dbesl == config_byte & 0xF,
            final(self).dbesld == (config_byte >> 4u8) & 0xF,
            final(self).present == old(self).present,
            final(self).supported_protocols@ == old(self).supported_protocols@,
    {
        self.dbesl = config_byte & 0xF;
        self.dbesld = (config_byte >> 4) & 0xF;
    }
}

/// The slot that an Enable Slot command got, from its completion event;
/// the command must have succeeded.
pub fn enabled_slot(event: &XhciCommandCompletionEventTrb) -> (r: u32)
    requires
        field32(event.dwords@[2], 24, 0xff) == 1,
    ensures
        r == field32(event.dwords@[3], 24, 0xff),
{
    event.get_part(XhciCommandCompletionEventTrbPart::SlotId)
}

/// Prepares the input context of an Address Device command for the device
/// at root hub port `port`, whose status and control register reads
/// `portsc`: slot and default control endpoint added, the slot context for
/// the port and its speed, the control endpoint with packet size
/// `max_packet_size`, its ring at `tr_dequeue_pointer` and an average TRB
/// length of a third of a packet.
pub fn prepare_address_device(
    input_context: &mut XhciInputContext32,
    port: u8,
    portsc: u32,
    max_packet_size: u16,
    tr_dequeue_pointer: u64,
)
    ensures
        final(input_context).input_context_configuration == (crate::xhci_context::XhciInputContextConfigurationPart32 {
            a_line: 3,
            ..old(input_context).input_context_configuration
        }),
        final(input_context).slot_context.dwords@ == slot_initialized(
            old(input_context).slot_context.dwords@,
            0,
            field32(portsc, 10, 0xF) as u8,
            port,
            0,
            0,
            0,
        ),
        final(input_context).default_control_endpoint.dwords@ == endpoint_initialized(
            old(input_context).default_control_endpoint.dwords@,
            4,
            max_packet_size,
            tr_dequeue_pointer,
            max_packet_size / 3,
        ),
        final(input_context).endpoints == old(input_context).endpoints,
{
    input_context.input_context_configuration.a_line = 3;
    let speed = read_field32(portsc, 10, 0xF);
    proof {
        lemma_field32_bound(portsc, 10, 0xF);
    }
    input_context.slot_context.initialize_for_address_device(0, speed as u8, port, 0, 0, 0);
    input_context.default_control_endpoint.initialize_for_address_device(
        4,
        max_packet_size,
        tr_dequeue_pointer,
        max_packet_size / 3,
    );
}

/// The packet size of a device's default control endpoint from the byte
/// of its device descriptor: a power of two given by its exponent on
/// SuperSpeed, the byte itself on USB 2.0. USB 1 devices are not handled.
pub fn control_max_packet_size(protocol: UsbProtocol, b_max_packet_size0: u8) -> (r: u16)
    requires
        protocol != UsbProtocol::Usb1,
        protocol != UsbProtocol::Usb2 ==> b_max_packet_size0 < 16,
    ensures
        protocol == UsbProtocol::Usb2 ==> r == b_max_packet_size0,
        protocol != UsbProtocol::Usb2 ==> r == vstd::arithmetic::power2::pow2(b_max_packet_size0 as nat),
{
    match protocol {
        UsbProtocol::Usb2 => b_max_packet_size0 as u16,
        _ => {
            let mut r: u16 = 1;
            let mut i: u8 = 0;
            proof {
                vstd::arithmetic::power2::lemma2_to64();
            }
            while i < b_max_packet_size0
                invariant
                    i <= b_max_packet_size0,
                    b_max_packet_size0 < 16,
                    r == vstd::arithmetic::power2::pow2(i as nat),
                decreases b_max_packet_size0 - i,
            {
                proof {
                    vstd::arithmetic::power2::lemma_pow2_unfold((i + 1) as nat);
                    vstd::arithmetic::power2::lemma_pow2_strictly_increases(i as nat, 15);
                    vstd::arithmetic::power2::lemma2_to64();
                }
                r = r * 2;
                i = i + 1;
            }
            r
        },
    }
}

/// Prepares the input context of an Evaluate Context command that gives
/// the default control endpoint its packet size: the endpoint's context as
/// the device context holds it, with the new packet size, and the endpoint
/// marked to evaluate.
pub fn prepare_evaluate_context(
    input_context: &mut XhciInputContext32,
    device_control_endpoint: &XhciEndpointContext32,
    max_packet_size: u16,
)
    ensures
        final(input_context).input_context_configuration == (crate::xhci_context::XhciInputContextConfigurationPart32 {
            a_line: 2,
            ..old(input_context).input_context_configuration
        }),
        final(input_context).default_control_endpoint.dwords@ == ctx_field_written(
            device_control_endpoint.dwords@,
            XhciEndpointContext32Part::MaxPacketSize.layout_spec(),
            max_packet_size as u32,
        ),
        final(input_context).slot_context == old(input_context).slot_context,
        final(input_context).endpoints == old(input_context).endpoints,
{
    input_context.default_control_endpoint = *device_control_endpoint;
    input_context.default_control_endpoint.set_part(XhciEndpointContext32Part::MaxPacketSize, max_packet_size as u32);
    input_context.input_context_configuration.a_line = 2;
}

/// Prepares the input context of a Configure Endpoint command that opens
/// the endpoint with device context index `dci`: when the slot names fewer
/// context entries than that, the slot context as the device context holds
/// it, with `dci` entries; and the slot and the endpoint marked to add.
pub fn prepare_configure_endpoint(
    input_context: &mut XhciInputContext32,
    device_slot: &XhciSlotContext32,
    dci: u8,
)
    requires
        dci < 31,
    ensures
        final(input_context).input_context_configuration == (crate::xhci_context::XhciInputContextConfigurationPart32 {
            a_line: (1u32 << (dci as u32)) | 1u32,
            ..old(input_context).input_context_configuration
        }),
        dci > field32(device_slot.dwords@[0], 27, 0x1F) ==> final(input_context).slot_context.dwords@ == ctx_field_written(
            device_slot.dwords@,
            XhciSlotContext32Part::ContextEntries.layout_spec(),
            dci as u32,
        ),
        dci <= field32(device_slot.dwords@[0], 27, 0x1F) ==> final(input_context).slot_context == old(input_context).slot_context,
        final(input_context).default_control_endpoint == old(input_context).default_control_endpoint,
        final(input_context).endpoints == old(input_context).endpoints,
{
    let context_entries = read_field32(device_slot.dwords[0], 27, 0x1F);
    if dci as u32 > context_entries {
        input_context.slot_context = *device_slot;
        input_context.slot_context.set_part(XhciSlotContext32Part::ContextEntries, dci as u32);
    }
    input_context.input_context_configuration.a_line = (1u32 << (dci as u32)) | 1;
}

} // verus!
