//! The interrupt that a PCI routing entry names, decoded from the resource
//! descriptors (`_CRS`) of its interrupt link device.
use vstd::prelude::*;

verus! {

/// An interrupt line of the I/O APIC with its trigger mode and polarity.
#[derive(Clone, Copy, PartialEq, Eq, Structural, Debug)]
pub struct PciRoutingInterrupt {
    pub irq: u8,
    /// 1 for edge triggered, 0 for level triggered.
    pub trigger_mode: u8,
    /// 1 for active low, 0 for active high.
    pub polarity: u8,
}

/// What walking the descriptors gives: the interrupt, none, or a list that
/// the walk cannot read (a descriptor that runs past the buffer or past the
/// counted bytes, a large descriptor of no length, or a large descriptor
/// met while looking for another source than the first).
#[derive(Clone, Copy, PartialEq, Eq, Structural, Debug)]
pub enum CrsWalk {
    Found(PciRoutingInterrupt),
    NotFound,
    Unreadable,
}

/// The `idx`th set bit of `mask` from bit `i` on, `counter` set bits having
/// been passed already.
pub open spec fn irq_of_mask(mask: u16, i: int, counter: int, idx: u32) -> Option<u8>
    decreases 16 - i,
{
    if i < 0 || i >= 16 {
        None
    } else if (mask >> (i as u16)) & 1u16 != 0 {
        if counter == idx {
            Some(i as u8)
        } else {
            irq_of_mask(mask, i + 1, counter + 1, idx)
        }
    } else {
        irq_of_mask(mask, i + 1, counter, idx)
    }
}

/// Little-endian 16-bit value after the type byte of the descriptor at `pos`.
pub open spec fn crs_u16(s: Seq<u8>, pos: int) -> u16 {
    (s[pos + 1] as u16) | ((s[pos + 2] as u16) << 8u16)
}

/// Walks the descriptors from `pos` on with `rem` bytes left to count,
/// looking for source `idx`: an IRQ descriptor gives its `idx`th interrupt
/// (trigger mode in bit 0 and polarity in bit 3 of its flags); an extended
/// interrupt descriptor gives its first interrupt (trigger mode in bit 1
/// and polarity in bit 2 of its flags). A large descriptor is stepped over
/// by its length field alone.
pub open spec fn crs_walk(s: Seq<u8>, pos: int, rem: int, idx: u32) -> CrsWalk
    decreases rem,
{
    if rem <= 0 {
        CrsWalk::NotFound
    } else if pos < 0 || pos >= s.len() {
        CrsWalk::Unreadable
    } else {
        let t = s[pos];
        if t & 0x80u8 == 0 {
            let length = (t & 7u8) as int;
            if t >> 3u8 == 4u8 {
                if pos + 2 >= s.len() {
                    CrsWalk::Unreadable
                } else {
                    match irq_of_mask(crs_u16(s, pos), 0, 0, idx) {
                        Some(i) => if pos + 3 >= s.len() {
                            CrsWalk::Unreadable
                        } else {
                            CrsWalk::Found(
                                PciRoutingInterrupt {
                                    irq: i,
                                    trigger_mode: s[pos + 3] & 1u8,
                                    polarity: (s[pos + 3] >> 3u8) & 1u8,
                                },
                            )
                        },
                        None => if rem < length + 1 {
                            CrsWalk::Unreadable
                        } else {
                            crs_walk(s, pos + length + 1, rem - length - 1, idx)
                        },
                    }
                }
            } else if rem < length + 1 {
                CrsWalk::Unreadable
            } else {
                crs_walk(s, pos + length + 1, rem - length - 1, idx)
            }
        } else if idx != 0 {
            CrsWalk::Unreadable
        } else if t & 0x7Fu8 == 9u8 {
            if pos + 5 >= s.len() {
                CrsWalk::Unreadable
            } else {
                CrsWalk::Found(
                    PciRoutingInterrupt {
                        irq: s[pos + 5],
                        trigger_mode: (s[pos + 3] >> 1u8) & 1u8,
                        polarity: (s[pos + 3] >> 2u8) & 1u8,
                    },
                )
            }
        } else if pos + 2 >= s.len() {
            CrsWalk::Unreadable
        } else {
            let length = crs_u16(s, pos) as int;
            if length == 0 || rem < length {
                CrsWalk::Unreadable
            } else {
                crs_walk(s, pos + length, rem - length, idx)
            }
        }
    }
}

/// The interrupt that source `idx` of the descriptors `s` names, if any.
pub open spec fn crs_interrupt(s: Seq<u8>, idx: u32) -> Option<PciRoutingInterrupt> {
    match crs_walk(s, 0, s.len() as int, idx) {
        CrsWalk::Found(x) => Some(x),
        _ => None,
    }
}

/// Number of set bits of `mask` among bits `i` up to `b`, excluded.
pub open spec fn set_bits_between(mask: u16, i: int, b: int) -> int
    decreases b - i,
{
    if i >= b || i < 0 {
        0
    } else {
        set_bits_between(mask, i, b - 1) + if (mask >> ((b - 1) as u16)) & 1u16 != 0 {
            1int
        } else {
            0int
        }
    }
}

/// Counting the set bits up to `b` from `i` is the bit at `i` and those up
/// to `b` from `i + 1`.
proof fn lemma_set_bits_front(mask: u16, i: int, b: int)
    requires
        0 <= i < b,
    ensures
        set_bits_between(mask, i, b) == set_bits_between(mask, i + 1, b) + if (mask >> (i as u16)) & 1u16
            != 0 {
            1int
        } else {
            0int
        },
    decreases b - i,
{
    if b - 1 > i {
        lemma_set_bits_front(mask, i, b - 1);
        assert(set_bits_between(mask, i + 1, b) == set_bits_between(mask, i + 1, b - 1) + if (mask >> ((b
            - 1) as u16)) & 1u16 != 0 {
            1int
        } else {
            0int
        });
    } else {
        assert(set_bits_between(mask, i, i) == 0);
        assert(set_bits_between(mask, i + 1, b) == 0);
    }
}

/// A bit that the mask scan gives is a set bit of the mask, with as many
/// set bits below it, from `i` on, as are still to be passed.
proof fn lemma_irq_of_mask_set(mask: u16, i: int, counter: int, idx: u32)
    requires
        0 <= i,
    ensures
        irq_of_mask(mask, i, counter, idx) matches Some(b) ==> i <= b < 16 && (mask >> (b as u16)) & 1u16 != 0
            && counter + set_bits_between(mask, i, b as int) == idx,
    decreases 16 - i,
{
    if let Some(b) = irq_of_mask(mask, i, counter, idx) {
        if (b as int) > i {
            lemma_set_bits_front(mask, i, b as int);
        }
    }
    if 0 <= i < 16 {
        lemma_irq_of_mask_set(mask, i + 1, counter + 1, idx);
        lemma_irq_of_mask_set(mask, i + 1, counter, idx);
    }
}

/// An interrupt that the descriptors give comes either from a small IRQ
/// descriptor (type 4) at some `p`: its number is the set bit of the mask
/// in bytes 1 and 2 with `idx` set bits below it, its trigger mode is bit 0 and its polarity bit 3 of the
/// flags in byte 3; or from an extended interrupt descriptor (large, type 9)
/// at some `p`: its number is byte 5, its trigger mode bit 1 and its
/// polarity bit 2 of the flags in byte 3.
pub proof fn lemma_crs_interrupt_source(s: Seq<u8>, pos: int, rem: int, idx: u32)
    requires
        0 <= pos,
    ensures
        crs_walk(s, pos, rem, idx) matches CrsWalk::Found(x) ==> exists|p: int|
            #![trigger s[p]]
            pos <= p && p + 3 < s.len() && ((s[p] & 0x80u8 == 0 && s[p] >> 3u8 == 4u8 && x.irq < 16 && ((((
            s[p + 1] as u16) | ((s[p + 2] as u16) << 8u16)) >> (x.irq as u16)) & 1u16 != 0) && set_bits_between(
                (s[p + 1] as u16) | ((s[p + 2] as u16) << 8u16),
                0,
                x.irq as int,
            ) == idx && x.trigger_mode
                == s[p + 3] & 1u8 && x.polarity == (s[p + 3] >> 3u8) & 1u8) || (s[p] & 0x80u8 != 0 && s[p]
                & 0x7Fu8 == 9u8 && p + 5 < s.len() && x.irq == s[p + 5] && x.trigger_mode == (s[p + 3] >> 1u8)
                & 1u8 && x.polarity == (s[p + 3] >> 2u8) & 1u8)),
    decreases rem,
{
    if rem > 0 && pos < s.len() {
        let t = s[pos];
        if t & 0x80u8 == 0 {
            let length = (t & 7u8) as int;
            if t >> 3u8 == 4u8 && pos + 2 < s.len() {
                lemma_irq_of_mask_set(crs_u16(s, pos), 0, 0, idx);
            }
            if rem >= length + 1 {
                lemma_crs_interrupt_source(s, pos + length + 1, rem - length - 1, idx);
            }
        } else if pos + 2 < s.len() {
            let length = crs_u16(s, pos) as int;
            if length != 0 && rem >= length {
                lemma_crs_interrupt_source(s, pos + length, rem - length, idx);
            }
        }
    }
}

/// The `source_index`th set bit of an IRQ descriptor's mask.
fn scan_irq_mask(mask: u16, source_index: u32) -> (r: Option<u8>)
    ensures
        r == irq_of_mask(mask, 0, 0, source_index),
{
    let mut counter: u32 = 0;
    let mut i: u16 = 0;
    while i < 16
        invariant
            i <= 16,
            counter <= i,
            irq_of_mask(mask, 0, 0, source_index) == irq_of_mask(mask, i as int, counter as int, source_index),
        decreases 16 - i,
    {
        if (mask >> i) & 1 != 0 {
            if counter == source_index {
                return Some(i as u8);
            }
            counter = counter + 1;
        }
        i = i + 1;
    }
    None
}

/// Decodes the interrupt that source `source_index` of the resource
/// descriptors `crs` names.
pub fn decode_crs_interrupt(crs: &[u8], source_index: u32) -> (r: Option<PciRoutingInterrupt>)
    requires
        crs_walk(crs@, 0, crs@.len() as int, source_index) != CrsWalk::Unreadable,
    ensures
        r == crs_interrupt(crs@, source_index),
{
    let n = crs.len();
    let mut pos: usize = 0;
    let mut rem: usize = n;
    while rem != 0
        invariant
            n == crs@.len(),
            pos + rem == n,
            crs_walk(crs@, pos as int, rem as int, source_index) == crs_walk(crs@, 0, n as int, source_index),
            crs_walk(crs@, pos as int, rem as int, source_index) != CrsWalk::Unreadable,
        decreases rem,
    {
        let t = crs[pos];
        if t & 0x80 == 0 {
            let length = (t & 7) as usize;
            if t >> 3 == 4 {
                let mask = (crs[pos + 1] as u16) | ((crs[pos + 2] as u16) << 8);
                assert(mask == crs_u16(crs@, pos as int));
                match scan_irq_mask(mask, source_index) {
                    Some(i) => {
                        assert(irq_of_mask(crs_u16(crs@, pos as int), 0, 0, source_index) == Some(i));
                        let flags = crs[pos + 3];
                        return Some(PciRoutingInterrupt { irq: i, trigger_mode: flags & 1, polarity: (flags >> 3) & 1 });
                    },
                    None => {},
                }
            }
            pos = pos + length + 1;
            rem = rem - (length + 1);
        } else {
            if t & 0x7F == 9 {
                let flags = crs[pos + 3];
                let interrupt = crs[pos + 5];
                return Some(
                    PciRoutingInterrupt { irq: interrupt, trigger_mode: (flags >> 1) & 1, polarity: (flags >> 2) & 1 },
                );
            }
            let length = ((crs[pos + 1] as u16) | ((crs[pos + 2] as u16) << 8)) as usize;
            pos = pos + length;
            rem = rem - length;
        }
    }
    None
}

/// Whether a routing entry with address `addr` (device in the high word,
/// function or `0xFFFF` for every function in the low word) and pin
/// `entry_pin` routes pin `pin` of function `func` of device `device`.
pub fn routing_entry_matches(addr: u32, entry_pin: u8, device: u8, func: u8, pin: u8) -> (r: bool)
    ensures
        r == ((addr == (((device as u32) << 16u32) | func as u32) || (addr & 0xFFFFu32 == 0xFFFFu32 && addr
            >> 16u32 == device as u32)) && entry_pin == pin),
{
    let specific = ((device as u32) << 16) | func as u32;
    (addr == specific || ((addr & 0xFFFF) == 0xFFFF && (addr >> 16) == device as u32)) && entry_pin == pin
}

} // verus!
