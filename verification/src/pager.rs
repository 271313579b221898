//! Four-level page tables: how a virtual address splits into table indices
//! and back, the flags of an entry, and the page a mapping makes.
use vstd::prelude::*;

verus! {

/// A mapping of a virtual page to a physical page.
#[derive(Clone, Copy, PartialEq, Eq, Structural, Debug)]
pub struct Page {
    pub physical: u64,
    pub virt: u64,
}

/// The page that holds address `ptr`.
pub fn page_align(ptr: u64) -> (r: u64)
    ensures
        r == ptr & !0xFFFu64,
{
    ptr & !0xFFFu64
}

impl Page {
    pub fn new(physical: u64, virt: u64) -> (r: Page)
        ensures
            r == (Page { physical, virt }),
    {
        Page { physical, virt }
    }

    pub fn get_physical(&self) -> (r: u64)
        ensures
            r == self.physical,
    {
        self.physical
    }

    pub fn get_virt(&self) -> (r: u64)
        ensures
            r == self.virt,
    {
        self.virt
    }
}

/// The entry maps a 2 MiB or 1 GiB page instead of pointing at a table.
pub const PAGER_PAGE_SIZE: u16 = 1 << 7;
/// The table the entry points at was allocated by the pager.
pub const PAGER_STAB_ALLOCATED: u16 = 1 << 8;
pub const PAGER_2MIB: u32 = 0x200000;
pub const PAGER_1GIB: u32 = 0x40000000;
pub const PAGER_512GIB: u64 = 0x80_0000_0000;
/// User accessible.
pub const PAGER_US: u16 = 1 << 2;
/// Writable.
pub const PAGER_RW: u16 = 1 << 1;
pub const PAGER_PRESENT: u16 = 1;
/// Caching disabled.
pub const PAGER_PCD: u16 = 1 << 4;
pub const PAGER_PAT: u16 = 1 << 12;
/// The PAT bit of a page table entry.
pub const PAGER_PAT2: u16 = 1 << 7;

/// The four table indices of a virtual address, from the top level down,
/// and the byte offset is dropped.
#[derive(Clone, Copy, PartialEq, Eq, Structural, Debug)]
pub struct Address {
    pub pdp: u16,
    pub pd: u16,
    pub pt: u16,
    pub page: u16,
}

/// The page tables of an address space, named by the physical address of
/// the top-level table.
#[derive(Clone, Copy, PartialEq, Eq, Structural, Debug)]
pub struct Pager {
    pub cr3: u64,
}

/// Index `level` (0 for the page, 3 for the top) of virtual address `virt`.
pub open spec fn index_of(virt: u64, level: u64) -> u16 {
    ((virt >> (12u64 + 9u64 * level)) & 0x1FFu64) as u16
}

impl Pager {
    /// The address space whose top-level table is at `cr3`.
    pub fn new(cr3: u64) -> (r: Pager)
        ensures
            r.cr3 == cr3,
    {
        Pager { cr3 }
    }

    /// Physical address of the top-level table.
    pub fn get_cr3(&self) -> (r: u64)
        ensures
            r == self.cr3,
    {
        self.cr3
    }

    /// The virtual address of page `page` of table `pt` of directory `pd`
    /// of top-level entry `pdp`.
    pub fn into_address(pdp: u16, pd: u16, pt: u16, page: u16) -> (r: u64)
        requires
            pdp < 512 && pd < 512 && pt < 512 && page < 512,
        ensures
            r == page * 0x1000 + pt * PAGER_2MIB + pd * PAGER_1GIB + pdp * PAGER_512GIB,
    {
        (page as u64) * 0x1000 + (pt as u64) * 0x200000 + (pd as u64) * 0x4000_0000 + (pdp as u64)
            * 0x80_0000_0000
    }

    /// The table indices of virtual address `virt`.
    pub fn translate(virt: u64) -> (r: Address)
        ensures
            r == (Address {
                pdp: index_of(virt, 3),
                pd: index_of(virt, 2),
                pt: index_of(virt, 1),
                page: index_of(virt, 0),
            }),
    {
        let mut v = virt & !0xFFFu64;
        v = v >> 12;
        let page = (v & 0x1FF) as u16;
        v = v >> 9;
        let pt = (v & 0x1FF) as u16;
        v = v >> 9;
        let pd = (v & 0x1FF) as u16;
        v = v >> 9;
        let pdp = (v & 0x1FF) as u16;
        proof {
            lemma_translate_steps(virt);
        }
        Address { pdp, pd, pt, page }
    }
}

/// The shifts that `translate` takes one after another pick the four indices.
proof fn lemma_translate_steps(virt: u64)
    ensures
        ((((virt & !0xFFFu64) >> 12u64) & 0x1FFu64) as u16) == index_of(virt, 0),
        (((((virt & !0xFFFu64) >> 12u64) >> 9u64) & 0x1FFu64) as u16) == index_of(virt, 1),
        ((((((virt & !0xFFFu64) >> 12u64) >> 9u64) >> 9u64) & 0x1FFu64) as u16) == index_of(virt, 2),
        (((((((virt & !0xFFFu64) >> 12u64) >> 9u64) >> 9u64) >> 9u64) & 0x1FFu64) as u16) == index_of(virt, 3),
{
    assert(((((virt & !0xFFFu64) >> 12u64) & 0x1FFu64) as u16) == (((virt >> 12u64) & 0x1FFu64) as u16)
        && (((((virt & !0xFFFu64) >> 12u64) >> 9u64) & 0x1FFu64) as u16) == (((virt >> 21u64) & 0x1FFu64) as u16)
        && ((((((virt & !0xFFFu64) >> 12u64) >> 9u64) >> 9u64) & 0x1FFu64) as u16) == (((virt >> 30u64) & 0x1FFu64) as u16)
        && (((((((virt & !0xFFFu64) >> 12u64) >> 9u64) >> 9u64) >> 9u64) & 0x1FFu64) as u16) == (((virt >> 39u64) & 0x1FFu64) as u16))
        by (bit_vector);
}

/// Splitting an address made of four indices gives the indices back.
pub proof fn lemma_translate_into_address(pdp: u16, pd: u16, pt: u16, page: u16)
    requires
        pdp < 512 && pd < 512 && pt < 512 && page < 512,
    ensures
        ({
            let v = (page * 0x1000 + pt * 0x200000 + pd * 0x40000000 + pdp * 0x80_0000_0000) as u64;
            index_of(v, 3) == pdp && index_of(v, 2) == pd && index_of(v, 1) == pt && index_of(v, 0) == page
        }),
{
    let a = pdp as u64;
    let b = pd as u64;
    let c = pt as u64;
    let d = page as u64;
    assert(d * 0x1000 + c * 0x200000 + b * 0x40000000 + a * 0x80_0000_0000 == (d << 12u64) | (c << 21u64) | (b << 30u64) | (a << 39u64)
        && (((((d << 12u64) | (c << 21u64) | (b << 30u64) | (a << 39u64)) >> 39u64) & 0x1FFu64) as u16) == pdp
        && (((((d << 12u64) | (c << 21u64) | (b << 30u64) | (a << 39u64)) >> 30u64) & 0x1FFu64) as u16) == pd
        && (((((d << 12u64) | (c << 21u64) | (b << 30u64) | (a << 39u64)) >> 21u64) & 0x1FFu64) as u16) == pt
        && (((((d << 12u64) | (c << 21u64) | (b << 30u64) | (a << 39u64)) >> 12u64) & 0x1FFu64) as u16) == page)
        by (bit_vector)
        requires
            a < 512 && b < 512 && c < 512 && d < 512,
            a == pdp as u64 && b == pd as u64 && c == pt as u64 && d == page as u64,
    ;
}

/// Joining the indices of a page-aligned address below 256 TiB gives the address back.
pub proof fn lemma_into_address_translate(virt: u64)
    requires
        virt & 0xFFFu64 == 0,
        virt < 0x1_0000_0000_0000,
    ensures
        index_of(virt, 0) * 0x1000 + index_of(virt, 1) * 0x200000 + index_of(virt, 2) * 0x40000000
            + index_of(virt, 3) * 0x80_0000_0000 == virt,
{
    assert((index_of(virt, 0) as u64) * 0x1000 + (index_of(virt, 1) as u64) * 0x200000 + (index_of(virt, 2) as u64)
        * 0x40000000 + (index_of(virt, 3) as u64) * 0x80_0000_0000 == virt) by (bit_vector)
        requires
            virt & 0xFFFu64 == 0,
            virt < 0x1_0000_0000_0000,
    ;
}

} // verus!
