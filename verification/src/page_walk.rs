//! Walking the page tables of an address space: reading a mapping back,
//! switching a mapping on and off, and the checks made on the way down.
use vstd::prelude::*;
use crate::memory::MemoryResult;
use crate::page_tables::{PageTableMemory, TABLE_ENTRIES};
use crate::pager::{index_of, Address, Pager, PAGER_PAGE_SIZE, PAGER_PRESENT, PAGER_RW, PAGER_US};
use crate::processes::ExecutionMode;

verus! {

/// The address an entry points at.
pub open spec fn addr_of(e: u64) -> u64 {
    e & !0xFFFu64
}

/// The entry maps a large page instead of pointing at a table.
pub open spec fn large(e: u64) -> bool {
    e & 0x80u64 != 0
}

/// The flag bits of an entry.
pub open spec fn flags_of(e: u64) -> u16 {
    (e & 0xFFFu64) as u16
}

/// The table indices of `virt`.
pub open spec fn address_of(virt: u64) -> Address {
    Address {
        pdp: index_of(virt, 3),
        pd: index_of(virt, 2),
        pt: index_of(virt, 1),
        page: index_of(virt, 0),
    }
}

/// The top-level entry on the way to `a`.
pub open spec fn top_entry(m: Map<u64, Seq<u64>>, cr3: u64, a: Address) -> u64 {
    m[cr3][a.pdp as int]
}

/// The table of page-table entries that the walk to `a` reaches through
/// present directory entries; a large page at the top is a paging error,
/// one at the directory level has the wrong flags.
pub open spec fn pd_lookup(m: Map<u64, Seq<u64>>, cr3: u64, a: Address) -> Result<u64, MemoryResult> {
    let e1 = top_entry(m, cr3, a);
    if e1 == 0 || large(e1) {
        Err(MemoryResult::PagingError)
    } else {
        let e2 = m[addr_of(e1)][a.pd as int];
        if e2 == 0 {
            Err(MemoryResult::PagingError)
        } else if large(e2) {
            Err(MemoryResult::InvalidActivateFlags)
        } else {
            Ok(addr_of(e2))
        }
    }
}

/// The walk to the directory of `a` reads page-table pages only.
pub open spec fn pd_readable(m: Map<u64, Seq<u64>>, cr3: u64, a: Address) -> bool {
    &&& m.contains_key(cr3)
    &&& (top_entry(m, cr3, a) != 0 && !large(top_entry(m, cr3, a))) ==> m.contains_key(
        addr_of(top_entry(m, cr3, a)),
    )
}

/// Where the mapping of `a` is kept: the table and index of the entry, and
/// whether that entry maps a 2 MiB page.
pub open spec fn leaf_slot(m: Map<u64, Seq<u64>>, cr3: u64, a: Address) -> Result<
    (u64, u16, bool),
    MemoryResult,
> {
    match pd_lookup(m, cr3, a) {
        Err(e) => Err(e),
        Ok(t) => {
            let e3 = m[t][a.pt as int];
            if large(e3) {
                Ok((t, a.pt, true))
            } else {
                Ok((addr_of(e3), a.page, false))
            }
        },
    }
}

/// The walk to the entry that maps `a` reads page-table pages only.
pub open spec fn leaf_readable(m: Map<u64, Seq<u64>>, cr3: u64, a: Address) -> bool {
    &&& pd_readable(m, cr3, a)
    &&& pd_lookup(m, cr3, a) matches Ok(t) ==> m.contains_key(t) && (!large(m[t][a.pt as int])
        ==> m.contains_key(addr_of(m[t][a.pt as int])))
}

/// What reading the mapping of a page-aligned address checks first.
pub open spec fn aligned_slot(m: Map<u64, Seq<u64>>, cr3: u64, virt: u64) -> Result<
    (u64, u16, bool),
    MemoryResult,
> {
    if virt & 0xFFFu64 != 0 {
        Err(MemoryResult::InvalidAddress)
    } else {
        leaf_slot(m, cr3, address_of(virt))
    }
}

/// The physical address that `virt` is mapped to: the base of its 2 MiB
/// page, or its 4 KiB page.
pub open spec fn physical_of(m: Map<u64, Seq<u64>>, cr3: u64, virt: u64) -> Result<u64, MemoryResult> {
    match aligned_slot(m, cr3, virt) {
        Err(e) => Err(e),
        Ok((t, i, _)) => Ok(addr_of(m[t][i as int])),
    }
}

/// The flag bits that say whether the mapping of `virt` is present or user
/// accessible: those of the top-level entry for a 2 MiB page, those of the
/// page's own entry otherwise.
pub open spec fn mapping_flags(m: Map<u64, Seq<u64>>, cr3: u64, virt: u64) -> Result<u64, MemoryResult> {
    match aligned_slot(m, cr3, virt) {
        Err(e) => Err(e),
        Ok((t, i, big)) => Ok(
            if big {
                top_entry(m, cr3, address_of(virt)) & 0xFFFu64
            } else {
                m[t][i as int]
            },
        ),
    }
}

/// The entry that results from changing the flags of the mapping of
/// `virt` with `change`: a 2 MiB entry gets the changed flags of the
/// top-level entry, a 4 KiB entry its own changed bits.
pub open spec fn changed_entry(
    m: Map<u64, Seq<u64>>,
    cr3: u64,
    virt: u64,
    t: u64,
    i: u16,
    big: bool,
    change: spec_fn(u64) -> u64,
) -> u64 {
    if big {
        addr_of(m[t][i as int]) | change(top_entry(m, cr3, address_of(virt)) & 0xFFFu64)
    } else {
        change(m[t][i as int])
    }
}

/// A well-formed memory in which the walk to `virt` reads page-table pages
/// only, where `virt` is page-aligned.
pub open spec fn walk_ok(mem: &PageTableMemory, cr3: u64, virt: u64) -> bool {
    &&& mem.wf()
    &&& virt & 0xFFFu64 == 0 ==> leaf_readable(mem@, cr3, address_of(virt))
}

impl Pager {
    /// The table of page-table entries for `address`, walking through
    /// present entries only.
    fn get_pd_unallocated(&self, mem: &PageTableMemory, address: &Address) -> (r: Result<
        u64,
        MemoryResult,
    >)
        requires
            mem.wf(),
            pd_readable(mem@, self.cr3, *address),
            address.pdp < 512 && address.pd < 512,
        ensures
            r == pd_lookup(mem@, self.cr3, *address),
    {
        let e1 = mem.read(self.cr3, address.pdp as usize);
        if e1 == 0 {
            return Err(MemoryResult::PagingError);
        }
        if e1 & 0x80u64 != 0 {
            return Err(MemoryResult::PagingError);
        }
        let e2 = mem.read(e1 & !0xFFFu64, address.pd as usize);
        if e2 == 0 {
            return Err(MemoryResult::PagingError);
        }
        if e2 & 0x80u64 != 0 {
            return Err(MemoryResult::InvalidActivateFlags);
        }
        Ok(e2 & !0xFFFu64)
    }

    /// The entry that maps `virt`: its table, its index and whether it maps
    /// a 2 MiB page.
    fn find_leaf(&self, mem: &PageTableMemory, virt: u64) -> (r: Result<(u64, u16, bool), MemoryResult>)
        requires
            walk_ok(mem, self.cr3, virt),
        ensures
            r == aligned_slot(mem@, self.cr3, virt),
            r matches Ok((t, i, _)) ==> mem@.contains_key(t) && i < 512,
    {
        if virt & 0xFFF != 0 {
            return Err(MemoryResult::InvalidAddress);
        }
        let address = Pager::translate(virt);
        proof {
            lemma_indices_small(virt);
        }
        let t = match self.get_pd_unallocated(mem, &address) {
            Ok(t) => t,
            Err(e) => return Err(e),
        };
        let e3 = mem.read(t, address.pt as usize);
        if e3 & 0x80u64 != 0 {
            Ok((t, address.pt, true))
        } else {
            Ok((e3 & !0xFFFu64, address.page, false))
        }
    }

    /// The physical address that `virt` is mapped to.
    pub fn get_physical(&self, mem: &PageTableMemory, virt: u64) -> (r: Result<u64, MemoryResult>)
        requires
            walk_ok(mem, self.cr3, virt),
        ensures
            r == physical_of(mem@, self.cr3, virt),
    {
        match self.find_leaf(mem, virt) {
            Err(e) => Err(e),
            Ok((t, i, _)) => Ok(mem.read(t, i as usize) & !0xFFFu64),
        }
    }

    /// Whether the mapping of `virt` is present.
    pub fn is_active(&self, mem: &PageTableMemory, virt: u64) -> (r: Result<bool, MemoryResult>)
        requires
            walk_ok(mem, self.cr3, virt),
        ensures
            r == match mapping_flags(mem@, self.cr3, virt) {
                Err(e) => Err(e),
                Ok(f) => Ok::<bool, MemoryResult>(f & 1 == 1),
            },
    {
        match self.flags_for(mem, virt) {
            Err(e) => Err(e),
            Ok(f) => Ok(f & 1 == 1),
        }
    }

    /// Whether the mapping of `virt` is closed to processes.
    pub fn is_kernel_only(&self, mem: &PageTableMemory, virt: u64) -> (r: Result<bool, MemoryResult>)
        requires
            walk_ok(mem, self.cr3, virt),
        ensures
            r == match mapping_flags(mem@, self.cr3, virt) {
                Err(e) => Err(e),
                Ok(f) => Ok::<bool, MemoryResult>(f & 4 == 0),
            },
    {
        match self.flags_for(mem, virt) {
            Err(e) => Err(e),
            Ok(f) => Ok(f & 4u64 == 0),
        }
    }

    fn flags_for(&self, mem: &PageTableMemory, virt: u64) -> (r: Result<u64, MemoryResult>)
        requires
            walk_ok(mem, self.cr3, virt),
        ensures
            r == mapping_flags(mem@, self.cr3, virt),
    {
        match self.find_leaf(mem, virt) {
            Err(e) => Err(e),
            Ok((t, i, big)) => {
                if big {
                    let address = Pager::translate(virt);
                    proof {
                        lemma_indices_small(virt);
                    }
                    Ok(mem.read(self.cr3, address.pdp as usize) & 0xFFF)
                } else {
                    Ok(mem.read(t, i as usize))
                }
            },
        }
    }
}

/// A change of flag bits.
#[derive(Clone, Copy, PartialEq, Eq, Structural, Debug)]
pub enum FlagChange {
    Clear(u64),
    Raise(u64),
    Toggle(u64),
}

/// `x` with the change applied.
pub open spec fn apply_change(c: FlagChange, x: u64) -> u64 {
    match c {
        FlagChange::Clear(b) => x & !b,
        FlagChange::Raise(b) => x | b,
        FlagChange::Toggle(b) => x ^ b,
    }
}

/// What changing the flags of the mapping of `virt` does to the tables.
pub open spec fn flags_changed(
    m: Map<u64, Seq<u64>>,
    cr3: u64,
    virt: u64,
    c: FlagChange,
) -> Map<u64, Seq<u64>> {
    match aligned_slot(m, cr3, virt) {
        Err(_) => m,
        Ok((t, i, big)) => m.insert(
            t,
            m[t].update(i as int, changed_entry(m, cr3, virt, t, i, big, |x: u64| apply_change(c, x))),
        ),
    }
}

/// The error of a walk that fails, none for one that succeeds.
pub open spec fn walk_error(m: Map<u64, Seq<u64>>, cr3: u64, virt: u64) -> Option<MemoryResult> {
    match aligned_slot(m, cr3, virt) {
        Err(e) => Some(e),
        Ok(_) => None,
    }
}

impl Pager {
    fn change_flags(&self, mem: &mut PageTableMemory, virt: u64, c: FlagChange) -> (r: Option<MemoryResult>)
        requires
            walk_ok(old(mem), self.cr3, virt),
        ensures
            final(mem).wf(),
            r == walk_error(old(mem)@, self.cr3, virt),
            final(mem)@ == flags_changed(old(mem)@, self.cr3, virt, c),
    {
        match self.find_leaf(mem, virt) {
            Err(e) => Some(e),
            Ok((t, i, big)) => {
                let old_entry = mem.read(t, i as usize);
                let base = if big {
                    let address = Pager::translate(virt);
                    proof {
                        lemma_indices_small(virt);
                    }
                    mem.read(self.cr3, address.pdp as usize) & 0xFFF
                } else {
                    old_entry
                };
                let changed = match c {
                    FlagChange::Clear(b) => base & !b,
                    FlagChange::Raise(b) => base | b,
                    FlagChange::Toggle(b) => base ^ b,
                };
                let value = if big {
                    (old_entry & !0xFFFu64) | changed
                } else {
                    changed
                };
                mem.write(t, i as usize, value);
                None
            },
        }
    }

    /// Marks the mapping of `virt` not present. The entry of a 2 MiB page
    /// gets the flags of the top-level entry without the present bit.
    pub fn deactivate(&self, mem: &mut PageTableMemory, virt: u64) -> (r: Option<MemoryResult>)
        requires
            walk_ok(old(mem), self.cr3, virt),
        ensures
            final(mem).wf(),
            r == walk_error(old(mem)@, self.cr3, virt),
            final(mem)@ == flags_changed(old(mem)@, self.cr3, virt, FlagChange::Clear(1)),
    {
        self.change_flags(mem, virt, FlagChange::Clear(PAGER_PRESENT as u64))
    }

    /// Marks the mapping of `virt` present. The entry of a 2 MiB page gets
    /// the flags of the top-level entry with the present bit.
    pub fn activate(&self, mem: &mut PageTableMemory, virt: u64) -> (r: Option<MemoryResult>)
        requires
            walk_ok(old(mem), self.cr3, virt),
        ensures
            final(mem).wf(),
            r == walk_error(old(mem)@, self.cr3, virt),
            final(mem)@ == flags_changed(old(mem)@, self.cr3, virt, FlagChange::Raise(1)),
    {
        self.change_flags(mem, virt, FlagChange::Raise(PAGER_PRESENT as u64))
    }

    /// Flips whether processes may use the mapping of `virt`. The entry of
    /// a 2 MiB page gets the flags of the top-level entry with that bit
    /// flipped.
    pub fn switch_permission(&self, mem: &mut PageTableMemory, virt: u64) -> (r: Option<MemoryResult>)
        requires
            walk_ok(old(mem), self.cr3, virt),
        ensures
            final(mem).wf(),
            r == walk_error(old(mem)@, self.cr3, virt),
            final(mem)@ == flags_changed(old(mem)@, self.cr3, virt, FlagChange::Toggle(4)),
    {
        self.change_flags(mem, virt, FlagChange::Toggle(4))
    }

    /// Removes the 4 KiB mapping of `virt`; a 2 MiB mapping is refused.
    pub fn unpage_4k(&mut self, mem: &mut PageTableMemory, virt: u64) -> (r: Option<MemoryResult>)
        requires
            walk_ok(old(mem), self.cr3, virt),
        ensures
            final(mem).wf(),
            *final(self) == *old(self),
            r == match aligned_slot(old(mem)@, old(self).cr3, virt) {
                Err(e) => Some(e),
                Ok((_, _, big)) => if big {
                    Some(MemoryResult::InvalidActivateFlags)
                } else {
                    None
                },
            },
            final(mem)@ == match aligned_slot(old(mem)@, old(self).cr3, virt) {
                Ok((t, i, false)) => old(mem)@.insert(t, old(mem)@[t].update(i as int, 0)),
                _ => old(mem)@,
            },
    {
        match self.find_leaf(mem, virt) {
            Err(e) => Some(e),
            Ok((t, i, big)) => {
                if big {
                    Some(MemoryResult::InvalidActivateFlags)
                } else {
                    mem.write(t, i as usize, 0);
                    None
                }
            },
        }
    }
}

/// The flags that a use of memory needs: present, writable for a write,
/// user accessible for a process.
pub open spec fn needed_flags(write: bool, mode: ExecutionMode) -> u64 {
    1u64 | (if write {
        2u64
    } else {
        0u64
    }) | (if mode is Process {
        4u64
    } else {
        0u64
    })
}

/// Entry `e` carries all flags of `f`.
pub open spec fn has_flags(e: u64, f: u64) -> bool {
    (e & 0xFFFu64) & f == f
}

/// Every entry on the walk to `virt` carries the flags `f`; the walk stops
/// at a 1 GiB page, which is unsuitable, and at a 2 MiB page, which is
/// suitable.
pub open spec fn suited(m: Map<u64, Seq<u64>>, cr3: u64, virt: u64, f: u64) -> bool {
    if virt & 0xFFFu64 != 0 {
        false
    } else {
        let a = address_of(virt);
        let e1 = top_entry(m, cr3, a);
        if !has_flags(e1, f) || large(e1) {
            false
        } else {
            let e2 = m[addr_of(e1)][a.pd as int];
            if !has_flags(e2, f) {
                false
            } else if large(e2) {
                true
            } else {
                let e3 = m[addr_of(e2)][a.pt as int];
                has_flags(e3, f) && m[addr_of(e3)][a.page as int] & f == f
            }
        }
    }
}

/// The check of `suited` reads page-table pages only.
pub open spec fn suited_readable(m: Map<u64, Seq<u64>>, cr3: u64, virt: u64, f: u64) -> bool {
    let a = address_of(virt);
    let e1 = top_entry(m, cr3, a);
    &&& m.contains_key(cr3)
    &&& has_flags(e1, f) && !large(e1) ==> {
        let e2 = m[addr_of(e1)][a.pd as int];
        &&& m.contains_key(addr_of(e1))
        &&& has_flags(e2, f) && !large(e2) ==> {
            let e3 = m[addr_of(e2)][a.pt as int];
            &&& m.contains_key(addr_of(e2))
            &&& has_flags(e3, f) ==> m.contains_key(addr_of(e3))
        }
    }
}

impl Pager {
    /// Whether `virt` may be used for a read, or a write, in `mode`.
    pub fn is_suited_for(&self, mem: &PageTableMemory, virt: u64, write: bool, execution_mode: ExecutionMode) -> (r: bool)
        requires
            mem.wf(),
            virt & 0xFFFu64 == 0 ==> suited_readable(mem@, self.cr3, virt, needed_flags(write, execution_mode)),
        ensures
            r == suited(mem@, self.cr3, virt, needed_flags(write, execution_mode)),
    {
        if virt & 0xFFF != 0 {
            return false;
        }
        let address = Pager::translate(virt);
        proof {
            lemma_indices_small(virt);
        }
        let w: u64 = if write {
            2
        } else {
            0
        };
        let u: u64 = match execution_mode {
            ExecutionMode::Process => 4,
            ExecutionMode::Kernel => 0,
        };
        let flags: u64 = 1u64 | w | u;
        let e1 = mem.read(self.cr3, address.pdp as usize);
        if (e1 & 0xFFF) & flags != flags {
            return false;
        }
        if e1 & 0x80u64 != 0 {
            return false;
        }
        let e2 = mem.read(e1 & !0xFFFu64, address.pd as usize);
        if (e2 & 0xFFF) & flags != flags {
            return false;
        }
        if e2 & 0x80u64 == 0 {
            let e3 = mem.read(e2 & !0xFFFu64, address.pt as usize);
            if (e3 & 0xFFF) & flags != flags {
                return false;
            }
            let e4 = mem.read(e3 & !0xFFFu64, address.page as usize);
            if e4 & flags != flags {
                return false;
            }
        }
        true
    }
}

/// The four indices of an address are below 512.
pub proof fn lemma_indices_small(virt: u64)
    ensures
        index_of(virt, 0) < 512,
        index_of(virt, 1) < 512,
        index_of(virt, 2) < 512,
        index_of(virt, 3) < 512,
{
    assert(((virt >> 12u64) & 0x1FFu64) < 512 && ((virt >> 21u64) & 0x1FFu64) < 512
        && ((virt >> 30u64) & 0x1FFu64) < 512 && ((virt >> 39u64) & 0x1FFu64) < 512)
        by (bit_vector);
}

} // verus!
