//! Making mappings: the page tables of an address space grow with tables
//! taken from the page allocator, 2 MiB pages are split into 4 KiB pages,
//! and a 4 KiB or 2 MiB page is entered.
//!
//! Two invariants tie the tables to the allocator and to each other: every
//! page-table page is in use in the allocator, so a page it hands out is
//! never a table already; and the tables of an address space form a tree of
//! four levels, each entry below the top pointing at a table one level
//! down, no table pointed at twice.
use vstd::prelude::*;
use crate::allocator::{alloc_outcome, free_outcome, page_used, Allocator, ImageAllocation, MemoryBlock, VirtualAllocator};
use crate::print::GopFramebuffer;
use crate::memory::MemoryResult;
use crate::page_tables::{table_address_ok, zero_table, PageTableMemory, TABLE_ENTRIES};
use crate::page_walk::{addr_of, address_of, large, lemma_indices_small, pd_lookup, physical_of, top_entry, walk_ok};
use crate::pager::{index_of, Address, Page, Pager, PAGER_PAT, PAGER_PRESENT, PAGER_RW};

verus! {

/// The page at `t` is not free in the allocator: it lies outside the
/// allocator's pages, or its bit is set.
pub open spec fn page_reserved(a: Allocator, t: u64) -> bool {
    let p = (t - a.base_address()) / 0x1000;
    t < a.base_address() || p >= 32 * a.bits().len() || page_used(a.bits(), p / 32, p % 32)
}

/// The allocator's pages are page-aligned and every page-table page is in
/// use in the allocator.
pub open spec fn paging_consistent(m: Map<u64, Seq<u64>>, a: Allocator) -> bool {
    &&& a.base_address() % 0x1000 == 0
    &&& forall|t: u64| #[trigger] m.contains_key(t) ==> page_reserved(a, t)
}

/// An entry that points at a table.
pub open spec fn points(e: u64) -> bool {
    e != 0 && !large(e)
}

/// The tables of the address space at `cr3` with their levels `lv` (4 at
/// the top, 1 for the tables that map 4 KiB pages) and, for each table
/// below the top, the position `par` of the one entry that points at it.
/// A 2 MiB page ends at least 2 MiB below the top of the address space.
pub open spec fn layers(
    m: Map<u64, Seq<u64>>,
    cr3: u64,
    lv: Map<u64, int>,
    par: Map<u64, (u64, int)>,
) -> bool {
    &&& lv.contains_key(cr3)
    &&& lv[cr3] == 4
    &&& forall|t: u64| #[trigger] lv.contains_key(t) ==> m.contains_key(t) && 1 <= lv[t] <= 4
    &&& forall|t: u64, i: int|
        lv.contains_key(t) && lv[t] > 1 && 0 <= i < 512 && points(#[trigger] m[t][i]) ==> {
            &&& lv.contains_key(addr_of(m[t][i]))
            &&& lv[addr_of(m[t][i])] == lv[t] - 1
            &&& par.contains_key(addr_of(m[t][i]))
            &&& par[addr_of(m[t][i])] == (t, i)
        }
    &&& forall|t: u64, i: int|
        lv.contains_key(t) && lv[t] == 2 && 0 <= i < 512 && large(#[trigger] m[t][i])
            ==> addr_of(m[t][i]) + 0x1FF000 <= u64::MAX
}

/// The tables of the address space at `cr3` form a tree of four levels.
pub open spec fn tables_layered(m: Map<u64, Seq<u64>>, cr3: u64) -> bool {
    exists|lv: Map<u64, int>, par: Map<u64, (u64, int)>| layers(m, cr3, lv, par)
}

/// A page of a bitmap word: which word and which bit.
proof fn lemma_page_split(p: int, k: int, o: int)
    requires
        p == 32 * k + o,
        0 <= o < 32,
    ensures
        p / 32 == k,
        p % 32 == o,
{
}

/// A page that `alloc` hands out for one page is page-aligned, below the
/// last page, not a table yet, and afterwards every table and the new page
/// are in use.
proof fn lemma_alloc_fresh(m: Map<u64, Seq<u64>>, old: Allocator, new: Allocator, mb: MemoryBlock)
    requires
        old.wf(),
        alloc_outcome(old, new, 1, Ok(mb)),
        paging_consistent(m, old),
        new.base_address() == old.base_address(),
        new.bits().len() == old.bits().len(),
    ensures
        !m.contains_key(mb.base),
        table_address_ok(mb.base),
        forall|z: Seq<u64>| #[trigger] paging_consistent(m.insert(mb.base, z), new),
{
    crate::allocator::lemma_alloc_run_in_bitmap(old, new, 1, mb);
    old.lemma_wf_len();
    let (k, o) = old.small_choice(1)->0;
    let start = 32 * k + o;
    let base = old.base_address();
    assert(start + 1 <= 32 * old.bits().len());
    assert(0x1000 * (start + 1) <= 0x20000 * old.bits().len()) by (nonlinear_arith)
        requires
            start + 1 <= 32 * old.bits().len(),
    ;
    assert(mb.base == base + start * 0x1000);
    assert((start * 0x1000) / 0x1000 == start) by (nonlinear_arith)
        requires
            start >= 0,
    ;
    assert((base + start * 0x1000) % 0x1000 == 0) by (nonlinear_arith)
        requires
            base % 0x1000 == 0,
            start >= 0,
    ;
    lemma_aligned_low_bits(mb.base);
    lemma_page_split(start, k, o);
    assert(in_run_at(k, o, start));
    assert(!page_used(old.bits(), k, o));
    assert(page_used(new.bits(), k, o));
    if m.contains_key(mb.base) {
        assert(page_reserved(old, mb.base));
    }
    assert forall|z: Seq<u64>| #[trigger] paging_consistent(m.insert(mb.base, z), new) by {
        assert forall|t: u64| #[trigger] m.insert(mb.base, z).contains_key(t) implies page_reserved(
            new,
            t,
        ) by {
            if t != mb.base {
                assert(page_reserved(old, t));
                let p = (t - base) / 0x1000;
                if t >= base && p < 32 * old.bits().len() {
                    assert(0 <= p / 32 < old.bits().len());
                    assert(page_used(new.bits(), p / 32, p % 32) == if crate::allocator::in_run(
                        p / 32,
                        p % 32,
                        start,
                        1,
                    ) {
                        true
                    } else {
                        page_used(old.bits(), p / 32, p % 32)
                    });
                }
            }
        }
    }
}

spec fn in_run_at(k: int, o: int, start: int) -> bool {
    crate::allocator::in_run(k, o, start, 1)
}

/// A multiple of the page size has its low twelve bits clear.
proof fn lemma_aligned_low_bits(x: u64)
    ensures
        (x % 0x1000 == 0) == (x & 0xFFFu64 == 0),
{
    assert((x % 0x1000 == 0) == (x & 0xFFFu64 == 0)) by (bit_vector);
}

/// Adding a page that was no table leaves the tree as it is.
proof fn lemma_layers_fresh(
    m: Map<u64, Seq<u64>>,
    cr3: u64,
    lv: Map<u64, int>,
    par: Map<u64, (u64, int)>,
    n: u64,
    z: Seq<u64>,
)
    requires
        layers(m, cr3, lv, par),
        !m.contains_key(n),
    ensures
        layers(m.insert(n, z), cr3, lv, par),
{
    let m2 = m.insert(n, z);
    assert forall|t: u64, i: int|
        lv.contains_key(t) && lv[t] > 1 && 0 <= i < 512 && points(#[trigger] m2[t][i]) implies {
        &&& lv.contains_key(addr_of(m2[t][i]))
        &&& lv[addr_of(m2[t][i])] == lv[t] - 1
        &&& par.contains_key(addr_of(m2[t][i]))
        &&& par[addr_of(m2[t][i])] == (t, i)
    } by {
        assert(m2[t] == m[t]);
    }
    assert forall|t: u64, i: int|
        lv.contains_key(t) && lv[t] == 2 && 0 <= i < 512 && large(#[trigger] m2[t][i]) implies addr_of(
        m2[t][i],
    ) + 0x1FF000 <= u64::MAX by {
        assert(m2[t] == m[t]);
    }
}

/// Writing into a table that holds 4 KiB mappings, or into a table outside
/// the tree, leaves the tree as it is.
proof fn lemma_layers_write_leaf(
    m: Map<u64, Seq<u64>>,
    cr3: u64,
    lv: Map<u64, int>,
    par: Map<u64, (u64, int)>,
    t: u64,
    i: int,
    v: u64,
)
    requires
        layers(m, cr3, lv, par),
        m.contains_key(t),
        !lv.contains_key(t) || lv[t] == 1,
    ensures
        layers(m.insert(t, m[t].update(i, v)), cr3, lv, par),
{
    let m2 = m.insert(t, m[t].update(i, v));
    assert forall|u: u64, j: int|
        lv.contains_key(u) && lv[u] > 1 && 0 <= j < 512 && points(#[trigger] m2[u][j]) implies {
        &&& lv.contains_key(addr_of(m2[u][j]))
        &&& lv[addr_of(m2[u][j])] == lv[u] - 1
        &&& par.contains_key(addr_of(m2[u][j]))
        &&& par[addr_of(m2[u][j])] == (u, j)
    } by {
        assert(m2[u] == m[u]);
    }
    assert forall|u: u64, j: int|
        lv.contains_key(u) && lv[u] == 2 && 0 <= j < 512 && large(#[trigger] m2[u][j]) implies addr_of(
        m2[u][j],
    ) + 0x1FF000 <= u64::MAX by {
        assert(m2[u] == m[u]);
    }
}

/// Rewriting an entry of the tree so that it points at the same table, or
/// so that it maps a 2 MiB page that fits below the top of the address
/// space, or so that it is empty, or so that it maps a large page above
/// the lowest levels, leaves the tree as it is.
proof fn lemma_layers_rewrite(
    m: Map<u64, Seq<u64>>,
    cr3: u64,
    lv: Map<u64, int>,
    par: Map<u64, (u64, int)>,
    t: u64,
    i: int,
    v: u64,
)
    requires
        layers(m, cr3, lv, par),
        lv.contains_key(t),
        0 <= i < 512,
        m[t].len() == 512,
        points(v) ==> points(m[t][i]) && addr_of(v) == addr_of(m[t][i]),
        large(v) && lv[t] == 2 ==> addr_of(v) + 0x1FF000 <= u64::MAX,
    ensures
        layers(m.insert(t, m[t].update(i, v)), cr3, lv, par),
{
    let m2 = m.insert(t, m[t].update(i, v));
    assert forall|u: u64, j: int|
        lv.contains_key(u) && lv[u] > 1 && 0 <= j < 512 && points(#[trigger] m2[u][j]) implies {
        &&& lv.contains_key(addr_of(m2[u][j]))
        &&& lv[addr_of(m2[u][j])] == lv[u] - 1
        &&& par.contains_key(addr_of(m2[u][j]))
        &&& par[addr_of(m2[u][j])] == (u, j)
    } by {
        if u == t && j == i {
            assert(m2[u][j] == v);
            assert(points(m[t][i]));
        } else {
            assert(m2[u][j] == m[u][j]);
        }
    }
    assert forall|u: u64, j: int|
        lv.contains_key(u) && lv[u] == 2 && 0 <= j < 512 && large(#[trigger] m2[u][j]) implies addr_of(
        m2[u][j],
    ) + 0x1FF000 <= u64::MAX by {
        if u == t && j == i {
            assert(m2[u][j] == v);
        } else {
            assert(m2[u][j] == m[u][j]);
        }
    }
}

/// Pointing an entry of the tree that pointed at no table at a table `n`
/// that is not in the tree puts `n` into the tree one level down; a table
/// above the lowest level must hold no pointers and no large pages.
proof fn lemma_layers_attach(
    m: Map<u64, Seq<u64>>,
    cr3: u64,
    lv: Map<u64, int>,
    par: Map<u64, (u64, int)>,
    t: u64,
    i: int,
    n: u64,
    v: u64,
)
    requires
        layers(m, cr3, lv, par),
        lv.contains_key(t),
        lv[t] > 1,
        0 <= i < 512,
        m[t].len() == 512,
        !points(m[t][i]),
        m.contains_key(n),
        !lv.contains_key(n),
        points(v),
        addr_of(v) == n,
        lv[t] > 2 ==> forall|j: int| 0 <= j < 512 ==> !points(#[trigger] m[n][j]) && !large(m[n][j]),
    ensures
        layers(
            m.insert(t, m[t].update(i, v)),
            cr3,
            lv.insert(n, lv[t] - 1),
            par.insert(n, (t, i)),
        ),
{
    let m2 = m.insert(t, m[t].update(i, v));
    let lv2 = lv.insert(n, lv[t] - 1);
    let par2 = par.insert(n, (t, i));
    assert(t != n);
    assert forall|u: u64| #[trigger] lv2.contains_key(u) implies m2.contains_key(u) && 1 <= lv2[u] <= 4 by {
        if u != n {
            assert(lv.contains_key(u));
        }
    }
    assert forall|u: u64, j: int|
        lv2.contains_key(u) && lv2[u] > 1 && 0 <= j < 512 && points(#[trigger] m2[u][j]) implies {
        &&& lv2.contains_key(addr_of(m2[u][j]))
        &&& lv2[addr_of(m2[u][j])] == lv2[u] - 1
        &&& par2.contains_key(addr_of(m2[u][j]))
        &&& par2[addr_of(m2[u][j])] == (u, j)
    } by {
        if u == t && j == i {
            assert(m2[u][j] == v);
        } else if u == n {
            assert(m2[u][j] == m[n][j]);
            assert(lv2[u] == lv[t] - 1);
            assert(lv[t] > 2);
        } else {
            assert(m2[u][j] == m[u][j]);
            assert(lv.contains_key(u));
            assert(lv.contains_key(addr_of(m[u][j])));
            assert(addr_of(m[u][j]) != n);
        }
    }
    assert forall|u: u64, j: int|
        lv2.contains_key(u) && lv2[u] == 2 && 0 <= j < 512 && large(#[trigger] m2[u][j]) implies addr_of(
        m2[u][j],
    ) + 0x1FF000 <= u64::MAX by {
        if u == t && j == i {
            assert(m2[u][j] == v);
        } else if u == n {
            assert(m2[u][j] == m[n][j]);
            assert(lv[t] > 2);
        } else {
            assert(m2[u][j] == m[u][j]);
        }
    }
}

/// Mapping a 2 MiB page in the entry that pointed at the table `x` of the
/// lowest level takes `x` out of the tree, which then no longer needs the
/// page of `x`.
proof fn lemma_layers_detach(
    m: Map<u64, Seq<u64>>,
    cr3: u64,
    lv: Map<u64, int>,
    par: Map<u64, (u64, int)>,
    t: u64,
    i: int,
    v: u64,
)
    requires
        layers(m, cr3, lv, par),
        lv.contains_key(t),
        lv[t] == 2,
        0 <= i < 512,
        m[t].len() == 512,
        points(m[t][i]),
        large(v),
        addr_of(v) + 0x1FF000 <= u64::MAX,
    ensures
        ({
            let x = addr_of(m[t][i]);
            layers(m.insert(t, m[t].update(i, v)).remove(x), cr3, lv.remove(x), par.remove(x))
        }),
{
    let x = addr_of(m[t][i]);
    let m2 = m.insert(t, m[t].update(i, v)).remove(x);
    let lv2 = lv.remove(x);
    let par2 = par.remove(x);
    assert(lv[x] == 1);
    assert(par[x] == (t, i));
    assert(x != t);
    assert(x != cr3);
    assert forall|u: u64| #[trigger] lv2.contains_key(u) implies m2.contains_key(u) && 1 <= lv2[u] <= 4 by {
        assert(lv.contains_key(u));
    }
    assert forall|u: u64, j: int|
        lv2.contains_key(u) && lv2[u] > 1 && 0 <= j < 512 && points(#[trigger] m2[u][j]) implies {
        &&& lv2.contains_key(addr_of(m2[u][j]))
        &&& lv2[addr_of(m2[u][j])] == lv2[u] - 1
        &&& par2.contains_key(addr_of(m2[u][j]))
        &&& par2[addr_of(m2[u][j])] == (u, j)
    } by {
        if u == t && j == i {
            assert(m2[u][j] == v);
        } else {
            assert(m2[u][j] == m[u][j]);
            assert(lv.contains_key(u));
            assert(par[addr_of(m[u][j])] == (u, j));
            assert(addr_of(m[u][j]) != x);
        }
    }
    assert forall|u: u64, j: int|
        lv2.contains_key(u) && lv2[u] == 2 && 0 <= j < 512 && large(#[trigger] m2[u][j]) implies addr_of(
        m2[u][j],
    ) + 0x1FF000 <= u64::MAX by {
        if u == t && j == i {
            assert(m2[u][j] == v);
        } else {
            assert(m2[u][j] == m[u][j]);
        }
    }
}

/// Takes a page from the allocator and zeroes it: a new table of empty
/// entries.
fn new_table(mem: &mut PageTableMemory, allocator: &mut Allocator) -> (r: Result<u64, MemoryResult>)
    requires
        old(mem).wf(),
        old(allocator).wf(),
        paging_consistent(old(mem)@, *old(allocator)),
    ensures
        final(mem).wf(),
        final(allocator).wf(),
        final(allocator).base_address() == old(allocator).base_address(),
        final(allocator).bits().len() == old(allocator).bits().len(),
        paging_consistent(final(mem)@, *final(allocator)),
        match r {
            Ok(n) => {
                &&& alloc_outcome(*old(allocator), *final(allocator), 1, Ok(MemoryBlock { base: n, length: 0x1000 }))
                &&& !old(mem)@.contains_key(n)
                &&& table_address_ok(n)
                &&& final(mem)@ == old(mem)@.insert(n, zero_table())
            },
            Err(e) => {
                &&& e == MemoryResult::Nospace
                &&& alloc_outcome(*old(allocator), *final(allocator), 1, Err(e))
                &&& final(mem)@ == old(mem)@
                &&& out_of_pages(*final(allocator))
            },
        },
{
    match allocator.alloc_pages(1) {
        Ok(mb) => {
            proof {
                lemma_alloc_fresh(mem@, *old(allocator), *allocator, mb);
                assert(paging_consistent(mem@.insert(mb.base, zero_table()), *allocator));
            }
            mem.zero_page(mb.base);
            Ok(mb.base)
        },
        Err(e) => Err(e),
    }
}

/// An entry made of a page-aligned address and flag bits gives both back.
proof fn lemma_entry_bits(n: u64, f: u64)
    by (bit_vector)
    requires
        n & 0xFFFu64 == 0,
        f < 0x1000,
    ensures
        (n | f) & !0xFFFu64 == n,
        (n | f) & 0x80u64 == f & 0x80u64,
        f != 0 ==> (n | f) != 0,
        0u64 & 0x80u64 == 0,
{
}

/// A 2 MiB entry made from flags without the allocation mark keeps those
/// flags, whichever way the mark and the large-page bit were set on them.
proof fn lemma_flags_kept(n: u64, f: u64)
    by (bit_vector)
    requires
        n & 0xFFFu64 == 0,
        f < 0x1000,
        f & 0x100u64 == 0,
    ensures
        (n | (f | 0x80u64)) & f == f,
        (n | ((f | 0x100u64) | 0x80u64)) & f == f,
        (n | ((f ^ 0x100u64) | 0x80u64)) & f == f,
        (n | (((f | 0x100u64) ^ 0x100u64) | 0x80u64)) & f == f,
{
}

/// Raising or flipping a flag bit above the large-page bit keeps the address
/// of an entry, whether it maps a large page, and a raised entry is not empty.
proof fn lemma_flag_change_bits(e: u64, b: u64)
    by (bit_vector)
    requires
        b == 2 || b == 0x100,
    ensures
        (e | b) & !0xFFFu64 == e & !0xFFFu64,
        (e | b) & 0x80u64 == e & 0x80u64,
        (e | b) != 0,
        (e ^ b) & !0xFFFu64 == e & !0xFFFu64,
        (e ^ b) & 0x80u64 == e & 0x80u64,
        (e | b) | b == e | b,
        e & 0x80u64 != 0 ==> e != 0,
        e & b != 0 ==> e != 0,
{
}

/// Flags that pass the check of a mapping lie below the address bits, do
/// not ask for a large page, and stay so with the allocated mark or the
/// page-attribute bit of a 4 KiB entry; the flags of a split 2 MiB page
/// likewise.
proof fn lemma_map_flag_bits(f: u64, e: u64, p: u64)
    by (bit_vector)
    requires
        f & 0xF0A0u64 == 0,
        f < 0x10000,
    ensures
        p & 0xFFFFFu64 == 0 ==> p & 0xFFFu64 == 0,
        (f | 0x80u64) < 0x1000,
        ((f | 0x100u64) | 0x80u64) < 0x1000,
        ((f ^ 0x100u64) | 0x80u64) < 0x1000,
        (((f | 0x100u64) ^ 0x100u64) | 0x80u64) < 0x1000,
        (e | 0x80u64) & 0x80u64 != 0,
        f < 0x1000,
        f & 0x80u64 == 0,
        (f | 0x100u64) < 0x1000,
        (f | 0x100u64) & 0x80u64 == 0,
        (f | 0x100u64) != 0,
        (f ^ 0x80u64) < 0x1000,
        ((e & 0xFFFu64) & !0x80u64 | 0x100u64) < 0x1000,
        ((e & 0xFFFu64) & !0x80u64 | 0x100u64) & 0x80u64 == 0,
        ((e & 0xFFFu64) & !0x80u64 | 0x100u64) != 0,
{
}

/// `virt` lies in a 2 MiB page that a present directory maps.
pub open spec fn large_mapped(m: Map<u64, Seq<u64>>, cr3: u64, virt: u64) -> bool {
    pd_lookup(m, cr3, address_of(virt)) matches Ok(t) && large(m[t][address_of(virt).pt as int])
}

/// The entry that maps the 2 MiB slot of `w` when a present directory
/// reaches it; zero otherwise.
pub open spec fn slot_entry(m: Map<u64, Seq<u64>>, cr3: u64, w: u64) -> u64 {
    match pd_lookup(m, cr3, address_of(w)) {
        Ok(t) => m[t][address_of(w).pt as int],
        Err(_) => 0,
    }
}

/// Whether `w` lies in a 2 MiB page, and the entry of that page, are the
/// same in `m2` as in `m1`.
pub open spec fn mapping_kept(m1: Map<u64, Seq<u64>>, m2: Map<u64, Seq<u64>>, cr3: u64, w: u64) -> bool {
    &&& large_mapped(m2, cr3, w) == large_mapped(m1, cr3, w)
    &&& large_mapped(m1, cr3, w) ==> slot_entry(m2, cr3, w) == slot_entry(m1, cr3, w)
}

/// The entry of the 4 KiB page of `w`, where a table of 4 KiB pages maps
/// the 2 MiB slot of `w`.
pub open spec fn leaf_entry(m: Map<u64, Seq<u64>>, cr3: u64, w: u64) -> Option<u64> {
    let a = address_of(w);
    match pd_lookup(m, cr3, a) {
        Ok(t) => if points(m[t][a.pt as int]) {
            Some(m[addr_of(m[t][a.pt as int])][a.page as int])
        } else {
            None
        },
        Err(_) => None,
    }
}

/// A 4 KiB entry that maps `w` in `m1` maps it the same way in `m2`.
pub open spec fn leaf_kept(m1: Map<u64, Seq<u64>>, m2: Map<u64, Seq<u64>>, cr3: u64, w: u64) -> bool {
    leaf_entry(m1, cr3, w) is Some ==> leaf_entry(m2, cr3, w) == leaf_entry(m1, cr3, w)
}

/// Walking down to the directory of `a` made no 2 MiB mapping: `m1` is
/// `m0` with the top-level entry and the directory entry of `a` changed,
/// and with new tables (the directory `a1` and the table `t` of page-table
/// entries) that were zero.
proof fn lemma_pd_frame(
    m0: Map<u64, Seq<u64>>,
    m1: Map<u64, Seq<u64>>,
    cr3: u64,
    a: Address,
    t: u64,
    lv: Map<u64, int>,
    par: Map<u64, (u64, int)>,
    lv0: Map<u64, int>,
    par0: Map<u64, (u64, int)>,
)
    requires
        layers(m1, cr3, lv, par),
        layers(m0, cr3, lv0, par0),
        lv.contains_key(t),
        lv[t] == 2,
        pd_lookup(m1, cr3, a) == Ok::<u64, MemoryResult>(t),
        a.pdp < 512,
        a.pd < 512,
        forall|u: u64| #[trigger] m0.contains_key(u) ==> m1.contains_key(u) && m0[u].len() == 512,
        forall|u: u64| #[trigger] m1.contains_key(u) ==> m1[u].len() == 512,
        forall|u: u64|
            #[trigger] m1.contains_key(u) && !m0.contains_key(u) ==> u == addr_of(m1[cr3][a.pdp as int])
                || u == t,
        forall|u: u64|
            #[trigger] m0.contains_key(u) && u != cr3 && u != addr_of(m1[cr3][a.pdp as int]) ==> m1[u]
                == m0[u],
        m0.contains_key(cr3),
        m1[cr3] == m0[cr3].update(a.pdp as int, m1[cr3][a.pdp as int]),
        ({
            let a1 = addr_of(m1[cr3][a.pdp as int]);
            &&& m0.contains_key(a1) ==> m1[a1] == m0[a1].update(a.pd as int, m1[a1][a.pd as int])
                && points(m0[cr3][a.pdp as int]) && addr_of(m0[cr3][a.pdp as int]) == a1
            &&& !m0.contains_key(a1) ==> m1[a1] == zero_table().update(a.pd as int, m1[a1][a.pd as int])
                && !m0.contains_key(t)
            &&& m0.contains_key(t) ==> m0.contains_key(a1) && points(m0[a1][a.pd as int]) && addr_of(
                m0[a1][a.pd as int],
            ) == t
            &&& !m0.contains_key(t) ==> m1[t] == zero_table()
            &&& points(m0[cr3][a.pdp as int]) ==> m0.contains_key(a1) && addr_of(m0[cr3][a.pdp as int]) == a1
            &&& m0.contains_key(a1) && points(m0[a1][a.pd as int]) ==> m0.contains_key(t) && addr_of(
                m0[a1][a.pd as int],
            ) == t
        }),
    ensures
        forall|w: u64| #[trigger] mapping_kept(m0, m1, cr3, w),
        forall|w: u64| #[trigger] leaf_kept(m0, m1, cr3, w),
{
    let a1 = addr_of(m1[cr3][a.pdp as int]);
    assert forall|w: u64| #[trigger] leaf_kept(m0, m1, cr3, w) by {
        if leaf_entry(m0, cr3, w) is Some {
            let b = address_of(w);
            lemma_indices_small(w);
            let e1 = m0[cr3][b.pdp as int];
            assert(points(e1));
            let c1 = addr_of(e1);
            assert(lv0[c1] == 3);
            let e2 = m0[c1][b.pd as int];
            assert(points(e2));
            let u = addr_of(e2);
            assert(lv0[u] == 2);
            let e3 = m0[u][b.pt as int];
            assert(points(e3));
            let l = addr_of(e3);
            assert(lv0[l] == 1);
            assert(m0.contains_key(l));
            assert(points(m1[cr3][a.pdp as int]));
            assert(lv[a1] == 3 && par[a1] == (cr3, a.pdp as int));
            if b.pdp != a.pdp {
                assert(m1[cr3][b.pdp as int] == e1);
                assert(lv[c1] == 3 && par[c1] == (cr3, b.pdp as int));
                assert(c1 != a1);
                assert(m1[c1] == m0[c1]);
                assert(lv[u] == 2);
                assert(m1[u] == m0[u]);
                assert(lv[l] == 1);
                assert(m1[l] == m0[l]);
                assert(pd_lookup(m1, cr3, b) == Ok::<u64, MemoryResult>(u));
            } else {
                assert(c1 == a1);
                if b.pd != a.pd {
                    assert(m1[a1][b.pd as int] == e2);
                    assert(lv[u] == 2);
                    assert(m1[u] == m0[u]);
                    assert(lv[l] == 1);
                    assert(m1[l] == m0[l]);
                    assert(pd_lookup(m1, cr3, b) == Ok::<u64, MemoryResult>(u));
                } else {
                    assert(u == t);
                    assert(m1[t] == m0[t]);
                    assert(lv[l] == 1);
                    assert(m1[l] == m0[l]);
                    assert(pd_lookup(m1, cr3, b) == Ok::<u64, MemoryResult>(t));
                }
            }
        }
    }
    assert(points(m1[cr3][a.pdp as int]));
    assert(lv[a1] == 3 && par[a1] == (cr3, a.pdp as int));
    assert(points(m1[a1][a.pd as int]) && addr_of(m1[a1][a.pd as int]) == t);
    assert(par[t] == (a1, a.pd as int));
    lemma_flag_change_bits(0, 2);
    assert forall|w: u64| #[trigger] large_mapped(m1, cr3, w) implies large_mapped(m0, cr3, w) && slot_entry(
        m1,
        cr3,
        w,
    ) == slot_entry(m0, cr3, w) by {
        let b = address_of(w);
        lemma_indices_small(w);
        let e1 = m1[cr3][b.pdp as int];
        assert(points(e1));
        let b1 = addr_of(e1);
        assert(lv[b1] == 3 && par[b1] == (cr3, b.pdp as int));
        let e2 = m1[b1][b.pd as int];
        assert(points(e2));
        let u = addr_of(e2);
        assert(lv[u] == 2 && par[u] == (b1, b.pd as int));
        assert(large(m1[u][b.pt as int]));
        if b.pdp != a.pdp {
            assert(b1 != a1);
            assert(b1 != t);
            assert(m0.contains_key(b1));
            assert(m1[cr3][b.pdp as int] == m0[cr3][b.pdp as int]);
            assert(m1[b1] == m0[b1]);
            assert(u != t);
            assert(u != a1);
            assert(m0.contains_key(u));
            assert(m1[u] == m0[u]);
            assert(pd_lookup(m0, cr3, b) == Ok::<u64, MemoryResult>(u));
        } else {
            assert(b1 == a1);
            if !m0.contains_key(a1) {
                if b.pd != a.pd {
                    assert(m1[a1][b.pd as int] == 0);
                } else {
                    assert(u == t);
                    assert(m1[t][b.pt as int] == 0);
                }
            } else {
                if b.pd != a.pd {
                    assert(m1[a1][b.pd as int] == m0[a1][b.pd as int]);
                    assert(u != t);
                    assert(m0.contains_key(u));
                    assert(m1[u] == m0[u]);
                    assert(pd_lookup(m0, cr3, b) == Ok::<u64, MemoryResult>(u));
                } else {
                    assert(u == t);
                    if !m0.contains_key(t) {
                        assert(m1[t][b.pt as int] == 0);
                    } else {
                        assert(m1[t] == m0[t]);
                        assert(pd_lookup(m0, cr3, b) == Ok::<u64, MemoryResult>(u));
                    }
                }
            }
        }
    }
    assert forall|w: u64| #[trigger] large_mapped(m0, cr3, w) implies large_mapped(m1, cr3, w) by {
        let b = address_of(w);
        lemma_indices_small(w);
        let e1 = m0[cr3][b.pdp as int];
        assert(points(e1));
        let c1 = addr_of(e1);
        let e2 = m0[c1][b.pd as int];
        assert(points(e2));
        let u = addr_of(e2);
        if b.pdp != a.pdp {
            assert(m1[cr3][b.pdp as int] == e1);
            assert(lv[c1] == 3 && par[c1] == (cr3, b.pdp as int));
            assert(c1 != a1 && c1 != t);
            assert(m0.contains_key(c1));
            assert(m1[c1] == m0[c1]);
            assert(lv[u] == 2 && par[u] == (c1, b.pd as int));
            assert(u != t && u != a1);
            assert(m0.contains_key(u));
            assert(m1[u] == m0[u]);
            assert(pd_lookup(m1, cr3, b) == Ok::<u64, MemoryResult>(u));
        } else {
            assert(c1 == a1);
            assert(m0.contains_key(a1));
            if b.pd != a.pd {
                assert(m1[a1][b.pd as int] == e2);
                assert(lv[u] == 2 && par[u] == (a1, b.pd as int));
                assert(u != t);
                assert(m0.contains_key(u));
                assert(m1[u] == m0[u]);
                assert(pd_lookup(m1, cr3, b) == Ok::<u64, MemoryResult>(u));
            } else {
                assert(u == t);
                assert(m0.contains_key(t));
                assert(m1[t] == m0[t]);
                assert(pd_lookup(m1, cr3, b) == Ok::<u64, MemoryResult>(t));
            }
        }
    }
}

/// `w` lies in the 2 MiB slot of `a`: the same top-level, directory and
/// table index.
pub open spec fn same_slot(w: u64, a: Address) -> bool {
    index_of(w, 3) == a.pdp && index_of(w, 2) == a.pd && index_of(w, 1) == a.pt
}

/// Rewriting the entry of the 2 MiB slot of `a`, and writing into tables
/// of the lowest level or outside the tree, makes no 2 MiB mapping outside
/// that slot.
proof fn lemma_slot_write_frame(
    m1: Map<u64, Seq<u64>>,
    m2: Map<u64, Seq<u64>>,
    cr3: u64,
    a: Address,
    t: u64,
    lv: Map<u64, int>,
    par: Map<u64, (u64, int)>,
    v: u64,
)
    requires
        layers(m1, cr3, lv, par),
        lv.contains_key(t),
        lv[t] == 2,
        pd_lookup(m1, cr3, a) == Ok::<u64, MemoryResult>(t),
        a.pdp < 512,
        a.pd < 512,
        a.pt < 512,
        m1[t].len() == 512,
        forall|u: u64| #[trigger] lv.contains_key(u) && lv[u] >= 2 && u != t ==> m2[u] == m1[u],
        m2[t] == m1[t].update(a.pt as int, v),
    ensures
        forall|w: u64| !same_slot(w, a) ==> #[trigger] mapping_kept(m1, m2, cr3, w),
        forall|w: u64| same_slot(w, a) && !large(v) ==> !#[trigger] large_mapped(m2, cr3, w),
{
    let a1 = addr_of(m1[cr3][a.pdp as int]);
    assert(points(m1[cr3][a.pdp as int]));
    assert(lv[a1] == 3 && par[a1] == (cr3, a.pdp as int));
    assert(points(m1[a1][a.pd as int]) && addr_of(m1[a1][a.pd as int]) == t);
    assert(par[t] == (a1, a.pd as int));
    assert forall|w: u64| #[trigger] large_mapped(m2, cr3, w) implies (!same_slot(w, a) ==> large_mapped(m1, cr3, w)
        && slot_entry(m2, cr3, w) == slot_entry(m1, cr3, w)) && (same_slot(w, a) ==> large(v)) by {
        let b = address_of(w);
        lemma_indices_small(w);
        assert(m2[cr3] == m1[cr3]);
        let e1 = m1[cr3][b.pdp as int];
        assert(points(e1));
        let b1 = addr_of(e1);
        assert(lv[b1] == 3 && par[b1] == (cr3, b.pdp as int));
        assert(m2[b1] == m1[b1]);
        let e2 = m1[b1][b.pd as int];
        assert(points(e2));
        let u = addr_of(e2);
        assert(lv[u] == 2 && par[u] == (b1, b.pd as int));
        if u == t {
            assert(b1 == a1 && b.pd == a.pd);
            assert(b.pdp == a.pdp);
            if b.pt != a.pt {
                assert(m2[t][b.pt as int] == m1[t][b.pt as int]);
            }
        } else {
            assert(m2[u] == m1[u]);
        }
    }
    assert forall|w: u64| #[trigger] large_mapped(m1, cr3, w) && !same_slot(w, a) implies large_mapped(m2, cr3, w) by {
        let b = address_of(w);
        lemma_indices_small(w);
        assert(m2[cr3] == m1[cr3]);
        let e1 = m1[cr3][b.pdp as int];
        let b1 = addr_of(e1);
        assert(lv[b1] == 3 && par[b1] == (cr3, b.pdp as int));
        assert(m2[b1] == m1[b1]);
        let e2 = m1[b1][b.pd as int];
        let u = addr_of(e2);
        assert(lv[u] == 2 && par[u] == (b1, b.pd as int));
        if u == t {
            assert(b1 == a1 && b.pd == a.pd);
            assert(b.pdp == a.pdp);
            assert(m2[t][b.pt as int] == m1[t][b.pt as int]);
        } else {
            assert(m2[u] == m1[u]);
        }
    }
}

/// Entry `index` of table `t`: when it is empty, a new zeroed table is taken
/// from the allocator and the entry points at it with `flags` and the
/// allocated mark. Gives the table the entry points at and the flags that
/// go on down the walk.
fn allocate_if_necessary(
    mem: &mut PageTableMemory,
    allocator: &mut Allocator,
    t: u64,
    index: usize,
    flags: u64,
) -> (r: Result<(u64, u64), MemoryResult>)
    requires
        old(mem).wf(),
        old(allocator).wf(),
        paging_consistent(old(mem)@, *old(allocator)),
        old(mem)@.contains_key(t),
        index < TABLE_ENTRIES,
        flags & 0x80u64 == 0,
        flags < 0x1000,
        (flags | 0x100u64) < 0x1000,
        (flags | 0x100u64) & 0x80u64 == 0,
        (flags | 0x100u64) != 0,
    ensures
        final(mem).wf(),
        final(allocator).wf(),
        final(allocator).base_address() == old(allocator).base_address(),
        final(allocator).bits().len() == old(allocator).bits().len(),
        paging_consistent(final(mem)@, *final(allocator)),
        ({
            let e = old(mem)@[t][index as int];
            if e == 0 {
                match r {
                    Ok((n, f)) => {
                        &&& f == flags | 0x100u64
                        &&& !old(mem)@.contains_key(n)
                        &&& table_address_ok(n)
                        &&& final(mem)@ == old(mem)@.insert(n, zero_table()).insert(
                            t,
                            old(mem)@[t].update(index as int, n | f),
                        )
                    },
                    Err(er) => er == MemoryResult::Nospace && final(mem)@ == old(mem)@ && out_of_pages(
                        *final(allocator),
                    ),
                }
            } else {
                &&& r == Ok::<(u64, u64), MemoryResult>((addr_of(e), flags))
                &&& final(mem)@ == old(mem)@
                &&& *final(allocator) == *old(allocator)
            }
        }),
{
    let e = mem.read(t, index);
    if e == 0 {
        let n = match new_table(mem, allocator) {
            Ok(n) => n,
            Err(er) => return Err(er),
        };
        let f = flags | 0x100;
        mem.write(t, index, n | f);
        Ok((n, f))
    } else {
        Ok((e & !0xFFFu64, flags))
    }
}

/// The result of a walk that makes the tables down to the directory of `a`.
pub open spec fn pd_allocated(
    m0: Map<u64, Seq<u64>>,
    m: Map<u64, Seq<u64>>,
    cr3: u64,
    a: Address,
    r: Result<(u64, u64), MemoryResult>,
) -> bool {
    let e1 = top_entry(m0, cr3, a);
    let e2 = m0[addr_of(e1)][a.pd as int];
    match r {
        Ok((t, _)) => {
            &&& pd_lookup(m, cr3, a) == Ok::<u64, MemoryResult>(t)
            &&& !(e1 != 0 && large(e1))
            &&& !(points(e1) && e2 != 0 && large(e2))
        },
        Err(e) => {
            &&& e == MemoryResult::PagingError ==> e1 != 0 && large(e1)
            &&& e == MemoryResult::InvalidActivateFlags ==> points(e1) && e2 != 0 && large(e2)
            &&& e1 != 0 && large(e1) ==> e == MemoryResult::PagingError
            &&& points(e1) && e2 != 0 && large(e2) ==> e == MemoryResult::InvalidActivateFlags
            &&& e == MemoryResult::PagingError || e == MemoryResult::InvalidActivateFlags || e
                == MemoryResult::Nospace
        },
    }
}

impl Pager {
    /// Walks down to the directory of `address`, making the tables that are
    /// missing and making the entries on the way writable when `flags` ask
    /// for a writable mapping. Gives the table of page-table entries and the
    /// flags that go on down the walk.
    fn get_pd_allocated(
        &self,
        mem: &mut PageTableMemory,
        address: &Address,
        flags: u64,
        allocator: &mut Allocator,
    ) -> (r: Result<(u64, u64), MemoryResult>)
        requires
            old(mem).wf(),
            old(allocator).wf(),
            paging_consistent(old(mem)@, *old(allocator)),
            tables_layered(old(mem)@, self.cr3),
            address.pdp < 512 && address.pd < 512,
            flags & 0x80u64 == 0,
            flags < 0x1000,
            (flags | 0x100u64) < 0x1000,
            (flags | 0x100u64) & 0x80u64 == 0,
            (flags | 0x100u64) != 0,
        ensures
            final(mem).wf(),
            final(allocator).wf(),
            final(allocator).base_address() == old(allocator).base_address(),
            final(allocator).bits().len() == old(allocator).bits().len(),
            paging_consistent(final(mem)@, *final(allocator)),
            pd_allocated(old(mem)@, final(mem)@, self.cr3, *address, r),
            r is Err ==> tables_layered(final(mem)@, self.cr3),
            r matches Err(e) ==> walk_refused(final(mem)@, self.cr3, *address, e) || (e
                == MemoryResult::Nospace && out_of_pages(*final(allocator))),
            r matches Ok((t, f)) ==> {
                &&& pd_lookup(old(mem)@, self.cr3, *address) matches Ok(t0) ==> t == t0
                    && final(mem)@[t] == old(mem)@[t]
                &&& pd_lookup(old(mem)@, self.cr3, *address) is Err ==> final(mem)@[t] == zero_table()
                &&& f == flags || f == flags | 0x100u64
                &&& exists|lv: Map<u64, int>, par: Map<u64, (u64, int)>|
                    #[trigger] layers(final(mem)@, self.cr3, lv, par) && lv.contains_key(t) && lv[t]
                        == 2
                &&& forall|w: u64| #[trigger] mapping_kept(old(mem)@, final(mem)@, self.cr3, w)
                &&& forall|w: u64| #[trigger] leaf_kept(old(mem)@, final(mem)@, self.cr3, w)
            },
    {
        let ghost m0 = mem@;
        let ghost (lv0, par0) = choose|lv: Map<u64, int>, par: Map<u64, (u64, int)>|
            layers(m0, self.cr3, lv, par);
        let pdp = address.pdp as usize;
        let pd = address.pd as usize;
        proof {
            mem.lemma_tables();
        }
        let (a1, f1) = match allocate_if_necessary(mem, allocator, self.cr3, pdp, flags) {
            Ok(x) => x,
            Err(e) => {
                return Err(e);
            },
        };
        let ghost mA = mem@;
        let ghost mut lv = lv0;
        let ghost mut par = par0;
        proof {
            if m0[self.cr3][pdp as int] == 0 {
                lemma_layers_fresh(m0, self.cr3, lv0, par0, a1, zero_table());
                lemma_entry_bits(a1, f1);
                let m0z = m0.insert(a1, zero_table());
                assert forall|j: int| 0 <= j < 512 implies !points(#[trigger] m0z[a1][j]) && !large(m0z[a1][j]) by {
                    assert(m0z[a1][j] == 0);
                }
                assert(m0z[self.cr3] == m0[self.cr3]);
                lemma_layers_attach(m0z, self.cr3, lv0, par0, self.cr3, pdp as int, a1, a1 | f1);
                lv = lv0.insert(a1, 3);
                par = par0.insert(a1, (self.cr3, pdp as int));
            }
            assert(layers(mem@, self.cr3, lv, par));
            mem.lemma_tables();
        }
        let e1 = mem.read(self.cr3, pdp);
        if flags & 2 != 0 && (e1 & 0xFFF) & 2 == 0 {
            proof {
                lemma_flag_change_bits(e1, 2);
                lemma_layers_rewrite(mem@, self.cr3, lv, par, self.cr3, pdp as int, e1 | 2);
            }
            mem.write(self.cr3, pdp, e1 | 2);
        }
        let e1 = mem.read(self.cr3, pdp);
        if e1 & 0x80u64 != 0 {
            return Err(MemoryResult::PagingError);
        }
        proof {
            mem.lemma_tables();
            assert(points(e1));
            assert(addr_of(e1) == a1);
            assert(lv[a1] == 3);
        }
        let e2 = mem.read(a1, pd);
        proof {
            lemma_flag_change_bits(e2, 2);
            assert(lv[self.cr3] == 4);
            assert(a1 != self.cr3);
            if m0[self.cr3][pdp as int] == 0 {
                assert(mem@[a1] == zero_table());
                assert(e2 == 0);
            } else {
                assert(a1 == addr_of(m0[self.cr3][pdp as int]));
                assert(mem@[a1] == m0[a1]);
            }
        }
        if e2 & 0x80u64 != 0 {
            return Err(MemoryResult::InvalidActivateFlags);
        }
        let ghost m1 = mem@;
        proof {
            lemma_flag_change_bits(flags, 0x100);
        }
        let (a2, f2) = match allocate_if_necessary(mem, allocator, a1, pd, f1) {
            Ok(x) => x,
            Err(e) => {
                return Err(e);
            },
        };
        let ghost mC = mem@;
        proof {
            if m1[a1][pd as int] == 0 {
                lemma_layers_fresh(m1, self.cr3, lv, par, a2, zero_table());
                lemma_entry_bits(a2, f2);
                let m1z = m1.insert(a2, zero_table());
                assert forall|j: int| 0 <= j < 512 implies !points(#[trigger] m1z[a2][j]) && !large(m1z[a2][j]) by {
                    assert(m1z[a2][j] == 0);
                }
                assert(m1z[a1] == m1[a1]);
                lemma_layers_attach(m1z, self.cr3, lv, par, a1, pd as int, a2, a2 | f2);
                lv = lv.insert(a2, 2);
                par = par.insert(a2, (a1, pd as int));
            }
            assert(layers(mem@, self.cr3, lv, par));
            mem.lemma_tables();
        }
        let e2 = mem.read(a1, pd);
        if flags & 2 != 0 && (e2 & 0xFFF) & 2 == 0 {
            proof {
                lemma_flag_change_bits(e2, 2);
                lemma_layers_rewrite(mem@, self.cr3, lv, par, a1, pd as int, e2 | 2);
            }
            mem.write(a1, pd, e2 | 2);
        }
        proof {
            assert(layers(mem@, self.cr3, lv, par) && lv.contains_key(a2) && lv[a2] == 2);
            assert(a2 != self.cr3 && a2 != a1);
            mem.lemma_tables();
            old(mem).lemma_tables();
            let mD = mem@;
            assert(addr_of(mD[self.cr3][pdp as int]) == a1);
            assert forall|u: u64| #[trigger] m0.contains_key(u) implies mD.contains_key(u) && m0[u].len() == 512 by {
                assert(mA.contains_key(u));
                assert(m1.contains_key(u));
                assert(mC.contains_key(u));
            }
            assert forall|u: u64| #[trigger] mD.contains_key(u) && !m0.contains_key(u) implies u == a1 || u == a2 by {
                assert(mC.contains_key(u));
                if !m1.contains_key(u) {
                    assert(u == a2);
                } else if !mA.contains_key(u) {
                    assert(false);
                } else {
                    assert(u == a1);
                }
            }
            assert forall|u: u64| #[trigger] m0.contains_key(u) && u != self.cr3 && u != a1 implies mD[u] == m0[u] by {
                assert(mA[u] == m0[u]);
                assert(m1[u] == mA[u]);
                assert(u != a2 || m1[a1][pd as int] != 0);
                assert(mC[u] == m1[u]);
            }
            assert(mD[self.cr3] =~= m0[self.cr3].update(pdp as int, mD[self.cr3][pdp as int]));
            if m0.contains_key(a1) {
                assert(m0[self.cr3][pdp as int] != 0);
                assert(mD[a1] =~= m0[a1].update(pd as int, mD[a1][pd as int]));
            } else {
                assert(mD[a1] =~= zero_table().update(pd as int, mD[a1][pd as int]));
            }
            lemma_pd_frame(m0, mD, self.cr3, *address, a2, lv, par, lv0, par0);
        }
        proof {
            if m1[a1][pd as int] == 0 {
                assert(mem@[a2] == zero_table());
            } else {
                assert(mem@[a2] == m1[a2]);
                if m0[self.cr3][pdp as int] != 0 {
                    assert(m1[a2] == m0[a2]);
                }
            }
        }
        Ok((a2, f2))
    }
}

/// Writes that leave every entry on the way to a 4 KiB page in place, and
/// change in a table of 4 KiB pages at most entry `page` of table `lf`
/// (the table of `virt`'s own slot where that is in the tree), keep every
/// 4 KiB mapping of another page.
proof fn lemma_leaf_frame(
    m1: Map<u64, Seq<u64>>,
    m2: Map<u64, Seq<u64>>,
    cr3: u64,
    lv: Map<u64, int>,
    par: Map<u64, (u64, int)>,
    virt: u64,
    lf: u64,
)
    requires
        layers(m1, cr3, lv, par),
        forall|u: u64, i: int|
            lv.contains_key(u) && lv[u] >= 2 && 0 <= i < 512 && points(m1[u][i]) ==> #[trigger] m2[u][i]
                == m1[u][i],
        forall|u: u64, i: int|
            lv.contains_key(u) && lv[u] == 1 && 0 <= i < 512 && !(u == lf && i == address_of(virt).page)
                ==> #[trigger] m2[u][i] == m1[u][i],
        lv.contains_key(lf) && lv[lf] == 1 ==> (pd_lookup(m1, cr3, address_of(virt)) matches Ok(t) && points(
            m1[t][address_of(virt).pt as int],
        ) && addr_of(m1[t][address_of(virt).pt as int]) == lf),
    ensures
        forall|w: u64| address_of(w) != address_of(virt) ==> #[trigger] leaf_kept(m1, m2, cr3, w),
{
    let av = address_of(virt);
    lemma_indices_small(virt);
    assert forall|w: u64| address_of(w) != address_of(virt) implies #[trigger] leaf_kept(m1, m2, cr3, w) by {
        if leaf_entry(m1, cr3, w) is Some {
            let b = address_of(w);
            lemma_indices_small(w);
            let e1 = m1[cr3][b.pdp as int];
            assert(points(e1));
            assert(m2[cr3][b.pdp as int] == e1);
            let c1 = addr_of(e1);
            assert(lv[c1] == 3 && par[c1] == (cr3, b.pdp as int));
            let e2 = m1[c1][b.pd as int];
            assert(points(e2));
            assert(m2[c1][b.pd as int] == e2);
            let u = addr_of(e2);
            assert(lv[u] == 2 && par[u] == (c1, b.pd as int));
            let e3 = m1[u][b.pt as int];
            assert(points(e3));
            assert(m2[u][b.pt as int] == e3);
            let l = addr_of(e3);
            assert(lv[l] == 1 && par[l] == (u, b.pt as int));
            assert(pd_lookup(m2, cr3, b) == Ok::<u64, MemoryResult>(u));
            if l == lf && b.page == av.page {
                let t = pd_lookup(m1, cr3, av)->Ok_0;
                let f1 = m1[cr3][av.pdp as int];
                assert(points(f1));
                assert(par[addr_of(f1)] == (cr3, av.pdp as int));
                let f2 = m1[addr_of(f1)][av.pd as int];
                assert(points(f2));
                assert(par[addr_of(f2)] == (addr_of(f1), av.pd as int));
                assert(par[lf] == (t, av.pt as int));
                assert(b == av);
            }
            assert(m2[l][b.page as int] == m1[l][b.page as int]);
        }
    }
}

/// Writes that change, among the entries on the way to 4 KiB pages, only
/// the slot entry of `virt` and the table of 4 KiB pages that it points at
/// keep every 4 KiB mapping outside the 2 MiB slot of `virt`.
proof fn lemma_slot_leaf_frame(
    m1: Map<u64, Seq<u64>>,
    m2: Map<u64, Seq<u64>>,
    cr3: u64,
    lv: Map<u64, int>,
    par: Map<u64, (u64, int)>,
    virt: u64,
    t: u64,
)
    requires
        layers(m1, cr3, lv, par),
        pd_lookup(m1, cr3, address_of(virt)) == Ok::<u64, MemoryResult>(t),
        forall|u: u64, i: int|
            lv.contains_key(u) && lv[u] >= 2 && 0 <= i < 512 && points(m1[u][i]) && !(u == t && i
                == address_of(virt).pt) ==> #[trigger] m2[u][i] == m1[u][i],
        forall|u: u64, i: int|
            lv.contains_key(u) && lv[u] == 1 && 0 <= i < 512 && par[u] != (t, address_of(virt).pt as int)
                ==> #[trigger] m2[u][i] == m1[u][i],
    ensures
        forall|w: u64| !same_slot(w, address_of(virt)) ==> #[trigger] leaf_kept(m1, m2, cr3, w),
{
    let av = address_of(virt);
    lemma_indices_small(virt);
    let f1 = m1[cr3][av.pdp as int];
    assert(points(f1));
    assert(par[addr_of(f1)] == (cr3, av.pdp as int));
    let f2 = m1[addr_of(f1)][av.pd as int];
    assert(points(f2));
    assert(par[t] == (addr_of(f1), av.pd as int));
    assert forall|w: u64| !same_slot(w, address_of(virt)) implies #[trigger] leaf_kept(m1, m2, cr3, w) by {
        if leaf_entry(m1, cr3, w) is Some {
            let b = address_of(w);
            lemma_indices_small(w);
            let e1 = m1[cr3][b.pdp as int];
            assert(points(e1));
            assert(m2[cr3][b.pdp as int] == e1);
            let c1 = addr_of(e1);
            assert(lv[c1] == 3 && par[c1] == (cr3, b.pdp as int));
            let e2 = m1[c1][b.pd as int];
            assert(points(e2));
            assert(m2[c1][b.pd as int] == e2);
            let u = addr_of(e2);
            assert(lv[u] == 2 && par[u] == (c1, b.pd as int));
            let e3 = m1[u][b.pt as int];
            assert(points(e3));
            if u == t && b.pt == av.pt {
                assert(same_slot(w, av));
            }
            assert(m2[u][b.pt as int] == e3);
            let l = addr_of(e3);
            assert(lv[l] == 1 && par[l] == (u, b.pt as int));
            assert(pd_lookup(m2, cr3, b) == Ok::<u64, MemoryResult>(u));
            assert(m2[l][b.page as int] == m1[l][b.page as int]);
        }
    }
}

/// The flags a 4 KiB entry gets for a mapping with `flags`: the
/// page-attribute request moves to the page-attribute bit of the entry.
pub open spec fn leaf_flags(flags: u16) -> u64 {
    if (flags as u64) & 0x1000u64 != 0 {
        ((flags as u64) ^ 0x1000u64) ^ 0x80u64
    } else {
        flags as u64
    }
}

/// The flags of a mapping with the page-attribute bit taken out.
pub open spec fn pat_cleared(flags: u16) -> u64 {
    if (flags as u64) & 0x1000u64 != 0 {
        (flags as u64) ^ 0x1000u64
    } else {
        flags as u64
    }
}

/// Flipping the page-attribute bit keeps a 16-bit value below 0x10000.
proof fn lemma_pat_bits(x: u64)
    by (bit_vector)
    requires
        x < 0x10000,
    ensures
        (x ^ 0x1000u64) < 0x10000,
        PAGER_PRESENT | PAGER_RW == 3u16,
        3u64 & 0x100u64 == 0,
{
}

/// The allocator has no free page left to give.
pub open spec fn out_of_pages(a: Allocator) -> bool {
    a.small_choice(1) is None
}

/// The walk to `a` in `m` stops with `e`: a large page at the top level is a
/// paging error, one at the directory level has the wrong flags.
pub open spec fn walk_refused(m: Map<u64, Seq<u64>>, cr3: u64, a: Address, e: MemoryResult) -> bool {
    let e1 = top_entry(m, cr3, a);
    ||| e == MemoryResult::PagingError && large(e1)
    ||| e == MemoryResult::InvalidActivateFlags && points(e1) && large(m[addr_of(e1)][a.pd as int])
}

/// Why mapping the 4 KiB page at `virt` to `physical` failed with `e`, read
/// in the tables and the allocator as the failure left them: an address off
/// a page boundary, flags that a mapping cannot have, a large page in the
/// way of the walk, or no page left for a table.
pub open spec fn map_4k_refused(
    m: Map<u64, Seq<u64>>,
    al: Allocator,
    cr3: u64,
    virt: u64,
    physical: u64,
    flags: u16,
    e: MemoryResult,
) -> bool {
    ||| (virt & 0xFFFu64 != 0 || physical & 0xFFFu64 != 0) && e == MemoryResult::InvalidAddress
    ||| pat_cleared(flags) & 0xF0A0u64 != 0 && e == MemoryResult::InvalidFlags
    ||| walk_refused(m, cr3, address_of(virt), e)
    ||| e == MemoryResult::Nospace && out_of_pages(al)
}

/// Page `k` of a run of 4 KiB mappings from `vaddr` to `base` failed with `e`.
pub open spec fn run_page_refused(
    m: Map<u64, Seq<u64>>,
    al: Allocator,
    cr3: u64,
    vaddr: u64,
    base: u64,
    flags: u16,
    k: int,
    e: MemoryResult,
) -> bool {
    map_4k_refused(m, al, cr3, (vaddr + k * 0x1000) as u64, (base + k * 0x1000) as u64, flags, e)
}

/// Why mapping the 2 MiB page at `virt` to `physical` failed with `e`, read
/// in the tables and the allocator as the failure left them: the reasons of
/// a 4 KiB mapping (on 1 MiB alignment and the flags as given), or `free`
/// refusing the table of 4 KiB pages that the pager had made for the slot.
pub open spec fn map_2mb_refused(
    m: Map<u64, Seq<u64>>,
    al: Allocator,
    cr3: u64,
    virt: u64,
    physical: u64,
    flags: u16,
    e: MemoryResult,
) -> bool {
    let e3 = slot_entry(m, cr3, virt);
    ||| (virt & 0xFFFFFu64 != 0 || physical & 0xFFFFFu64 != 0) && e == MemoryResult::InvalidAddress
    ||| (flags as u64) & 0xF0A0u64 != 0 && e == MemoryResult::InvalidFlags
    ||| walk_refused(m, cr3, address_of(virt), e)
    ||| e == MemoryResult::Nospace && out_of_pages(al)
    ||| !large(e3) && e3 & 0x100u64 != 0 && free_outcome(
        al,
        al,
        MemoryBlock { base: addr_of(e3), length: 0x1000 },
        Err(e),
    )
}

/// What mapping a 4 KiB or 2 MiB page answers before it touches any table,
/// and which failures of the walk it reports.
pub open spec fn map_errors(
    m: Map<u64, Seq<u64>>,
    cr3: u64,
    virt: u64,
    physical: u64,
    alignment: u64,
    flags: u64,
    r: Result<Page, MemoryResult>,
) -> bool {
    let a = address_of(virt);
    let e1 = top_entry(m, cr3, a);
    let e2 = m[addr_of(e1)][a.pd as int];
    if virt & alignment != 0 || physical & alignment != 0 {
        r == Err::<Page, MemoryResult>(MemoryResult::InvalidAddress)
    } else if flags & 0xF0A0u64 != 0 {
        r == Err::<Page, MemoryResult>(MemoryResult::InvalidFlags)
    } else if e1 != 0 && large(e1) {
        r == Err::<Page, MemoryResult>(MemoryResult::PagingError)
    } else if points(e1) && e2 != 0 && large(e2) {
        r == Err::<Page, MemoryResult>(MemoryResult::InvalidActivateFlags)
    } else {
        r == Ok::<Page, MemoryResult>(Page { physical, virt }) || r is Err
    }
}

impl Pager {
    /// Maps the 4 KiB page at `virt` to `physical` with `flags`, making the
    /// tables that are missing and splitting a 2 MiB page that covers
    /// `virt` into 4 KiB pages. The page-attribute flag of a mapping goes
    /// into the page-attribute bit of the 4 KiB entry.
    pub fn page_4_kb(
        &mut self,
        mem: &mut PageTableMemory,
        virt: u64,
        physical: u64,
        flags: u16,
        allocator: &mut Allocator,
    ) -> (r: Result<Page, MemoryResult>)
        requires
            old(mem).wf(),
            old(allocator).wf(),
            paging_consistent(old(mem)@, *old(allocator)),
            tables_layered(old(mem)@, old(self).cr3),
        ensures
            *final(self) == *old(self),
            final(mem).wf(),
            final(allocator).wf(),
            final(allocator).base_address() == old(allocator).base_address(),
            paging_consistent(final(mem)@, *final(allocator)),
            tables_layered(final(mem)@, old(self).cr3),
            map_errors(old(mem)@, old(self).cr3, virt, physical, 0xFFF, pat_cleared(flags), r),
            r matches Err(e) ==> map_4k_refused(final(mem)@, *final(allocator), old(self).cr3, virt, physical, flags, e),
            r is Err && (r == Err::<Page, MemoryResult>(MemoryResult::InvalidAddress) || r
                == Err::<Page, MemoryResult>(MemoryResult::InvalidFlags)) ==> final(mem)@ == old(mem)@,
            r is Err ==> r == Err::<Page, MemoryResult>(MemoryResult::InvalidAddress) || r
                == Err::<Page, MemoryResult>(MemoryResult::InvalidFlags) || r == Err::<
                Page,
                MemoryResult,
            >(MemoryResult::PagingError) || r == Err::<Page, MemoryResult>(
                MemoryResult::InvalidActivateFlags,
            ) || r == Err::<Page, MemoryResult>(MemoryResult::Nospace),
            r is Ok ==> physical_of(final(mem)@, old(self).cr3, virt) == Ok::<u64, MemoryResult>(physical)
                && walk_ok(final(mem), old(self).cr3, virt),
            r is Ok ==> forall|w: u64|
                !same_slot(w, address_of(virt)) ==> #[trigger] mapping_kept(old(mem)@, final(mem)@, old(self).cr3, w),
            r is Ok ==> !large_mapped(final(mem)@, old(self).cr3, virt),
            r is Ok ==> leaf_entry(final(mem)@, old(self).cr3, virt) == Some(physical | leaf_flags(flags)),
            virt & 0xFFF != 0 || physical & 0xFFF != 0 || pat_cleared(flags) & 0xF0A0u64 != 0 ==> final(mem)@
                == old(mem)@ && *final(allocator) == *old(allocator),
            r is Ok ==> forall|w: u64|
                address_of(w) != address_of(virt) ==> #[trigger] leaf_kept(old(mem)@, final(mem)@, old(self).cr3, w),
    {
        if virt & 0xFFF != 0 || physical & 0xFFF != 0 {
            return Err(MemoryResult::InvalidAddress);
        }
        let mut fl: u64 = flags as u64;
        let pat_used = fl & 0x1000 != 0;
        if pat_used {
            proof {
                lemma_pat_bits(fl);
            }
            fl = fl ^ 0x1000;
        }
        if fl & 0xF0A0 != 0 {
            return Err(MemoryResult::InvalidFlags);
        }
        let address = Pager::translate(virt);
        proof {
            lemma_indices_small(virt);
            lemma_map_flag_bits(fl, 0, physical);
        }
        let ghost m0 = mem@;
        let (t, cf) = match self.get_pd_allocated(mem, &address, fl, allocator) {
            Ok(x) => x,
            Err(e) => {
                return Err(e);
            },
        };
        let ghost m1 = mem@;
        let ghost (lv, par) = choose|lv: Map<u64, int>, par: Map<u64, (u64, int)>|
            layers(m1, self.cr3, lv, par) && lv.contains_key(t) && lv[t] == 2;
        let ghost a1 = addr_of(m1[self.cr3][address.pdp as int]);
        proof {
            mem.lemma_tables();
            assert(lv[self.cr3] == 4);
            assert(points(m1[self.cr3][address.pdp as int]));
            assert(lv[a1] == 3);
            assert(points(m1[a1][address.pd as int]));
            assert(addr_of(m1[a1][address.pd as int]) == t);
        }
        let pt = address.pt as usize;
        let page = address.page as usize;
        let e3 = mem.read(t, pt);
        if e3 & 0x80u64 != 0 {
            let n = match new_table(mem, allocator) {
                Ok(n) => n,
                Err(e) => {
                    proof {
                        assert(layers(mem@, self.cr3, lv, par));
                    }
                    return Err(e);
                },
            };
            let ghost m2 = mem@;
            proof {
                lemma_layers_fresh(m1, self.cr3, lv, par, n, zero_table());
                mem.lemma_tables();
                assert(addr_of(e3) + 0x1FF000 <= u64::MAX);
                lemma_map_flag_bits(fl, e3, physical);
            }
            let uf: u64 = (e3 & 0xFFF) & !0x80u64;
            let base = e3 & !0xFFFu64;
            let mut i: usize = 0;
            while i < TABLE_ENTRIES
                invariant
                    i <= TABLE_ENTRIES,
                    mem.wf(),
                    mem@.dom() == m2.dom(),
                    forall|x: u64| x != n ==> #[trigger] mem@[x] == m2[x],
                    mem@.contains_key(n),
                    mem@[n].len() == 512,
                    !lv.contains_key(n),
                    layers(mem@, self.cr3, lv, par),
                    paging_consistent(mem@, *allocator),
                    base + 0x1FF000 <= u64::MAX,
                decreases TABLE_ENTRIES - i,
            {
                let v = (base + (i as u64) * 0x1000) | uf;
                proof {
                    lemma_layers_write_leaf(mem@, self.cr3, lv, par, n, i as int, v);
                    assert(mem@.insert(n, mem@[n].update(i as int, v)).dom() =~= mem@.dom());
                }
                mem.write(n, i, v);
                i = i + 1;
                proof {
                    mem.lemma_tables();
                }
            }
            let ghost m3 = mem@;
            proof {
                lemma_entry_bits(n, uf | 0x100);
                assert(m3[t] == m1[t]);
                lemma_layers_attach(m3, self.cr3, lv, par, t, pt as int, n, n | (uf | 0x100));
            }
            mem.write(t, pt, n | (uf | 0x100));
            let ghost lv2 = lv.insert(n, 1);
            let ghost par2 = par.insert(n, (t, pt as int));
            if pat_used {
                fl = fl ^ 0x80;
            }
            proof {
                mem.lemma_tables();
                lemma_layers_write_leaf(mem@, self.cr3, lv2, par2, n, page as int, physical | fl);
                lemma_entry_bits(physical, fl);
            }
            mem.write(n, page, physical | fl);
            proof {
                assert(layers(mem@, self.cr3, lv2, par2));
                assert(mem@[self.cr3] == m1[self.cr3]);
                assert(mem@[a1] == m1[a1]);
                assert(mem@[t][pt as int] == n | (uf | 0x100));
                assert(mem@[t] =~= m1[t].update(pt as int, n | (uf | 0x100)));
                lemma_slot_write_frame(m1, mem@, self.cr3, address, t, lv, par, n | (uf | 0x100));
                lemma_entry_bits(n, uf | 0x100);
                assert(mem@[n][page as int] == physical | fl);
                assert(leaf_entry(mem@, self.cr3, virt) == Some(physical | fl));
                assert forall|u: u64, i: int|
                    lv.contains_key(u) && lv[u] >= 2 && 0 <= i < 512 && points(m1[u][i]) implies #[trigger] mem@[u][i]
                        == m1[u][i] by {
                    assert(u != n);
                }
                assert forall|u: u64, i: int|
                    lv.contains_key(u) && lv[u] == 1 && 0 <= i < 512 && !(u == n && i == address_of(virt).page)
                        implies #[trigger] mem@[u][i] == m1[u][i] by {
                    assert(u != n && u != t);
                }
                lemma_leaf_frame(m1, mem@, self.cr3, lv, par, virt, n);
            }
        } else {
            let ghost fl0 = fl;
            if pat_used {
                fl = fl ^ 0x80;
            }
            proof {
                lemma_flag_change_bits(fl0, 0x100);
                assert(lv[t] == 2);
            }
            let (leaf, lf) = match allocate_if_necessary(mem, allocator, t, pt, cf) {
                Ok(x) => x,
                Err(e) => {
                    return Err(e);
                },
            };
            let ghost m2 = mem@;
            let ghost mut lv2 = lv;
            let ghost mut par2 = par;
            proof {
                mem.lemma_tables();
                if e3 == 0 {
                    lemma_layers_fresh(m1, self.cr3, lv, par, leaf, zero_table());
                    lemma_entry_bits(leaf, lf);
                    let m1z = m1.insert(leaf, zero_table());
                    assert(m1z[t] == m1[t]);
                    lemma_layers_attach(m1z, self.cr3, lv, par, t, pt as int, leaf, leaf | lf);
                    lv2 = lv.insert(leaf, 1);
                    par2 = par.insert(leaf, (t, pt as int));
                } else {
                    assert(points(e3));
                    assert(lv[leaf] == 1);
                }
                assert(layers(m2, self.cr3, lv2, par2));
                assert(lv2[leaf] == 1);
                lemma_layers_write_leaf(m2, self.cr3, lv2, par2, leaf, page as int, physical | fl);
                lemma_entry_bits(physical, fl);
            }
            mem.write(leaf, page, physical | fl);
            proof {
                assert(layers(mem@, self.cr3, lv2, par2));
                assert(mem@[self.cr3] == m1[self.cr3]);
                assert(mem@[a1] == m1[a1]);
                assert(!large(mem@[t][pt as int]));
                assert(addr_of(mem@[t][pt as int]) == leaf);
                assert(mem@[t] =~= m1[t].update(pt as int, mem@[t][pt as int]));
                lemma_slot_write_frame(m1, mem@, self.cr3, address, t, lv, par, mem@[t][pt as int]);
                if e3 == 0 {
                    lemma_entry_bits(leaf, lf);
                }
                assert(points(mem@[t][pt as int]));
                assert(mem@[leaf][page as int] == physical | fl);
                assert(leaf_entry(mem@, self.cr3, virt) == Some(physical | fl));
                assert forall|u: u64, i: int|
                    lv.contains_key(u) && lv[u] >= 2 && 0 <= i < 512 && points(m1[u][i]) implies #[trigger] mem@[u][i]
                        == m1[u][i] by {
                    assert(u != leaf);
                }
                assert forall|u: u64, i: int|
                    lv.contains_key(u) && lv[u] == 1 && 0 <= i < 512 && !(u == leaf && i == address_of(virt).page)
                        implies #[trigger] mem@[u][i] == m1[u][i] by {
                    assert(u != t);
                }
                lemma_leaf_frame(m1, mem@, self.cr3, lv, par, virt, leaf);
            }
        }
        proof {
            assert forall|w: u64| !same_slot(w, address_of(virt)) implies #[trigger] mapping_kept(m0, mem@, self.cr3, w) by {
                assert(mapping_kept(m0, m1, self.cr3, w));
                assert(mapping_kept(m1, mem@, self.cr3, w));
            }
            assert forall|w: u64| address_of(w) != address_of(virt) implies #[trigger] leaf_kept(m0, mem@, self.cr3, w) by {
                assert(leaf_kept(m0, m1, self.cr3, w));
                assert(leaf_kept(m1, mem@, self.cr3, w));
            }
        }
        Ok(Page::new(physical, virt))
    }
}

/// Giving back the page of table `x` keeps every other table in use.
proof fn lemma_free_consistent(m: Map<u64, Seq<u64>>, old: Allocator, new: Allocator, x: u64)
    requires
        paging_consistent(m, old),
        new.base_address() == old.base_address(),
        new.bits().len() == old.bits().len(),
        free_outcome(old, new, MemoryBlock { base: x, length: 0x1000 }, Ok(())),
        forall|t: u64| #[trigger] m.contains_key(t) ==> table_address_ok(t),
    ensures
        paging_consistent(m.remove(x), new),
{
    let base = old.base_address();
    assert((0x1000u64 / 0x1000) as u32 == 1);
    let px = (x - base) / 0x1000;
    assert forall|t: u64| #[trigger] m.remove(x).contains_key(t) implies page_reserved(new, t) by {
        assert(page_reserved(old, t));
        let p = (t - base) / 0x1000;
        if t >= base && p < 32 * old.bits().len() {
            lemma_aligned_low_bits(t);
            assert(0 <= p / 32 < old.bits().len());
            assert(page_used(new.bits(), p / 32, p % 32) == if crate::allocator::in_run(
                p / 32,
                p % 32,
                px,
                1,
            ) {
                false
            } else {
                page_used(old.bits(), p / 32, p % 32)
            });
            if p == px {
                assert(t - base == x - base) by (nonlinear_arith)
                    requires
                        (t - base) / 0x1000 == (x - base) / 0x1000,
                        (t - base) % 0x1000 == 0,
                        (x - base) % 0x1000 == 0,
                        t >= base,
                        x >= base,
                ;
            }
        }
    }
}

impl Pager {
    /// Maps the 2 MiB page at `virt` to `physical` with `flags`, making the
    /// tables that are missing. A table of 4 KiB pages that the pager made
    /// for that range is given back to the allocator. Where `virt` already
    /// lies in a 2 MiB page, the entry gets the new address and `flags`
    /// without the large-page bit.
    pub fn page_2_mb(
        &mut self,
        mem: &mut PageTableMemory,
        virt: u64,
        physical: u64,
        flags: u16,
        allocator: &mut Allocator,
    ) -> (r: Result<Page, MemoryResult>)
        requires
            old(mem).wf(),
            old(allocator).wf(),
            paging_consistent(old(mem)@, *old(allocator)),
            tables_layered(old(mem)@, old(self).cr3),
        ensures
            *final(self) == *old(self),
            final(mem).wf(),
            final(allocator).wf(),
            final(allocator).base_address() == old(allocator).base_address(),
            paging_consistent(final(mem)@, *final(allocator)),
            map_errors(old(mem)@, old(self).cr3, virt, physical, 0xFFFFF, flags as u64, r),
            r matches Err(e) ==> map_2mb_refused(final(mem)@, *final(allocator), old(self).cr3, virt, physical, flags, e),
            virt & 0xFFFFF != 0 || physical & 0xFFFFF != 0 || (flags as u64) & 0xF0A0u64 != 0
                ==> final(mem)@ == old(mem)@ && *final(allocator) == *old(allocator),
            r is Err ==> tables_layered(final(mem)@, old(self).cr3),
            r is Ok && !large_mapped(old(mem)@, old(self).cr3, virt) ==> {
                &&& large_mapped(final(mem)@, old(self).cr3, virt)
                &&& addr_of(slot_entry(final(mem)@, old(self).cr3, virt)) == physical
                &&& physical_of(final(mem)@, old(self).cr3, virt) == Ok::<u64, MemoryResult>(physical)
                &&& walk_ok(final(mem), old(self).cr3, virt)
                &&& physical + 0x1FF000 <= u64::MAX ==> tables_layered(final(mem)@, old(self).cr3)
                &&& (flags as u64) & 0x100u64 == 0 ==> slot_entry(final(mem)@, old(self).cr3, virt) & (flags as u64)
                    == flags as u64
            },
            r is Ok ==> forall|w: u64|
                !same_slot(w, address_of(virt)) ==> #[trigger] mapping_kept(old(mem)@, final(mem)@, old(self).cr3, w),
            r is Ok ==> forall|w: u64|
                !same_slot(w, address_of(virt)) ==> #[trigger] leaf_kept(old(mem)@, final(mem)@, old(self).cr3, w),
    {
        if virt & 0xFFFFF != 0 || physical & 0xFFFFF != 0 {
            return Err(MemoryResult::InvalidAddress);
        }
        let fl: u64 = flags as u64;
        if fl & 0xF0A0 != 0 {
            return Err(MemoryResult::InvalidFlags);
        }
        let address = Pager::translate(virt);
        proof {
            lemma_indices_small(virt);
            lemma_map_flag_bits(fl, 0, physical);
        }
        let ghost m0 = mem@;
        let (t, cf) = match self.get_pd_allocated(mem, &address, fl, allocator) {
            Ok(x) => x,
            Err(e) => {
                return Err(e);
            },
        };
        let ghost m1 = mem@;
        let ghost (lv, par) = choose|lv: Map<u64, int>, par: Map<u64, (u64, int)>|
            layers(m1, self.cr3, lv, par) && lv.contains_key(t) && lv[t] == 2;
        let ghost a1 = addr_of(m1[self.cr3][address.pdp as int]);
        proof {
            mem.lemma_tables();
            assert(lv[self.cr3] == 4);
            assert(points(m1[self.cr3][address.pdp as int]));
            assert(lv[a1] == 3);
            assert(points(m1[a1][address.pd as int]));
            assert(addr_of(m1[a1][address.pd as int]) == t);
            lemma_flag_change_bits(fl, 0x100);
            lemma_flag_change_bits(0, 2);
            lemma_map_flag_bits(fl, 0, virt);
        }
        let pt = address.pt as usize;
        let e3 = mem.read(t, pt);
        proof {
            assert(large(e3) == large_mapped(m0, self.cr3, virt));
        }
        if e3 & 0x80u64 != 0 {
            mem.write(t, pt, physical | cf);
            proof {
                mem.lemma_tables();
                lemma_slot_write_frame(m1, mem@, self.cr3, address, t, lv, par, physical | cf);
                assert forall|u: u64, i: int|
                    lv.contains_key(u) && lv[u] >= 2 && 0 <= i < 512 && points(m1[u][i]) && !(u == t && i
                        == address_of(virt).pt) implies #[trigger] mem@[u][i] == m1[u][i] by {}
                assert forall|u: u64, i: int|
                    lv.contains_key(u) && lv[u] == 1 && 0 <= i < 512 && par[u] != (t, address_of(virt).pt as int)
                        implies #[trigger] mem@[u][i] == m1[u][i] by {
                    assert(u != t);
                }
                lemma_slot_leaf_frame(m1, mem@, self.cr3, lv, par, virt, t);
            }
        } else {
            let mut ptf = cf;
            let ghost mut m2 = m1;
            let ghost mut lv2 = lv;
            let ghost mut par2 = par;
            let mut detached = false;
            if e3 & 0x100u64 != 0 {
                let x = e3 & !0xFFFu64;
                proof {
                    lemma_flag_change_bits(e3, 0x100);
                    assert(points(e3));
                    assert(lv[x] == 1);
                    assert(table_address_ok(x));
                }
                let ghost a_before = *allocator;
                match allocator.free(&MemoryBlock::new(0x1000, x)) {
                    Ok(_) => {
                        proof {
                            lemma_free_consistent(m1, a_before, *allocator, x);
                        }
                        ptf = ptf ^ 0x100;
                        detached = true;
                    },
                    Err(e) => {
                        return Err(e);
                    },
                }
            }
            let ptf0 = ptf;
            ptf = ptf0 | 0x80;
            let v = physical | ptf;
            proof {
                lemma_map_flag_bits(fl, ptf0, physical);
                lemma_entry_bits(physical, ptf);
                if fl & 0x100u64 == 0 {
                    lemma_flags_kept(physical, fl);
                    assert(v & fl == fl);
                }
            }
            let ghost m2 = m1.insert(t, m1[t].update(pt as int, v));
            proof {
                assert(large(v));
                assert(addr_of(v) == physical);
                assert(m2.dom() =~= m1.dom());
            }
            mem.write(t, pt, v);
            if detached {
                mem.forget(e3 & !0xFFFu64);
                proof {
                    let x = e3 & !0xFFFu64;
                    assert(mem@.dom() =~= m1.remove(x).dom());
                    assert(x != self.cr3 && x != a1 && x != t);
                    if physical + 0x1FF000 <= u64::MAX {
                        lemma_layers_detach(m1, self.cr3, lv, par, t, pt as int, v);
                        assert(mem@ == m2.remove(x));
                        assert(layers(mem@, self.cr3, lv.remove(x), par.remove(x)));
                    }
                }
            } else {
                proof {
                    if physical + 0x1FF000 <= u64::MAX {
                        lemma_layers_rewrite(m1, self.cr3, lv, par, t, pt as int, v);
                        assert(layers(mem@, self.cr3, lv, par));
                    }
                }
            }
            proof {
                assert(mem@[self.cr3] == m1[self.cr3]);
                assert(mem@[a1] == m1[a1]);
                assert(mem@[t][pt as int] == v);
                assert(mem@[t] == m1[t].update(pt as int, v));
                assert forall|u: u64| #[trigger] lv.contains_key(u) && lv[u] >= 2 && u != t implies mem@[u] == m1[u] by {
                    if detached {
                        assert(u != (e3 & !0xFFFu64));
                    }
                }
                lemma_slot_write_frame(m1, mem@, self.cr3, address, t, lv, par, v);
                assert forall|u: u64, i: int|
                    lv.contains_key(u) && lv[u] >= 2 && 0 <= i < 512 && points(m1[u][i]) && !(u == t && i
                        == address_of(virt).pt) implies #[trigger] mem@[u][i] == m1[u][i] by {
                    if u != t {
                        assert(mem@[u] == m1[u]);
                    }
                }
                assert forall|u: u64, i: int|
                    lv.contains_key(u) && lv[u] == 1 && 0 <= i < 512 && par[u] != (t, address_of(virt).pt as int)
                        implies #[trigger] mem@[u][i] == m1[u][i] by {
                    assert(u != t);
                    if detached {
                        assert(u != (e3 & !0xFFFu64));
                    }
                }
                lemma_slot_leaf_frame(m1, mem@, self.cr3, lv, par, virt, t);
            }
        }
        proof {
            assert forall|w: u64| !same_slot(w, address_of(virt)) implies #[trigger] mapping_kept(m0, mem@, self.cr3, w) by {
                assert(mapping_kept(m0, m1, self.cr3, w));
                assert(mapping_kept(m1, mem@, self.cr3, w));
            }
            assert forall|w: u64| !same_slot(w, address_of(virt)) implies #[trigger] leaf_kept(m0, mem@, self.cr3, w) by {
                assert(leaf_kept(m0, m1, self.cr3, w));
                assert(leaf_kept(m1, mem@, self.cr3, w));
            }
        }
        Ok(Page::new(physical, virt))
    }
}

/// The errors that making a 4 KiB mapping can end with.
pub open spec fn map_error(e: MemoryResult) -> bool {
    e == MemoryResult::InvalidAddress || e == MemoryResult::InvalidFlags || e
        == MemoryResult::PagingError || e == MemoryResult::InvalidActivateFlags || e
        == MemoryResult::Nospace
}

/// Two page-aligned addresses less than 256 TiB apart have different table
/// indices.
proof fn lemma_indices_differ(x: u64, y: u64)
    by (bit_vector)
    requires
        x & 0xFFFu64 == 0,
        y & 0xFFFu64 == 0,
        x < y,
        y - x < 0x1_0000_0000_0000u64,
    ensures
        !(index_of(x, 0) == index_of(y, 0) && index_of(x, 1) == index_of(y, 1) && index_of(x, 2) == index_of(
            y,
            2,
        ) && index_of(x, 3) == index_of(y, 3)),
{
}

/// Distinct pages of a run from a page-aligned `vaddr` that spans at most
/// 256 TiB have different table indices.
proof fn lemma_run_pages_differ(vaddr: u64, j: int, k: int, pages: int)
    requires
        vaddr & 0xFFFu64 == 0,
        0 <= j < k < pages,
        vaddr + pages * 0x1000 <= u64::MAX,
        pages <= 0x10_0000_0000,
    ensures
        address_of((vaddr + j * 0x1000) as u64) != address_of((vaddr + k * 0x1000) as u64),
{
    lemma_aligned_low_bits(vaddr);
    let x = (vaddr + j * 0x1000) as u64;
    let y = (vaddr + k * 0x1000) as u64;
    assert(j * 0x1000 < k * 0x1000 && k * 0x1000 < pages * 0x1000 && 0 <= j * 0x1000) by (nonlinear_arith)
        requires
            0 <= j < k < pages,
    ;
    assert(x % 0x1000 == 0 && y % 0x1000 == 0) by (nonlinear_arith)
        requires
            vaddr % 0x1000 == 0,
            x == vaddr + j * 0x1000,
            y == vaddr + k * 0x1000,
    ;
    assert(y - x < 0x1_0000_0000_0000) by (nonlinear_arith)
        requires
            y - x == (k - j) * 0x1000,
            k - j < pages,
            pages <= 0x10_0000_0000,
            0 < k - j,
    ;
    lemma_aligned_low_bits(x);
    lemma_aligned_low_bits(y);
    lemma_indices_differ(x, y);
}

/// A 4 KiB entry of a page-aligned address, of flags below the address
/// bits, reads back its page.
proof fn lemma_leaf_physical(m: Map<u64, Seq<u64>>, cr3: u64, w: u64, p: u64, f: u64)
    requires
        leaf_entry(m, cr3, w) == Some(p | f),
        w & 0xFFFu64 == 0,
        p & 0xFFFu64 == 0,
        f < 0x1000,
    ensures
        physical_of(m, cr3, w) == Ok::<u64, MemoryResult>(p),
{
    lemma_entry_bits(p, f);
}

/// The flags of a 4 KiB entry stay below the address bits for flags that a
/// mapping may have.
proof fn lemma_leaf_flags_small(flags: u16)
    requires
        pat_cleared(flags) & 0xF0A0u64 == 0,
    ensures
        leaf_flags(flags) < 0x1000,
{
    lemma_pat_bits(flags as u64);
    lemma_map_flag_bits(pat_cleared(flags), 0, 0);
}

/// The run of 4 KiB pages from `vaddr` to `base` is mapped: page `k` has
/// a 4 KiB entry with its physical page and the flags of the mapping.
pub open spec fn run_page_mapped(m: Map<u64, Seq<u64>>, cr3: u64, vaddr: u64, base: u64, flags: u16, k: int) -> bool {
    &&& leaf_entry(m, cr3, (vaddr + k * 0x1000) as u64) == Some(((base + k * 0x1000) as u64) | leaf_flags(flags))
    &&& physical_of(m, cr3, (vaddr + k * 0x1000) as u64) == Ok::<u64, MemoryResult>((base + k * 0x1000) as u64)
}

/// `w` has other table indices than every page of the run of `n` pages
/// from `vaddr`.
pub open spec fn outside_run(w: u64, vaddr: u64, n: int) -> bool {
    forall|k: int| 0 <= k < n ==> address_of(w) != #[trigger] address_of((vaddr + k * 0x1000) as u64)
}

/// `w` lies in another 2 MiB slot than every page of the run of `n` pages
/// from `vaddr`.
pub open spec fn outside_run_slots(w: u64, vaddr: u64, n: int) -> bool {
    forall|k: int| 0 <= k < n ==> !same_slot(w, #[trigger] address_of((vaddr + k * 0x1000) as u64))
}

/// A 4 KiB mapping that is kept reads back the same page.
proof fn lemma_leaf_kept_physical(m1: Map<u64, Seq<u64>>, m2: Map<u64, Seq<u64>>, cr3: u64, w: u64)
    requires
        leaf_kept(m1, m2, cr3, w),
        leaf_entry(m1, cr3, w) is Some,
        physical_of(m1, cr3, w) is Ok,
    ensures
        physical_of(m2, cr3, w) == physical_of(m1, cr3, w),
{
}

/// Maps `pages` 4 KiB pages from `vaddr` on to the physical pages from
/// `base` on, one after another; stops at the first page that fails.
pub(crate) fn map_pages(
    pager: &mut Pager,
    mem: &mut PageTableMemory,
    allocator: &mut Allocator,
    vaddr: u64,
    base: u64,
    pages: u64,
    flags: u16,
) -> (r: Option<MemoryResult>)
    requires
        old(mem).wf(),
        old(allocator).wf(),
        paging_consistent(old(mem)@, *old(allocator)),
        tables_layered(old(mem)@, old(pager).cr3),
        vaddr + pages * 0x1000 <= u64::MAX,
        base + pages * 0x1000 <= u64::MAX,
    ensures
        *final(pager) == *old(pager),
        final(mem).wf(),
        final(allocator).wf(),
        final(allocator).base_address() == old(allocator).base_address(),
        paging_consistent(final(mem)@, *final(allocator)),
        tables_layered(final(mem)@, old(pager).cr3),
        r matches Some(e) ==> map_error(e),
        r is None ==> forall|w: u64| #[trigger] large_mapped(final(mem)@, old(pager).cr3, w) ==> large_mapped(old(mem)@, old(pager).cr3, w),
        pages == 0 ==> r is None,
        pages > 0 && (vaddr & 0xFFF != 0 || base & 0xFFF != 0) ==> r == Some(
            MemoryResult::InvalidAddress,
        ),
        r matches Some(e) ==> exists|k: int|
            0 <= k < pages && #[trigger] run_page_refused(
                final(mem)@,
                *final(allocator),
                old(pager).cr3,
                vaddr,
                base,
                flags,
                k,
                e,
            ),
        r is None && pages <= 0x10_0000_0000 ==> forall|k: int|
            0 <= k < pages ==> #[trigger] run_page_mapped(final(mem)@, old(pager).cr3, vaddr, base, flags, k),
        r is None ==> forall|w: u64|
            outside_run(w, vaddr, pages as int) ==> #[trigger] leaf_kept(old(mem)@, final(mem)@, old(pager).cr3, w),
        r is None ==> forall|w: u64|
            outside_run_slots(w, vaddr, pages as int) ==> #[trigger] mapping_kept(
                old(mem)@,
                final(mem)@,
                old(pager).cr3,
                w,
            ),
{
    let mut i: u64 = 0;
    while i < pages
        invariant
            *pager == *old(pager),
            i <= pages,
            mem.wf(),
            allocator.wf(),
            allocator.base_address() == old(allocator).base_address(),
            paging_consistent(mem@, *allocator),
            tables_layered(mem@, pager.cr3),
            vaddr + pages * 0x1000 <= u64::MAX,
            base + pages * 0x1000 <= u64::MAX,
            i > 0 ==> vaddr & 0xFFF == 0 && base & 0xFFF == 0,
            i > 0 ==> pat_cleared(flags) & 0xF0A0u64 == 0,
            forall|w: u64| #[trigger] large_mapped(mem@, pager.cr3, w) ==> large_mapped(old(mem)@, old(pager).cr3, w),
            pages <= 0x10_0000_0000 ==> forall|j: int|
                0 <= j < i ==> #[trigger] leaf_entry(mem@, pager.cr3, (vaddr + j * 0x1000) as u64) == Some(
                    ((base + j * 0x1000) as u64) | leaf_flags(flags),
                ),
            forall|w: u64| outside_run(w, vaddr, i as int) ==> #[trigger] leaf_kept(old(mem)@, mem@, pager.cr3, w),
            forall|w: u64| outside_run_slots(w, vaddr, i as int) ==> #[trigger] mapping_kept(old(mem)@, mem@, pager.cr3, w),
        decreases pages - i,
    {
        proof {
            assert(i * 0x1000 < pages * 0x1000) by (nonlinear_arith)
                requires
                    i < pages,
            ;
        }
        let v = vaddr + i * 0x1000;
        let p = base + i * 0x1000;
        proof {
            if i == 0 {
                assert(v == vaddr && p == base);
            }
        }
        let ghost before = mem@;
        match pager.page_4_kb(mem, v, p, flags, allocator) {
            Ok(_) => {},
            Err(e) => {
                proof {
                    assert(run_page_refused(mem@, *allocator, pager.cr3, vaddr, base, flags, i as int, e));
                }
                return Some(e);
            },
        }
        proof {
            assert forall|w: u64| #[trigger] large_mapped(mem@, pager.cr3, w) implies large_mapped(old(mem)@, old(pager).cr3, w) by {
                if same_slot(w, address_of(v)) {
                    assert(large_mapped(mem@, pager.cr3, v));
                } else {
                    assert(mapping_kept(before, mem@, pager.cr3, w));
                }
            }
            assert forall|w: u64| outside_run_slots(w, vaddr, i + 1) implies #[trigger] mapping_kept(old(mem)@, mem@, pager.cr3, w) by {
                assert(!same_slot(w, address_of((vaddr + i * 0x1000) as u64)));
                assert(outside_run_slots(w, vaddr, i as int));
                assert(mapping_kept(old(mem)@, before, pager.cr3, w));
                assert(mapping_kept(before, mem@, pager.cr3, w));
            }
            assert forall|w: u64| outside_run(w, vaddr, i + 1) implies #[trigger] leaf_kept(old(mem)@, mem@, pager.cr3, w) by {
                assert(address_of(w) != address_of((vaddr + i * 0x1000) as u64));
                assert(outside_run(w, vaddr, i as int));
                assert(leaf_kept(old(mem)@, before, pager.cr3, w));
                assert(leaf_kept(before, mem@, pager.cr3, w));
            }
            if pages <= 0x10_0000_0000 {
                assert forall|j: int| 0 <= j < i + 1 implies #[trigger] leaf_entry(
                    mem@,
                    pager.cr3,
                    (vaddr + j * 0x1000) as u64,
                ) == Some(((base + j * 0x1000) as u64) | leaf_flags(flags)) by {
                    if j < i {
                        lemma_run_pages_differ(vaddr, j, i as int, pages as int);
                        assert(leaf_kept(before, mem@, pager.cr3, (vaddr + j * 0x1000) as u64));
                    }
                }
            }
        }
        i = i + 1;
    }
    proof {
        if pages <= 0x10_0000_0000 {
            assert forall|k: int| 0 <= k < pages implies #[trigger] run_page_mapped(mem@, pager.cr3, vaddr, base, flags, k) by {
                let w = (vaddr + k * 0x1000) as u64;
                let p = (base + k * 0x1000) as u64;
                lemma_aligned_low_bits(vaddr);
                lemma_aligned_low_bits(base);
                assert(w % 0x1000 == 0 && p % 0x1000 == 0) by (nonlinear_arith)
                    requires
                        vaddr % 0x1000 == 0,
                        base % 0x1000 == 0,
                        w == vaddr + k * 0x1000,
                        p == base + k * 0x1000,
                ;
                lemma_aligned_low_bits(w);
                lemma_aligned_low_bits(p);
                lemma_leaf_flags_small(flags);
                lemma_leaf_physical(mem@, pager.cr3, w, p, leaf_flags(flags));
            }
        }
    }
    None
}

impl MemoryBlock {
    /// Maps the block page by page at `vaddr` with `flags`; stops at the
    /// first page that fails.
    pub fn map(
        &self,
        mem: &mut PageTableMemory,
        physical_allocator: &mut Allocator,
        pager: &mut Pager,
        vaddr: u64,
        flags: u16,
    ) -> (r: Option<MemoryResult>)
        requires
            old(mem).wf(),
            old(physical_allocator).wf(),
            paging_consistent(old(mem)@, *old(physical_allocator)),
            tables_layered(old(mem)@, old(pager).cr3),
            vaddr + self.length <= u64::MAX,
            self.base + self.length <= u64::MAX,
        ensures
            *final(pager) == *old(pager),
            final(mem).wf(),
            final(physical_allocator).wf(),
            final(physical_allocator).base_address() == old(physical_allocator).base_address(),
            paging_consistent(final(mem)@, *final(physical_allocator)),
            tables_layered(final(mem)@, old(pager).cr3),
            r matches Some(e) ==> map_error(e),
            self.length < 0x1000 ==> r is None,
            self.length >= 0x1000 && (vaddr & 0xFFF != 0 || self.base & 0xFFF != 0) ==> r == Some(
                MemoryResult::InvalidAddress,
            ),
            r matches Some(e) ==> exists|k: int|
                0 <= k < self.length / 0x1000 && #[trigger] run_page_refused(
                    final(mem)@,
                    *final(physical_allocator),
                    old(pager).cr3,
                    vaddr,
                    self.base,
                    flags,
                    k,
                    e,
                ),
            r is None && self.length / 0x1000 <= 0x10_0000_0000 ==> forall|k: int|
                0 <= k < self.length / 0x1000 ==> #[trigger] run_page_mapped(
                    final(mem)@,
                    old(pager).cr3,
                    vaddr,
                    self.base,
                    flags,
                    k,
                ),
            r is None ==> forall|w: u64|
                outside_run(w, vaddr, (self.length / 0x1000) as int) ==> #[trigger] leaf_kept(
                    old(mem)@,
                    final(mem)@,
                    old(pager).cr3,
                    w,
                ),
    {
        let pages = self.length / 0x1000;
        proof {
            assert(pages * 0x1000 <= self.length) by (nonlinear_arith)
                requires
                    pages == self.length / 0x1000,
            ;
        }
        map_pages(pager, mem, physical_allocator, vaddr, self.base, pages, flags)
    }
}

impl Pager {
    /// Maps the physical memory of the kernel's virtual allocator at
    /// `kernel_space_vaddr`, writable and present, page by page; stops at
    /// the first page that fails.
    pub fn page_kernelspace_memory(
        &mut self,
        mem: &mut PageTableMemory,
        physical_allocator: &mut Allocator,
        virtual_allocator: &VirtualAllocator,
        kernel_space_vaddr: u64,
    ) -> (r: Option<MemoryResult>)
        requires
            old(mem).wf(),
            old(physical_allocator).wf(),
            paging_consistent(old(mem)@, *old(physical_allocator)),
            tables_layered(old(mem)@, old(self).cr3),
            kernel_space_vaddr + virtual_allocator.physical.length <= u64::MAX,
            virtual_allocator.physical.base + virtual_allocator.physical.length <= u64::MAX,
        ensures
            *final(self) == *old(self),
            final(mem).wf(),
            final(physical_allocator).wf(),
            final(physical_allocator).base_address() == old(physical_allocator).base_address(),
            paging_consistent(final(mem)@, *final(physical_allocator)),
            tables_layered(final(mem)@, old(self).cr3),
            r matches Some(e) ==> map_error(e),
            virtual_allocator.physical.length < 0x1000 ==> r is None,
            virtual_allocator.physical.length >= 0x1000 && (kernel_space_vaddr & 0xFFF != 0
                || virtual_allocator.physical.base & 0xFFF != 0) ==> r == Some(
                MemoryResult::InvalidAddress,
            ),
            r matches Some(e) ==> exists|k: int|
                0 <= k < virtual_allocator.physical.length / 0x1000 && #[trigger] run_page_refused(
                    final(mem)@,
                    *final(physical_allocator),
                    old(self).cr3,
                    kernel_space_vaddr,
                    virtual_allocator.physical.base,
                    3,
                    k,
                    e,
                ),
            r is None && virtual_allocator.physical.length / 0x1000 <= 0x10_0000_0000 ==> forall|k: int|
                0 <= k < virtual_allocator.physical.length / 0x1000 ==> #[trigger] run_page_mapped(
                    final(mem)@,
                    old(self).cr3,
                    kernel_space_vaddr,
                    virtual_allocator.physical.base,
                    3,
                    k,
                ),
    {
        virtual_allocator.physical.map(mem, physical_allocator, self, kernel_space_vaddr, 3)
    }
}

/// The 2 MiB page `k` of the first 2 GiB: its address, and its slot.
proof fn lemma_general_page(k: int)
    requires
        0 <= k < 1024,
    ensures
        ((k * 0x200000) as u64) & 0xFFFu64 == 0,
        index_of((k * 0x200000) as u64, 3) == 0,
        index_of((k * 0x200000) as u64, 2) == k / 512,
        index_of((k * 0x200000) as u64, 1) == k % 512,
        index_of((k * 0x200000) as u64, 0) == 0,
{
    crate::pager::lemma_translate_into_address(0, (k / 512) as u16, (k % 512) as u16, 0);
    assert((k % 512) * 0x200000 + (k / 512) * 0x40000000 == k * 0x200000) by (nonlinear_arith)
        requires
            0 <= k,
    ;
    assert((k * 0x200000) % 0x1000 == 0) by (nonlinear_arith)
        requires
            0 <= k,
    ;
    lemma_aligned_low_bits((k * 0x200000) as u64);
}

/// Distinct 2 MiB pages of the first 2 GiB lie in distinct slots.
proof fn lemma_general_slots(j: int, k: int)
    requires
        0 <= j < 1024,
        0 <= k < 1024,
        j != k,
    ensures
        !same_slot((j * 0x200000) as u64, address_of((k * 0x200000) as u64)),
{
    lemma_general_page(j);
    lemma_general_page(k);
}

/// A page-aligned address in a 2 MiB page is mapped to the base of that page.
proof fn lemma_large_mapped_physical(m: Map<u64, Seq<u64>>, cr3: u64, w: u64)
    requires
        large_mapped(m, cr3, w),
        w & 0xFFFu64 == 0,
    ensures
        physical_of(m, cr3, w) == Ok::<u64, MemoryResult>(addr_of(slot_entry(m, cr3, w))),
{
}

/// The 2 MiB page `k` of the first 2 GiB failed to map one to one with `e`.
pub open spec fn general_page_refused(m: Map<u64, Seq<u64>>, al: Allocator, cr3: u64, k: int, e: MemoryResult) -> bool {
    map_2mb_refused(m, al, cr3, (k * 0x200000) as u64, (k * 0x200000) as u64, PAGER_PRESENT | PAGER_RW, e)
}

/// The 2 MiB page `k` of the first 2 GiB is mapped one to one, present
/// and writable.
pub open spec fn general_page_mapped(m: Map<u64, Seq<u64>>, cr3: u64, k: int) -> bool {
    &&& large_mapped(m, cr3, (k * 0x200000) as u64)
    &&& physical_of(m, cr3, (k * 0x200000) as u64) == Ok::<u64, MemoryResult>((k * 0x200000) as u64)
    &&& slot_entry(m, cr3, (k * 0x200000) as u64) & ((PAGER_PRESENT | PAGER_RW) as u64) == (PAGER_PRESENT
        | PAGER_RW) as u64
}

/// No 2 MiB page of the first 2 GiB is mapped by a 2 MiB entry yet.
pub open spec fn general_unmapped(m: Map<u64, Seq<u64>>, cr3: u64) -> bool {
    forall|k: int| 0 <= k < 1024 ==> !#[trigger] large_mapped(m, cr3, (k * 0x200000) as u64)
}

impl Pager {
    /// Maps the first 2 GiB one to one with 2 MiB pages, present and
    /// writable; stops at the first page that fails. The slots must not be
    /// mapped by 2 MiB entries yet: such an entry would be rewritten into a
    /// directory entry that points at the mapped memory as if it were a
    /// table, which is no page-table tree any more.
    pub fn page_general(&mut self, mem: &mut PageTableMemory, allocator: &mut Allocator) -> (r: Option<MemoryResult>)
        requires
            old(mem).wf(),
            old(allocator).wf(),
            paging_consistent(old(mem)@, *old(allocator)),
            tables_layered(old(mem)@, old(self).cr3),
            general_unmapped(old(mem)@, old(self).cr3),
        ensures
            *final(self) == *old(self),
            final(mem).wf(),
            final(allocator).wf(),
            final(allocator).base_address() == old(allocator).base_address(),
            paging_consistent(final(mem)@, *final(allocator)),
            tables_layered(final(mem)@, old(self).cr3),
            r is None && general_unmapped(old(mem)@, old(self).cr3) ==> forall|k: int|
                0 <= k < 1024 ==> #[trigger] general_page_mapped(final(mem)@, old(self).cr3, k),
            r matches Some(e) ==> exists|k: int|
                0 <= k < 1024 && #[trigger] general_page_refused(final(mem)@, *final(allocator), old(self).cr3, k, e),
    {
        let ghost fresh = general_unmapped(old(mem)@, old(self).cr3);
        let loops: u64 = 0x80000000 / 0x200000;
        let mut i: u64 = 0;
        while i < loops
            invariant
                loops == 1024,
                i <= 1024,
                *self == *old(self),
                mem.wf(),
                allocator.wf(),
                allocator.base_address() == old(allocator).base_address(),
                paging_consistent(mem@, *allocator),
                tables_layered(mem@, self.cr3),
                fresh == general_unmapped(old(mem)@, old(self).cr3),
                fresh,
                fresh ==> forall|k: int| i <= k < 1024 ==> !#[trigger] large_mapped(mem@, self.cr3, (k * 0x200000) as u64),
                fresh ==> forall|k: int| 0 <= k < i ==> #[trigger] general_page_mapped(mem@, self.cr3, k),
            decreases 1024 - i,
        {
            let v = i * 0x200000;
            let ghost before = mem@;
            proof {
                lemma_general_page(i as int);
                lemma_pat_bits(0);
                assert(!large_mapped(mem@, self.cr3, v));
            }
            match self.page_2_mb(mem, v, v, PAGER_PRESENT | PAGER_RW, allocator) {
                Ok(_) => {},
                Err(e) => {
                    proof {
                        assert(general_page_refused(mem@, *allocator, self.cr3, i as int, e));
                    }
                    return Some(e);
                },
            }
            proof {
                if fresh {
                    assert(!large_mapped(before, self.cr3, v));
                    assert forall|k: int| i < k < 1024 implies !#[trigger] large_mapped(mem@, self.cr3, (k * 0x200000) as u64) by {
                        lemma_general_slots(k, i as int);
                        assert(mapping_kept(before, mem@, self.cr3, (k * 0x200000) as u64));
                    }
                    assert((PAGER_PRESENT | PAGER_RW) as u64 == 3u64);
                    assert forall|k: int| 0 <= k < i + 1 implies #[trigger] general_page_mapped(mem@, self.cr3, k) by {
                        lemma_general_page(k);
                        if k < i {
                            assert(general_page_mapped(before, self.cr3, k));
                            lemma_general_slots(k, i as int);
                            assert(mapping_kept(before, mem@, self.cr3, (k * 0x200000) as u64));
                        }
                        lemma_large_mapped_physical(mem@, self.cr3, (k * 0x200000) as u64);
                    }
                }
            }
            i = i + 1;
        }
        None
    }
}

/// 4 KiB pages that cover the block, the last one maybe in part.
pub open spec fn pages_4k_of(mb: MemoryBlock) -> int {
    (mb.length + 0xFFF) / 0x1000
}

/// 4 KiB pages from the block's base to the next 2 MiB boundary.
pub open spec fn pages_to_boundary(mb: MemoryBlock) -> int {
    512 - (mb.base % 0x200000) / 0x1000
}

/// 2 MiB pages that mapping the block efficiently uses.
pub open spec fn huge_pages_of(mb: MemoryBlock) -> int {
    if pages_to_boundary(mb) > pages_4k_of(mb) {
        0
    } else {
        (pages_4k_of(mb) - pages_to_boundary(mb)) / 512
    }
}

/// Virtual address of the `i`th 2 MiB page of the efficient mapping of
/// the block at `vaddr`.
pub open spec fn huge_vaddr(mb: MemoryBlock, vaddr: u64, i: int) -> u64 {
    (vaddr + pages_to_boundary(mb) * 0x1000 + i * 0x200000) as u64
}

/// Physical address of the `i`th 2 MiB page of the efficient mapping.
pub open spec fn huge_paddr(mb: MemoryBlock, i: int) -> u64 {
    (mb.base + pages_to_boundary(mb) * 0x1000 + i * 0x200000) as u64
}

/// Page `k` of the block lies in the part that 2 MiB pages map.
pub open spec fn in_huge_part(mb: MemoryBlock, k: int) -> bool {
    pages_to_boundary(mb) <= k < pages_to_boundary(mb) + 512 * huge_pages_of(mb)
}

/// The `i`th 2 MiB page of the efficient mapping of the block at `vaddr` is
/// a 2 MiB entry for its physical 2 MiB page.
pub open spec fn huge_page_mapped(m: Map<u64, Seq<u64>>, cr3: u64, mb: MemoryBlock, vaddr: u64, i: int) -> bool {
    &&& large_mapped(m, cr3, huge_vaddr(mb, vaddr, i))
    &&& addr_of(slot_entry(m, cr3, huge_vaddr(mb, vaddr, i))) == huge_paddr(mb, i)
}

/// The block and `vaddr` are page-aligned, lie at the same offset in a
/// 2 MiB page, and the block spans less than 128 TiB.
pub open spec fn efficient_layout(mb: MemoryBlock, vaddr: u64) -> bool {
    &&& vaddr & 0xFFFu64 == 0
    &&& mb.base & 0xFFFu64 == 0
    &&& vaddr % 0x200000 == mb.base % 0x200000
    &&& mb.length <= 0x7FFF_0000_0000
}

/// Addresses in different 2 MiB pages less than 128 TiB apart lie in
/// different slots.
proof fn lemma_slots_differ(x: u64, y: u64)
    by (bit_vector)
    requires
        x / 0x200000u64 < y / 0x200000u64,
        y - x < 0x8000_0000_0000u64,
    ensures
        !(index_of(x, 1) == index_of(y, 1) && index_of(x, 2) == index_of(y, 2) && index_of(x, 3) == index_of(y, 3)),
{
}

/// With the layout of `efficient_layout`, the first 2 MiB page of the block
/// starts on a 2 MiB boundary, at `vaddr` as in physical memory.
proof fn lemma_boundary_aligned(mb: MemoryBlock, vaddr: u64)
    requires
        efficient_layout(mb, vaddr),
    ensures
        (vaddr + pages_to_boundary(mb) * 0x1000) % 0x200000 == 0,
        (mb.base + pages_to_boundary(mb) * 0x1000) % 0x200000 == 0,
        1 <= pages_to_boundary(mb) <= 512,
{
    lemma_aligned_low_bits(vaddr);
    lemma_aligned_low_bits(mb.base);
    let r = mb.base % 0x200000;
    assert(r % 0x1000 == 0 && 0 <= r < 0x200000) by (nonlinear_arith)
        requires
            mb.base % 0x1000 == 0,
            r == mb.base % 0x200000,
    ;
    assert(pages_to_boundary(mb) * 0x1000 == 0x200000 - r) by (nonlinear_arith)
        requires
            r % 0x1000 == 0,
            0 <= r < 0x200000,
            pages_to_boundary(mb) == 512 - r / 0x1000,
    ;
    assert((vaddr + 0x200000 - r) % 0x200000 == 0 && (mb.base + 0x200000 - r) % 0x200000 == 0) by (nonlinear_arith)
        requires
            r == mb.base % 0x200000,
            vaddr % 0x200000 == r,
    ;
    assert(1 <= pages_to_boundary(mb) <= 512) by (nonlinear_arith)
        requires
            0 <= r < 0x200000,
            pages_to_boundary(mb) == 512 - r / 0x1000,
    ;
}

/// Division by a positive `m` keeps a strict order up to a multiple of `m`,
/// and a multiple of `m` plus `i` times `m` divides to `i` more.
proof fn lemma_div_facts(x: int, y: int, m: int, i: int)
    requires
        m > 0,
        0 <= x < y,
        y % m == 0,
        i >= 0,
    ensures
        x / m < y / m,
        (y + i * m) / m == y / m + i,
{
    assert(x / m < y / m) by (nonlinear_arith)
        requires
            m > 0,
            0 <= x < y,
            y % m == 0,
    ;
    assert((y + i * m) / m == y / m + i) by (nonlinear_arith)
        requires
            m > 0,
            y % m == 0,
            i >= 0,
            y >= 0,
    ;
}

/// A mapped page of a run that starts `d` pages into a longer run is page
/// `k + d` of the longer run.
proof fn lemma_mapped_shift(m: Map<u64, Seq<u64>>, cr3: u64, vaddr: u64, base: u64, flags: u16, d: int, k: int)
    requires
        0 <= d,
        0 <= k,
        vaddr + (d + k) * 0x1000 <= u64::MAX,
        base + (d + k) * 0x1000 <= u64::MAX,
        run_page_mapped(m, cr3, (vaddr + d * 0x1000) as u64, (base + d * 0x1000) as u64, flags, k),
    ensures
        run_page_mapped(m, cr3, vaddr, base, flags, d + k),
{
    assert(d * 0x1000 + k * 0x1000 == (d + k) * 0x1000) by (nonlinear_arith);
    assert(0 <= d * 0x1000 && 0 <= k * 0x1000) by (nonlinear_arith)
        requires
            0 <= d,
            0 <= k,
    ;
}

/// The `i`th 2 MiB page of the efficient mapping of the block at `vaddr`
/// failed with `e`.
pub open spec fn huge_page_refused(
    m: Map<u64, Seq<u64>>,
    al: Allocator,
    cr3: u64,
    mb: MemoryBlock,
    vaddr: u64,
    flags: u16,
    i: int,
    e: MemoryResult,
) -> bool {
    map_2mb_refused(
        m,
        al,
        cr3,
        huge_vaddr(mb, vaddr, i),
        (mb.base + pages_to_boundary(mb) * 0x1000 + i * 0x200000) as u64,
        flags,
        e,
    )
}

/// A failure of page `k` of a run that starts `d` pages into a longer run is
/// a failure of page `k + d` of the longer run.
proof fn lemma_run_shift(
    m: Map<u64, Seq<u64>>,
    al: Allocator,
    cr3: u64,
    vaddr: u64,
    base: u64,
    flags: u16,
    d: int,
    k: int,
    e: MemoryResult,
)
    requires
        0 <= d,
        0 <= k,
        vaddr + (d + k) * 0x1000 <= u64::MAX,
        base + (d + k) * 0x1000 <= u64::MAX,
        run_page_refused(
            m,
            al,
            cr3,
            (vaddr + d * 0x1000) as u64,
            (base + d * 0x1000) as u64,
            flags,
            k,
            e,
        ),
    ensures
        run_page_refused(m, al, cr3, vaddr, base, flags, d + k, e),
{
    assert(d * 0x1000 + k * 0x1000 == (d + k) * 0x1000) by (nonlinear_arith);
    assert(0 <= d * 0x1000 && 0 <= k * 0x1000) by (nonlinear_arith)
        requires
            0 <= d,
            0 <= k,
    ;
}

impl MemoryBlock {
    /// Maps the block at `vaddr` with `flags` with as few entries as it
    /// can: 4 KiB pages up to the next 2 MiB boundary of the block, then
    /// 2 MiB pages, then 4 KiB pages for the rest; a block that ends before
    /// that boundary takes 4 KiB pages only. Stops at the first page that
    /// fails. The 2 MiB pages must lie in distinct slots not mapped by
    /// 2 MiB pages yet.
    pub fn map_efficient(
        &self,
        mem: &mut PageTableMemory,
        physical_allocator: &mut Allocator,
        pager: &mut Pager,
        vaddr: u64,
        flags: u16,
    ) -> (r: Option<MemoryResult>)
        requires
            old(mem).wf(),
            old(physical_allocator).wf(),
            paging_consistent(old(mem)@, *old(physical_allocator)),
            tables_layered(old(mem)@, old(pager).cr3),
            vaddr + self.length + 0x200000 <= u64::MAX,
            self.base + self.length + 0x200000 <= u64::MAX,
            forall|i: int|
                0 <= i < huge_pages_of(*self) ==> !#[trigger] large_mapped(old(mem)@, old(pager).cr3, huge_vaddr(*self, vaddr, i)),
            forall|i: int, j: int|
                0 <= i < huge_pages_of(*self) && 0 <= j < huge_pages_of(*self) && i != j ==> !same_slot(
                    #[trigger] huge_vaddr(*self, vaddr, i),
                    address_of(#[trigger] huge_vaddr(*self, vaddr, j)),
                ),
        ensures
            *final(pager) == *old(pager),
            final(mem).wf(),
            final(physical_allocator).wf(),
            final(physical_allocator).base_address() == old(physical_allocator).base_address(),
            paging_consistent(final(mem)@, *final(physical_allocator)),
            tables_layered(final(mem)@, old(pager).cr3),
            self.length == 0 ==> r is None,
            r matches Some(e) ==> (exists|k: int|
                0 <= k < pages_4k_of(*self) && #[trigger] run_page_refused(
                    final(mem)@,
                    *final(physical_allocator),
                    old(pager).cr3,
                    vaddr,
                    self.base,
                    flags,
                    k,
                    e,
                )) || (exists|i: int|
                0 <= i < huge_pages_of(*self) && #[trigger] huge_page_refused(
                    final(mem)@,
                    *final(physical_allocator),
                    old(pager).cr3,
                    *self,
                    vaddr,
                    flags,
                    i,
                    e,
                )),
            r is None && efficient_layout(*self, vaddr) ==> forall|k: int|
                0 <= k < pages_4k_of(*self) && !in_huge_part(*self, k) ==> #[trigger] run_page_mapped(
                    final(mem)@,
                    old(pager).cr3,
                    vaddr,
                    self.base,
                    flags,
                    k,
                ),
            r is None && efficient_layout(*self, vaddr) ==> forall|i: int|
                0 <= i < huge_pages_of(*self) ==> #[trigger] huge_page_mapped(
                    final(mem)@,
                    old(pager).cr3,
                    *self,
                    vaddr,
                    i,
                ),
    {
        let ghost lay = efficient_layout(*self, vaddr);
        let offset_into_huge_page = (self.base % 0x200000) / 0x1000;
        let pages_required = 512 - offset_into_huge_page;
        let mut pages_4k = self.length / 0x1000;
        if self.length % 0x1000 != 0 {
            pages_4k = pages_4k + 1;
        }
        proof {
            assert(pages_4k * 0x1000 <= self.length + 0xFFF) by (nonlinear_arith)
                requires
                    pages_4k == self.length / 0x1000 + (if self.length % 0x1000 != 0 { 1int } else { 0int }),
            ;
            assert(pages_4k == pages_4k_of(*self));
        }
        proof {
            if lay {
                assert(pages_4k <= 0x10_0000_0000) by (nonlinear_arith)
                    requires
                        pages_4k * 0x1000 <= self.length + 0xFFF,
                        self.length <= 0x7FFF_0000_0000,
                ;
                lemma_boundary_aligned(*self, vaddr);
            }
        }
        if pages_required > pages_4k {
            let r = map_pages(pager, mem, physical_allocator, vaddr, self.base, pages_4k, flags);
            proof {
                assert(huge_pages_of(*self) == 0);
            }
            return r;
        }
        match map_pages(pager, mem, physical_allocator, vaddr, self.base, pages_required, flags) {
            Some(e) => {
                return Some(e);
            },
            None => {},
        }
        let pages_2mib = (pages_4k - pages_required) / 512;
        let head = pages_required * 0x1000;
        proof {
            assert(pages_2mib * 512 + pages_required <= pages_4k) by (nonlinear_arith)
                requires
                    pages_2mib == (pages_4k - pages_required) / 512,
                    pages_required <= pages_4k,
            ;
            assert(pages_2mib == huge_pages_of(*self));
        }
        let mut i: u64 = 0;
        while i < pages_2mib
            invariant
                i <= pages_2mib,
                pages_2mib == huge_pages_of(*self),
                head == pages_to_boundary(*self) * 0x1000,
                pages_2mib * 512 + pages_required <= pages_4k,
                pages_4k * 0x1000 <= self.length + 0xFFF,
                pages_required == pages_to_boundary(*self),
                vaddr + self.length + 0x200000 <= u64::MAX,
                self.base + self.length + 0x200000 <= u64::MAX,
                *pager == *old(pager),
                mem.wf(),
                physical_allocator.wf(),
                physical_allocator.base_address() == old(physical_allocator).base_address(),
                paging_consistent(mem@, *physical_allocator),
                tables_layered(mem@, pager.cr3),
                forall|k: int|
                    i <= k < pages_2mib ==> !#[trigger] large_mapped(mem@, pager.cr3, huge_vaddr(*self, vaddr, k)),
                forall|k: int, j: int|
                    0 <= k < huge_pages_of(*self) && 0 <= j < huge_pages_of(*self) && k != j ==> !same_slot(
                        #[trigger] huge_vaddr(*self, vaddr, k),
                        address_of(#[trigger] huge_vaddr(*self, vaddr, j)),
                    ),
                lay == efficient_layout(*self, vaddr),
                pages_4k == pages_4k_of(*self),
                lay ==> pages_4k <= 0x10_0000_0000 && (vaddr + head) % 0x200000 == 0 && vaddr & 0xFFFu64 == 0,
                lay ==> self.length <= 0x7FFF_0000_0000,
                lay ==> forall|k: int|
                    0 <= k < pages_required ==> #[trigger] run_page_mapped(mem@, pager.cr3, vaddr, self.base, flags, k),
                lay ==> forall|j: int| 0 <= j < i ==> #[trigger] huge_page_mapped(mem@, pager.cr3, *self, vaddr, j),
            decreases pages_2mib - i,
        {
            proof {
                assert(head + i * 0x200000 + 0x200000 <= pages_4k * 0x1000 + 0x1000) by (nonlinear_arith)
                    requires
                        i < pages_2mib,
                        pages_2mib * 512 + pages_required <= pages_4k,
                        head == pages_required * 0x1000,
                ;
            }
            let v = vaddr + head + i * 0x200000;
            let p = self.base + head + i * 0x200000;
            let ghost before = mem@;
            proof {
                assert(v == huge_vaddr(*self, vaddr, i as int));
                assert(!large_mapped(mem@, pager.cr3, v));
            }
            match pager.page_2_mb(mem, v, p, flags, physical_allocator) {
                Ok(_) => {},
                Err(e) => {
                    proof {
                        assert(huge_page_refused(mem@, *physical_allocator, pager.cr3, *self, vaddr, flags, i as int, e));
                    }
                    return Some(e);
                },
            }
            proof {
                assert forall|k: int| i < k < pages_2mib implies !#[trigger] large_mapped(mem@, pager.cr3, huge_vaddr(*self, vaddr, k)) by {
                    assert(!same_slot(huge_vaddr(*self, vaddr, k), address_of(huge_vaddr(*self, vaddr, i as int))));
                    assert(mapping_kept(before, mem@, pager.cr3, huge_vaddr(*self, vaddr, k)));
                }
                if lay {
                    assert(p == huge_paddr(*self, i as int));
                    assert(huge_page_mapped(mem@, pager.cr3, *self, vaddr, i as int));
                    assert forall|j: int| 0 <= j < i + 1 implies #[trigger] huge_page_mapped(mem@, pager.cr3, *self, vaddr, j) by {
                        if j < i {
                            assert(huge_page_mapped(before, pager.cr3, *self, vaddr, j));
                            assert(!same_slot(huge_vaddr(*self, vaddr, j), address_of(huge_vaddr(*self, vaddr, i as int))));
                            assert(mapping_kept(before, mem@, pager.cr3, huge_vaddr(*self, vaddr, j)));
                        }
                    }
                    let bnd = (vaddr + head) as int;
                    assert(bnd > 0);
                    assert forall|k: int| 0 <= k < pages_required implies #[trigger] run_page_mapped(
                        mem@,
                        pager.cr3,
                        vaddr,
                        self.base,
                        flags,
                        k,
                    ) by {
                        let w = (vaddr + k * 0x1000) as u64;
                        assert(run_page_mapped(before, pager.cr3, vaddr, self.base, flags, k));
                        assert(k * 0x1000 < head) by (nonlinear_arith)
                            requires
                                k < pages_required,
                                head == pages_required * 0x1000,
                        ;
                        assert(0 <= k * 0x1000) by (nonlinear_arith)
                            requires
                                0 <= k,
                        ;
                        lemma_div_facts(w as int, bnd, 0x200000, i as int);
                        assert(v - w < 0x8000_0000_0000) by (nonlinear_arith)
                            requires
                                v == vaddr + head + i * 0x200000,
                                w == vaddr + k * 0x1000,
                                0 <= k * 0x1000,
                                head + i * 0x200000 + 0x200000 <= pages_4k * 0x1000 + 0x1000,
                                pages_4k <= 0x10_0000_0000,
                                pages_4k * 0x1000 <= self.length + 0xFFF,
                                self.length <= 0x7FFF_0000_0000,
                        ;
                        lemma_slots_differ(w, v);
                        assert(!same_slot(w, address_of(v)));
                        assert(leaf_kept(before, mem@, pager.cr3, w));
                        lemma_leaf_kept_physical(before, mem@, pager.cr3, w);
                    }
                }
            }
            i = i + 1;
        }
        let done = head + pages_2mib * 0x200000;
        let rem = pages_4k - (pages_required + pages_2mib * 512);
        proof {
            assert(done + rem * 0x1000 <= pages_4k * 0x1000) by (nonlinear_arith)
                requires
                    done == pages_required * 0x1000 + pages_2mib * 0x200000,
                    rem == pages_4k - (pages_required + pages_2mib * 512),
                    pages_2mib * 512 + pages_required <= pages_4k,
            ;
        }
        let ghost mt = mem@;
        let r = map_pages(pager, mem, physical_allocator, vaddr + done, self.base + done, rem, flags);
        proof {
            let d = pages_required + pages_2mib * 512;
            assert(done == d * 0x1000) by (nonlinear_arith)
                requires
                    done == head + pages_2mib * 0x200000,
                    head == pages_required * 0x1000,
                    d == pages_required + pages_2mib * 512,
            ;
            if lay && r is None {
                let bnd = (vaddr + head) as int;
                let tb = (vaddr + done) as u64;
                lemma_div_facts(0, bnd, 0x200000, pages_2mib as int);
                assert(tb == bnd + pages_2mib * 0x200000);
                assert(rem <= 0x10_0000_0000);
                lemma_aligned_low_bits(vaddr);
                assert(tb % 0x1000 == 0) by (nonlinear_arith)
                    requires
                        tb == vaddr + d * 0x1000,
                        vaddr % 0x1000 == 0,
                ;
                assert forall|k: int| 0 <= k < pages_4k && !in_huge_part(*self, k) implies #[trigger] run_page_mapped(
                    mem@,
                    pager.cr3,
                    vaddr,
                    self.base,
                    flags,
                    k,
                ) by {
                    if k < pages_required {
                        let w = (vaddr + k * 0x1000) as u64;
                        assert(run_page_mapped(mt, pager.cr3, vaddr, self.base, flags, k));
                        assert(0 <= k * 0x1000 && k * 0x1000 < head) by (nonlinear_arith)
                            requires
                                0 <= k < pages_required,
                                head == pages_required * 0x1000,
                        ;
                        assert(w % 0x1000 == 0) by (nonlinear_arith)
                            requires
                                w == vaddr + k * 0x1000,
                                vaddr % 0x1000 == 0,
                        ;
                        lemma_aligned_low_bits(w);
                        assert forall|k2: int| 0 <= k2 < rem implies address_of(w) != #[trigger] address_of(
                            (tb + k2 * 0x1000) as u64,
                        ) by {
                            let q = (tb + k2 * 0x1000) as u64;
                            assert(0 <= k2 * 0x1000 && k2 * 0x1000 < rem * 0x1000) by (nonlinear_arith)
                                requires
                                    0 <= k2 < rem,
                            ;
                            assert(q % 0x1000 == 0) by (nonlinear_arith)
                                requires
                                    q == tb + k2 * 0x1000,
                                    tb % 0x1000 == 0,
                            ;
                            lemma_aligned_low_bits(q);
                            assert(q - w < 0x1_0000_0000_0000) by (nonlinear_arith)
                                requires
                                    q == vaddr + d * 0x1000 + k2 * 0x1000,
                                    w == vaddr + k * 0x1000,
                                    0 <= k * 0x1000,
                                    k2 * 0x1000 < rem * 0x1000,
                                    d + rem == pages_4k,
                                    pages_4k <= 0x10_0000_0000,
                            ;
                            lemma_indices_differ(w, q);
                        }
                        assert(outside_run(w, tb, rem as int));
                        assert(leaf_kept(mt, mem@, pager.cr3, w));
                        lemma_leaf_kept_physical(mt, mem@, pager.cr3, w);
                    } else {
                        let k2 = k - d;
                        assert(0 <= k2 < rem);
                        assert(run_page_mapped(mem@, pager.cr3, tb, (self.base + done) as u64, flags, k2));
                        lemma_mapped_shift(mem@, pager.cr3, vaddr, self.base, flags, d as int, k2);
                    }
                }
                assert forall|j: int| 0 <= j < huge_pages_of(*self) implies #[trigger] huge_page_mapped(
                    mem@,
                    pager.cr3,
                    *self,
                    vaddr,
                    j,
                ) by {
                    let v = huge_vaddr(*self, vaddr, j);
                    assert(huge_page_mapped(mt, pager.cr3, *self, vaddr, j));
                    lemma_div_facts(0, bnd, 0x200000, j);
                    assert(v == bnd + j * 0x200000);
                    assert forall|k2: int| 0 <= k2 < rem implies !same_slot(v, #[trigger] address_of((tb + k2 * 0x1000) as u64)) by {
                        let q = (tb + k2 * 0x1000) as u64;
                        assert(0 <= k2 * 0x1000 && k2 * 0x1000 < rem * 0x1000) by (nonlinear_arith)
                            requires
                                0 <= k2 < rem,
                        ;
                        assert(tb / 0x200000 <= q / 0x200000) by (nonlinear_arith)
                            requires
                                tb <= q,
                        ;
                        assert(q - v < 0x8000_0000_0000) by (nonlinear_arith)
                            requires
                                q == tb + k2 * 0x1000,
                                v == bnd + j * 0x200000,
                                tb == bnd + pages_2mib * 0x200000,
                                0 <= j,
                                k2 * 0x1000 < rem * 0x1000,
                                d + rem == pages_4k,
                                done == d * 0x1000,
                                tb == vaddr + done,
                                bnd >= vaddr,
                                pages_4k * 0x1000 <= self.length + 0xFFF,
                                self.length <= 0x7FFF_0000_0000,
                        ;
                        lemma_slots_differ(v, q);
                    }
                    assert(outside_run_slots(v, tb, rem as int));
                    assert(mapping_kept(mt, mem@, pager.cr3, v));
                }
            }
            if let Some(e) = r {
                let k = choose|k: int|
                    0 <= k < rem && #[trigger] run_page_refused(
                        mem@,
                        *physical_allocator,
                        pager.cr3,
                        (vaddr + done) as u64,
                        (self.base + done) as u64,
                        flags,
                        k,
                        e,
                    );
                assert((d + k) * 0x1000 <= pages_4k * 0x1000) by (nonlinear_arith)
                    requires
                        d + rem == pages_4k,
                        0 <= k < rem,
                ;
                lemma_run_shift(mem@, *physical_allocator, pager.cr3, vaddr, self.base, flags, d as int, k, e);
                assert(run_page_refused(mem@, *physical_allocator, pager.cr3, vaddr, self.base, flags, d + k, e));
            }
        }
        r
    }
}

/// Page `k` of section `i` of the kernel image has the table indices of a
/// page of a section after it, before `upto`, that was given memory: that
/// later section's mapping replaces it.
pub open spec fn section_page_shadowed(allocs: Seq<ImageAllocation>, i: int, k: int, upto: int) -> bool {
    exists|j: int, k2: int|
        #![trigger allocs[j], address_of((allocs[j].phdr + k2 * 0x1000) as u64)]
        i < j < upto && allocs[j].allocated != 0 && 0 <= k2 < allocs[j].size / 0x1000 && address_of(
            (allocs[i].phdr + k * 0x1000) as u64,
        ) == address_of((allocs[j].phdr + k2 * 0x1000) as u64)
}

/// Every page of every section before `upto` that was given memory, and
/// that no later section before `upto` replaces, is mapped at its program
/// header address.
pub open spec fn sections_mapped(m: Map<u64, Seq<u64>>, cr3: u64, allocs: Seq<ImageAllocation>, upto: int) -> bool {
    forall|i: int, k: int|
        0 <= i < upto && allocs[i].allocated != 0 && 0 <= k < allocs[i].size / 0x1000 && allocs[i].size
            / 0x1000 <= 0x10_0000_0000 && !section_page_shadowed(allocs, i, k, upto) ==> #[trigger] run_page_mapped(
            m,
            cr3,
            allocs[i].phdr,
            allocs[i].allocated,
            PAGER_RW | PAGER_PRESENT,
            k,
        )
}

impl Pager {
    /// Maps the 32 pages of a stack one to one, present and writable; stops
    /// at the first page that fails.
    pub fn page_stack(&mut self, mem: &mut PageTableMemory, allocator: &mut Allocator, stack: u64) -> (r: Option<MemoryResult>)
        requires
            old(mem).wf(),
            old(allocator).wf(),
            paging_consistent(old(mem)@, *old(allocator)),
            tables_layered(old(mem)@, old(self).cr3),
            stack + 32 * 0x1000 <= u64::MAX,
        ensures
            *final(self) == *old(self),
            final(mem).wf(),
            final(allocator).wf(),
            final(allocator).base_address() == old(allocator).base_address(),
            paging_consistent(final(mem)@, *final(allocator)),
            tables_layered(final(mem)@, old(self).cr3),
            r matches Some(e) ==> map_error(e),
            stack & 0xFFF != 0 ==> r == Some(MemoryResult::InvalidAddress),
            r matches Some(e) ==> exists|k: int|
                0 <= k < 32 && #[trigger] run_page_refused(
                    final(mem)@,
                    *final(allocator),
                    old(self).cr3,
                    stack,
                    stack,
                    PAGER_RW | PAGER_PRESENT,
                    k,
                    e,
                ),
            r is None ==> forall|k: int|
                0 <= k < 32 ==> #[trigger] run_page_mapped(
                    final(mem)@,
                    old(self).cr3,
                    stack,
                    stack,
                    PAGER_RW | PAGER_PRESENT,
                    k,
                ),
    {
        map_pages(self, mem, allocator, stack, stack, 32, PAGER_RW | PAGER_PRESENT)
    }

    /// Maps the framebuffer one to one, present, writable and with the
    /// page-attribute flag; stops at the first page that fails.
    pub fn page_framebuffer(
        &mut self,
        mem: &mut PageTableMemory,
        allocator: &mut Allocator,
        framebuffer: &GopFramebuffer,
    ) -> (r: Option<MemoryResult>)
        requires
            old(mem).wf(),
            old(allocator).wf(),
            paging_consistent(old(mem)@, *old(allocator)),
            tables_layered(old(mem)@, old(self).cr3),
            framebuffer.base + framebuffer.framebuffer_size <= u64::MAX,
        ensures
            *final(self) == *old(self),
            final(mem).wf(),
            final(allocator).wf(),
            final(allocator).base_address() == old(allocator).base_address(),
            paging_consistent(final(mem)@, *final(allocator)),
            tables_layered(final(mem)@, old(self).cr3),
            r matches Some(e) ==> map_error(e),
            framebuffer.framebuffer_size < 0x1000 ==> r is None,
            r matches Some(e) ==> exists|k: int|
                0 <= k < framebuffer.framebuffer_size / 0x1000 && #[trigger] run_page_refused(
                    final(mem)@,
                    *final(allocator),
                    old(self).cr3,
                    framebuffer.base,
                    framebuffer.base,
                    PAGER_PRESENT | PAGER_RW | PAGER_PAT,
                    k,
                    e,
                ),
            r is None && framebuffer.framebuffer_size / 0x1000 <= 0x10_0000_0000 ==> forall|k: int|
                0 <= k < framebuffer.framebuffer_size / 0x1000 ==> #[trigger] run_page_mapped(
                    final(mem)@,
                    old(self).cr3,
                    framebuffer.base,
                    framebuffer.base,
                    PAGER_PRESENT | PAGER_RW | PAGER_PAT,
                    k,
                ),
    {
        let base = framebuffer.get_base();
        let pages = (framebuffer.get_size() / 0x1000) as u64;
        proof {
            assert(pages * 0x1000 <= framebuffer.framebuffer_size) by (nonlinear_arith)
                requires
                    pages == framebuffer.framebuffer_size / 0x1000,
            ;
        }
        map_pages(self, mem, allocator, base, base, pages, PAGER_PRESENT | PAGER_RW | PAGER_PAT)
    }

    /// Maps each section of the kernel image that was given memory at the
    /// address its program header names, present and writable; stops at the
    /// first section that fails.
    pub fn page_kernel(
        &mut self,
        mem: &mut PageTableMemory,
        allocator: &mut Allocator,
        image_allocations: &Vec<ImageAllocation>,
    ) -> (r: Option<MemoryResult>)
        requires
            old(mem).wf(),
            old(allocator).wf(),
            paging_consistent(old(mem)@, *old(allocator)),
            tables_layered(old(mem)@, old(self).cr3),
            forall|i: int|
                0 <= i < image_allocations@.len() ==> (#[trigger] image_allocations@[i]).phdr
                    + image_allocations@[i].size <= u64::MAX && image_allocations@[i].allocated
                    + image_allocations@[i].size <= u64::MAX,
        ensures
            *final(self) == *old(self),
            final(mem).wf(),
            final(allocator).wf(),
            final(allocator).base_address() == old(allocator).base_address(),
            paging_consistent(final(mem)@, *final(allocator)),
            tables_layered(final(mem)@, old(self).cr3),
            r matches Some(e) ==> map_error(e),
            r matches Some(e) ==> exists|i: int, k: int|
                0 <= i < image_allocations@.len() && (#[trigger] image_allocations@[i]).allocated != 0
                    && 0 <= k < image_allocations@[i].size / 0x1000 && #[trigger] run_page_refused(
                    final(mem)@,
                    *final(allocator),
                    old(self).cr3,
                    image_allocations@[i].phdr,
                    image_allocations@[i].allocated,
                    PAGER_RW | PAGER_PRESENT,
                    k,
                    e,
                ),
            r is None ==> sections_mapped(final(mem)@, old(self).cr3, image_allocations@, image_allocations@.len() as int),
    {
        let mut i: usize = 0;
        while i < image_allocations.len()
            invariant
                i <= image_allocations@.len(),
                forall|k: int|
                    0 <= k < image_allocations@.len() ==> (#[trigger] image_allocations@[k]).phdr
                        + image_allocations@[k].size <= u64::MAX && image_allocations@[k].allocated
                        + image_allocations@[k].size <= u64::MAX,
                *self == *old(self),
                mem.wf(),
                allocator.wf(),
                allocator.base_address() == old(allocator).base_address(),
                paging_consistent(mem@, *allocator),
                tables_layered(mem@, self.cr3),
                sections_mapped(mem@, self.cr3, image_allocations@, i as int),
            decreases image_allocations@.len() - i,
        {
            let section = &image_allocations[i];
            let ghost before = mem@;
            let ghost al = image_allocations@;
            if section.allocated != 0 {
                let mb = MemoryBlock::new(section.size, section.allocated);
                match mb.map(mem, allocator, self, section.phdr, PAGER_RW | PAGER_PRESENT) {
                    Some(e) => {
                        return Some(e);
                    },
                    None => {},
                }
            }
            proof {
                assert forall|i2: int, k: int|
                    0 <= i2 < i + 1 && al[i2].allocated != 0 && 0 <= k < al[i2].size / 0x1000 && al[i2].size
                        / 0x1000 <= 0x10_0000_0000 && !section_page_shadowed(al, i2, k, i + 1) implies #[trigger] run_page_mapped(
                    mem@,
                    self.cr3,
                    al[i2].phdr,
                    al[i2].allocated,
                    PAGER_RW | PAGER_PRESENT,
                    k,
                ) by {
                    if i2 < i {
                        if section_page_shadowed(al, i2, k, i as int) {
                            let (j, k2) = choose|j: int, k2: int|
                                #![trigger al[j], address_of((al[j].phdr + k2 * 0x1000) as u64)]
                                i2 < j < i && al[j].allocated != 0 && 0 <= k2 < al[j].size / 0x1000 && address_of(
                                    (al[i2].phdr + k * 0x1000) as u64,
                                ) == address_of((al[j].phdr + k2 * 0x1000) as u64);
                            assert(section_page_shadowed(al, i2, k, i + 1));
                        }
                        assert(run_page_mapped(before, self.cr3, al[i2].phdr, al[i2].allocated, PAGER_RW | PAGER_PRESENT, k));
                        if al[i as int].allocated != 0 {
                            let w = (al[i2].phdr + k * 0x1000) as u64;
                            if !outside_run(w, al[i as int].phdr, (al[i as int].size / 0x1000) as int) {
                                let k2 = choose|k2: int|
                                    0 <= k2 < (al[i as int].size / 0x1000) as int && address_of(w) == #[trigger] address_of(
                                        (al[i as int].phdr + k2 * 0x1000) as u64,
                                    );
                                assert(section_page_shadowed(al, i2, k, i + 1));
                            }
                            assert(leaf_kept(before, mem@, self.cr3, w));
                            lemma_leaf_kept_physical(before, mem@, self.cr3, w);
                        }
                    }
                }
            }
            i = i + 1;
        }
        None
    }
}

} // verus!
