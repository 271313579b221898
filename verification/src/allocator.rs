//! The bitmap page allocator.
//!
//! Every 4 KiB page that an allocator manages owns one bit of its bitmap:
//! page `32 * k + j` is in use when bit `j` of word `k` is set. Pages are
//! handed out relative to the allocator's `addend`, the address of page 0.
use vstd::prelude::*;
use crate::bits::{bit32, lemma_bit32_and, lemma_bit32_const, lemma_bit32_ext, lemma_bit32_not, lemma_bit32_or, lemma_run_mask_bit, low_mask32};
use crate::memory::MemoryResult;

verus! {

pub const EFI_CONVENTIONAL_MEMORY: u32 = 7;

pub const EFI_UNUSABLE_MEMORY: u32 = 8;

/// Highest physical address the kernel allocator manages (32 GiB).
pub const KERNEL_MAXIMUM_ALLOCATABLE_ADDRESS: u64 = 0x8_0000_0000;

pub const KERNEL_MAXIMUM_ALLOCATABLE_PAGES: u32 = 0x80_0000;

pub const KERNEL_ALLOCATED_PAGES_PER_BITMAP_ENTRY: u32 = 0x20;

pub const KERNEL_NEEDED_BITMAP_ENTRIES: u32 = 0x4_0000;

pub const BITMAP_SIZE_IN_BYTES: u32 = 0x10_0000;

pub const BITMAP_SIZE_IN_PAGES: u32 = 0x100;

// ---------------------------------------------------------------------------
// The page view of a bitmap.
/// Page `32 * k + j` is in use.
pub open spec fn page_used(bm: Seq<u32>, k: int, j: int) -> bool {
    bit32(bm[k], j as u32)
}

/// Page `32 * k + j` lies in the run of `n` pages that starts at page `start`.
pub open spec fn in_run(k: int, j: int, start: int, n: int) -> bool {
    start <= 32 * k + j && 32 * k + j < start + n
}

/// Every page of the run that the bitmap covers is free.
pub open spec fn run_free(bm: Seq<u32>, start: int, n: int) -> bool {
    forall|k: int, j: int|
        0 <= k < bm.len() && 0 <= j < 32 && in_run(k, j, start, n) ==> !#[trigger] page_used(
            bm,
            k,
            j,
        )
}

/// Every page of the run that the bitmap covers is in use.
pub open spec fn run_used(bm: Seq<u32>, start: int, n: int) -> bool {
    forall|k: int, j: int|
        0 <= k < bm.len() && 0 <= j < 32 && in_run(k, j, start, n) ==> #[trigger] page_used(
            bm,
            k,
            j,
        )
}

/// `new` is `old` with every covered page of the run set to `v` and every
/// other page unchanged.
pub open spec fn run_marked(old: Seq<u32>, new: Seq<u32>, start: int, n: int, v: bool) -> bool {
    &&& new.len() == old.len()
    &&& forall|k: int, j: int|
        0 <= k < old.len() && 0 <= j < 32 ==> #[trigger] page_used(new, k, j) == if in_run(
            k,
            j,
            start,
            n,
        ) {
            v
        } else {
            page_used(old, k, j)
        }
}

/// Bits `[o, o + n)` of `w` are clear.
pub open spec fn word_run_free(w: u32, o: int, n: int) -> bool {
    forall|j: int| o <= j < o + n ==> !#[trigger] bit32(w, j as u32)
}

/// Bits `[o, o + n)` of `w` are set.
pub open spec fn word_run_used(w: u32, o: int, n: int) -> bool {
    forall|j: int| o <= j < o + n ==> #[trigger] bit32(w, j as u32)
}

/// The lowest offset `>= o` at which `n` clear bits of `w` start.
pub open spec fn first_fit_from(w: u32, n: int, o: int) -> Option<int>
    decreases 33 - o,
{
    if o + n > 32 || o < 0 {
        None
    } else if word_run_free(w, o, n) {
        Some(o)
    } else {
        first_fit_from(w, n, o + 1)
    }
}

/// The first word at index `>= k` that holds `n` clear bits, with the lowest
/// such offset in it.
pub open spec fn first_fit_entry_from(bm: Seq<u32>, n: int, k: int) -> Option<(int, int)>
    decreases bm.len() - k,
{
    if k >= bm.len() || k < 0 {
        None
    } else {
        match first_fit_from(bm[k], n, 0) {
            Some(o) => Some((k, o)),
            None => first_fit_entry_from(bm, n, k + 1),
        }
    }
}

/// Number of clear bits at the top of `w`, counted from bit `31 - k` down.
pub open spec fn leading_free_from(w: u32, k: int) -> int
    decreases 32 - k,
{
    if k >= 32 || k < 0 {
        32
    } else if bit32(w, (31 - k) as u32) {
        k
    } else {
        leading_free_from(w, k + 1)
    }
}

/// Number of clear bits at the top of `w`.
pub open spec fn leading_free(w: u32) -> int {
    leading_free_from(w, 0)
}

/// First page of the run that a multi-word allocation would use when it
/// starts in word `k`: the clear bits at the top of that word.
pub open spec fn wide_start(bm: Seq<u32>, k: int) -> int {
    32 * k + 32 - leading_free(bm[k])
}

/// A multi-word run of `n` pages can start in word `k`.
pub open spec fn wide_fits(bm: Seq<u32>, k: int, n: int) -> bool {
    &&& !bit32(bm[k], 31)
    &&& wide_start(bm, k) + n <= 32 * bm.len()
    &&& run_free(bm, wide_start(bm, k), n)
}

/// The first word at index `>= k` in which a multi-word run of `n` pages fits.
pub open spec fn first_wide_from(bm: Seq<u32>, n: int, k: int) -> Option<int>
    decreases bm.len() - k,
{
    if k >= bm.len() || k < 0 {
        None
    } else if wide_fits(bm, k, n) {
        Some(k)
    } else {
        first_wide_from(bm, n, k + 1)
    }
}

// ---------------------------------------------------------------------------
// Word-level facts.
/// A masked test of a word decides whether a run of its bits is clear.
pub proof fn lemma_mask_test_free(w: u32, o: u32, n: u32)
    requires
        n + o <= 32,
    ensures
        (w & (low_mask32(n) << o) == 0u32) == word_run_free(w, o as int, n as int),
{
    let m = low_mask32(n) << o;
    if w & m == 0u32 {
        assert forall|j: int| o <= j < o + n implies !#[trigger] bit32(w, j as u32) by {
            lemma_run_mask_bit(n, o, j as u32);
            lemma_bit32_and(w, m, j as u32);
            lemma_bit32_const(j as u32);
        }
    }
    if word_run_free(w, o as int, n as int) {
        assert forall|j: u32| j < 32 implies #[trigger] bit32(w & m, j) == bit32(0u32, j) by {
            lemma_run_mask_bit(n, o, j);
            lemma_bit32_and(w, m, j);
            lemma_bit32_const(j);
            if o <= j && j < o + n {
                assert(!bit32(w, (j as int) as u32));
            }
        }
        lemma_bit32_ext(w & m, 0u32);
    }
}

/// A masked test of a word decides whether a run of its bits is set.
pub proof fn lemma_mask_test_used(w: u32, o: u32, n: u32)
    requires
        n + o <= 32,
    ensures
        (w & (low_mask32(n) << o) == low_mask32(n) << o) == word_run_used(w, o as int, n as int),
{
    let m = low_mask32(n) << o;
    if w & m == m {
        assert forall|j: int| o <= j < o + n implies #[trigger] bit32(w, j as u32) by {
            lemma_run_mask_bit(n, o, j as u32);
            lemma_bit32_and(w, m, j as u32);
        }
    }
    if word_run_used(w, o as int, n as int) {
        assert forall|j: u32| j < 32 implies #[trigger] bit32(w & m, j) == bit32(m, j) by {
            lemma_run_mask_bit(n, o, j);
            lemma_bit32_and(w, m, j);
            if o <= j && j < o + n {
                assert(bit32(w, (j as int) as u32));
            }
        }
        lemma_bit32_ext(w & m, m);
    }
}

/// Or-ing a run mask sets exactly the bits of the run.
pub proof fn lemma_mask_set(w: u32, o: u32, n: u32, j: u32)
    requires
        n + o <= 32,
        j < 32,
    ensures
        bit32(w | (low_mask32(n) << o), j) == (bit32(w, j) || (o <= j && j < o + n)),
{
    lemma_run_mask_bit(n, o, j);
    lemma_bit32_or(w, low_mask32(n) << o, j);
}

/// And-ing the complement of a run mask clears exactly the bits of the run.
pub proof fn lemma_mask_clear(w: u32, o: u32, n: u32, j: u32)
    requires
        n + o <= 32,
        j < 32,
    ensures
        bit32(w & !(low_mask32(n) << o), j) == (bit32(w, j) && !(o <= j && j < o + n)),
{
    lemma_run_mask_bit(n, o, j);
    lemma_bit32_not(low_mask32(n) << o, j);
    lemma_bit32_and(w, !(low_mask32(n) << o), j);
}

/// The first fit, searched from offset `o`, lies at or after `o` and is a fit.
pub proof fn lemma_first_fit_from(w: u32, n: int, o: int)
    ensures
        first_fit_from(w, n, o) matches Some(p) ==> o <= p && p + n <= 32 && word_run_free(w, p, n),
    decreases 33 - o,
{
    if o + n > 32 || o < 0 {
    } else if word_run_free(w, o, n) {
    } else {
        lemma_first_fit_from(w, n, o + 1);
    }
}

/// The first fitting word, searched from `k`, lies at or after `k` and holds a fit.
pub proof fn lemma_first_fit_entry_from(bm: Seq<u32>, n: int, k: int)
    ensures
        first_fit_entry_from(bm, n, k) matches Some((e, p)) ==> k <= e < bm.len()
            && first_fit_from(bm[e], n, 0) == Some(p),
    decreases bm.len() - k,
{
    if k >= bm.len() || k < 0 {
    } else {
        match first_fit_from(bm[k], n, 0) {
            Some(o) => {},
            None => lemma_first_fit_entry_from(bm, n, k + 1),
        }
    }
}

/// The first wide fit, searched from `k`, lies at or after `k` and fits.
pub proof fn lemma_first_wide_from(bm: Seq<u32>, n: int, k: int)
    ensures
        first_wide_from(bm, n, k) matches Some(e) ==> k <= e < bm.len() && wide_fits(bm, e, n),
    decreases bm.len() - k,
{
    if k >= bm.len() || k < 0 {
    } else if wide_fits(bm, k, n) {
    } else {
        lemma_first_wide_from(bm, n, k + 1);
    }
}

/// The clear bits counted at the top of a word are clear, and the bit below them is set.
pub proof fn lemma_leading_free_from(w: u32, k: int)
    requires
        0 <= k <= 32,
        forall|j: int| 32 - k <= j < 32 ==> !#[trigger] bit32(w, j as u32),
    ensures
        k <= leading_free_from(w, k) <= 32,
        forall|j: int| 32 - leading_free_from(w, k) <= j < 32 ==> !#[trigger] bit32(w, j as u32),
        leading_free_from(w, k) < 32 ==> bit32(w, (31 - leading_free_from(w, k)) as u32),
    decreases 32 - k,
{
    if k >= 32 {
    } else if bit32(w, (31 - k) as u32) {
    } else {
        assert forall|j: int| 32 - (k + 1) <= j < 32 implies !#[trigger] bit32(w, j as u32) by {
            if j == 31 - k {
            }
        }
        lemma_leading_free_from(w, k + 1);
    }
}

/// Facts about the clear bits at the top of a word.
pub proof fn lemma_leading_free(w: u32)
    ensures
        0 <= leading_free(w) <= 32,
        forall|j: int| 32 - leading_free(w) <= j < 32 ==> !#[trigger] bit32(w, j as u32),
        leading_free(w) < 32 ==> bit32(w, (31 - leading_free(w)) as u32),
{
    lemma_leading_free_from(w, 0);
}

/// Marking a run as used and then as free again gives back the bitmap that
/// held the run free.
pub proof fn lemma_mark_then_clear(old: Seq<u32>, mid: Seq<u32>, new: Seq<u32>, start: int, n: int)
    requires
        run_free(old, start, n),
        run_marked(old, mid, start, n, true),
        run_marked(mid, new, start, n, false),
    ensures
        new == old,
{
    assert forall|k: int| 0 <= k < old.len() implies #[trigger] new[k] == old[k] by {
        assert forall|j: u32| j < 32 implies #[trigger] bit32(new[k], j) == bit32(old[k], j) by {
            assert(page_used(new, k, j as int) == page_used(old, k, j as int));
        }
        lemma_bit32_ext(new[k], old[k]);
    }
    assert(new =~= old);
}

} // verus!

verus! {

// ---------------------------------------------------------------------------
/// A block of physical or virtual memory: `length` bytes from `base`.
#[derive(Clone, Copy, PartialEq, Eq, Structural, Debug)]
pub struct MemoryBlock {
    pub base: u64,
    pub length: u64,
}

impl MemoryBlock {
    /// The block of no bytes at address 0.
    pub fn empty() -> (r: Self)
        ensures
            r.base == 0 && r.length == 0,
    {
        MemoryBlock { base: 0, length: 0 }
    }

    /// The block of `length` bytes from `base`.
    pub fn new(length: u64, base: u64) -> (r: Self)
        ensures
            r.base == base && r.length == length,
    {
        MemoryBlock { base, length }
    }

    /// First address after the block.
    pub fn end(&self) -> (r: u64)
        requires
            self.base + self.length <= u64::MAX,
        ensures
            r == self.base + self.length,
    {
        self.base + self.length
    }

    pub fn get_base(&self) -> (r: u64)
        ensures
            r == self.base,
    {
        self.base
    }

    pub fn get_length(&self) -> (r: u64)
        ensures
            r == self.length,
    {
        self.length
    }

    /// `other` lies inside this block.
    pub fn within(&self, other: &MemoryBlock) -> (r: bool)
        requires
            self.base + self.length <= u64::MAX,
            other.base + other.length <= u64::MAX,
        ensures
            r == (other.base >= self.base && other.base + other.length <= self.base + self.length),
    {
        other.base >= self.base && other.end() <= self.end()
    }

    /// The part of the block that starts `offset` bytes into it, if the block is that long.
    pub fn offset(&self, offset: u64) -> (r: Option<MemoryBlock>)
        requires
            self.base + self.length <= u64::MAX,
        ensures
            offset > self.length ==> r is None,
            offset <= self.length ==> r == Some(
                MemoryBlock { base: (self.base + offset) as u64, length: (self.length - offset) as u64 },
            ),
    {
        if offset > self.length {
            return None;
        }
        Some(MemoryBlock::new(self.length - offset, self.base + offset))
    }

    /// Address of the block's first byte.
    pub fn as_ptr(&self) -> (r: u64)
        ensures
            r == self.base,
    {
        self.base
    }

    /// Address of the block's first byte, for writing.
    pub fn as_mut_ptr(&self) -> (r: u64)
        ensures
            r == self.base,
    {
        self.base
    }
}

// ---------------------------------------------------------------------------
/// The mask of the `pages` lowest bits.
pub fn make_mask(pages: u16) -> (r: u32)
    requires
        pages <= 32,
    ensures
        r == low_mask32(pages as u32),
{
    let p = pages as u32;
    let mut bit: u64 = 1u64 << p;
    assert(1u64 << p >= 1u64) by (bit_vector)
        requires
            p <= 32,
    ;
    bit = bit - 1;
    bit as u32
}

/// Position of a page in the bitmap: word `offset`, bit `bit_offset`.
pub struct BitmapEntry {
    pub offset: u32,
    pub bit_offset: u8,
}

impl BitmapEntry {
    /// Index of the page that the entry designates.
    pub open spec fn first_page(&self) -> int {
        32 * self.offset + self.bit_offset
    }

    pub fn new(offset: u32, bit_offset: u8) -> (r: BitmapEntry)
        ensures
            r.offset == offset && r.bit_offset == bit_offset,
    {
        BitmapEntry { offset, bit_offset }
    }

    /// The entry of the page that holds `address` (relative to page 0).
    pub fn from_address(address: u64) -> (r: BitmapEntry)
        ensures
            r.offset == ((address / 0x1000) / 32) as u32,
            r.bit_offset == (address / 0x1000) % 32,
            r.bit_offset < 32,
            address < 0x1_0000_0000_0000 ==> r.first_page() == address / 0x1000,
    {
        let page = address / 0x1000;
        let offset = (page / 32) as u32;
        let bit_offset = (page % 32) as u8;
        BitmapEntry::new(offset, bit_offset)
    }

    /// Bits of the word below the entry's bit.
    pub fn get_backbits(&self) -> (r: u32)
        ensures
            r == self.bit_offset,
    {
        self.bit_offset as u32
    }

    /// Bits of the word below the entry's bit, and the entry's bit.
    pub fn get_backbits_ex(&self) -> (r: u32)
        ensures
            r == self.bit_offset + 1,
    {
        self.bit_offset as u32 + 1
    }

    /// Bits of the word above the entry's bit.
    pub fn get_frontbits(&self) -> (r: u32)
        requires
            self.bit_offset < 32,
        ensures
            r == 31 - self.bit_offset,
    {
        31 - self.bit_offset as u32
    }

    /// Bits of the word above the entry's bit, and the entry's bit.
    pub fn get_frontbits_ex(&self) -> (r: u32)
        requires
            self.bit_offset <= 32,
        ensures
            r == 32 - self.bit_offset,
    {
        32 - self.bit_offset as u32
    }
}

} // verus!

verus! {

/// How a run of `pages` pages that starts at bit `bo` of a word splits into
/// the part in that word, whole words after it, and a rest in one more word.
pub open spec fn head_width(bo: int, pages: int) -> int {
    if 32 - bo >= pages {
        pages
    } else {
        32 - bo
    }
}

/// Marking a run in word `off` and the words after it gives exactly the run.
proof fn lemma_marked_words(
    old: Seq<u32>,
    new: Seq<u32>,
    off: int,
    bo: int,
    pages: int,
    v: bool,
)
    requires
        0 <= bo < 32,
        0 <= pages,
        0 <= off,
        new.len() == old.len(),
        forall|k: int, j: int|
            0 <= k < old.len() && 0 <= j < 32 ==> #[trigger] page_used(new, k, j) == if (k == off
                && bo <= j < bo + head_width(bo, pages)) || (off < k <= off + (pages - head_width(
                bo,
                pages,
            )) / 32) || (k == off + 1 + (pages - head_width(bo, pages)) / 32 && j < (pages
                - head_width(bo, pages)) % 32) {
                v
            } else {
                page_used(old, k, j)
            },
    ensures
        run_marked(old, new, 32 * off + bo, pages, v),
{
    let w0 = head_width(bo, pages);
    let full = (pages - w0) / 32;
    let rem = (pages - w0) % 32;
    assert(pages - w0 == 32 * full + rem);
    assert forall|k: int, j: int| 0 <= k < old.len() && 0 <= j < 32 implies #[trigger] page_used(
        new,
        k,
        j,
    ) == if in_run(k, j, 32 * off + bo, pages) {
        v
    } else {
        page_used(old, k, j)
    } by {
        let inside = (k == off && bo <= j < bo + w0) || (off < k <= off + full) || (k == off + 1
            + full && j < rem);
        assert(inside == in_run(k, j, 32 * off + bo, pages));
    }
}

impl BitmapEntry {
    /// Marks the run of `pages` pages that starts at this entry as used.
    /// Words past the end of the bitmap are not touched.
    pub fn set_one(&self, bitmap: &mut Vec<u32>, pages: u32)
        requires
            self.bit_offset < 32,
        ensures
            run_marked(old(bitmap)@, final(bitmap)@, self.first_page(), pages as int, true),
    {
        let ghost old_bm = bitmap@;
        let off = self.offset as usize;
        let bo = self.bit_offset as u32;
        if off >= bitmap.len() {
            proof {
                lemma_marked_words(old_bm, bitmap@, off as int, bo as int, pages as int, true);
            }
            return;
        }
        let front = self.get_frontbits_ex();
        let w0: u32 = if front >= pages {
            pages
        } else {
            front
        };
        let m = make_mask(w0 as u16) << bo;
        let first = bitmap[off] | m;
        bitmap.set(off, first);
        let entries_after = (pages - w0) / 32;
        let rem = (pages - w0) % 32;
        let mut i: u32 = 0;
        while i < entries_after && (i as usize) < bitmap.len() - off - 1
            invariant
                bitmap@.len() == old_bm.len(),
                off < old_bm.len(),
                i <= entries_after,
                forall|k: int|
                    0 <= k < old_bm.len() ==> #[trigger] bitmap@[k] == if k == off {
                        first
                    } else if off < k <= off + i {
                        0xFFFF_FFFFu32
                    } else {
                        old_bm[k]
                    },
            decreases entries_after - i,
        {
            bitmap.set(off + 1 + i as usize, 0xFFFF_FFFF);
            i = i + 1;
        }
        let ghost reached = i;
        let ghost before = bitmap@;
        let wrote_last = rem != 0 && (entries_after as usize) < bitmap.len() - off - 1;
        if wrote_last {
            let last = off + 1 + entries_after as usize;
            let mask = make_mask(rem as u16);
            let lw = bitmap[last] | mask;
            bitmap.set(last, lw);
        }
        proof {
            assert(w0 <= 32);
            assert((w0 as u16) as u32 == w0);
            assert((rem as u16) as u32 == rem);
            assert(m == low_mask32(w0) << bo);
            assert(first == old_bm[off as int] | (low_mask32(w0) << bo));
            assert forall|k: int| 0 <= k < old_bm.len() implies #[trigger] bitmap@[k] == if k == off {
                first
            } else if off < k <= off + reached {
                0xFFFF_FFFFu32
            } else if wrote_last && k == off + 1 + entries_after {
                old_bm[k] | low_mask32(rem)
            } else {
                old_bm[k]
            } by {
                assert(before[k] == if k == off {
                    first
                } else if off < k <= off + reached {
                    0xFFFF_FFFFu32
                } else {
                    old_bm[k]
                });
            }
            assert(reached == entries_after || off + 1 + reached >= old_bm.len());
            assert forall|k: int, j: int| 0 <= k < old_bm.len() && 0 <= j < 32 implies #[trigger] page_used(
                bitmap@,
                k,
                j,
            ) == if (k == off && bo <= j < bo + head_width(bo as int, pages as int)) || (off < k
                <= off + (pages - head_width(bo as int, pages as int)) / 32) || (k == off + 1 + (
            pages - head_width(bo as int, pages as int)) / 32 && j < (pages - head_width(
                bo as int,
                pages as int,
            )) % 32) {
                true
            } else {
                page_used(old_bm, k, j)
            } by {
                assert(w0 == head_width(bo as int, pages as int));
                assert(entries_after == (pages - w0) / 32);
                assert(rem == (pages - w0) % 32);
                if k == off {
                    lemma_mask_set(old_bm[k], bo, w0, j as u32);
                } else if off < k <= off + entries_after {
                    assert(k <= off + reached);
                    lemma_bit32_const(j as u32);
                } else if k == off + 1 + entries_after && rem != 0 {
                    assert(wrote_last);
                    lemma_mask_set(old_bm[k], 0, rem, j as u32);
                    assert(low_mask32(rem) << 0u32 == low_mask32(rem)) by (bit_vector);
                }
            }
            lemma_marked_words(old_bm, bitmap@, off as int, bo as int, pages as int, true);
        }
    }
}

impl BitmapEntry {
    /// Marks the run of `pages` pages that starts at this entry as free.
    /// Words past the end of the bitmap are not touched.
    pub fn set_zero(&self, bitmap: &mut Vec<u32>, pages: u32)
        requires
            self.bit_offset < 32,
        ensures
            run_marked(old(bitmap)@, final(bitmap)@, self.first_page(), pages as int, false),
    {
        let ghost old_bm = bitmap@;
        let off = self.offset as usize;
        let bo = self.bit_offset as u32;
        if off >= bitmap.len() {
            proof {
                lemma_marked_words(old_bm, bitmap@, off as int, bo as int, pages as int, false);
            }
            return;
        }
        let front = self.get_frontbits_ex();
        let w0: u32 = if front >= pages {
            pages
        } else {
            front
        };
        let m = make_mask(w0 as u16) << bo;
        let first = bitmap[off] & !m;
        bitmap.set(off, first);
        let entries_after = (pages - w0) / 32;
        let rem = (pages - w0) % 32;
        let mut i: u32 = 0;
        while i < entries_after && (i as usize) < bitmap.len() - off - 1
            invariant
                bitmap@.len() == old_bm.len(),
                off < old_bm.len(),
                i <= entries_after,
                forall|k: int|
                    0 <= k < old_bm.len() ==> #[trigger] bitmap@[k] == if k == off {
                        first
                    } else if off < k <= off + i {
                        0u32
                    } else {
                        old_bm[k]
                    },
            decreases entries_after - i,
        {
            bitmap.set(off + 1 + i as usize, 0);
            i = i + 1;
        }
        let ghost reached = i;
        let ghost before = bitmap@;
        let wrote_last = rem != 0 && (entries_after as usize) < bitmap.len() - off - 1;
        if wrote_last {
            let last = off + 1 + entries_after as usize;
            let mask = make_mask(rem as u16);
            let lw = bitmap[last] & !mask;
            bitmap.set(last, lw);
        }
        proof {
            assert(w0 <= 32);
            assert((w0 as u16) as u32 == w0);
            assert((rem as u16) as u32 == rem);
            assert(m == low_mask32(w0) << bo);
            assert(first == old_bm[off as int] & !(low_mask32(w0) << bo));
            assert forall|k: int| 0 <= k < old_bm.len() implies #[trigger] bitmap@[k] == if k == off {
                first
            } else if off < k <= off + reached {
                0u32
            } else if wrote_last && k == off + 1 + entries_after {
                old_bm[k] & !low_mask32(rem)
            } else {
                old_bm[k]
            } by {
                assert(before[k] == if k == off {
                    first
                } else if off < k <= off + reached {
                    0u32
                } else {
                    old_bm[k]
                });
            }
            assert(reached == entries_after || off + 1 + reached >= old_bm.len());
            assert forall|k: int, j: int| 0 <= k < old_bm.len() && 0 <= j < 32 implies #[trigger] page_used(
                bitmap@,
                k,
                j,
            ) == if (k == off && bo <= j < bo + head_width(bo as int, pages as int)) || (off < k
                <= off + (pages - head_width(bo as int, pages as int)) / 32) || (k == off + 1 + (
            pages - head_width(bo as int, pages as int)) / 32 && j < (pages - head_width(
                bo as int,
                pages as int,
            )) % 32) {
                false
            } else {
                page_used(old_bm, k, j)
            } by {
                assert(w0 == head_width(bo as int, pages as int));
                assert(entries_after == (pages - w0) / 32);
                assert(rem == (pages - w0) % 32);
                if k == off {
                    lemma_mask_clear(old_bm[k], bo, w0, j as u32);
                } else if off < k <= off + entries_after {
                    assert(k <= off + reached);
                    lemma_bit32_const(j as u32);
                } else if k == off + 1 + entries_after && rem != 0 {
                    assert(wrote_last);
                    lemma_mask_clear(old_bm[k], 0, rem, j as u32);
                    assert(low_mask32(rem) << 0u32 == low_mask32(rem)) by (bit_vector);
                }
            }
            lemma_marked_words(old_bm, bitmap@, off as int, bo as int, pages as int, false);
        }
    }
}

} // verus!

verus! {

/// What the check before a release accepts: the run's pages in its first
/// word are in use, every whole word after it holds at least one page in
/// use, and the pages of the run in its last word are in use; all of these
/// words lie inside the bitmap.
pub open spec fn occupied_check(bm: Seq<u32>, off: int, bo: int, pages: int) -> bool {
    let w0 = head_width(bo, pages);
    let full = (pages - w0) / 32;
    let rem = (pages - w0) % 32;
    &&& 0 <= off < bm.len()
    &&& word_run_used(bm[off], bo, w0)
    &&& off + full < bm.len()
    &&& forall|k: int| off + 1 <= k <= off + full ==> #[trigger] bm[k] != 0u32
    &&& rem != 0 ==> off + 1 + full < bm.len() && word_run_used(bm[off + 1 + full], 0, rem)
}

impl BitmapEntry {
    /// Whether the run of `pages` pages from this entry passes the check
    /// made before it is released.
    pub fn is_occupied(&self, bitmap: &Vec<u32>, pages: u32) -> (r: bool)
        requires
            self.bit_offset < 32,
        ensures
            r == occupied_check(bitmap@, self.offset as int, self.bit_offset as int, pages as int),
    {
        let off = self.offset as usize;
        let bo = self.bit_offset as u32;
        if off >= bitmap.len() {
            return false;
        }
        let front = self.get_frontbits_ex();
        let w0: u32 = if front > pages {
            pages
        } else {
            front
        };
        let begin_mask = make_mask(w0 as u16) << bo;
        proof {
            assert((w0 as u16) as u32 == w0);
            lemma_mask_test_used(bitmap@[off as int], bo, w0);
        }
        if bitmap[off] & begin_mask != begin_mask {
            return false;
        }
        let full = (pages - w0) / 32;
        let mut i: u32 = 0;
        while i < full
            invariant
                off < bitmap@.len(),
                off == self.offset,
                bo == self.bit_offset,
                w0 == head_width(bo as int, pages as int),
                full == (pages - w0) / 32,
                word_run_used(bitmap@[off as int], bo as int, w0 as int),
                i <= full,
                forall|k: int| off + 1 <= k <= off + i ==> #[trigger] bitmap@[k] != 0u32,
                off + i < bitmap@.len(),
            decreases full - i,
        {
            if (i as usize) >= bitmap.len() - off - 1 {
                return false;
            }
            if bitmap[off + 1 + i as usize] == 0 {
                assert(bitmap@[self.offset as int + (i + 1)] == 0u32);
                return false;
            }
            i = i + 1;
        }
        let rem = (pages - w0) % 32;
        if rem != 0 {
            if (full as usize) >= bitmap.len() - off - 1 {
                return false;
            }
            let last = off + 1 + full as usize;
            let mask = make_mask(rem as u16);
            proof {
                assert((rem as u16) as u32 == rem);
                lemma_mask_test_used(bitmap@[last as int], 0, rem);
                assert(low_mask32(rem) << 0u32 == low_mask32(rem)) by (bit_vector);
            }
            if bitmap[last] & mask != mask {
                return false;
            }
        }
        true
    }
}

} // verus!

verus! {

/// A bitmap allocator of 4 KiB pages. Page 0 sits at address `addend`.
pub struct Allocator {
    bitmap: Vec<u32>,
    bitmap_entries: u32,
    current_entry: u32,
    addend: u64,
    faked_pages: u32,
}

/// The run of `n` pages starting at bit `o` of word `k` lies in that word only.
proof fn lemma_single_word_run(old: Seq<u32>, new: Seq<u32>, k: int, o: u32, n: u32)
    requires
        0 <= k < old.len(),
        n + o <= 32,
        new == old.update(k, old[k] | (low_mask32(n) << o)),
    ensures
        word_run_free(old[k], o as int, n as int) ==> run_free(old, 32 * k + o, n as int),
        run_marked(old, new, 32 * k + o, n as int, true),
{
    assert forall|kk: int, j: int|
        0 <= kk < old.len() && 0 <= j < 32 && #[trigger] in_run(kk, j, 32 * k + o, n as int) implies kk
        == k && o <= j < o + n by {}
    if word_run_free(old[k], o as int, n as int) {
        assert forall|kk: int, j: int|
            0 <= kk < old.len() && 0 <= j < 32 && in_run(kk, j, 32 * k + o, n as int) implies !#[trigger] page_used(
            old,
            kk,
            j,
        ) by {
            assert(!bit32(old[k], (j as int) as u32));
        }
    }
    assert forall|kk: int, j: int| 0 <= kk < old.len() && 0 <= j < 32 implies #[trigger] page_used(
        new,
        kk,
        j,
    ) == if in_run(kk, j, 32 * k + o, n as int) {
        true
    } else {
        page_used(old, kk, j)
    } by {
        if kk == k {
            lemma_mask_set(old[k], o, n, j as u32);
        }
    }
}

impl Allocator {
    /// The bitmap.
    pub closed spec fn bits(&self) -> Seq<u32> {
        self.bitmap@
    }

    /// Address of page 0.
    pub closed spec fn base_address(&self) -> u64 {
        self.addend
    }

    /// Word at which the search for a small run starts.
    pub closed spec fn current(&self) -> int {
        self.current_entry as int
    }

    /// Pages of a fake allocator that stand for memory it does not own.
    pub closed spec fn faked(&self) -> u32 {
        self.faked_pages
    }

    /// The allocator's invariant: the bitmap has `bitmap_entries` words, no
    /// more than a kernel bitmap, the search word lies in it, and the
    /// addresses of all its pages fit in 64 bits.
    pub closed spec fn wf(&self) -> bool {
        &&& self.bitmap@.len() == self.bitmap_entries
        &&& self.bitmap_entries <= KERNEL_NEEDED_BITMAP_ENTRIES
        &&& (self.current_entry < self.bitmap_entries || (self.bitmap_entries == 0
            && self.current_entry == 0))
        &&& self.addend + 0x20000 * self.bitmap_entries <= u64::MAX
    }

    /// A well-formed allocator has at most a kernel bitmap of words, and
    /// the addresses of all its pages fit in 64 bits.
    pub proof fn lemma_wf_len(&self)
        requires
            self.wf(),
        ensures
            self.bits().len() <= KERNEL_NEEDED_BITMAP_ENTRIES,
            self.base_address() + 0x20000 * self.bits().len() <= u64::MAX,
    {
    }

    /// Where a run of `n <= 32` pages is placed: the lowest fit in the
    /// search word, else the lowest fit in the first word that has one.
    pub open spec fn small_choice(&self, n: int) -> Option<(int, int)> {
        if 0 <= self.current() < self.bits().len() && first_fit_from(
            self.bits()[self.current()],
            n,
            0,
        ) is Some {
            Some((self.current(), first_fit_from(self.bits()[self.current()], n, 0)->0))
        } else {
            first_fit_entry_from(self.bits(), n, 0)
        }
    }

    /// The block of `n` pages that starts at page `p`.
    pub open spec fn block_at(&self, p: int, n: int) -> MemoryBlock {
        MemoryBlock { base: (self.base_address() + p * 0x1000) as u64, length: (n * 0x1000) as u64 }
    }

    /// An allocator that manages nothing.
    pub fn empty() -> (r: Self)
        ensures
            r.wf(),
            r.bits().len() == 0,
            r.base_address() == 0,
            r.current() == 0,
            r.faked() == 0,
    {
        Allocator {
            bitmap: Vec::new(),
            bitmap_entries: 0,
            current_entry: 0,
            addend: 0,
            faked_pages: 0,
        }
    }

    /// Address of the allocator's page 0.
    pub fn lowest_address(&self) -> (r: u64)
        ensures
            r == self.base_address(),
    {
        self.addend
    }

    /// Address offset of the search word's first page.
    fn get_current_entry_base(&self) -> (r: u64)
        requires
            self.wf(),
        ensures
            r == self.current() * 0x20000,
    {
        let c = self.current_entry as u64;
        assert(c <= 0x4_0000);
        assert(c * 32 <= 0x80_0000);
        c * (KERNEL_ALLOCATED_PAGES_PER_BITMAP_ENTRY as u64) * 0x1000
    }

    /// The lowest bit offset in word `entry` at which `pages` clear bits start.
    fn is_entry_valid(&self, entry: u32, pages: u16) -> (r: Option<u8>)
        requires
            self.wf(),
            entry < self.bits().len(),
            1 <= pages <= 32,
        ensures
            r matches Some(o) ==> first_fit_from(self.bits()[entry as int], pages as int, 0) == Some(
                o as int,
            ),
            r is None ==> first_fit_from(self.bits()[entry as int], pages as int, 0) is None,
    {
        let w = self.bitmap[entry as usize];
        let mask = make_mask(pages);
        let n = pages as u32;
        let mut i: u32 = 0;
        while i <= 32 - n
            invariant
                1 <= n <= 32,
                n == pages,
                mask == low_mask32(n),
                w == self.bits()[entry as int],
                i <= 33 - n,
                first_fit_from(w, n as int, 0) == first_fit_from(w, n as int, i as int),
            decreases 33 - n - i,
        {
            proof {
                lemma_mask_test_free(w, i, n);
            }
            if w & (mask << i) == 0 {
                return Some(i as u8);
            }
            i = i + 1;
        }
        None
    }

    /// The first word, with its lowest offset, that holds `pages` clear bits.
    fn next_free_entry(&self, pages: u16) -> (r: Result<(u8, u32), MemoryResult>)
        requires
            self.wf(),
            1 <= pages <= 32,
        ensures
            r matches Ok((o, k)) ==> first_fit_entry_from(self.bits(), pages as int, 0) == Some(
                (k as int, o as int),
            ),
            r matches Err(e) ==> e == MemoryResult::Nospace && first_fit_entry_from(
                self.bits(),
                pages as int,
                0,
            ) is None,
    {
        let mut k: u32 = 0;
        while k < self.bitmap_entries
            invariant
                self.wf(),
                1 <= pages <= 32,
                k <= self.bits().len(),
                first_fit_entry_from(self.bits(), pages as int, 0) == first_fit_entry_from(
                    self.bits(),
                    pages as int,
                    k as int,
                ),
            decreases self.bits().len() - k,
        {
            match self.is_entry_valid(k, pages) {
                Some(o) => {
                    return Ok((o, k));
                },
                None => {},
            }
            k = k + 1;
        }
        Err(MemoryResult::Nospace)
    }
}

} // verus!

verus! {

/// The word-by-word form of `wide_fits`: the word's top bit is clear, the
/// whole words after it are zero, and the low bits of the last word are
/// clear, all inside the bitmap.
pub open spec fn wide_check(bm: Seq<u32>, e: int, pages: int) -> bool {
    let a = leading_free(bm[e]);
    let full = (pages - a) / 32;
    let rem = (pages - a) % 32;
    &&& !bit32(bm[e], 31)
    &&& e + full < bm.len()
    &&& (rem != 0 ==> e + 1 + full < bm.len())
    &&& forall|k: int| e + 1 <= k <= e + full ==> #[trigger] bm[k] == 0u32
    &&& (rem != 0 ==> word_run_free(bm[e + 1 + full], 0, rem))
}

/// `wide_check` decides `wide_fits`.
pub proof fn lemma_wide_check(bm: Seq<u32>, e: int, pages: int)
    requires
        0 <= e < bm.len(),
        pages > 32,
    ensures
        wide_check(bm, e, pages) == wide_fits(bm, e, pages),
{
    let a = leading_free(bm[e]);
    let full = (pages - a) / 32;
    let rem = (pages - a) % 32;
    let start = 32 * e + 32 - a;
    lemma_leading_free(bm[e]);
    assert(pages - a == 32 * full + rem);
    assert(start + pages == 32 * (e + 1 + full) + rem);
    assert forall|k: int, j: int|
        0 <= k < bm.len() && 0 <= j < 32 && #[trigger] in_run(k, j, start, pages) implies (k == e
        && 32 - a <= j) || (e < k <= e + full) || (k == e + 1 + full && j < rem) by {}
    if wide_check(bm, e, pages) {
        assert forall|k: int, j: int|
            0 <= k < bm.len() && 0 <= j < 32 && in_run(k, j, start, pages) implies !#[trigger] page_used(
            bm,
            k,
            j,
        ) by {
            assert(in_run(k, j, start, pages));
            if k == e {
                assert(!bit32(bm[e], (j as int) as u32));
            } else if e < k <= e + full {
                assert(bm[k] == 0u32);
                lemma_bit32_const(j as u32);
            } else {
                assert(!bit32(bm[k], (j as int) as u32));
            }
        }
    }
    if wide_fits(bm, e, pages) {
        assert forall|k: int| e + 1 <= k <= e + full implies #[trigger] bm[k] == 0u32 by {
            assert forall|j: u32| j < 32 implies #[trigger] bit32(bm[k], j) == bit32(0u32, j) by {
                lemma_bit32_const(j);
                assert(in_run(k, j as int, start, pages));
                assert(!page_used(bm, k, j as int));
            }
            lemma_bit32_ext(bm[k], 0u32);
        }
        if rem != 0 {
            assert forall|j: int| 0 <= j < rem implies !#[trigger] bit32(
                bm[e + 1 + full],
                j as u32,
            ) by {
                assert(in_run(e + 1 + full, j, start, pages));
                assert(!page_used(bm, e + 1 + full, j));
            }
        }
    }
}

/// Number of clear bits at the top of `w`.
pub fn top_free_bits(w: u32) -> (r: u32)
    ensures
        r == leading_free(w),
{
    let mut mask: u32 = 0;
    let mut i: u32 = 32;
    assert(w & 0u32 == 0u32) by (bit_vector);
    while i != 0
        invariant
            i <= 32,
            w & mask == 0u32,
            leading_free(w) == leading_free_from(w, 32 - i),
        decreases i,
    {
        let b = i - 1;
        assert((w & (mask | (1u32 << b)) == 0u32) == ((w >> b) & 1u32 != 1u32)) by (bit_vector)
            requires
                w & mask == 0u32,
                b < 32,
        ;
        mask = mask | (1u32 << b);
        i = b;
        if w & mask != 0 {
            return 31 - i;
        }
    }
    32
}

} // verus!

verus! {

impl Allocator {
    /// Whether a multi-word run of `pages` pages can start in word `e`; if
    /// so, the number of clear bits at the top of that word.
    fn wide_candidate(&self, e: u32, pages: u16) -> (r: Option<u32>)
        requires
            self.wf(),
            e < self.bits().len(),
            pages > 32,
        ensures
            r is Some == wide_fits(self.bits(), e as int, pages as int),
            r matches Some(a) ==> a == leading_free(self.bits()[e as int]),
    {
        proof {
            lemma_wide_check(self.bits(), e as int, pages as int);
            lemma_leading_free(self.bits()[e as int]);
        }
        let ghost bm = self.bits();
        let eu = e as usize;
        let w = self.bitmap[eu];
        assert(((w & (1u32 << 31u32)) != 0u32) == ((w >> 31u32) & 1u32 == 1u32)) by (bit_vector);
        if w & (1u32 << 31u32) != 0 {
            return None;
        }
        let avail = top_free_bits(w);
        let rest = pages as u32 - avail;
        let full = rest / 32;
        let rem = rest % 32;
        if (full as usize) >= self.bitmap.len() - eu {
            proof {
                let a = leading_free(bm[e as int]);
                assert(a == avail);
                assert((pages - a) / 32 == full);
                assert(!(e + (pages - a) / 32 < bm.len()));
                assert(!wide_check(bm, e as int, pages as int));
                assert(!wide_fits(bm, e as int, pages as int));
            }
            return None;
        }
        let mut i: u32 = 0;
        while i < full
            invariant
                self.wf(),
                bm == self.bits(),
                e < bm.len(),
                eu == e,
                e + full < bm.len(),
                pages > 32,
                avail == leading_free(bm[e as int]),
                full == (pages - avail) / 32,
                wide_check(bm, e as int, pages as int) == wide_fits(bm, e as int, pages as int),
                i <= full,
                forall|k: int| e + 1 <= k <= e + i ==> #[trigger] bm[k] == 0u32,
            decreases full - i,
        {
            if self.bitmap[eu + 1 + i as usize] != 0 {
                assert(bm[e + 1 + i] != 0u32);
                return None;
            }
            i = i + 1;
        }
        let end_mask = make_mask(rem as u16);
        if rem != 0 {
            if (full as usize) + 1 >= self.bitmap.len() - eu {
                return None;
            }
            let last = eu + 1 + full as usize;
            proof {
                assert((rem as u16) as u32 == rem);
                lemma_mask_test_free(bm[last as int], 0, rem);
                assert(low_mask32(rem) << 0u32 == low_mask32(rem)) by (bit_vector);
            }
            if self.bitmap[last] & end_mask != 0 {
                return None;
            }
        }
        Some(avail)
    }

    /// The first word in which a multi-word run of `pages` pages can start,
    /// with the bit at which it starts.
    fn next_free_entry_ex(&self, pages: u16) -> (r: Result<(u32, u8), MemoryResult>)
        requires
            self.wf(),
            pages > 32,
        ensures
            r matches Ok((k, b)) ==> first_wide_from(self.bits(), pages as int, 0) == Some(k as int)
                && b == 32 - leading_free(self.bits()[k as int]),
            r matches Err(e) ==> e == MemoryResult::Nospace && first_wide_from(
                self.bits(),
                pages as int,
                0,
            ) is None,
    {
        let mut k: u32 = 0;
        while k < self.bitmap_entries
            invariant
                self.wf(),
                pages > 32,
                k <= self.bits().len(),
                first_wide_from(self.bits(), pages as int, 0) == first_wide_from(
                    self.bits(),
                    pages as int,
                    k as int,
                ),
            decreases self.bits().len() - k,
        {
            match self.wide_candidate(k, pages) {
                Some(a) => {
                    proof {
                        lemma_leading_free(self.bits()[k as int]);
                    }
                    return Ok((k, (32 - a) as u8));
                },
                None => {},
            }
            k = k + 1;
        }
        Err(MemoryResult::Nospace)
    }
}

} // verus!

verus! {

impl Allocator {
    /// Allocates `pages > 32` pages as one run that starts in the top bits of
    /// the first word where such a run fits.
    fn alloc_ex(&mut self, pages: u16) -> (r: Result<MemoryBlock, MemoryResult>)
        requires
            old(self).wf(),
            pages > 32,
        ensures
            final(self).wf(),
            final(self).base_address() == old(self).base_address(),
            final(self).current() == old(self).current(),
            final(self).faked() == old(self).faked(),
            match first_wide_from(old(self).bits(), pages as int, 0) {
                None => r == Err::<MemoryBlock, MemoryResult>(MemoryResult::Nospace)
                    && final(self).bits() == old(self).bits(),
                Some(k) => r == Ok::<MemoryBlock, MemoryResult>(
                    old(self).block_at(wide_start(old(self).bits(), k), pages as int),
                ) && run_free(old(self).bits(), wide_start(old(self).bits(), k), pages as int)
                    && run_marked(
                    old(self).bits(),
                    final(self).bits(),
                    wide_start(old(self).bits(), k),
                    pages as int,
                    true,
                ),
            },
    {
        let ghost old_bm = self.bits();
        let (k, bo8) = match self.next_free_entry_ex(pages) {
            Ok(found) => found,
            Err(e) => {
                return Err(e);
            },
        };
        proof {
            lemma_first_wide_from(old_bm, pages as int, 0);
            lemma_leading_free(old_bm[k as int]);
        }
        let off = k as usize;
        let bo = bo8 as u32;
        let w0: u32 = 32 - bo;
        let first_mask = make_mask(w0 as u16);
        let first = self.bitmap[off] | (first_mask << bo);
        self.bitmap.set(off, first);
        let rest = pages as u32 - w0;
        let full_entries = rest / 32;
        let rem = rest % 32;
        assert(wide_check(old_bm, k as int, pages as int)) by {
            lemma_wide_check(old_bm, k as int, pages as int);
        }
        let mut i: u32 = 0;
        while i < full_entries
            invariant
                self.bitmap@.len() == old_bm.len(),
                self.bitmap_entries == old_bm.len(),
                self.current_entry == old(self).current_entry,
                self.addend == old(self).addend,
                self.faked_pages == old(self).faked_pages,
                old(self).wf(),
                off == k,
                off + full_entries < old_bm.len(),
                i <= full_entries,
                forall|kk: int|
                    0 <= kk < old_bm.len() ==> #[trigger] self.bitmap@[kk] == if kk == off {
                        first
                    } else if off < kk <= off + i {
                        0xFFFF_FFFFu32
                    } else {
                        old_bm[kk]
                    },
            decreases full_entries - i,
        {
            self.bitmap.set(off + 1 + i as usize, 0xFFFF_FFFF);
            i = i + 1;
        }
        let ghost before = self.bitmap@;
        if rem != 0 {
            let last = off + 1 + full_entries as usize;
            let end_mask = make_mask(rem as u16);
            let lw = self.bitmap[last] | end_mask;
            self.bitmap.set(last, lw);
        }
        proof {
            let new_bm = self.bitmap@;
            let start = 32 * off + bo;
            assert(start == wide_start(old_bm, k as int));
            assert(head_width(bo as int, pages as int) == w0);
            assert((w0 as u16) as u32 == w0);
            assert((rem as u16) as u32 == rem);
            assert forall|kk: int| 0 <= kk < old_bm.len() implies #[trigger] new_bm[kk] == if kk
                == off {
                old_bm[kk] | (low_mask32(w0) << bo)
            } else if off < kk <= off + full_entries {
                0xFFFF_FFFFu32
            } else if rem != 0 && kk == off + 1 + full_entries {
                old_bm[kk] | low_mask32(rem)
            } else {
                old_bm[kk]
            } by {
                assert(before[kk] == if kk == off {
                    first
                } else if off < kk <= off + full_entries {
                    0xFFFF_FFFFu32
                } else {
                    old_bm[kk]
                });
            }
            assert forall|kk: int, j: int| 0 <= kk < old_bm.len() && 0 <= j < 32 implies #[trigger] page_used(
                new_bm,
                kk,
                j,
            ) == if (kk == off && bo <= j < bo + head_width(bo as int, pages as int)) || (off < kk
                <= off + (pages - head_width(bo as int, pages as int)) / 32) || (kk == off + 1 + (
            pages - head_width(bo as int, pages as int)) / 32 && j < (pages - head_width(
                bo as int,
                pages as int,
            )) % 32) {
                true
            } else {
                page_used(old_bm, kk, j)
            } by {
                if kk == off {
                    lemma_mask_set(old_bm[kk], bo, w0, j as u32);
                } else if off < kk <= off + full_entries {
                    lemma_bit32_const(j as u32);
                } else if kk == off + 1 + full_entries && rem != 0 {
                    lemma_mask_set(old_bm[kk], 0, rem, j as u32);
                    assert(low_mask32(rem) << 0u32 == low_mask32(rem)) by (bit_vector);
                }
            }
            lemma_marked_words(old_bm, new_bm, off as int, bo as int, pages as int, true);
        }
        assert(k < self.bitmap_entries);
        assert(bo < 32);
        assert(k * 0x20000 + bo * 0x1000 < 0x20000 * self.bitmap_entries);
        let base = self.addend + (k as u64 * 0x20000) + bo as u64 * 0x1000;
        let length = pages as u64 * 0x1000;
        Ok(MemoryBlock::new(length, base))
    }
}

} // verus!

verus! {

/// What `alloc` does: which pages it takes and which block it returns, or
/// why it fails.
pub open spec fn alloc_outcome(
    old: Allocator,
    new: Allocator,
    pages: int,
    r: Result<MemoryBlock, MemoryResult>,
) -> bool {
    if pages == 0 {
        r == Err::<MemoryBlock, MemoryResult>(MemoryResult::AllocationError) && new.bits()
            == old.bits() && new.current() == old.current()
    } else if pages <= 32 {
        match old.small_choice(pages) {
            None => r == Err::<MemoryBlock, MemoryResult>(MemoryResult::Nospace) && new.bits()
                == old.bits() && new.current() == old.current(),
            Some((k, o)) => r == Ok::<MemoryBlock, MemoryResult>(old.block_at(32 * k + o, pages))
                && new.current() == k && run_free(old.bits(), 32 * k + o, pages) && run_marked(
                old.bits(),
                new.bits(),
                32 * k + o,
                pages,
                true,
            ),
        }
    } else {
        match first_wide_from(old.bits(), pages, 0) {
            None => r == Err::<MemoryBlock, MemoryResult>(MemoryResult::Nospace) && new.bits()
                == old.bits() && new.current() == old.current(),
            Some(k) => r == Ok::<MemoryBlock, MemoryResult>(
                old.block_at(wide_start(old.bits(), k), pages),
            ) && new.current() == old.current() && run_free(
                old.bits(),
                wide_start(old.bits(), k),
                pages,
            ) && run_marked(old.bits(), new.bits(), wide_start(old.bits(), k), pages, true),
        }
    }
}

impl Allocator {
    /// Allocates `pages` pages. Up to 32 pages are taken from one bitmap
    /// word: the search word if it has room, else the first word that has;
    /// more pages are taken as one run that starts in the top bits of a word.
    pub fn alloc_pages(&mut self, pages: u16) -> (r: Result<MemoryBlock, MemoryResult>)
        requires
            old(self).wf(),
        ensures
            final(self).wf(),
            final(self).base_address() == old(self).base_address(),
            final(self).faked() == old(self).faked(),
            final(self).bits().len() == old(self).bits().len(),
            alloc_outcome(*old(self), *final(self), pages as int, r),
    {
        if pages == 0 {
            return Err(MemoryResult::AllocationError);
        }
        if 32 >= pages {
            let ghost old_bm = self.bits();
            let bit_off: u8;
            let valid = if self.current_entry < self.bitmap_entries {
                self.is_entry_valid(self.current_entry, pages)
            } else {
                None
            };
            match valid {
                Some(b) => {
                    bit_off = b;
                },
                None => {
                    match self.next_free_entry(pages) {
                        Ok((b, e)) => {
                            bit_off = b;
                            self.current_entry = e;
                            proof {
                                lemma_first_fit_entry_from(old_bm, pages as int, 0);
                            }
                        },
                        Err(e) => {
                            return Err(e);
                        },
                    }
                },
            }
            let cur = self.current_entry as usize;
            proof {
                lemma_first_fit_from(old_bm[cur as int], pages as int, 0);
            }
            let mask = make_mask(pages);
            let w = self.bitmap[cur] | (mask << bit_off as u32);
            self.bitmap.set(cur, w);
            proof {
                lemma_single_word_run(old_bm, self.bitmap@, cur as int, bit_off as u32, pages as u32);
            }
            let length = (pages as u64) * 0x1000;
            let entry_base = self.get_current_entry_base();
            assert(entry_base + bit_off * 0x1000 < 0x20000 * self.bitmap_entries);
            let base = self.addend + entry_base + (bit_off as u64) * 0x1000;
            Ok(MemoryBlock::new(length, base))
        } else {
            self.alloc_ex(pages)
        }
    }
}

} // verus!

verus! {

/// What `free` does with a block: which check refuses it, or which pages it
/// releases.
pub open spec fn free_outcome(
    old: Allocator,
    new: Allocator,
    mb: MemoryBlock,
    r: Result<(), MemoryResult>,
) -> bool {
    let rel = mb.base - old.base_address();
    let page = rel / 0x1000;
    if mb.length % 0x1000 != 0 {
        r == Err::<(), MemoryResult>(MemoryResult::InvalidLength) && new.bits() == old.bits()
    } else if mb.base < old.base_address() || mb.base % 0x1000 != 0 || mb.base + mb.length
        > KERNEL_MAXIMUM_ALLOCATABLE_ADDRESS {
        r == Err::<(), MemoryResult>(MemoryResult::InvalidAddress) && new.bits() == old.bits()
    } else if !occupied_check(
        old.bits(),
        page / 32,
        page % 32,
        ((mb.length as u32) / 0x1000) as int,
    ) {
        r == Err::<(), MemoryResult>(MemoryResult::InvalidBlock) && new.bits() == old.bits()
    } else {
        r == Ok::<(), MemoryResult>(()) && run_marked(
            old.bits(),
            new.bits(),
            page,
            ((mb.length / 0x1000) as u32) as int,
            false,
        )
    }
}

impl Allocator {
    /// Releases a block that `alloc` handed out, after checking its length,
    /// its address and that its pages are in use.
    pub fn free(&mut self, memblock: &MemoryBlock) -> (r: Result<(), MemoryResult>)
        requires
            old(self).wf(),
            memblock.base + memblock.length <= u64::MAX,
        ensures
            final(self).wf(),
            final(self).base_address() == old(self).base_address(),
            final(self).current() == old(self).current(),
            final(self).faked() == old(self).faked(),
            final(self).bits().len() == old(self).bits().len(),
            free_outcome(*old(self), *final(self), *memblock, r),
    {
        let len = memblock.length;
        let base = memblock.base;
        assert((len & 0xFFFu64 != 0u64) == (len % 0x1000 != 0)) by (bit_vector);
        assert((base & 0xFFFu64 != 0u64) == (base % 0x1000 != 0)) by (bit_vector);
        if memblock.length & 0xFFF != 0 {
            return Err(MemoryResult::InvalidLength);
        }
        if memblock.base < self.addend || memblock.base & 0xFFF != 0 || memblock.end()
            > KERNEL_MAXIMUM_ALLOCATABLE_ADDRESS {
            return Err(MemoryResult::InvalidAddress);
        }
        let entry = BitmapEntry::from_address(memblock.base - self.addend);
        if !entry.is_occupied(&self.bitmap, memblock.length as u32 / 0x1000) {
            return Err(MemoryResult::InvalidBlock);
        }
        entry.set_zero(&mut self.bitmap, (memblock.length / 0x1000) as u32);
        Ok(())
    }
}

} // verus!

verus! {

/// A run that lies inside the bitmap and is marked as used passes the check
/// made before a release.
pub proof fn lemma_used_run_passes_check(bm: Seq<u32>, start: int, n: int)
    requires
        0 <= start,
        0 <= n,
        start + n <= 32 * bm.len(),
        start < 32 * bm.len(),
        run_used(bm, start, n),
    ensures
        occupied_check(bm, start / 32, start % 32, n),
{
    let off = start / 32;
    let bo = start % 32;
    let w0 = head_width(bo, n);
    let full = (n - w0) / 32;
    let rem = (n - w0) % 32;
    assert(start == 32 * off + bo);
    assert(n - w0 == 32 * full + rem);
    assert forall|j: int| bo <= j < bo + w0 implies #[trigger] bit32(bm[off], j as u32) by {
        assert(in_run(off, j, start, n));
        assert(page_used(bm, off, j));
    }
    assert forall|k: int| off + 1 <= k <= off + full implies #[trigger] bm[k] != 0u32 by {
        assert(in_run(k, 0, start, n));
        assert(page_used(bm, k, 0));
        lemma_bit32_const(0);
    }
    if rem != 0 {
        assert forall|j: int| 0 <= j < rem implies #[trigger] bit32(bm[off + 1 + full], j as u32) by {
            assert(in_run(off + 1 + full, j, start, n));
            assert(page_used(bm, off + 1 + full, j));
        }
    }
}

/// The run that a successful `alloc` takes lies inside the bitmap.
pub proof fn lemma_alloc_run_in_bitmap(old: Allocator, new: Allocator, pages: int, mb: MemoryBlock)
    requires
        pages >= 0,
        alloc_outcome(old, new, pages, Ok(mb)),
    ensures
        pages > 0,
        pages <= 32 ==> (old.small_choice(pages) matches Some((k, o)) && 0 <= k < old.bits().len()
            && 0 <= o && o + pages <= 32),
        pages > 32 ==> (first_wide_from(old.bits(), pages, 0) matches Some(k) && 0 <= k
            < old.bits().len() && 32 * k <= wide_start(old.bits(), k) && wide_start(old.bits(), k)
            + pages <= 32 * old.bits().len()),
{
    if pages <= 32 {
        match old.small_choice(pages) {
            Some((k, o)) => {
                if 0 <= old.current() < old.bits().len() && first_fit_from(
                    old.bits()[old.current()],
                    pages,
                    0,
                ) is Some {
                    lemma_first_fit_from(old.bits()[old.current()], pages, 0);
                } else {
                    lemma_first_fit_entry_from(old.bits(), pages, 0);
                    lemma_first_fit_from(old.bits()[k], pages, 0);
                }
            },
            None => {},
        }
    } else {
        match first_wide_from(old.bits(), pages, 0) {
            Some(k) => {
                lemma_first_wide_from(old.bits(), pages, 0);
                lemma_leading_free(old.bits()[k]);
            },
            None => {},
        }
    }
}

/// A block that `alloc` hands out lies inside the allocator's pages: it
/// starts at or after page 0 and ends at or before the last page.
pub proof fn lemma_alloc_block_in_range(old: Allocator, new: Allocator, pages: int, mb: MemoryBlock)
    requires
        old.wf(),
        pages >= 0,
        alloc_outcome(old, new, pages, Ok(mb)),
    ensures
        old.base_address() <= mb.base,
        mb.base - old.base_address() + mb.length <= 0x1000 * 32 * old.bits().len(),
        mb.length == pages * 0x1000,
{
    lemma_alloc_run_in_bitmap(old, new, pages, mb);
    let start: int = if pages <= 32 {
        let (k, o) = old.small_choice(pages)->0;
        32 * k + o
    } else {
        wide_start(old.bits(), first_wide_from(old.bits(), pages, 0)->0)
    };
    assert(mb == old.block_at(start, pages));
    assert(0 <= start && start + pages <= 32 * old.bits().len());
    assert(0x1000 * (start + pages) <= 0x1000 * 32 * old.bits().len()) by (nonlinear_arith)
        requires
            start + pages <= 32 * old.bits().len(),
    ;
}


/// Releasing the block that `alloc` just handed out succeeds and gives
/// back the bitmap as it was before the allocation, when page 0 of the
/// allocator is page-aligned and the block ends below the highest address
/// the kernel allocator manages.
pub proof fn lemma_alloc_then_free(
    a0: Allocator,
    a1: Allocator,
    a2: Allocator,
    pages: u16,
    mb: MemoryBlock,
    r: Result<(), MemoryResult>,
)
    requires
        a0.wf(),
        a1.wf(),
        a1.base_address() == a0.base_address(),
        a0.base_address() % 0x1000 == 0,
        alloc_outcome(a0, a1, pages as int, Ok(mb)),
        mb.base + mb.length <= KERNEL_MAXIMUM_ALLOCATABLE_ADDRESS,
        free_outcome(a1, a2, mb, r),
    ensures
        r == Ok::<(), MemoryResult>(()),
        a2.bits() == a0.bits(),
{
    lemma_alloc_run_in_bitmap(a0, a1, pages as int, mb);
    let start: int = if pages <= 32 {
        let (k, o) = a0.small_choice(pages as int)->0;
        32 * k + o
    } else {
        wide_start(a0.bits(), first_wide_from(a0.bits(), pages as int, 0)->0)
    };
    assert(run_free(a0.bits(), start, pages as int));
    assert(run_marked(a0.bits(), a1.bits(), start, pages as int, true));
    assert(mb == a0.block_at(start, pages as int));
    assert(start + pages <= 32 * a0.bits().len());
    assert(run_used(a1.bits(), start, pages as int));
    lemma_used_run_passes_check(a1.bits(), start, pages as int);
    let rel = mb.base - a1.base_address();
    assert(rel == start * 0x1000);
    assert(rel / 0x1000 == start);
    assert(mb.length == pages * 0x1000);
    assert(mb.length % 0x1000 == 0);
    assert(mb.base % 0x1000 == 0);
    assert((mb.length as u32) as int == mb.length);
    assert(((mb.length as u32) / 0x1000) as int == pages);
    assert(((mb.length / 0x1000) as u32) as int == pages);
    assert(run_marked(a1.bits(), a2.bits(), start, pages as int, false));
    lemma_mark_then_clear(a0.bits(), a1.bits(), a2.bits(), start, pages as int);
}

/// Releasing the block that `alloc` just handed out a second time is
/// refused as a block that is not in use, and changes nothing.
pub proof fn lemma_double_free_detected(
    a0: Allocator,
    a1: Allocator,
    a2: Allocator,
    a3: Allocator,
    pages: u16,
    mb: MemoryBlock,
    r: Result<(), MemoryResult>,
    r2: Result<(), MemoryResult>,
)
    requires
        a0.wf(),
        a1.wf(),
        a1.base_address() == a0.base_address(),
        a2.base_address() == a1.base_address(),
        a0.base_address() % 0x1000 == 0,
        alloc_outcome(a0, a1, pages as int, Ok(mb)),
        mb.base + mb.length <= KERNEL_MAXIMUM_ALLOCATABLE_ADDRESS,
        free_outcome(a1, a2, mb, r),
        free_outcome(a2, a3, mb, r2),
    ensures
        r == Ok::<(), MemoryResult>(()),
        r2 == Err::<(), MemoryResult>(MemoryResult::InvalidBlock),
        a3.bits() == a2.bits(),
{
    lemma_alloc_then_free(a0, a1, a2, pages, mb, r);
    lemma_alloc_run_in_bitmap(a0, a1, pages as int, mb);
    let start: int = if pages <= 32 {
        let (k, o) = a0.small_choice(pages as int)->0;
        32 * k + o
    } else {
        wide_start(a0.bits(), first_wide_from(a0.bits(), pages as int, 0)->0)
    };
    assert(run_free(a0.bits(), start, pages as int));
    assert(mb == a0.block_at(start, pages as int));
    assert(start + pages <= 32 * a0.bits().len());
    let rel = mb.base - a2.base_address();
    assert(rel == start * 0x1000);
    assert(rel / 0x1000 == start);
    assert(mb.length == pages * 0x1000);
    assert(((mb.length as u32) / 0x1000) as int == pages);
    let off = start / 32;
    let bo = start % 32;
    assert(in_run(off, bo, start, pages as int));
    assert(!page_used(a2.bits(), off, bo));
    assert(!occupied_check(a2.bits(), start / 32, start % 32, pages as int)) by {
        if occupied_check(a2.bits(), start / 32, start % 32, pages as int) {
            assert(bit32(a2.bits()[off], bo as u32));
        }
    }
}

} // verus!

verus! {

/// Number of bitmap words that `pages` pages need.
pub open spec fn entries_for(pages: int) -> int {
    if pages % 32 != 0 {
        pages / 32 + 1
    } else {
        pages / 32
    }
}

/// Number of pages that a bitmap of `entries` words occupies.
pub open spec fn bitmap_pages_for(entries: int) -> int {
    if (entries * 4) % 0x1000 != 0 {
        (entries * 4) / 0x1000 + 1
    } else {
        (entries * 4) / 0x1000
    }
}

/// A bitmap of `n` words with every page free.
fn zeroed_bitmap(n: u32) -> (r: Vec<u32>)
    ensures
        r@.len() == n,
        forall|k: int| 0 <= k < n ==> #[trigger] r@[k] == 0u32,
{
    let mut v: Vec<u32> = Vec::new();
    let mut i: u32 = 0;
    while i < n
        invariant
            i <= n,
            v@.len() == i,
            forall|k: int| 0 <= k < i ==> #[trigger] v@[k] == 0u32,
        decreases n - i,
    {
        v.push(0);
        i = i + 1;
    }
    v
}

/// Words and pages of a bitmap for `num_pages` pages.
fn bitmap_size(num_pages: u16) -> (r: (u16, u16))
    ensures
        r.0 == entries_for(num_pages as int),
        r.1 == bitmap_pages_for(entries_for(num_pages as int)),
{
    let mut num_entries_needed = num_pages / 32;
    if num_pages % 32 != 0 {
        num_entries_needed += 1;
    }
    let mut bitmap_pages_needed = (num_entries_needed * 4) / 0x1000;
    if (num_entries_needed * 4) % 0x1000 != 0 {
        bitmap_pages_needed += 1;
    }
    (num_entries_needed, bitmap_pages_needed)
}

impl Allocator {
    /// An allocator for `num_pages` pages carved out of this one. This
    /// allocator hands out the pages that hold the new bitmap and then the
    /// `num_pages` pages that the new allocator manages, whose first address
    /// becomes its page 0.
    pub fn subdivide(&mut self, num_pages: u16) -> (r: Result<Allocator, MemoryResult>)
        requires
            old(self).wf(),
        ensures
            final(self).wf(),
            final(self).base_address() == old(self).base_address(),
            final(self).faked() == old(self).faked(),
            final(self).bits().len() == old(self).bits().len(),
            exists|mid: Allocator, table: Result<MemoryBlock, MemoryResult>|
                #![trigger alloc_outcome(*old(self), mid, bitmap_pages_for(entries_for(num_pages as int)), table)]
                alloc_outcome(
                    *old(self),
                    mid,
                    bitmap_pages_for(entries_for(num_pages as int)),
                    table,
                ) && match table {
                    Err(e) => r == Err::<Allocator, MemoryResult>(e) && final(self).bits()
                        == old(self).bits(),
                    Ok(_) => exists|data: Result<MemoryBlock, MemoryResult>|
                        #![trigger alloc_outcome(mid, *final(self), num_pages as int, data)]
                        alloc_outcome(mid, *final(self), num_pages as int, data) && match data {
                            Err(e) => r == Err::<Allocator, MemoryResult>(e),
                            Ok(block) => if block.base + 0x20000 * entries_for(num_pages as int)
                                > u64::MAX {
                                r == Err::<Allocator, MemoryResult>(MemoryResult::InvalidAddress)
                            } else {
                                r matches Ok(child) && child.wf() && child.base_address()
                                == block.base && child.bits().len() == entries_for(
                                num_pages as int,
                            ) && child.current() == 0 && child.faked() == 0 && forall|k: int|
                                0 <= k < child.bits().len() ==> #[trigger] child.bits()[k] == 0u32
                            },
                        },
                },
    {
        let (num_entries_needed, bitmap_pages_needed) = bitmap_size(num_pages);
        let ghost s0 = *self;
        let table = self.alloc_pages(bitmap_pages_needed);
        let ghost s1 = *self;
        match table {
            Err(e) => {
                assert(alloc_outcome(s0, s1, bitmap_pages_for(entries_for(num_pages as int)), table));
                return Err(e);
            },
            Ok(_) => {},
        }
        let data = self.alloc_pages(num_pages);
        let addend = match data {
            Ok(mb) => mb.base,
            Err(e) => {
                assert(alloc_outcome(s0, s1, bitmap_pages_for(entries_for(num_pages as int)), table));
                assert(alloc_outcome(s1, *self, num_pages as int, data));
                return Err(e);
            },
        };
        assert(alloc_outcome(s0, s1, bitmap_pages_for(entries_for(num_pages as int)), table));
        assert(alloc_outcome(s1, *self, num_pages as int, data));
        if addend > u64::MAX - 0x20000 * (num_entries_needed as u64) {
            return Err(MemoryResult::InvalidAddress);
        }
        Ok(
            Allocator {
                bitmap: zeroed_bitmap(num_entries_needed as u32),
                bitmap_entries: num_entries_needed as u32,
                current_entry: 0,
                addend,
                faked_pages: 0,
            },
        )
    }

    /// An allocator for `num_pages` pages of virtual memory from
    /// `virtual_address` on, which owns no physical memory of its own; this
    /// allocator hands out the pages that hold its bitmap.
    pub fn new_fake(&mut self, num_pages: u16, virtual_address: u64) -> (r: Result<
        Allocator,
        MemoryResult,
    >)
        requires
            old(self).wf(),
            virtual_address + 0x20000 * entries_for(num_pages as int) <= u64::MAX,
        ensures
            final(self).wf(),
            final(self).base_address() == old(self).base_address(),
            final(self).faked() == old(self).faked(),
            final(self).bits().len() == old(self).bits().len(),
            exists|table: Result<MemoryBlock, MemoryResult>|
                #![trigger alloc_outcome(*old(self), *final(self), bitmap_pages_for(entries_for(num_pages as int)), table)]
                alloc_outcome(
                    *old(self),
                    *final(self),
                    bitmap_pages_for(entries_for(num_pages as int)),
                    table,
                ) && match table {
                    Err(e) => r == Err::<Allocator, MemoryResult>(e),
                    Ok(_) => r matches Ok(child) && child.wf() && child.base_address()
                        == virtual_address && child.bits().len() == entries_for(num_pages as int)
                        && child.current() == 0 && child.faked() == num_pages && forall|k: int|
                        0 <= k < child.bits().len() ==> #[trigger] child.bits()[k] == 0u32,
                },
    {
        let (num_entries_needed, bitmap_pages_needed) = bitmap_size(num_pages);
        let ghost s0 = *self;
        let table = self.alloc_pages(bitmap_pages_needed);
        assert(alloc_outcome(s0, *self, bitmap_pages_for(entries_for(num_pages as int)), table));
        match table {
            Err(e) => {
                return Err(e);
            },
            Ok(_) => {},
        }
        Ok(
            Allocator {
                bitmap: zeroed_bitmap(num_entries_needed as u32),
                bitmap_entries: num_entries_needed as u32,
                current_entry: 0,
                addend: virtual_address,
                faked_pages: num_pages as u32,
            },
        )
    }
}

} // verus!

verus! {

/// An allocator of virtual memory together with the physical block that
/// backs it.
pub struct VirtualAllocator {
    pub physical: MemoryBlock,
    pub allocator: Allocator,
}

impl VirtualAllocator {
    pub fn new(memory: MemoryBlock, allocator: Allocator) -> (r: Self)
        ensures
            r.physical == memory,
            r.allocator == allocator,
    {
        VirtualAllocator { physical: memory, allocator }
    }
}

/// A block of `length` elements of some type from address `base`.
pub struct PointerBlock {
    pub base: u64,
    pub length: u64,
}

impl PointerBlock {
    pub fn new(length: u64, base: u64) -> (r: Self)
        ensures
            r.base == base && r.length == length,
    {
        PointerBlock { base, length }
    }

    /// Address of the first element.
    pub fn as_ptr(&self) -> (r: u64)
        ensures
            r == self.base,
    {
        self.base
    }

    /// Address of the first element, for writing.
    pub fn as_mut_ptr(&mut self) -> (r: u64)
        ensures
            r == old(self).base,
            *final(self) == *old(self),
    {
        self.base
    }

    /// First address after the block, for elements of `size` bytes.
    pub fn end(&self, size: u64) -> (r: u64)
        requires
            self.base + self.length * size <= u64::MAX,
        ensures
            r == self.base + self.length * size,
    {
        assert(self.length * size <= u64::MAX) by (nonlinear_arith)
            requires
                self.base + self.length * size <= u64::MAX,
                self.base >= 0,
        ;
        self.base + self.length * size
    }
}

} // verus!

verus! {

/// Error numbers that the kernel reports.
#[derive(Clone, Copy, PartialEq, Eq, Structural, Debug)]
pub enum Errno {
    /// No buffer space: no memory descriptor can hold the bitmap.
    ENOBUFS,
}

/// A descriptor of the firmware's memory map.
#[derive(Clone, Copy, PartialEq, Eq, Structural, Debug)]
pub struct EfiMemoryDescriptor {
    pub descriptor_type: u32,
    pub physical_start: u64,
    pub virtual_start: u64,
    pub number_of_pages: u64,
    pub attribute: u64,
}

/// Memory that the boot loader took for a section of the kernel image:
/// where (0 for none), for which program header, and how many bytes.
#[derive(Clone, Copy, PartialEq, Eq, Structural, Debug)]
pub struct ImageAllocation {
    pub allocated: u64,
    pub phdr: u64,
    pub size: u64,
}

/// The descriptor can hold the bitmap: conventional memory of at least
/// the bitmap's pages.
pub open spec fn is_bitmap_home(d: EfiMemoryDescriptor) -> bool {
    d.number_of_pages >= BITMAP_SIZE_IN_PAGES && d.descriptor_type == EFI_CONVENTIONAL_MEMORY
}

/// Index of the first descriptor from `i` on that can hold the bitmap, or
/// the number of descriptors.
pub open spec fn first_home_from(descs: Seq<EfiMemoryDescriptor>, i: int) -> int
    decreases descs.len() - i,
{
    if i >= descs.len() || i < 0 {
        descs.len() as int
    } else if is_bitmap_home(descs[i]) {
        i
    } else {
        first_home_from(descs, i + 1)
    }
}

/// The descriptor with the bitmap's pages taken off its front; one left
/// with no pages becomes unusable.
pub open spec fn carved(d: EfiMemoryDescriptor) -> EfiMemoryDescriptor {
    EfiMemoryDescriptor {
        descriptor_type: if d.number_of_pages - BITMAP_SIZE_IN_PAGES == 0 {
            EFI_UNUSABLE_MEMORY
        } else {
            d.descriptor_type
        },
        physical_start: (d.physical_start + BITMAP_SIZE_IN_BYTES) as u64,
        number_of_pages: (d.number_of_pages - BITMAP_SIZE_IN_PAGES) as u64,
        ..d
    }
}

/// Conventional memory that reaches past the memory the allocator manages.
pub open spec fn crosses_limit(d: EfiMemoryDescriptor) -> bool {
    d.descriptor_type == EFI_CONVENTIONAL_MEMORY && d.physical_start + d.number_of_pages * 0x1000
        > KERNEL_MAXIMUM_ALLOCATABLE_ADDRESS
}

/// Index of the first descriptor from `i` on that crosses the limit, or
/// the number of descriptors: the descriptors before it are freed.
pub open spec fn first_cross_from(descs: Seq<EfiMemoryDescriptor>, i: int) -> int
    decreases descs.len() - i,
{
    if i >= descs.len() || i < 0 {
        descs.len() as int
    } else if crosses_limit(descs[i]) {
        i
    } else {
        first_cross_from(descs, i + 1)
    }
}

/// The bitmap position of the page that holds `address`.
pub open spec fn entry_of(address: u64) -> BitmapEntry {
    BitmapEntry { offset: ((address / 0x1000) / 32) as u32, bit_offset: ((address / 0x1000) % 32) as u8 }
}

/// Page `32 * k + j` is freed by one of the first `n` descriptors.
pub open spec fn freed_by(descs: Seq<EfiMemoryDescriptor>, n: int, k: int, j: int) -> bool {
    exists|i: int|
        0 <= i < n && (#[trigger] descs[i]).descriptor_type == EFI_CONVENTIONAL_MEMORY && in_run(
            k,
            j,
            entry_of(descs[i].physical_start).first_page(),
            (descs[i].number_of_pages as u32) as int,
        )
}

/// Page `32 * k + j` is taken by one of the first `n` image allocations.
pub open spec fn taken_by(allocs: Seq<ImageAllocation>, n: int, k: int, j: int) -> bool {
    exists|i: int|
        0 <= i < n && (#[trigger] allocs[i]).allocated != 0 && in_run(
            k,
            j,
            entry_of(allocs[i].allocated).first_page(),
            ((allocs[i].size / 0x1000) as u32) as int,
        )
}

/// First page of the memory the processors start up in.
pub const BOOTSTRAP_ADDRESS: u64 = 0x8000;

/// Pages the processors start up in.
pub const BOOTSTRAP_PAGES: u32 = 4;

/// Whether page `32 * k + j` is in use once the allocator is set up: in
/// the start-up pages or an image allocation, or not freed by the
/// conventional memory before the first descriptor past the limit.
pub open spec fn initially_used(
    descs: Seq<EfiMemoryDescriptor>,
    allocs: Seq<ImageAllocation>,
    k: int,
    j: int,
) -> bool {
    in_run(k, j, entry_of(BOOTSTRAP_ADDRESS).first_page(), BOOTSTRAP_PAGES as int) || taken_by(
        allocs,
        allocs.len() as int,
        k,
        j,
    ) || !freed_by(descs, first_cross_from(descs, 0), k, j)
}

/// The map once the bitmap's pages are taken off the first descriptor that can hold it.
pub open spec fn carved_map(descs: Seq<EfiMemoryDescriptor>) -> Seq<EfiMemoryDescriptor> {
    let h = first_home_from(descs, 0);
    if h < descs.len() {
        descs.update(h, carved(descs[h]))
    } else {
        descs
    }
}

/// Each conventional descriptor up to the first past the limit has an end
/// address in 64 bits.
pub open spec fn ends_fit(descs: Seq<EfiMemoryDescriptor>) -> bool {
    forall|i: int|
        0 <= i < descs.len() && (forall|j: int| 0 <= j < i ==> !crosses_limit(#[trigger] descs[j]))
            && (#[trigger] descs[i]).descriptor_type == EFI_CONVENTIONAL_MEMORY ==> descs[i].physical_start
            + descs[i].number_of_pages * 0x1000 <= u64::MAX
}

/// The memory map's arithmetic stays in 64 bits: the descriptor that gets
/// the bitmap can move past it, and the map that results has its ends.
pub open spec fn memory_map_fits(descs: Seq<EfiMemoryDescriptor>) -> bool {
    &&& first_home_from(descs, 0) < descs.len() ==> descs[first_home_from(descs, 0)].physical_start
        + BITMAP_SIZE_IN_BYTES <= u64::MAX
    &&& ends_fit(carved_map(descs))
}

proof fn lemma_first_home(descs: Seq<EfiMemoryDescriptor>, i: int)
    requires
        0 <= i <= descs.len(),
    ensures
        i <= first_home_from(descs, i) <= descs.len(),
        first_home_from(descs, i) < descs.len() ==> is_bitmap_home(descs[first_home_from(descs, i)]),
        forall|j: int| i <= j < first_home_from(descs, i) ==> !is_bitmap_home(#[trigger] descs[j]),
    decreases descs.len() - i,
{
    if i < descs.len() && !is_bitmap_home(descs[i]) {
        lemma_first_home(descs, i + 1);
    }
}

proof fn lemma_first_cross(descs: Seq<EfiMemoryDescriptor>, i: int)
    requires
        0 <= i <= descs.len(),
    ensures
        i <= first_cross_from(descs, i) <= descs.len(),
        first_cross_from(descs, i) < descs.len() ==> crosses_limit(descs[first_cross_from(descs, i)]),
        forall|j: int| i <= j < first_cross_from(descs, i) ==> !crosses_limit(#[trigger] descs[j]),
    decreases descs.len() - i,
{
    if i < descs.len() && !crosses_limit(descs[i]) {
        lemma_first_cross(descs, i + 1);
    }
}

impl Allocator {
    /// Sets up the kernel allocator from the firmware's memory map: the
    /// bitmap goes into the first conventional descriptor that is large
    /// enough, whose pages are taken off its front; every page starts in
    /// use; the conventional memory is freed descriptor by descriptor until
    /// the first that reaches past the managed memory; then the pages of the
    /// kernel image and the start-up pages are taken again. Gives the
    /// allocator and the address of its bitmap, or `ENOBUFS` when no
    /// descriptor can hold the bitmap.
    pub fn new(descriptors: &mut Vec<EfiMemoryDescriptor>, image_allocations: &Vec<ImageAllocation>)
        -> (r: Result<(Allocator, u64), Errno>)
        requires
            memory_map_fits(old(descriptors)@),
        ensures
            ({
                let h = first_home_from(old(descriptors)@, 0);
                &&& h == old(descriptors)@.len() ==> r == Err::<(Allocator, u64), Errno>(Errno::ENOBUFS)
                    && final(descriptors)@ == old(descriptors)@
                &&& h < old(descriptors)@.len() ==> {
                    &&& final(descriptors)@ == old(descriptors)@.update(h, carved(old(descriptors)@[h]))
                    &&& r matches Ok((a, bitmap_address)) && {
                        &&& bitmap_address == old(descriptors)@[h].physical_start
                        &&& a.wf()
                        &&& a.bits().len() == KERNEL_NEEDED_BITMAP_ENTRIES
                        &&& a.base_address() == 0
                        &&& a.current() == 0
                        &&& a.faked() == 0
                        &&& forall|k: int, j: int|
                            0 <= k < KERNEL_NEEDED_BITMAP_ENTRIES && 0 <= j < 32 ==> #[trigger] page_used(
                                a.bits(),
                                k,
                                j,
                            ) == initially_used(final(descriptors)@, image_allocations@, k, j)
                    }
                }
            }),
    {
        let ghost old_descs = descriptors@;
        proof {
            lemma_first_home(old_descs, 0);
        }
        let n = descriptors.len();
        let mut home: usize = 0;
        while home < n
            invariant
                n == descriptors@.len(),
                descriptors@ == old_descs,
                home <= n,
                forall|j: int| 0 <= j < home ==> !is_bitmap_home(#[trigger] old_descs[j]),
                first_home_from(old_descs, 0) >= home,
                first_home_from(old_descs, 0) <= n,
                first_home_from(old_descs, 0) < n ==> is_bitmap_home(old_descs[first_home_from(old_descs, 0)]),
                forall|j: int| 0 <= j < first_home_from(old_descs, 0) ==> !is_bitmap_home(#[trigger] old_descs[j]),
            ensures
                descriptors@ == old_descs,
                home <= n,
                home as int == first_home_from(old_descs, 0),
            decreases n - home,
        {
            let d = descriptors[home];
            if d.number_of_pages >= BITMAP_SIZE_IN_PAGES as u64 && d.descriptor_type == EFI_CONVENTIONAL_MEMORY {
                break;
            }
            home = home + 1;
        }
        if home == n {
            return Err(Errno::ENOBUFS);
        }
        assert(home == first_home_from(old_descs, 0));
        let d = descriptors[home];
        let bitmap_address = d.physical_start;
        let pages_left = d.number_of_pages - BITMAP_SIZE_IN_PAGES as u64;
        let carved_d = EfiMemoryDescriptor {
            descriptor_type: if pages_left == 0 { EFI_UNUSABLE_MEMORY } else { d.descriptor_type },
            physical_start: d.physical_start + BITMAP_SIZE_IN_BYTES as u64,
            number_of_pages: pages_left,
            ..d
        };
        descriptors.set(home, carved_d);
        let ghost descs = descriptors@;
        assert(descs == old_descs.update(home as int, carved(old_descs[home as int])));
        proof {
            lemma_first_cross(descs, 0);
            assert(descs == carved_map(old_descs));
        }
        // every page starts in use
        let mut bitmap: Vec<u32> = Vec::new();
        let mut w: u32 = 0;
        while w < KERNEL_NEEDED_BITMAP_ENTRIES
            invariant
                w <= KERNEL_NEEDED_BITMAP_ENTRIES,
                bitmap@.len() == w,
                forall|k: int| 0 <= k < w ==> #[trigger] bitmap@[k] == 0xFFFF_FFFFu32,
            decreases KERNEL_NEEDED_BITMAP_ENTRIES - w,
        {
            bitmap.push(0xFFFF_FFFF);
            w = w + 1;
        }
        assert forall|k: int, j: int| 0 <= k < bitmap@.len() && 0 <= j < 32 implies #[trigger] page_used(bitmap@, k, j) by {
            lemma_bit32_const(j as u32);
        }
        // free the conventional memory up to the first descriptor past the limit
        let mut i: usize = 0;
        while i < n
            invariant
                n == descs.len(),
                descriptors@ == descs,
                bitmap@.len() == KERNEL_NEEDED_BITMAP_ENTRIES,
                i <= first_cross_from(descs, 0) <= n,
                first_cross_from(descs, 0) < n ==> crosses_limit(descs[first_cross_from(descs, 0)]),
                forall|j: int| 0 <= j < first_cross_from(descs, 0) ==> !crosses_limit(#[trigger] descs[j]),
                forall|ii: int|
                    0 <= ii < descs.len() && (forall|j: int| 0 <= j < ii ==> !crosses_limit(#[trigger] descs[j]))
                        && (#[trigger] descs[ii]).descriptor_type == EFI_CONVENTIONAL_MEMORY ==> descs[ii].physical_start
                        + descs[ii].number_of_pages * 0x1000 <= u64::MAX,
                forall|k: int, j: int|
                    0 <= k < KERNEL_NEEDED_BITMAP_ENTRIES && 0 <= j < 32 ==> #[trigger] page_used(bitmap@, k, j)
                        == !freed_by(descs, i as int, k, j),
            ensures
                descriptors@ == descs,
                bitmap@.len() == KERNEL_NEEDED_BITMAP_ENTRIES,
                i as int == first_cross_from(descs, 0),
                forall|k: int, j: int|
                    0 <= k < KERNEL_NEEDED_BITMAP_ENTRIES && 0 <= j < 32 ==> #[trigger] page_used(bitmap@, k, j)
                        == !freed_by(descs, i as int, k, j),
            decreases n - i,
        {
            let d = descriptors[i];
            if d.descriptor_type == EFI_CONVENTIONAL_MEMORY {
                assert(forall|j: int| 0 <= j < i ==> !crosses_limit(#[trigger] descs[j]));
                if d.physical_start + d.number_of_pages * 0x1000 > KERNEL_MAXIMUM_ALLOCATABLE_ADDRESS {
                    assert(i as int == first_cross_from(descs, 0));
                    break;
                }
                let entry = BitmapEntry::from_address(d.physical_start);
                let ghost before = bitmap@;
                entry.set_zero(&mut bitmap, d.number_of_pages as u32);
                proof {
                    assert forall|k: int, j: int|
                        0 <= k < KERNEL_NEEDED_BITMAP_ENTRIES && 0 <= j < 32 implies #[trigger] page_used(bitmap@, k, j)
                        == !freed_by(descs, i as int + 1, k, j) by {
                        if in_run(k, j, entry.first_page(), (d.number_of_pages as u32) as int) {
                            assert(descs[i as int].descriptor_type == EFI_CONVENTIONAL_MEMORY);
                            assert(freed_by(descs, i as int + 1, k, j));
                        } else {
                            assert(page_used(bitmap@, k, j) == page_used(before, k, j));
                            if freed_by(descs, i as int + 1, k, j) {
                                let w = choose|w: int| 0 <= w < i as int + 1 && (#[trigger] descs[w]).descriptor_type
                                    == EFI_CONVENTIONAL_MEMORY && in_run(
                                    k,
                                    j,
                                    entry_of(descs[w].physical_start).first_page(),
                                    (descs[w].number_of_pages as u32) as int,
                                );
                                assert(w != i);
                                assert(freed_by(descs, i as int, k, j));
                            }
                            if freed_by(descs, i as int, k, j) {
                                let w = choose|w: int| 0 <= w < i as int && (#[trigger] descs[w]).descriptor_type
                                    == EFI_CONVENTIONAL_MEMORY && in_run(
                                    k,
                                    j,
                                    entry_of(descs[w].physical_start).first_page(),
                                    (descs[w].number_of_pages as u32) as int,
                                );
                                assert(freed_by(descs, i as int + 1, k, j));
                            }
                        }
                    }
                }
            } else {
                proof {
                    assert forall|k: int, j: int|
                        0 <= k < KERNEL_NEEDED_BITMAP_ENTRIES && 0 <= j < 32 implies #[trigger] page_used(bitmap@, k, j)
                        == !freed_by(descs, i as int + 1, k, j) by {
                        if freed_by(descs, i as int + 1, k, j) {
                            let w = choose|w: int| 0 <= w < i as int + 1 && (#[trigger] descs[w]).descriptor_type
                                == EFI_CONVENTIONAL_MEMORY && in_run(
                                k,
                                j,
                                entry_of(descs[w].physical_start).first_page(),
                                (descs[w].number_of_pages as u32) as int,
                            );
                            assert(w != i);
                            assert(freed_by(descs, i as int, k, j));
                        }
                        if freed_by(descs, i as int, k, j) {
                            let w = choose|w: int| 0 <= w < i as int && (#[trigger] descs[w]).descriptor_type
                                == EFI_CONVENTIONAL_MEMORY && in_run(
                                k,
                                j,
                                entry_of(descs[w].physical_start).first_page(),
                                (descs[w].number_of_pages as u32) as int,
                            );
                            assert(freed_by(descs, i as int + 1, k, j));
                        }
                    }
                }
            }
            i = i + 1;
        }
        let ghost cut = first_cross_from(descs, 0);
        assert(i as int == cut);
        // take the pages of the kernel image again
        let allocs = image_allocations;
        let m = allocs.len();
        let mut a: usize = 0;
        while a < m
            invariant
                m == allocs@.len(),
                bitmap@.len() == KERNEL_NEEDED_BITMAP_ENTRIES,
                a <= m,
                forall|k: int, j: int|
                    0 <= k < KERNEL_NEEDED_BITMAP_ENTRIES && 0 <= j < 32 ==> #[trigger] page_used(bitmap@, k, j)
                        == (taken_by(allocs@, a as int, k, j) || !freed_by(descs, cut, k, j)),
            decreases m - a,
        {
            let ia = allocs[a];
            if ia.allocated != 0 {
                let entry = BitmapEntry::from_address(ia.allocated);
                let ghost before = bitmap@;
                entry.set_one(&mut bitmap, (ia.size / 0x1000) as u32);
                proof {
                    assert forall|k: int, j: int|
                        0 <= k < KERNEL_NEEDED_BITMAP_ENTRIES && 0 <= j < 32 implies #[trigger] page_used(bitmap@, k, j)
                        == (taken_by(allocs@, a as int + 1, k, j) || !freed_by(descs, cut, k, j)) by {
                        if in_run(k, j, entry.first_page(), ((ia.size / 0x1000) as u32) as int) {
                            assert(allocs@[a as int].allocated != 0);
                            assert(taken_by(allocs@, a as int + 1, k, j));
                        } else {
                            assert(page_used(bitmap@, k, j) == page_used(before, k, j));
                            if taken_by(allocs@, a as int + 1, k, j) {
                                let w = choose|w: int| 0 <= w < a as int + 1 && (#[trigger] allocs@[w]).allocated != 0
                                    && in_run(
                                    k,
                                    j,
                                    entry_of(allocs@[w].allocated).first_page(),
                                    ((allocs@[w].size / 0x1000) as u32) as int,
                                );
                                assert(w != a);
                                assert(taken_by(allocs@, a as int, k, j));
                            }
                            if taken_by(allocs@, a as int, k, j) {
                                let w = choose|w: int| 0 <= w < a as int && (#[trigger] allocs@[w]).allocated != 0
                                    && in_run(
                                    k,
                                    j,
                                    entry_of(allocs@[w].allocated).first_page(),
                                    ((allocs@[w].size / 0x1000) as u32) as int,
                                );
                                assert(taken_by(allocs@, a as int + 1, k, j));
                            }
                        }
                    }
                }
            } else {
                proof {
                    assert forall|k: int, j: int|
                        0 <= k < KERNEL_NEEDED_BITMAP_ENTRIES && 0 <= j < 32 implies #[trigger] page_used(bitmap@, k, j)
                        == (taken_by(allocs@, a as int + 1, k, j) || !freed_by(descs, cut, k, j)) by {
                        if taken_by(allocs@, a as int + 1, k, j) {
                            let w = choose|w: int| 0 <= w < a as int + 1 && (#[trigger] allocs@[w]).allocated != 0
                                && in_run(
                                k,
                                j,
                                entry_of(allocs@[w].allocated).first_page(),
                                ((allocs@[w].size / 0x1000) as u32) as int,
                            );
                            assert(w != a);
                            assert(taken_by(allocs@, a as int, k, j));
                        }
                        if taken_by(allocs@, a as int, k, j) {
                            let w = choose|w: int| 0 <= w < a as int && (#[trigger] allocs@[w]).allocated != 0
                                && in_run(
                                k,
                                j,
                                entry_of(allocs@[w].allocated).first_page(),
                                ((allocs@[w].size / 0x1000) as u32) as int,
                            );
                            assert(taken_by(allocs@, a as int + 1, k, j));
                        }
                    }
                }
            }
            a = a + 1;
        }
        // the start-up pages
        let entry = BitmapEntry::from_address(BOOTSTRAP_ADDRESS);
        let ghost before = bitmap@;
        entry.set_one(&mut bitmap, BOOTSTRAP_PAGES);
        let alloc = Allocator {
            bitmap,
            bitmap_entries: KERNEL_NEEDED_BITMAP_ENTRIES,
            current_entry: 0,
            addend: 0,
            faked_pages: 0,
        };
        assert forall|k: int, j: int|
            0 <= k < KERNEL_NEEDED_BITMAP_ENTRIES && 0 <= j < 32 implies #[trigger] page_used(alloc.bits(), k, j)
            == initially_used(descs, allocs@, k, j) by {
            if !in_run(k, j, entry.first_page(), BOOTSTRAP_PAGES as int) {
                assert(page_used(alloc.bits(), k, j) == page_used(before, k, j));
            }
        }
        Ok((alloc, bitmap_address))
    }
}

} // verus!
