//! The pages of physical memory that hold page tables.
//!
//! Each page-table page is known by its physical address and holds 512
//! entries. A page taken from the allocator for a new table is zeroed,
//! which makes it a table of empty entries; a table page given back to the
//! allocator stops being a table.
use vstd::prelude::*;

verus! {

/// Entries of a page table.
pub const TABLE_ENTRIES: usize = 512;

/// The entries of a freshly zeroed table.
pub open spec fn zero_table() -> Seq<u64> {
    Seq::new(TABLE_ENTRIES as nat, |i: int| 0u64)
}

/// A table can stand at `a`: a page-aligned address below the last page of
/// the address space.
pub open spec fn table_address_ok(a: u64) -> bool {
    a & 0xFFFu64 == 0 && a < 0xFFFF_FFFF_FFFF_F000u64
}

proof fn lemma_slot_range(k: int, n: int)
    requires
        0 <= k < n,
    ensures
        512 * k + 512 <= 512 * n,
{
    assert(512 * k + 512 <= 512 * n) by (nonlinear_arith)
        requires
            k < n,
    ;
}

/// The page-table pages of physical memory.
pub struct PageTableMemory {
    addresses: Vec<Option<u64>>,
    entries: Vec<u64>,
}

impl PageTableMemory {
    spec fn slot_has(&self, k: int, a: u64) -> bool {
        0 <= k < self.addresses@.len() && self.addresses@[k] == Some(a)
    }

    spec fn holds(&self, a: u64) -> bool {
        exists|k: int| self.slot_has(k, a)
    }

    spec fn slot(&self, a: u64) -> int {
        choose|k: int| self.slot_has(k, a)
    }

    spec fn table_in_slot(&self, k: int) -> Seq<u64> {
        self.entries@.subrange(512 * k, 512 * k + 512)
    }

    /// The tables by address.
    pub closed spec fn view(&self) -> Map<u64, Seq<u64>> {
        Map::new(|a: u64| self.holds(a), |a: u64| self.table_in_slot(self.slot(a)))
    }

    /// Every slot holds 512 entries, no two tables share an address, and
    /// every table stands at an address where a table can stand.
    pub closed spec fn wf(&self) -> bool {
        &&& self.entries@.len() == 512 * self.addresses@.len()
        &&& forall|i: int, j: int|
            0 <= i < j < self.addresses@.len() && (#[trigger] self.addresses@[i]) is Some
                ==> self.addresses@[i] != #[trigger] self.addresses@[j]
        &&& forall|i: int|
            0 <= i < self.addresses@.len() && (#[trigger] self.addresses@[i]) is Some
                ==> table_address_ok(self.addresses@[i]->0)
    }

    proof fn lemma_slot(&self, k: int, a: u64)
        requires
            self.wf(),
            self.slot_has(k, a),
        ensures
            self.slot(a) == k,
            self@.contains_key(a),
            self@[a] == self.table_in_slot(k),
    {
        let c = self.slot(a);
        assert(self.slot_has(c, a));
        if c < k {
            assert(self.addresses@[c] != self.addresses@[k]);
        } else if k < c {
            assert(self.addresses@[k] != self.addresses@[c]);
        }
    }

    /// In a well-formed memory every table has 512 entries and stands at
    /// an address where a table can stand.
    pub proof fn lemma_tables(&self)
        requires
            self.wf(),
        ensures
            forall|a: u64| #[trigger] self@.contains_key(a) ==> self@[a].len() == 512
                && table_address_ok(a),
    {
        assert forall|a: u64| #[trigger] self@.contains_key(a) implies self@[a].len() == 512
            && table_address_ok(a) by {
            let k = self.slot(a);
            assert(self.slot_has(k, a));
            self.lemma_slot(k, a);
            assert(self.addresses@[k] is Some);
        }
    }

    /// A memory with no tables.
    pub fn new() -> (r: Self)
        ensures
            r.wf(),
            r@ == Map::<u64, Seq<u64>>::empty(),
    {
        let r = PageTableMemory { addresses: Vec::new(), entries: Vec::new() };
        assert(r@ =~= Map::<u64, Seq<u64>>::empty());
        r
    }

    fn find(&self, a: u64) -> (r: Option<usize>)
        requires
            self.wf(),
        ensures
            r matches Some(k) ==> self.slot_has(k as int, a),
            r is None ==> !self@.contains_key(a),
    {
        let mut k: usize = 0;
        while k < self.addresses.len()
            invariant
                k <= self.addresses@.len(),
                forall|j: int| 0 <= j < k ==> !self.slot_has(j, a),
            decreases self.addresses@.len() - k,
        {
            if self.addresses[k] == Some(a) {
                return Some(k);
            }
            k = k + 1;
        }
        proof {
            if self@.contains_key(a) {
                let c = self.slot(a);
                assert(self.slot_has(c, a));
            }
        }
        None
    }

    /// Whether a table stands at `a`.
    pub fn has_table(&self, a: u64) -> (r: bool)
        requires
            self.wf(),
        ensures
            r == self@.contains_key(a),
    {
        match self.find(a) {
            Some(k) => {
                proof {
                    self.lemma_slot(k as int, a);
                }
                true
            },
            None => false,
        }
    }

    /// Entry `index` of the table at `a`.
    pub fn read(&self, a: u64, index: usize) -> (r: u64)
        requires
            self.wf(),
            self@.contains_key(a),
            index < TABLE_ENTRIES,
        ensures
            r == self@[a][index as int],
    {
        let k = self.find(a).unwrap();
        proof {
            self.lemma_slot(k as int, a);
            lemma_slot_range(k as int, self.addresses@.len() as int);
        }
        let _n = self.entries.len();
        self.entries[512 * k + index]
    }

    /// Sets entry `index` of the table at `a` to `value`.
    pub fn write(&mut self, a: u64, index: usize, value: u64)
        requires
            old(self).wf(),
            old(self)@.contains_key(a),
            index < TABLE_ENTRIES,
        ensures
            final(self).wf(),
            final(self)@ == old(self)@.insert(a, old(self)@[a].update(index as int, value)),
    {
        let k = self.find(a).unwrap();
        let ghost before = *self;
        proof {
            self.lemma_slot(k as int, a);
            lemma_slot_range(k as int, self.addresses@.len() as int);
        }
        let _n = self.entries.len();
        self.entries.set(512 * k + index, value);
        proof {
            self.lemma_slot(k as int, a);
            assert(self@[a] =~= before@[a].update(index as int, value));
            assert forall|b: u64| #[trigger] self@.contains_key(b) && b != a implies self@[b]
                == before@[b] by {
                let c = self.slot(b);
                assert(self.slot_has(c, b));
                assert(before.slot_has(c, b));
                before.lemma_slot(c, b);
                self.lemma_slot(c, b);
                assert(c != k as int);
                assert(self.table_in_slot(c) =~= before.table_in_slot(c)) by {
                    if c < k {
                        assert(512 * c + 512 <= 512 * k) by (nonlinear_arith)
                            requires
                                c < k,
                        ;
                    } else {
                        assert(512 * k + 512 <= 512 * c) by (nonlinear_arith)
                            requires
                                k < c,
                        ;
                    }
                }
            }
            assert forall|b: u64| #[trigger] self@.contains_key(b) == before@.contains_key(b) by {
                if self.holds(b) {
                    let c = self.slot(b);
                    assert(self.slot_has(c, b));
                    assert(before.slot_has(c, b));
                }
                if before.holds(b) {
                    let c = before.slot(b);
                    assert(before.slot_has(c, b));
                    assert(self.slot_has(c, b));
                }
            }
            assert(self@.dom() =~= before@.insert(a, before@[a].update(index as int, value)).dom());
            assert(self@ =~= before@.insert(a, before@[a].update(index as int, value)));
        }
    }

    /// Zeroes the page at `a`: afterwards a table of empty entries stands
    /// there, whatever the page held before.
    pub fn zero_page(&mut self, a: u64)
        requires
            old(self).wf(),
            table_address_ok(a),
        ensures
            final(self).wf(),
            final(self)@ == old(self)@.insert(a, zero_table()),
    {
        let ghost before = *self;
        match self.find(a) {
            Some(k) => {
                proof {
                    self.lemma_slot(k as int, a);
                    lemma_slot_range(k as int, self.addresses@.len() as int);
                }
                let n = self.entries.len();
                let mut j: usize = 0;
                while j < TABLE_ENTRIES
                    invariant
                        j <= TABLE_ENTRIES,
                        n == self.entries@.len(),
                        512 * k + 512 <= n,
                        self.addresses@ == before.addresses@,
                        self.entries@.len() == before.entries@.len(),
                        forall|i: int| 512 * k <= i < 512 * k + j ==> self.entries@[i] == 0,
                        forall|i: int|
                            0 <= i < n && !(512 * k <= i < 512 * k + j) ==> self.entries@[i]
                                == before.entries@[i],
                    decreases TABLE_ENTRIES - j,
                {
                    self.entries.set(512 * k + j, 0);
                    j = j + 1;
                }
                proof {
                    self.lemma_slot(k as int, a);
                    assert(self.table_in_slot(k as int) =~= zero_table());
                    self.lemma_same_slots(&before, a, k as int);
                    assert(self@ =~= before@.insert(a, zero_table()));
                }
            },
            None => {
                let old_len = self.addresses.len();
                proof {
                    lemma_slot_range(old_len as int, old_len as int + 1);
                }
                self.addresses.push(Some(a));
                let mut j: usize = 0;
                while j < TABLE_ENTRIES
                    invariant
                        j <= TABLE_ENTRIES,
                        old_len == before.addresses@.len(),
                        self.addresses@ == before.addresses@.push(Some(a)),
                        self.entries@.len() == before.entries@.len() + j,
                        before.entries@.len() == 512 * old_len,
                        self.entries@.subrange(0, before.entries@.len() as int)
                            == before.entries@,
                        forall|i: int|
                            before.entries@.len() <= i < self.entries@.len() ==> self.entries@[i]
                                == 0,
                    decreases TABLE_ENTRIES - j,
                {
                    let ghost prev = self.entries@;
                    self.entries.push(0);
                    assert(self.entries@.subrange(0, before.entries@.len() as int)
                        =~= prev.subrange(0, before.entries@.len() as int));
                    j = j + 1;
                }
                proof {
                    assert(self.slot_has(old_len as int, a));
                    assert forall|i: int, j: int|
                        0 <= i < j < self.addresses@.len() && (#[trigger] self.addresses@[i]) is Some
                            implies self.addresses@[i] != #[trigger] self.addresses@[j] by {
                        if j == old_len as int {
                            assert(before.slot_has(i, self.addresses@[i]->0));
                            if self.addresses@[i] == Some(a) {
                                assert(before.slot_has(i, a));
                            }
                        }
                    }
                    self.lemma_slot(old_len as int, a);
                    assert(self.table_in_slot(old_len as int) =~= zero_table());
                    assert forall|b: u64| #[trigger] self@.contains_key(b) && b != a implies before@.contains_key(b)
                        && self@[b] == before@[b] by {
                        let c = self.slot(b);
                        assert(self.slot_has(c, b));
                        assert(c != old_len as int);
                        assert(before.slot_has(c, b));
                        before.lemma_slot(c, b);
                        self.lemma_slot(c, b);
                        lemma_slot_range(c, old_len as int);
                        assert(self.table_in_slot(c) =~= before.table_in_slot(c)) by {
                            assert forall|i: int| 0 <= i < 512 implies #[trigger] self.entries@[512 * c + i]
                                == before.entries@[512 * c + i] by {
                                assert(self.entries@.subrange(0, before.entries@.len() as int)[512 * c + i]
                                    == before.entries@[512 * c + i]);
                            }
                        }
                    }
                    assert forall|b: u64| #[trigger] before@.contains_key(b) implies self@.contains_key(b) by {
                        let c = before.slot(b);
                        assert(before.slot_has(c, b));
                        assert(self.slot_has(c, b));
                    }
                    assert(self@.dom() =~= before@.insert(a, zero_table()).dom());
                    assert(self@ =~= before@.insert(a, zero_table()));
                }
            },
        }
    }

    /// Slots other than `k` are as they were: the tables at other addresses
    /// are unchanged when only slot `k`, which holds `a`, was rewritten.
    proof fn lemma_same_slots(&self, before: &Self, a: u64, k: int)
        requires
            self.wf(),
            before.wf(),
            self.addresses@ == before.addresses@,
            before.slot_has(k, a),
            self.entries@.len() == before.entries@.len(),
            forall|i: int|
                0 <= i < self.entries@.len() && !(512 * k <= i < 512 * k + 512) ==> self.entries@[i]
                    == before.entries@[i],
        ensures
            self@.dom() == before@.dom(),
            forall|b: u64| #[trigger] self@.contains_key(b) && b != a ==> self@[b] == before@[b],
    {
        assert forall|b: u64| #[trigger] self@.contains_key(b) == before@.contains_key(b) by {
            if self.holds(b) {
                let c = self.slot(b);
                assert(self.slot_has(c, b));
                assert(before.slot_has(c, b));
            }
            if before.holds(b) {
                let c = before.slot(b);
                assert(before.slot_has(c, b));
                assert(self.slot_has(c, b));
            }
        }
        assert(self@.dom() =~= before@.dom());
        assert forall|b: u64| #[trigger] self@.contains_key(b) && b != a implies self@[b]
            == before@[b] by {
            let c = self.slot(b);
            assert(self.slot_has(c, b));
            assert(before.slot_has(c, b));
            before.lemma_slot(c, b);
            self.lemma_slot(c, b);
            before.lemma_slot(k, a);
            assert(c != k);
            lemma_slot_range(c, self.addresses@.len() as int);
            assert(self.table_in_slot(c) =~= before.table_in_slot(c)) by {
                if c < k {
                    assert(512 * c + 512 <= 512 * k) by (nonlinear_arith)
                        requires
                            c < k,
                    ;
                } else {
                    assert(512 * k + 512 <= 512 * c) by (nonlinear_arith)
                        requires
                            k < c,
                    ;
                }
            }
        }
    }

    /// Gives the page at `a` back: no table stands there any more.
    pub fn forget(&mut self, a: u64)
        requires
            old(self).wf(),
        ensures
            final(self).wf(),
            final(self)@ == old(self)@.remove(a),
    {
        let ghost before = *self;
        match self.find(a) {
            Some(k) => {
                self.addresses.set(k, None);
                proof {
                    assert forall|b: u64| #[trigger] self@.contains_key(b) == (before@.contains_key(b) && b != a) by {
                        if self.holds(b) {
                            let c = self.slot(b);
                            assert(self.slot_has(c, b));
                            assert(before.slot_has(c, b));
                        }
                        if before.holds(b) && b != a {
                            let c = before.slot(b);
                            assert(before.slot_has(c, b));
                            assert(self.slot_has(c, b));
                        }
                    }
                    assert forall|b: u64| #[trigger] self@.contains_key(b) implies self@[b] == before@[b] by {
                        let c = self.slot(b);
                        assert(self.slot_has(c, b));
                        assert(before.slot_has(c, b));
                        before.lemma_slot(c, b);
                    }
                    assert(self@ =~= before@.remove(a));
                }
            },
            None => {
                assert(self@ =~= before@.remove(a));
            },
        }
    }
}

} // verus!
