//! The mark table: a hash table that counts references to keys, in
//! buckets of key/count pairs.
use vstd::prelude::*;
use vstd::wrapping::u64_specs::wrapping_add;

verus! {

/// A bucket: its pair slots and how many of them hold pairs.
pub struct MarkTableBucket {
    pub pairs: Vec<(u32, u32)>,
    pub used: u32,
}

/// Most pair slots that a bucket grows to.
pub const MAXIMUM_REFERENCES: usize = 8;

impl MarkTableBucket {
    /// The pairs in use.
    pub open spec fn used_pairs(&self) -> Seq<(u32, u32)> {
        self.pairs@.subrange(0, self.used as int)
    }

    /// The used slots lie in the bucket.
    pub open spec fn wf(&self) -> bool {
        self.used <= self.pairs@.len() && self.pairs@.len() <= u32::MAX
    }

    /// Every slot holds a pair.
    pub fn is_full(&self) -> (r: bool)
        requires
            self.wf(),
        ensures
            r == (self.used == self.pairs@.len()),
    {
        self.used == self.pairs.len() as u32
    }

    /// The bucket may get more slots.
    pub fn can_grow(&self) -> (r: bool)
        ensures
            r == (self.pairs@.len() != MAXIMUM_REFERENCES),
    {
        self.pairs.len() != MAXIMUM_REFERENCES
    }

    /// Some pair in use has key `key`.
    pub fn contains(&self, key: u32) -> (r: bool)
        requires
            self.wf(),
        ensures
            r == exists|i: int| 0 <= i < self.used && (#[trigger] self.pairs@[i]).0 == key,
    {
        let mut i: usize = 0;
        while i < self.used as usize
            invariant
                self.wf(),
                i <= self.used,
                forall|j: int| 0 <= j < i ==> (#[trigger] self.pairs@[j]).0 != key,
            decreases self.used - i,
        {
            if self.pairs[i].0 == key {
                return true;
            }
            i = i + 1;
        }
        false
    }

    /// Puts `reference` in the first free slot; a full bucket is left out.
    pub fn append_pair(&mut self, reference: (u32, u32))
        requires
            old(self).wf(),
            old(self).used < old(self).pairs@.len(),
        ensures
            final(self).wf(),
            final(self).pairs@ == old(self).pairs@.update(old(self).used as int, reference),
            final(self).used == old(self).used + 1,
            final(self).used_pairs() == old(self).used_pairs().push(reference),
    {
        let i = self.used as usize;
        self.pairs.set(i, reference);
        self.used = self.used + 1;
        assert(self.used_pairs() =~= old(self).used_pairs().push(reference));
    }

    /// The pairs in use, in order, for a caller to go through. The pairs
    /// are copies: the bucket does not change.
    pub fn foreach_mut(&mut self) -> (r: Vec<(u32, u32)>)
        requires
            old(self).wf(),
        ensures
            r@ == old(self).used_pairs(),
            final(self).pairs@ == old(self).pairs@,
            final(self).used == old(self).used,
    {
        self.foreach()
    }

    /// The pairs in use, in order, for a caller to go through.
    pub fn foreach(&self) -> (r: Vec<(u32, u32)>)
        requires
            self.wf(),
        ensures
            r@ == self.used_pairs(),
    {
        let mut r: Vec<(u32, u32)> = Vec::new();
        let mut i: usize = 0;
        while i < self.used as usize
            invariant
                self.wf(),
                i <= self.used,
                r@ == self.pairs@.subrange(0, i as int),
            decreases self.used - i,
        {
            r.push(self.pairs[i]);
            i = i + 1;
            assert(r@ =~= self.pairs@.subrange(0, i as int));
        }
        r
    }
}

/// The hash of key `fi`, a mix of shifts and wrapping additions, and-ed
/// with `size` (not `size - 1`): for a power of two it is 0 or `size`.
pub open spec fn mark_hash(fi: u32, size: u32) -> u32 {
    let k0 = fi as u64;
    let k1 = wrapping_add(!k0, k0 << 15u64);
    let k2 = k1 ^ (k1 >> 10u64);
    let k3 = wrapping_add(k2, k2 << 3u64);
    let k4 = k3 ^ (k3 >> 6u64);
    let k5 = wrapping_add(!k4, k4 << 11u64);
    let k6 = k5 ^ (k5 >> 16u64);
    (k6 & (size as u64)) as u32
}

/// The result of an operation on the mark table.
#[derive(Clone, Copy, PartialEq, Eq, Structural, Debug)]
pub enum MarkTableResult {
    Success,
    ValueKeyReallocationRequired,
    RehashRequired,
    NotFound,
}

/// The mark table: its pair slots, its buckets, and the number of pair slots in use.
pub struct MarkTable {
    pub pairs: Vec<(u32, u32)>,
    pub buckets: Vec<MarkTableBucket>,
    pub num_pairs: u32,
}

impl MarkTable {
    /// The hash of key `fi` for `size` buckets.
    pub fn hash(fi: u32, size: u32) -> (r: u32)
        ensures
            r == mark_hash(fi, size),
    {
        let mut key = fi as u64;
        key = (!key).wrapping_add(key << 15);
        key = key ^ (key >> 10);
        key = key.wrapping_add(key << 3);
        key = key ^ (key >> 6);
        key = (!key).wrapping_add(key << 11);
        key = key ^ (key >> 16);
        (key & (size as u64)) as u32
    }

    /// Whether key `fi` is in its bucket. A key whose hash is the number
    /// of buckets itself names no bucket and is left out.
    pub fn contains(&self, fi: u32) -> (r: bool)
        requires
            self.buckets@.len() <= u32::MAX,
            mark_hash(fi, self.buckets@.len() as u32) < self.buckets@.len(),
            self.buckets@[mark_hash(fi, self.buckets@.len() as u32) as int].wf(),
        ensures
            r == exists|i: int|
                0 <= i < self.buckets@[mark_hash(fi, self.buckets@.len() as u32) as int].used
                    && (#[trigger] self.buckets@[mark_hash(
                    fi,
                    self.buckets@.len() as u32,
                ) as int].pairs@[i]).0 == fi,
    {
        let index = MarkTable::hash(fi, self.buckets.len() as u32);
        self.buckets[index as usize].contains(fi)
    }

    /// Looks key `fi` up: `Success` when its bucket holds it, `NotFound`
    /// otherwise. The count is handed on as a copy and is not raised: the
    /// table does not change.
    pub fn increase(&mut self, fi: u32) -> (r: MarkTableResult)
        requires
            old(self).buckets@.len() <= u32::MAX,
            mark_hash(fi, old(self).buckets@.len() as u32) < old(self).buckets@.len(),
            old(self).buckets@[mark_hash(fi, old(self).buckets@.len() as u32) as int].wf(),
        ensures
            final(self).buckets@ == old(self).buckets@,
            final(self).pairs@ == old(self).pairs@,
            final(self).num_pairs == old(self).num_pairs,
            r == if exists|i: int|
                0 <= i < old(self).buckets@[mark_hash(fi, old(self).buckets@.len() as u32) as int].used
                    && (#[trigger] old(self).buckets@[mark_hash(
                    fi,
                    old(self).buckets@.len() as u32,
                ) as int].pairs@[i]).0 == fi {
                MarkTableResult::Success
            } else {
                MarkTableResult::NotFound
            },
    {
        let index = MarkTable::hash(fi, self.buckets.len() as u32);
        let pairs = self.buckets[index as usize].foreach();
        let mut ret = MarkTableResult::NotFound;
        let mut i: usize = 0;
        while i < pairs.len()
            invariant
                i <= pairs@.len(),
                ret == MarkTableResult::NotFound || ret == MarkTableResult::Success,
                ret == MarkTableResult::Success <==> exists|j: int| 0 <= j < i && (#[trigger] pairs@[j]).0 == fi,
            decreases pairs@.len() - i,
        {
            if pairs[i].0 == fi {
                ret = MarkTableResult::Success;
            }
            i = i + 1;
        }
        proof {
            let b = self.buckets@[index as int];
            if exists|j: int| 0 <= j < b.used && (#[trigger] b.pairs@[j]).0 == fi {
                let j = choose|j: int| 0 <= j < b.used && (#[trigger] b.pairs@[j]).0 == fi;
                assert(pairs@[j] == b.pairs@[j]);
            }
            if ret == MarkTableResult::Success {
                let j = choose|j: int| 0 <= j < pairs@.len() && (#[trigger] pairs@[j]).0 == fi;
                assert(pairs@[j] == b.pairs@[j]);
            }
        }
        ret
    }
}

} // verus!
