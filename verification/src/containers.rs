//! Fixed-capacity containers of the kernel: a queue, a stack and a list
//! whose items live in memory taken from the page allocator.
//!
//! The slots that the memory holds are modelled by a `Vec`; the queue and
//! the stack keep their capacity and counters as the kernel does.
use vstd::prelude::*;
use crate::allocator::MemoryBlock;

verus! {

/// The next position of a ring of `c` slots.
proof fn lemma_ring_step(p: int, n: int, c: int)
    requires
        c > 0,
        0 <= p < c,
        0 <= n,
    ensures
        (p + n + 1) % c == ((p + n) % c + 1) % c,
        ((p + 1) % c + n) % c == (p + 1 + n) % c,
{
    vstd::arithmetic::div_mod::lemma_add_mod_noop_right(1, p + n, c);
    vstd::arithmetic::div_mod::lemma_add_mod_noop_right(n, p + 1, c);
    assert(1 + (p + n) == p + n + 1);
    assert(n + (p + 1) == p + 1 + n);
}

/// Positions `j` and `k` of the items of a ring of `c` slots, counted from
/// the same start, are different slots while both are fewer than `c`.
proof fn lemma_ring_distinct(p: int, j: int, k: int, c: int)
    requires
        c > 0,
        0 <= p < c,
        0 <= j < k < c,
    ensures
        (p + j) % c != (p + k) % c,
{
    assert((p + j) % c != (p + k) % c) by (nonlinear_arith)
        requires
            c > 0,
            0 <= p < c,
            0 <= j < k < c,
    ;
}

/// Pages that `capacity` entries of `entry_size` bytes take, and the number
/// of entries those whole pages hold, as a queue or a stack sizes itself
/// (all in 16 bits).
pub open spec fn slots_layout(capacity: u16, entry_size: u16) -> (u16, u16) {
    let bytes = capacity * entry_size;
    let pages = bytes / 0x1000 + if bytes % 0x1000 != 0 { 1int } else { 0int };
    (pages as u16, ((pages * 0x1000) / (entry_size as int)) as u16)
}

/// The pages and the rounded capacity of a queue or a stack of `capacity`
/// entries of `entry_size` bytes; the arithmetic stays in 16 bits.
pub fn slots_for(capacity: u16, entry_size: u16) -> (r: (u16, u16))
    requires
        entry_size > 0,
        capacity * entry_size <= u16::MAX,
        (slots_layout(capacity, entry_size).0 as int) * 0x1000 <= u16::MAX,
    ensures
        r == slots_layout(capacity, entry_size),
{
    let bytes = capacity * entry_size;
    let mut pages = bytes / 0x1000;
    if bytes % 0x1000 != 0 {
        pages = pages + 1;
    }
    (pages, (pages * 0x1000) / entry_size)
}

/// A first-in first-out queue over a ring of `capacity` slots: items go in
/// at the enqueue position and come out at the dequeue position, and both
/// positions advance by one modulo the capacity.
pub struct Queue<T: Copy> {
    pub slots: Vec<T>,
    pub capacity: u16,
    pub inserted: u16,
    pub current_enqueue: u16,
    pub current_dequeue: u16,
}

impl<T: Copy> Queue<T> {
    /// The items waiting in the queue, oldest first.
    pub open spec fn view_items(&self) -> Seq<T> {
        Seq::new(
            self.inserted as nat,
            |j: int| self.slots@[(self.current_dequeue + j) % (self.capacity as int)],
        )
    }

    /// The slots match the capacity, the positions lie inside them, at
    /// most `capacity` items wait, and the enqueue position is the count
    /// past the dequeue position around the ring.
    pub open spec fn wf(&self) -> bool {
        &&& self.slots@.len() == self.capacity
        &&& self.inserted <= self.capacity
        &&& self.capacity == 0 ==> self.current_enqueue == 0 && self.current_dequeue == 0
        &&& self.capacity > 0 ==> {
            &&& self.current_dequeue < self.capacity
            &&& self.current_enqueue < self.capacity
            &&& self.current_enqueue == (self.current_dequeue + self.inserted) % (self.capacity as int)
        }
    }

    /// A queue without slots.
    pub fn empty() -> (r: Self)
        ensures
            r.capacity == 0 && r.inserted == 0,
            r.current_enqueue == 0 && r.current_dequeue == 0,
            r.slots@.len() == 0,
            r.wf(),
    {
        Queue { slots: Vec::new(), capacity: 0, inserted: 0, current_enqueue: 0, current_dequeue: 0 }
    }

    /// A queue over the given slots.
    pub fn new(slots: Vec<T>) -> (r: Self)
        requires
            slots@.len() <= u16::MAX,
        ensures
            r.slots@ == slots@,
            r.capacity == slots@.len(),
            r.inserted == 0 && r.current_enqueue == 0 && r.current_dequeue == 0,
            r.wf(),
            r.view_items() == Seq::<T>::empty(),
    {
        let capacity = slots.len() as u16;
        let r = Queue { slots, capacity, inserted: 0, current_enqueue: 0, current_dequeue: 0 };
        proof {
            if capacity > 0 {
                vstd::arithmetic::div_mod::lemma_small_mod(0, capacity as nat);
            }
        }
        assert(r.view_items() =~= Seq::<T>::empty());
        r
    }

    /// Number of items in the queue.
    pub fn num_occupied(&self) -> (r: u16)
        ensures
            r == self.inserted,
    {
        self.inserted
    }

    /// Puts `val` in the slot at the enqueue position, at the back of the
    /// queue.
    pub fn enqueue(&mut self, val: T)
        requires
            old(self).wf(),
            old(self).inserted < old(self).capacity,
        ensures
            final(self).wf(),
            final(self).view_items() == old(self).view_items().push(val),
            final(self).slots@ == old(self).slots@.update(old(self).current_enqueue as int, val),
            final(self).inserted == old(self).inserted + 1,
            final(self).current_enqueue == (old(self).current_enqueue + 1) % (old(self).capacity as int),
            final(self).current_dequeue == old(self).current_dequeue,
            final(self).capacity == old(self).capacity,
    {
        let ghost q = *self;
        self.inserted = self.inserted + 1;
        let i = self.current_enqueue as usize;
        self.slots.set(i, val);
        self.current_enqueue = (self.current_enqueue + 1) % self.capacity;
        proof {
            let c = q.capacity as int;
            let d = q.current_dequeue as int;
            lemma_ring_step(d, q.inserted as int, c);
            assert forall|j: int| 0 <= j < q.inserted implies (#[trigger] self.view_items()[j]) == q.view_items()[j] by {
                lemma_ring_distinct(d, j, q.inserted as int, c);
            }
            assert(self.view_items() =~= q.view_items().push(val));
        }
    }

    /// Takes the item in the slot at the dequeue position, the front of the
    /// queue.
    pub fn dequeue(&mut self) -> (r: T)
        requires
            old(self).wf(),
            old(self).inserted > 0,
        ensures
            final(self).wf(),
            r == old(self).view_items()[0],
            final(self).view_items() == old(self).view_items().drop_first(),
            r == old(self).slots@[old(self).current_dequeue as int],
            final(self).slots@ == old(self).slots@,
            final(self).inserted == old(self).inserted - 1,
            final(self).current_dequeue == (old(self).current_dequeue + 1) % (old(self).capacity as int),
            final(self).current_enqueue == old(self).current_enqueue,
            final(self).capacity == old(self).capacity,
    {
        let ghost q = *self;
        self.inserted = self.inserted - 1;
        let r = self.slots[self.current_dequeue as usize];
        self.current_dequeue = (self.current_dequeue + 1) % self.capacity;
        proof {
            let c = q.capacity as int;
            let d = q.current_dequeue as int;
            lemma_ring_step(d, self.inserted as int, c);
            assert(d % c == d) by (nonlinear_arith)
                requires
                    0 <= d < c,
            ;
            assert forall|j: int| 0 <= j < self.inserted implies (#[trigger] self.view_items()[j]) == q.view_items()[j + 1] by {
                lemma_ring_step(d, j, c);
            }
            assert(self.view_items() =~= q.view_items().drop_first());
        }
        r
    }

    /// Drops the item at the dequeue position, the front of the queue.
    pub fn dequeue_silent(&mut self)
        requires
            old(self).wf(),
            old(self).inserted > 0,
        ensures
            final(self).wf(),
            final(self).view_items() == old(self).view_items().drop_first(),
            final(self).slots@ == old(self).slots@,
            final(self).inserted == old(self).inserted - 1,
            final(self).current_dequeue == (old(self).current_dequeue + 1) % (old(self).capacity as int),
            final(self).current_enqueue == old(self).current_enqueue,
            final(self).capacity == old(self).capacity,
    {
        let ghost q = *self;
        self.inserted = self.inserted - 1;
        self.current_dequeue = (self.current_dequeue + 1) % self.capacity;
        proof {
            let c = q.capacity as int;
            let d = q.current_dequeue as int;
            lemma_ring_step(d, self.inserted as int, c);
            assert forall|j: int| 0 <= j < self.inserted implies (#[trigger] self.view_items()[j]) == q.view_items()[j + 1] by {
                lemma_ring_step(d, j, c);
            }
            assert(self.view_items() =~= q.view_items().drop_first());
        }
    }
}

/// A last-in first-out stack over `capacity` slots.
pub struct Stack<T: Copy> {
    pub slots: Vec<T>,
    pub capacity: u16,
    pub inserted: u16,
}

impl<T: Copy> Stack<T> {
    /// The items on the stack, bottom first.
    pub open spec fn view_items(&self) -> Seq<T> {
        self.slots@.subrange(0, self.inserted as int)
    }

    /// The slots match the capacity and hold every item.
    pub open spec fn wf(&self) -> bool {
        &&& self.slots@.len() == self.capacity
        &&& self.inserted <= self.capacity
    }

    /// A stack without slots.
    pub fn empty() -> (r: Self)
        ensures
            r.capacity == 0 && r.inserted == 0,
            r.slots@.len() == 0,
            r.wf(),
    {
        Stack { slots: Vec::new(), capacity: 0, inserted: 0 }
    }

    /// A stack over the given slots.
    pub fn new(slots: Vec<T>) -> (r: Self)
        requires
            slots@.len() <= u16::MAX,
        ensures
            r.slots@ == slots@,
            r.capacity == slots@.len(),
            r.inserted == 0,
            r.wf(),
    {
        let capacity = slots.len() as u16;
        Stack { slots, capacity, inserted: 0 }
    }

    /// Number of items on the stack.
    pub fn num_occupied(&self) -> (r: u16)
        ensures
            r == self.inserted,
    {
        self.inserted
    }

    /// The slot of the top item: the last one filled, or the first slot of an empty stack.
    pub open spec fn top_index(&self) -> int {
        if self.inserted == 0 { 0 } else { self.inserted - 1 }
    }

    /// The top item (the first slot of an empty stack).
    pub fn ref_top(&self) -> (r: &T)
        requires
            self.wf(),
            self.capacity > 0,
        ensures
            *r == self.slots@[self.top_index()],
    {
        let i: u16 = if self.inserted != 0 { self.inserted - 1 } else { 0 };
        &self.slots[i as usize]
    }

    /// Puts `val` on the stack; a full stack is left out by the precondition.
    pub fn push(&mut self, val: T)
        requires
            old(self).wf(),
            old(self).inserted + 1 <= old(self).capacity,
        ensures
            final(self).wf(),
            final(self).capacity == old(self).capacity,
            final(self).inserted == old(self).inserted + 1,
            final(self).slots@ == old(self).slots@.update(old(self).inserted as int, val),
            final(self).view_items() == old(self).view_items().push(val),
    {
        let i = self.inserted as usize;
        self.slots.set(i, val);
        self.inserted = self.inserted + 1;
        assert(self.view_items() =~= old(self).view_items().push(val));
    }

    /// Drops the top item; an empty stack is left out by the precondition.
    pub fn pop_silent(&mut self)
        requires
            old(self).wf(),
            old(self).inserted > 0,
        ensures
            final(self).wf(),
            final(self).slots@ == old(self).slots@,
            final(self).capacity == old(self).capacity,
            final(self).inserted == old(self).inserted - 1,
            final(self).view_items() == old(self).view_items().drop_last(),
    {
        self.inserted = self.inserted - 1;
        assert(self.view_items() =~= old(self).view_items().drop_last());
    }

    /// Takes the top item; an empty stack is left out by the precondition.
    pub fn pop(&mut self) -> (r: T)
        requires
            old(self).wf(),
            old(self).inserted > 0,
        ensures
            final(self).wf(),
            r == old(self).view_items().last(),
            final(self).slots@ == old(self).slots@,
            final(self).capacity == old(self).capacity,
            final(self).inserted == old(self).inserted - 1,
            final(self).view_items() == old(self).view_items().drop_last(),
    {
        let r = self.slots[(self.inserted - 1) as usize];
        self.inserted = self.inserted - 1;
        assert(self.view_items() =~= old(self).view_items().drop_last());
        r
    }
}

/// A pop after a push gives the pushed item back and leaves the stack as it was.
pub proof fn lemma_stack_push_pop<T: Copy>(s: Stack<T>, pushed: Stack<T>, popped: Stack<T>, val: T, r: T)
    requires
        s.wf(),
        pushed.wf(),
        pushed.view_items() == s.view_items().push(val),
        pushed.inserted == s.inserted + 1,
        r == pushed.view_items().last(),
        popped.view_items() == pushed.view_items().drop_last(),
    ensures
        r == val,
        popped.view_items() == s.view_items(),
{
    assert(s.view_items().push(val).drop_last() =~= s.view_items());
}

/// A list of `entries` items laid out in a block of memory.
pub struct List<T> {
    pub memory: MemoryBlock,
    pub items: Vec<T>,
    pub entries: u32,
}

impl<T> List<T> {
    /// A list with no memory and no entries.
    pub fn empty() -> (r: Self)
        ensures
            r.memory.base == 0 && r.memory.length == 0,
            r.items@.len() == 0,
            r.entries == 0,
    {
        List { memory: MemoryBlock::empty(), items: Vec::new(), entries: 0 }
    }

    /// Number of entries.
    pub fn size(&self) -> (r: u32)
        ensures
            r == self.entries,
    {
        self.entries
    }

    /// The entry at `index`, or `None` when `index` is past the number of
    /// entries. The index equal to the number of entries is accepted too
    /// and gives the slot after the last entry, which must then exist.
    pub fn ref_const(&self, index: u32) -> (r: Option<&T>)
        requires
            index <= self.entries ==> index < self.items@.len(),
        ensures
            index > self.entries ==> r is None,
            index <= self.entries ==> r == Some(&self.items@[index as int]),
    {
        if index > self.entries {
            None
        } else {
            Some(&self.items[index as usize])
        }
    }

    /// The list of `entries` items held in `memory`, whose slots hold `items`.
    pub fn new(memory: MemoryBlock, items: Vec<T>, entries: u32) -> (r: Self)
        ensures
            r.memory == memory,
            r.items@ == items@,
            r.entries == entries,
    {
        List { memory, items, entries }
    }
}

/// Address of the last item of the `len` items of type `T` from `base`.
pub fn slice_end_address<T>(base: u64, len: u64) -> (r: u64)
    requires
        len > 0,
        base + (len - 1) * vstd::layout::size_of::<T>() <= u64::MAX,
    ensures
        r == base + (len - 1) * vstd::layout::size_of::<T>(),
{
    let size = core::mem::size_of::<T>() as u64;
    assert((len - 1) * size <= u64::MAX) by (nonlinear_arith)
        requires
            base + (len - 1) * size <= u64::MAX,
            base >= 0,
    ;
    base + (len - 1) * size
}

} // verus!
