//! Pools of items kept in pages taken from the page allocator: a pool of
//! fixed capacity, a growable pool, and the nodes with which the node
//! allocator records free and reserved runs.
use vstd::prelude::*;
use crate::allocator::{alloc_outcome, free_outcome, Allocator, MemoryBlock};
use crate::containers::List;
use crate::memory::MemoryResult;

verus! {

/// Pages that a pool of `bytes` bytes asks for: the whole pages in it,
/// cut to 16 bits, and one more for a partly filled page.
pub open spec fn pool_pages(bytes: u32) -> int {
    ((bytes / 0x1000) as u16) as int + if bytes % 0x1000 != 0 { 1int } else { 0int }
}

/// Size of a `T`, cut to 32 bits as the pools compute it.
pub open spec fn item_size<T>() -> u32 {
    vstd::layout::size_of::<T>() as u32
}

/// Pages and capacity of a pool asked for `capacity` items of `size` bytes:
/// the capacity becomes the number of items that the pages hold.
fn pool_layout(capacity: u32, size: u32) -> (r: (u16, u32))
    requires
        size > 0,
        capacity * size <= u32::MAX,
        pool_pages((capacity * size) as u32) <= u16::MAX,
    ensures
        r.0 == pool_pages((capacity * size) as u32),
        r.1 == (r.0 * 0x1000) / (size as int),
{
    let bytes = capacity * size;
    let mut pages: u16 = 0;
    if bytes % 0x1000 != 0 {
        pages = pages + 1;
    }
    pages = pages + ((bytes / 0x1000) as u16);
    (pages, (pages as u32) * 0x1000 / size)
}

/// A pool of at most `capacity` items in pages of its own.
pub struct PageAllocator<T> {
    pub memory: MemoryBlock,
    pub items: Vec<T>,
    pub allocated: u32,
    pub capacity: u32,
}

impl<T> PageAllocator<T> {
    /// The items hold what was pushed, and no more than the capacity.
    pub open spec fn wf(&self) -> bool {
        self.items@.len() == self.allocated && self.allocated <= self.capacity
    }

    /// A pool without memory.
    pub fn empty() -> (r: Self)
        ensures
            r.memory.base == 0 && r.memory.length == 0,
            r.items@.len() == 0,
            r.allocated == 0 && r.capacity == 0,
            r.wf(),
    {
        PageAllocator { memory: MemoryBlock::empty(), items: Vec::new(), allocated: 0, capacity: 0 }
    }

    /// Empties the pool and gives its pages back. A pool at address 0 owns
    /// no pages; otherwise the result is the error of `free`, if any, and
    /// the pool forgets its memory only when the pages were released.
    pub fn free(&mut self, allocator: &mut Allocator) -> (r: Option<MemoryResult>)
        requires
            old(allocator).wf(),
            old(self).memory.base + old(self).memory.length <= u64::MAX,
        ensures
            final(self).capacity == 0 && final(self).allocated == 0,
            final(self).items@.len() == 0,
            final(allocator).wf(),
            old(self).memory.base == 0 ==> r is None && final(self).memory == old(self).memory
                && *final(allocator) == *old(allocator),
            old(self).memory.base != 0 ==> {
                &&& free_outcome(
                    *old(allocator),
                    *final(allocator),
                    old(self).memory,
                    match r {
                        None => Ok::<(), MemoryResult>(()),
                        Some(e) => Err(e),
                    },
                )
                &&& r is None ==> final(self).memory.base == 0 && final(self).memory.length == 0
                &&& r is Some ==> final(self).memory == old(self).memory
            },
    {
        self.capacity = 0;
        self.allocated = 0;
        self.items = Vec::new();
        if self.memory.get_base() == 0 {
            return None;
        }
        match allocator.free(&self.memory) {
            Ok(_) => {},
            Err(e) => {
                return Some(e);
            },
        }
        self.memory = MemoryBlock::empty();
        None
    }

    /// A pool for `capacity` items: takes the pages they need from
    /// `allocator` and rounds the capacity up to what the pages hold. The
    /// error is that of the allocator.
    pub fn new(allocator: &mut Allocator, capacity: u32) -> (r: Result<Self, MemoryResult>)
        requires
            old(allocator).wf(),
            item_size::<T>() > 0,
            capacity * item_size::<T>() <= u32::MAX,
            pool_pages((capacity * item_size::<T>()) as u32) <= u16::MAX,
        ensures
            final(allocator).wf(),
            alloc_outcome(
                *old(allocator),
                *final(allocator),
                pool_pages((capacity * item_size::<T>()) as u32),
                match r {
                    Ok(p) => Ok(p.memory),
                    Err(e) => Err(e),
                },
            ),
            r matches Ok(p) ==> p.wf() && p.allocated == 0 && p.capacity == (pool_pages(
                (capacity * item_size::<T>()) as u32,
            ) * 0x1000) / (item_size::<T>() as int),
    {
        let size = core::mem::size_of::<T>() as u32;
        let (pages, cap) = pool_layout(capacity, size);
        match allocator.alloc_pages(pages) {
            Ok(memory) => Ok(PageAllocator { memory, items: Vec::new(), allocated: 0, capacity: cap }),
            Err(e) => Err(e),
        }
    }

    /// Appends `data` if there is room; says whether it did.
    pub fn push_back(&mut self, data: T) -> (r: bool)
        requires
            old(self).wf(),
            old(self).allocated < u32::MAX,
        ensures
            final(self).wf(),
            final(self).memory == old(self).memory,
            final(self).capacity == old(self).capacity,
            r == (old(self).allocated + 1 <= old(self).capacity),
            r ==> final(self).items@ == old(self).items@.push(data) && final(self).allocated
                == old(self).allocated + 1,
            !r ==> final(self).items@ == old(self).items@ && final(self).allocated
                == old(self).allocated,
    {
        if self.allocated + 1 > self.capacity {
            return false;
        }
        self.items.push(data);
        self.allocated = self.allocated + 1;
        true
    }

    /// The item at `index`, or `None` past the number of items. The index
    /// equal to the number of items names the free slot after the last item
    /// and is left out.
    pub fn as_ref(&self, index: u32) -> (r: Option<&T>)
        requires
            self.wf(),
            index != self.allocated,
        ensures
            index > self.allocated ==> r is None,
            index < self.allocated ==> r == Some(&self.items@[index as int]),
    {
        if index > self.allocated {
            return None;
        }
        Some(&self.items[index as usize])
    }

    /// Number of items.
    pub fn size(&self) -> (r: u32)
        ensures
            r == self.allocated,
    {
        self.allocated
    }
}

/// A pool that doubles its pages when it is full.
pub struct DynamicAllocator<T> {
    pub memory: MemoryBlock,
    pub items: Vec<T>,
    pub allocated: u32,
    pub capacity: u32,
}

impl<T> DynamicAllocator<T> {
    /// The items hold what was pushed.
    pub open spec fn wf(&self) -> bool {
        self.items@.len() == self.allocated
    }

    /// The items as a list over the pool's memory.
    pub fn to_list(self) -> (r: List<T>)
        ensures
            r.memory == self.memory,
            r.items@ == self.items@,
            r.entries == self.allocated,
    {
        List::new(self.memory, self.items, self.allocated)
    }

    /// Number of items.
    pub fn size(&self) -> (r: u32)
        ensures
            r == self.allocated,
    {
        self.allocated
    }

    /// A pool for `capacity` items, laid out as `PageAllocator::new` does.
    pub fn new(allocator: &mut Allocator, capacity: u32) -> (r: Result<Self, MemoryResult>)
        requires
            old(allocator).wf(),
            item_size::<T>() > 0,
            capacity * item_size::<T>() <= u32::MAX,
            pool_pages((capacity * item_size::<T>()) as u32) <= u16::MAX,
        ensures
            final(allocator).wf(),
            alloc_outcome(
                *old(allocator),
                *final(allocator),
                pool_pages((capacity * item_size::<T>()) as u32),
                match r {
                    Ok(p) => Ok(p.memory),
                    Err(e) => Err(e),
                },
            ),
            r matches Ok(p) ==> p.wf() && p.allocated == 0 && p.capacity == (pool_pages(
                (capacity * item_size::<T>()) as u32,
            ) * 0x1000) / (item_size::<T>() as int),
    {
        let size = core::mem::size_of::<T>() as u32;
        let (pages, cap) = pool_layout(capacity, size);
        match allocator.alloc_pages(pages) {
            Ok(memory) => Ok(DynamicAllocator { memory, items: Vec::new(), allocated: 0, capacity: cap }),
            Err(e) => Err(e),
        }
    }

    /// The item at `index`, or `None` past the number of items; the index
    /// equal to the number of items is left out, as for `PageAllocator::as_ref`.
    pub fn ref_const(&self, index: u32) -> (r: Option<&T>)
        requires
            self.wf(),
            index != self.allocated,
        ensures
            index > self.allocated ==> r is None,
            index < self.allocated ==> r == Some(&self.items@[index as int]),
    {
        if index > self.allocated {
            return None;
        }
        Some(&self.items[index as usize])
    }
}

/// A run of `length` items from `base`, free or reserved.
#[derive(Clone, Copy, PartialEq, Eq, Structural, Debug)]
pub struct Node {
    pub length: u64,
    pub base: u64,
    pub reserving: bool,
}

impl Node {
    pub fn new(reserving: bool, length: u64, base: u64) -> (r: Self)
        ensures
            r == (Node { length, base, reserving }),
    {
        Node { length, base, reserving }
    }

    pub fn change_base(&mut self, new_base: u64)
        ensures
            *final(self) == (Node { base: new_base, ..*old(self) }),
    {
        self.base = new_base;
    }

    pub fn change_length(&mut self, new_length: u64)
        ensures
            *final(self) == (Node { length: new_length, ..*old(self) }),
    {
        self.length = new_length;
    }

    pub fn get_base(&self) -> (r: u64)
        ensures
            r == self.base,
    {
        self.base
    }

    pub fn get_length(&self) -> (r: u64)
        ensures
            r == self.length,
    {
        self.length
    }

    /// First address after the run, for items of type `T`.
    pub fn end_address<T>(&self) -> (r: u64)
        requires
            self.base + self.length * vstd::layout::size_of::<T>() <= u64::MAX,
        ensures
            r == self.base + self.length * vstd::layout::size_of::<T>(),
    {
        let size = core::mem::size_of::<T>() as u64;
        assert(self.length * size <= u64::MAX) by (nonlinear_arith)
            requires
                self.base + self.length * size <= u64::MAX,
                self.base >= 0,
        ;
        self.base + self.length * size
    }

    /// The run is free.
    pub fn is_freeing(&self) -> (r: bool)
        ensures
            r == !self.reserving,
    {
        !self.reserving
    }

    /// The run is reserved.
    pub fn is_reserving(&self) -> (r: bool)
        ensures
            r == self.reserving,
    {
        self.reserving
    }

    /// Index of the run's first item in the data that starts at `base`.
    pub fn base_as_offset<T>(&self, base: u64) -> (r: u32)
        requires
            self.base >= base,
            vstd::layout::size_of::<T>() > 0,
        ensures
            r == ((self.base - base) / (vstd::layout::size_of::<T>() as int)) as u32,
    {
        let size = core::mem::size_of::<T>() as u64;
        ((self.base - base) / size) as u32
    }
}

impl Node {
    /// Index just past the run's last item in the data that starts at `base`.
    pub fn end_as_offset<T>(&self, base: u64) -> (r: u32)
        requires
            self.base + self.length * vstd::layout::size_of::<T>() <= u64::MAX,
            self.base >= base,
            vstd::layout::size_of::<T>() > 0,
        ensures
            r == ((self.base + self.length * vstd::layout::size_of::<T>() - base) / (
            vstd::layout::size_of::<T>() as int)) as u32,
    {
        let size = core::mem::size_of::<T>() as u64;
        let end = self.end_address::<T>();
        ((end - base) / size) as u32
    }
}

/// How freeing part of a reserved run splits it: the part freed at its
/// front, in its middle, or at its back, and the runs that result.
#[derive(Clone, Copy, PartialEq, Eq, Structural, Debug)]
pub enum FreeingType {
    /// The back stays reserved.
    Front { front_base: u64, front_size: u64, back_base: u64, back_size: u64 },
    /// Front and back stay reserved.
    Middle {
        front_base: u64,
        front_size: u64,
        middle_base: u64,
        middle_size: u64,
        back_base: u64,
        back_size: u64,
    },
    /// The front stays reserved.
    Back { front_base: u64, front_size: u64, back_base: u64, back_size: u64 },
}

/// Index of the node page in a node allocator's memory.
pub const NODE_LIST_MEMORY_INDEX: usize = 0;

/// Index of the data in a node allocator's memory.
pub const NODE_DATA_MEMORY_INDEX: usize = 1;

/// An allocator of runs of items of type `T` in a block of data: runs of
/// free and reserved items are recorded as nodes, in order.
pub struct NodeAllocator<T> {
    pub memory: [MemoryBlock; 2],
    pub nodes: Vec<Node>,
    pub current_node: u32,
    pub num_used_nodes: u32,
    pub fake: bool,
    pub phantom_data: core::marker::PhantomData<T>,
}

impl<T> NodeAllocator<T> {
    /// An allocator with no memory and no nodes.
    pub fn empty() -> (r: Self)
        ensures
            r.memory@[0].base == 0 && r.memory@[0].length == 0,
            r.memory@[1].base == 0 && r.memory@[1].length == 0,
            r.nodes@.len() == 0,
            r.current_node == 0 && r.num_used_nodes == 0,
            !r.fake,
    {
        NodeAllocator {
            memory: [MemoryBlock::empty(), MemoryBlock::empty()],
            nodes: Vec::new(),
            current_node: 0,
            num_used_nodes: 0,
            fake: false,
            phantom_data: core::marker::PhantomData,
        }
    }

    /// Address of the data.
    pub fn get_base(&self) -> (r: u64)
        ensures
            r == self.memory@[1].base,
    {
        self.memory[NODE_DATA_MEMORY_INDEX].get_base()
    }

    /// Moves the data of a fake allocator, which maps memory it does not
    /// own, to `new_base`; a real allocator is left alone.
    pub fn change_base(&mut self, new_base: u64)
        ensures
            final(self).nodes@ == old(self).nodes@,
            final(self).memory@[0] == old(self).memory@[0],
            old(self).fake ==> final(self).memory@[1] == (MemoryBlock {
                base: new_base,
                length: old(self).memory@[1].length,
            }),
            !old(self).fake ==> final(self).memory@[1] == old(self).memory@[1],
            final(self).fake == old(self).fake,
            final(self).current_node == old(self).current_node,
            final(self).num_used_nodes == old(self).num_used_nodes,
    {
        if !self.fake {
            return;
        }
        let len = self.memory[NODE_DATA_MEMORY_INDEX].get_length();
        self.memory[NODE_DATA_MEMORY_INDEX] = MemoryBlock::new(len, new_base);
    }

    /// The same allocator over data at `base`: every node slot moves with
    /// the data, and the allocator becomes fake. A node slot below the
    /// data, or one that would move past the top of memory, is left out.
    pub fn to_fake(self, base: u64) -> (r: NodeAllocator<T>)
        requires
            forall|i: int| 0 <= i < self.nodes@.len() ==> {
                &&& (#[trigger] self.nodes@[i]).base >= self.memory@[1].base
                &&& base + (self.nodes@[i].base - self.memory@[1].base) <= u64::MAX
            },
        ensures
            r.nodes@.len() == self.nodes@.len(),
            forall|i: int| 0 <= i < self.nodes@.len() ==> #[trigger] r.nodes@[i] == (Node {
                base: (base + (self.nodes@[i].base - self.memory@[1].base)) as u64,
                ..self.nodes@[i]
            }),
            r.memory@[0] == self.memory@[0],
            r.memory@[1] == (MemoryBlock { base, length: self.memory@[1].length }),
            r.current_node == self.current_node,
            r.num_used_nodes == self.num_used_nodes,
            r.fake,
    {
        let mut nodes = self.nodes;
        let data_base = self.memory[NODE_DATA_MEMORY_INDEX].get_base();
        let ghost old_nodes = nodes@;
        let mut i: usize = 0;
        while i < nodes.len()
            invariant
                nodes@.len() == old_nodes.len(),
                data_base == self.memory@[1].base,
                i <= nodes@.len(),
                forall|j: int| 0 <= j < old_nodes.len() ==> {
                    &&& (#[trigger] old_nodes[j]).base >= data_base
                    &&& base + (old_nodes[j].base - data_base) <= u64::MAX
                },
                forall|j: int| 0 <= j < i ==> #[trigger] nodes@[j] == (Node {
                    base: (base + (old_nodes[j].base - data_base)) as u64,
                    ..old_nodes[j]
                }),
                forall|j: int| i <= j < nodes@.len() ==> #[trigger] nodes@[j] == old_nodes[j],
            decreases nodes@.len() - i,
        {
            let mut node = nodes[i];
            node.base = base + (node.base - data_base);
            nodes.set(i, node);
            i = i + 1;
        }
        let len = self.memory[NODE_DATA_MEMORY_INDEX].get_length();
        NodeAllocator {
            memory: [self.memory[NODE_LIST_MEMORY_INDEX], MemoryBlock::new(len, base)],
            nodes,
            current_node: self.current_node,
            num_used_nodes: self.num_used_nodes,
            fake: true,
            phantom_data: core::marker::PhantomData,
        }
    }

    /// Makes the first used node of at least `size` items the current
    /// node; says whether there was one.
    pub fn find_new_current(&mut self, size: u32) -> (r: bool)
        requires
            old(self).num_used_nodes <= old(self).nodes@.len(),
        ensures
            final(self).nodes@ == old(self).nodes@,
            final(self).memory == old(self).memory,
            final(self).num_used_nodes == old(self).num_used_nodes,
            r <==> exists|i: int| 0 <= i < old(self).num_used_nodes && (#[trigger] old(self).nodes@[i]).length >= size,
            r ==> {
                &&& final(self).current_node < old(self).num_used_nodes
                &&& old(self).nodes@[final(self).current_node as int].length >= size
                &&& forall|j: int| 0 <= j < final(self).current_node ==> (#[trigger] old(self).nodes@[j]).length < size
            },
            !r ==> final(self).current_node == old(self).current_node,
    {
        let mut i: u32 = 0;
        while i < self.num_used_nodes
            invariant
                self.num_used_nodes <= self.nodes@.len(),
                self.nodes@ == old(self).nodes@,
                self.memory == old(self).memory,
                self.num_used_nodes == old(self).num_used_nodes,
                self.current_node == old(self).current_node,
                i <= self.num_used_nodes,
                forall|j: int| 0 <= j < i ==> (#[trigger] self.nodes@[j]).length < size,
            decreases self.num_used_nodes - i,
        {
            if self.nodes[i as usize].length >= size as u64 {
                self.current_node = i;
                return true;
            }
            i = i + 1;
        }
        false
    }
}

} // verus!
