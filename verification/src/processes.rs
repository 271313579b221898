//! Applications: their handles to open files, their loaded image, and the
//! requests that processors send each other about them.
use vstd::prelude::*;
use crate::allocator::{alloc_outcome, free_outcome, Allocator, MemoryBlock};
use crate::loader::ExecutableImage;

verus! {

/// The privilege level code runs at.
#[derive(Clone, Copy, PartialEq, Eq, Structural, Debug)]
pub enum ExecutionMode {
    Kernel,
    Process,
}

impl ExecutionMode {
    /// The ring of the mode: 0 for the kernel, 3 for processes.
    pub fn ring(&self) -> (r: u8)
        ensures
            r == match *self {
                ExecutionMode::Kernel => 0u8,
                ExecutionMode::Process => 3u8,
            },
    {
        match self {
            ExecutionMode::Kernel => 0,
            ExecutionMode::Process => 3,
        }
    }
}

/// The file handles of an application: a page of slots and the next free one.
pub struct HandleBuffer {
    pub memory: MemoryBlock,
    pub handles: Vec<u64>,
    pub current: u32,
}

/// An application: its handles, where its registers are saved, the first
/// number its handles get, the file it runs and its image.
pub struct Application {
    pub fs_handle_buffer: HandleBuffer,
    pub registers: u64,
    pub fs_handle_base: u32,
    pub execution_fi: u32,
    pub image: ExecutableImage,
}

/// Handle slots in a page.
pub const HANDLES_PER_PAGE: usize = 512;

impl Application {
    /// An application with no handles and no image, whose handles are
    /// numbered from `fs_handle_base`.
    pub fn default(fs_handle_base: u32) -> (r: Self)
        ensures
            r.fs_handle_buffer.memory.base == 0 && r.fs_handle_buffer.memory.length == 0,
            r.fs_handle_buffer.handles@.len() == 0,
            r.fs_handle_buffer.current == 0,
            r.registers == 0,
            r.fs_handle_base == fs_handle_base,
            r.execution_fi == 0,
    {
        Application {
            fs_handle_buffer: HandleBuffer { memory: MemoryBlock::empty(), handles: Vec::new(), current: 0 },
            registers: 0,
            fs_handle_base,
            execution_fi: 0,
            image: ExecutableImage::empty(),
        }
    }

    /// Starts the application of file `execution_fi`: takes a page for its
    /// handles from `allocator`. Says whether the page was had.
    pub fn spawn(&mut self, execution_fi: u32, allocator: &mut Allocator) -> (r: bool)
        requires
            old(allocator).wf(),
        ensures
            final(allocator).wf(),
            exists|res: Result<MemoryBlock, crate::memory::MemoryResult>|
                alloc_outcome(*old(allocator), *final(allocator), 1, res) && (r <==> res is Ok) && (
                res matches Ok(mb) ==> final(self).fs_handle_buffer.memory == mb),
            r ==> final(self).execution_fi == execution_fi && final(self).fs_handle_buffer.current
                == 0 && final(self).fs_handle_buffer.handles@ == Seq::new(
                HANDLES_PER_PAGE as nat,
                |i: int| 0u64,
            ),
            !r ==> final(self).execution_fi == old(self).execution_fi
                && final(self).fs_handle_buffer.current == old(self).fs_handle_buffer.current
                && final(self).fs_handle_buffer.handles@ == old(self).fs_handle_buffer.handles@,
            final(self).fs_handle_base == old(self).fs_handle_base,
    {
        let res = allocator.alloc_pages(1);
        match res {
            Ok(mb) => {
                self.execution_fi = execution_fi;
                let mut handles: Vec<u64> = Vec::new();
                let mut i: usize = 0;
                while i < HANDLES_PER_PAGE
                    invariant
                        i <= HANDLES_PER_PAGE,
                        handles@ == Seq::new(i as nat, |j: int| 0u64),
                    decreases HANDLES_PER_PAGE - i,
                {
                    handles.push(0);
                    i = i + 1;
                    assert(handles@ =~= Seq::new(i as nat, |j: int| 0u64));
                }
                self.fs_handle_buffer = HandleBuffer { memory: mb, handles, current: 0 };
                true
            },
            Err(_) => false,
        }
    }

    /// Gives the handle page back; says whether `free` took it, and only
    /// then drops the handles.
    pub fn release(&mut self, allocator: &mut Allocator) -> (r: bool)
        requires
            old(allocator).wf(),
            old(self).fs_handle_buffer.memory.base + old(self).fs_handle_buffer.memory.length
                <= u64::MAX,
        ensures
            final(allocator).wf(),
            exists|res: Result<(), crate::memory::MemoryResult>|
                free_outcome(*old(allocator), *final(allocator), old(self).fs_handle_buffer.memory, res)
                    && (r <==> res is Ok),
            r ==> final(self).fs_handle_buffer.handles@.len() == 0,
            !r ==> final(self).fs_handle_buffer.handles@ == old(self).fs_handle_buffer.handles@,
            final(self).fs_handle_buffer.memory == old(self).fs_handle_buffer.memory,
            final(self).fs_handle_buffer.current == old(self).fs_handle_buffer.current,
    {
        let mb = self.fs_handle_buffer.memory;
        match allocator.free(&mb) {
            Ok(_) => {
                self.fs_handle_buffer.handles = Vec::new();
                true
            },
            Err(_) => false,
        }
    }

    /// Records file-table entry `ftab_index` in the next free handle slot
    /// and gives its handle number; `None` when the slots are used up (the
    /// caller then grows the page).
    pub fn allocate_handle(&mut self, ftab_index: u32) -> (r: Option<u64>)
        requires
            old(self).fs_handle_buffer.current < u32::MAX,
            old(self).fs_handle_buffer.handles@.len() <= u32::MAX,
        ensures
            old(self).fs_handle_buffer.current + 1 > old(self).fs_handle_buffer.handles@.len() ==> r
                is None && final(self).fs_handle_buffer.handles@ == old(self).fs_handle_buffer.handles@
                && final(self).fs_handle_buffer.current == old(self).fs_handle_buffer.current,
            old(self).fs_handle_buffer.current + 1 <= old(self).fs_handle_buffer.handles@.len() ==> r
                == Some((old(self).fs_handle_buffer.current + old(self).fs_handle_base) as u64)
                && final(self).fs_handle_buffer.handles@ == old(self).fs_handle_buffer.handles@.update(
                old(self).fs_handle_buffer.current as int,
                ftab_index as u64,
            ) && final(self).fs_handle_buffer.current == old(self).fs_handle_buffer.current + 1,
            final(self).fs_handle_base == old(self).fs_handle_base,
            final(self).fs_handle_buffer.memory == old(self).fs_handle_buffer.memory,
    {
        if self.fs_handle_buffer.current + 1 > self.fs_handle_buffer.handles.len() as u32 {
            return None;
        }
        let i = self.fs_handle_buffer.current as usize;
        self.fs_handle_buffer.handles.set(i, ftab_index as u64);
        let ret = self.fs_handle_buffer.current;
        self.fs_handle_buffer.current = self.fs_handle_buffer.current + 1;
        Some(ret as u64 + self.fs_handle_base as u64)
    }
}

/// What a processor asks another to do.
#[derive(Clone, Copy, PartialEq, Eq, Structural, Debug)]
pub enum IpiRequestType {
    Invalid,
    SyncVMem,
    SummonApplication,
}

/// Where a request between processors stands.
#[derive(Clone, Copy, PartialEq, Eq, Structural, Debug)]
pub enum IpiStatus {
    Invalid,
    Pending,
    Recieved,
    Completed,
    Failed,
}

impl IpiStatus {
    /// The code of the status in the shared packet.
    pub fn code(&self) -> (r: u8)
        ensures
            r == match *self {
                IpiStatus::Invalid => 0u8,
                IpiStatus::Pending => 1u8,
                IpiStatus::Recieved => 2u8,
                IpiStatus::Completed => 3u8,
                IpiStatus::Failed => 4u8,
            },
    {
        match self {
            IpiStatus::Invalid => 0,
            IpiStatus::Pending => 1,
            IpiStatus::Recieved => 2,
            IpiStatus::Completed => 3,
            IpiStatus::Failed => 4,
        }
    }
}

/// A request to map physical memory at a virtual address on another processor.
#[derive(Clone, Copy)]
pub struct IpiVMemSync {
    pub paddr: MemoryBlock,
    pub vaddr: u64,
}

impl IpiVMemSync {
    pub fn new(paddr: MemoryBlock, vaddr: u64) -> (r: Self)
        ensures
            r.paddr == paddr && r.vaddr == vaddr,
    {
        IpiVMemSync { paddr, vaddr }
    }
}

} // verus!
