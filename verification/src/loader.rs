//! What the executable loader keeps: the images it loaded and the system
//! libraries it knows by name.
use vstd::prelude::*;
use crate::allocator::MemoryBlock;

verus! {

/// Why an executable could not be loaded.
#[derive(Clone, Copy, PartialEq, Eq, Structural, Debug)]
pub enum ExecutableLoadError {
    Unsupported,
    Malformed,
    InvalidISA,
    NoIdata,
    MissingSection,
    MalformedSection,
    InvalidAlignment,
    DependencyImportFailed,
    ImportMissing,
    MemoryError,
}

/// The format of a loaded executable.
#[derive(Clone, Copy, PartialEq, Eq, Structural, Debug)]
pub enum ExecutableType {
    Lin,
    Win,
    Empty,
}

/// A loaded executable with its address space, stack and entry point.
pub struct FullExecutableImage {
    pub cr3: u64,
    pub rbp_default: u64,
    pub rsp_max: u64,
    pub entry_point: u64,
    pub image_type: ExecutableType,
    pub memory: MemoryBlock,
    pub physical_memory: Vec<MemoryBlock>,
    pub virtual_memory: Vec<MemoryBlock>,
    pub inserted_physical_blocks: u32,
    pub inserted_virtual_blocks: u32,
}

impl FullExecutableImage {
    /// The part of the image that stays with the application: its memory.
    pub fn extract(self) -> (r: ExecutableImage)
        ensures
            r.image_type == self.image_type,
            r.memory == self.memory,
            r.physical_memory@ == self.physical_memory@,
            r.virtual_memory@ == self.virtual_memory@,
            r.physical_blocks_present == self.inserted_physical_blocks,
            r.virtual_blocks_present == self.inserted_virtual_blocks,
    {
        ExecutableImage {
            image_type: self.image_type,
            memory: self.memory,
            physical_memory: self.physical_memory,
            virtual_memory: self.virtual_memory,
            physical_blocks_present: self.inserted_physical_blocks,
            virtual_blocks_present: self.inserted_virtual_blocks,
        }
    }
}

/// The memory of a loaded executable.
pub struct ExecutableImage {
    pub image_type: ExecutableType,
    pub memory: MemoryBlock,
    pub physical_memory: Vec<MemoryBlock>,
    pub virtual_memory: Vec<MemoryBlock>,
    pub physical_blocks_present: u32,
    pub virtual_blocks_present: u32,
}

impl ExecutableImage {
    /// The image of no executable.
    pub fn empty() -> (r: ExecutableImage)
        ensures
            r.image_type == ExecutableType::Empty,
            r.memory.base == 0 && r.memory.length == 0,
            r.physical_memory@.len() == 0 && r.virtual_memory@.len() == 0,
            r.physical_blocks_present == 0 && r.virtual_blocks_present == 0,
    {
        ExecutableImage {
            memory: MemoryBlock::empty(),
            physical_memory: Vec::new(),
            virtual_memory: Vec::new(),
            image_type: ExecutableType::Empty,
            virtual_blocks_present: 0,
            physical_blocks_present: 0,
        }
    }
}

/// The system libraries the loader knows: each name with the file it is in.
pub struct NT64LoaderResources {
    pub memory: [MemoryBlock; 2],
    pub mappings: Vec<(Vec<u8>, u32)>,
    pub string_used: u32,
    pub used: u16,
}

/// Where the loader finds what every address space needs.
pub struct LoaderResources {
    pub nt64_dlls: NT64LoaderResources,
    pub context_switch_map_physical: u64,
    pub gdt_physical: u64,
    pub idt_physical: u64,
}

/// Whether two names are the same bytes.
fn same_name(a: &Vec<u8>, b: &[u8]) -> (r: bool)
    ensures
        r == (a@ == b@),
{
    if a.len() != b.len() {
        return false;
    }
    let mut i: usize = 0;
    while i < a.len()
        invariant
            a@.len() == b@.len(),
            i <= a@.len(),
            forall|j: int| 0 <= j < i ==> a@[j] == b@[j],
        decreases a@.len() - i,
    {
        if a[i] != b[i] {
            return false;
        }
        i = i + 1;
    }
    assert(a@ =~= b@);
    true
}

impl LoaderResources {
    /// Physical address of the page that switches address spaces.
    pub fn get_context_switch_physical(&self) -> (r: u64)
        ensures
            r == self.context_switch_map_physical,
    {
        self.context_switch_map_physical
    }

    /// Physical address of the GDT.
    pub fn get_gdt_physical(&self) -> (r: u64)
        ensures
            r == self.gdt_physical,
    {
        self.gdt_physical
    }

    /// Physical address of the IDT.
    pub fn get_idt_physical(&self) -> (r: u64)
        ensures
            r == self.idt_physical,
    {
        self.idt_physical
    }

    /// The file of the first library named `name` among those registered,
    /// or `None`.
    pub fn find_dll(&self, name: &[u8]) -> (r: Option<u32>)
        requires
            self.nt64_dlls.used <= self.nt64_dlls.mappings@.len(),
        ensures
            r is None <==> forall|i: int|
                0 <= i < self.nt64_dlls.used ==> (#[trigger] self.nt64_dlls.mappings@[i]).0@ != name@,
            r matches Some(f) ==> exists|i: int|
                0 <= i < self.nt64_dlls.used && (#[trigger] self.nt64_dlls.mappings@[i]).0@ == name@
                    && self.nt64_dlls.mappings@[i].1 == f && forall|j: int|
                    0 <= j < i ==> (#[trigger] self.nt64_dlls.mappings@[j]).0@ != name@,
    {
        let mut i: u16 = 0;
        while i < self.nt64_dlls.used
            invariant
                self.nt64_dlls.used <= self.nt64_dlls.mappings@.len(),
                i <= self.nt64_dlls.used,
                forall|j: int| 0 <= j < i ==> (#[trigger] self.nt64_dlls.mappings@[j]).0@ != name@,
            decreases self.nt64_dlls.used - i,
        {
            if same_name(&self.nt64_dlls.mappings[i as usize].0, name) {
                return Some(self.nt64_dlls.mappings[i as usize].1);
            }
            i = i + 1;
        }
        None
    }

    /// The registered system libraries.
    pub fn ref_nt64(&self) -> (r: &NT64LoaderResources)
        ensures
            *r == self.nt64_dlls,
    {
        &self.nt64_dlls
    }
}

} // verus!
