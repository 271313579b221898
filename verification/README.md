# emkk

The verified core of a small x86-64 kernel, written in Verus.

`src/` is the library. Each module states in `requires`/`ensures` what its
functions do and Verus proves it:

- memory: the bitmap page allocator (`allocator`), page tables and their
  walks (`page_tables`, `page_walk`, `pager`, `page_map`), buffers and pools;
- USB: UHCI and xHCI register layouts, transfer descriptors, rings,
  contexts, configuration descriptors and control transfers;
- platform: PCI configuration space, the bus probe, interrupt routing
  descriptors (`pci_routing`) and the MADT (`madt`);
- files and programs: GPT/ext2 structures and block reads, PE/COFF images
  and their loading plan.

Laws that relate several functions are public proof functions (their names
start with `lemma_`), next to the functions they speak of.

`tests/` runs the library on concrete values. `app/` is the ordinary Rust
around it: port and memory-mapped I/O and the loops that feed the
library's step functions with what the hardware answers.
