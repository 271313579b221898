//! Verified core of a small x86-64 kernel: bit-level register and
//! descriptor layouts for UHCI/xHCI controllers, a bitmap page allocator,
//! page-table address arithmetic, simple kernel containers, and on-disk
//! format decoding (ext2, PE/COFF, PCI configuration space).
use vstd::prelude::*;

pub mod allocator;
pub mod bits;
pub mod buffer;
pub mod containers;
pub mod ext2_reads;
pub mod loader;
pub mod madt;
pub mod mark_table;
pub mod memory;
pub mod pe;
pub mod pe_image;
pub mod pfs;
pub mod page_tables;
pub mod page_walk;
pub mod page_map;
pub mod pager;
pub mod pci;
pub mod pci_routing;
pub mod pools;
pub mod print;
pub mod processes;
pub mod threading;
pub mod traits;
pub mod uhci;
pub mod uhci_config;
pub mod uhci_control;
pub mod uhci_pool;
pub mod uhci_transfers;
pub mod usb_requests;
pub mod xhci_bar;
pub mod xhci_config;
pub mod xhci_context;
pub mod xhci_control;
pub mod xhci_controller;
pub mod xhci_endpoint;
pub mod xhci_interrupter;
pub mod xhci_memory;
pub mod xhci_registers;
pub mod xhci_trb;

verus! {

} // verus!
