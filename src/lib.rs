//! The earliest boot stage of an x86 kernel: the Multiboot2 handoff, the
//! boot stack, the long-mode feature probe, identity paging of the first GiB,
//! the segment descriptor table and the ordered switch into long mode, with
//! a text console for diagnostics.

pub mod boot;
pub mod console;
pub mod error;
pub mod gdt;
pub mod long_mode;
pub mod multiboot;
pub mod paging;
pub mod sequence;
pub mod stack;
