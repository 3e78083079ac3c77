//! The segment descriptor table: the null descriptor and one 64-bit code
//! descriptor, which long mode needs even though it ignores segmentation.

use vstd::prelude::*;

use crate::console::VgaState;
use crate::long_mode::SimCpu;

verus! {

/// Number of descriptors in the table.
pub const GDT_ENTRIES: usize = 2;

/// The table's size in bytes minus one, as the descriptor-table register
/// expects it.
pub const GDT_LIMIT: u16 = 15;

/// The descriptor bits that the code descriptor sets.
#[derive(Clone, Copy, Debug, PartialEq, Eq, Structural)]
pub enum GdtFlags {
    Executable,
    DescriptorTable,
    Present,
    LongMode,
}

impl GdtFlags {
    pub open spec fn spec_bits(self) -> u64 {
        match self {
            GdtFlags::Executable => 0x0000_0800_0000_0000,
            GdtFlags::DescriptorTable => 0x0000_1000_0000_0000,
            GdtFlags::Present => 0x0000_8000_0000_0000,
            GdtFlags::LongMode => 0x0020_0000_0000_0000,
        }
    }

    /// Bits 43, 44, 47 and 53 of a descriptor.
    pub fn bits(self) -> (r: u64)
        ensures
            r == self.spec_bits(),
    {
        match self {
            GdtFlags::Executable => 0x0000_0800_0000_0000,
            GdtFlags::DescriptorTable => 0x0000_1000_0000_0000,
            GdtFlags::Present => 0x0000_8000_0000_0000,
            GdtFlags::LongMode => 0x0020_0000_0000_0000,
        }
    }
}

/// Executable, code type, present and long mode.
pub const LONG_MODE_CODE_DESCRIPTOR: u64 = 0x0020_9800_0000_0000;

/// A descriptor that long mode accepts as its code segment.
pub open spec fn is_long_mode_code(d: u64) -> bool {
    d & LONG_MODE_CODE_DESCRIPTOR == LONG_MODE_CODE_DESCRIPTOR
}

pub struct Gdt {
    /// Entry 0 is the null descriptor, entry 1 the code descriptor. Data
    /// descriptors are not needed in 64-bit mode.
    pub entries: [u64; GDT_ENTRIES],
}

/// The operand of the descriptor-table load: the table's size in bytes
/// minus one, and its address.
#[derive(Clone, Copy, Debug, PartialEq, Eq, Structural)]
pub struct GdtPtr {
    pub len: u16,
    pub ptr: u64,
}

impl Gdt {
    /// The null descriptor followed by the long-mode code descriptor.
    pub fn new() -> (r: Self)
        ensures
            r.entries@ == seq![0u64, LONG_MODE_CODE_DESCRIPTOR],
            is_long_mode_code(r.entries[1]),
    {
        let mut gdt = Gdt { entries: [0u64; GDT_ENTRIES] };
        let code = GdtFlags::Executable.bits() | GdtFlags::DescriptorTable.bits() | GdtFlags::Present.bits()
            | GdtFlags::LongMode.bits();
        assert(0x0000_0800_0000_0000u64 | 0x0000_1000_0000_0000u64 | 0x0000_8000_0000_0000u64
            | 0x0020_0000_0000_0000u64 == 0x0020_9800_0000_0000u64) by (bit_vector);
        assert(0x0020_9800_0000_0000u64 & 0x0020_9800_0000_0000u64 == 0x0020_9800_0000_0000u64) by (bit_vector);
        gdt.entries[1] = code;
        assert(gdt.entries@ =~= seq![0u64, LONG_MODE_CODE_DESCRIPTOR]);
        gdt
    }

    /// The load operand for this table placed at address `base`.
    pub fn pointer(&self, base: u64) -> (r: GdtPtr)
        ensures
            r == (GdtPtr { len: GDT_LIMIT, ptr: base }),
    {
        GdtPtr { len: (GDT_ENTRIES * 8 - 1) as u16, ptr: base }
    }

    /// Loads this table, placed at address `base`, into `cpu`, and reports
    /// on the console.
    pub fn load_gdt(&self, base: u64, cpu: &mut SimCpu, console: &mut VgaState)
        requires
            old(console).wf(),
        ensures
            final(console).wf(),
            final(cpu).gdtr == Some(GdtPtr { len: GDT_LIMIT, ptr: base }),
            final(cpu).code_descriptor == self.entries[1],
            final(cpu).same_answers(old(cpu)),
            final(cpu).cr0 == old(cpu).cr0,
            final(cpu).cr3 == old(cpu).cr3,
            final(cpu).cr4 == old(cpu).cr4,
            final(cpu).efer == old(cpu).efer,
            final(cpu).mode == old(cpu).mode,
    {
        console.write_line("=== GDT Setup ===");
        let ptr = self.pointer(base);
        console.write_labeled_hex("Loading GDT with length 0x", ptr.len as u64);
        console.write_labeled_hex("and address 0x", ptr.ptr);
        cpu.load_gdt(ptr, self.entries[1]);
        console.write_line("GDT loaded successfully.");
    }
}

} // verus!
