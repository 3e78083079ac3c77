use vstd::prelude::*;

verus! {

/// The conditions that stop the boot stage. Each one is fatal: the caller
/// reports it and halts.
#[derive(Clone, Copy, Debug, PartialEq, Eq, Structural)]
pub enum BootError {
    /// The loader's magic echo in `eax` is not the Multiboot2 value.
    HandoffMismatch,
    /// The processor cannot execute the feature-query instruction.
    CpuidUnsupported,
    /// The processor has no extended feature leaf.
    ExtendedModeUnsupported,
    /// The processor does not support 64-bit long mode.
    LongModeUnsupported,
    /// A page-table entry would not fit in 32 bits.
    PhysicalAddressOverflow,
}

impl BootError {
    pub open spec fn spec_message(self) -> Seq<char> {
        match self {
            BootError::HandoffMismatch => "EAX value is not the multiboot2 magic number! Impossible to boot..."@,
            BootError::CpuidUnsupported => "CPUID is not supported! Impossible to boot..."@,
            BootError::ExtendedModeUnsupported => "CPUID extended args are not supported! Impossible to boot..."@,
            BootError::LongModeUnsupported => "Long mode is not supported! Impossible to boot..."@,
            BootError::PhysicalAddressOverflow => "Physical address + flags is greater than 32 bits"@,
        }
    }

    /// The banner shown before halting on this error.
    pub fn message(self) -> (r: &'static str)
        ensures
            r@ == self.spec_message(),
    {
        match self {
            BootError::HandoffMismatch => "EAX value is not the multiboot2 magic number! Impossible to boot...",
            BootError::CpuidUnsupported => "CPUID is not supported! Impossible to boot...",
            BootError::ExtendedModeUnsupported => "CPUID extended args are not supported! Impossible to boot...",
            BootError::LongModeUnsupported => "Long mode is not supported! Impossible to boot...",
            BootError::PhysicalAddressOverflow => "Physical address + flags is greater than 32 bits",
        }
    }
}

} // verus!
