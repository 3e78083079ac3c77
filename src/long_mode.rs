//! The CPU feature probe and the switch from 32-bit protected mode to long
//! mode, against a simulated processor that records the privileged state.
//!
//! The decisions (which feature answers allow long mode, and the order of
//! the four control writes) are shared with a hardware backend, which makes
//! the same queries and writes with the real instructions.

use vstd::prelude::*;

use crate::error::BootError;
use crate::gdt::{is_long_mode_code, GdtPtr};

verus! {

/// The leaf that reports the highest extended leaf.
pub const CPUID_EXTENDED_ARGS: u32 = 0x8000_0000;

/// The leaf of the extended feature bits.
pub const CPUID_EXTENDED_FEATURES: u32 = 0x8000_0001;

/// Bit 29 of `edx` in the extended feature leaf: long mode is supported.
pub const LONG_MODE_FEATURE_BIT: u32 = 0x2000_0000;

/// Bit 21 of the flags register: writable only where the feature-query
/// instruction exists.
pub const EFLAGS_ID_BIT: u32 = 0x0020_0000;

/// Protection enable, bit 0 of CR0.
pub const CR0_PROTECTION_ENABLE: u32 = 0x1;

/// Paging, bit 31 of CR0.
pub const CR0_PAGING: u32 = 0x8000_0000;

/// Physical address extension, bit 5 of CR4.
pub const CR4_PAE: u32 = 0x20;

/// The extended feature enable register.
pub const EFER_MSR: u32 = 0xC000_0080;

/// Long mode enable, bit 8 of the extended feature enable register.
pub const EFER_LONG_MODE_ENABLE: u64 = 0x100;

/// The four registers that the feature-query instruction returns.
#[derive(Clone, Copy, Debug, PartialEq, Eq, Structural)]
pub struct Regs {
    pub eax: u32,
    pub ebx: u32,
    pub ecx: u32,
    pub edx: u32,
}

/// The verdict of the feature probe, from its three answers: whether the ID
/// flag could be toggled, the highest extended leaf, and `edx` of the
/// extended feature leaf.
pub open spec fn long_mode_support(id_flag_toggles: bool, max_extended_leaf: u32, extended_features_edx: u32) -> Result<(), BootError> {
    if !id_flag_toggles {
        Err(BootError::CpuidUnsupported)
    } else if max_extended_leaf < CPUID_EXTENDED_FEATURES {
        Err(BootError::ExtendedModeUnsupported)
    } else if extended_features_edx & LONG_MODE_FEATURE_BIT == 0 {
        Err(BootError::LongModeUnsupported)
    } else {
        Ok(())
    }
}

/// Second step of the probe: the answer to the extended-leaf-count query
/// must reach the extended feature leaf.
pub fn check_extended_leaf(regs: Regs) -> (r: Result<(), BootError>)
    ensures
        r == (if regs.eax < CPUID_EXTENDED_FEATURES {
            Err::<(), BootError>(BootError::ExtendedModeUnsupported)
        } else {
            Ok(())
        }),
{
    if regs.eax < CPUID_EXTENDED_FEATURES {
        Err(BootError::ExtendedModeUnsupported)
    } else {
        Ok(())
    }
}

/// Third step of the probe: the extended feature leaf must report long mode.
pub fn check_long_mode_bit(regs: Regs) -> (r: Result<(), BootError>)
    ensures
        r == (if regs.edx & LONG_MODE_FEATURE_BIT == 0 {
            Err::<(), BootError>(BootError::LongModeUnsupported)
        } else {
            Ok(())
        }),
{
    if regs.edx & LONG_MODE_FEATURE_BIT == 0 {
        Err(BootError::LongModeUnsupported)
    } else {
        Ok(())
    }
}

/// Where the mode switch stands. Each of the four writes moves it one state
/// forward; a write out of turn leaves it `OutOfOrder`, where it stays.
#[derive(Clone, Copy, Debug, PartialEq, Eq, Structural)]
pub enum ModeState {
    ProtectedMode32,
    PagingRootLoaded,
    PaeEnabled,
    LongModeBitSet,
    LongMode,
    OutOfOrder,
}

/// The four privileged writes of the mode switch.
#[derive(Clone, Copy, Debug, PartialEq, Eq, Structural)]
pub enum TransitionWrite {
    /// Load the level-4 table's address into CR3.
    LoadPagingRoot,
    /// Set the physical address extension bit in CR4.
    EnablePae,
    /// Set long mode enable in the extended feature enable register.
    SetLongModeBit,
    /// Set the paging bit in CR0; long mode takes effect here.
    EnablePaging,
}

pub open spec fn next_mode(s: ModeState, w: TransitionWrite) -> ModeState {
    match (s, w) {
        (ModeState::ProtectedMode32, TransitionWrite::LoadPagingRoot) => ModeState::PagingRootLoaded,
        (ModeState::PagingRootLoaded, TransitionWrite::EnablePae) => ModeState::PaeEnabled,
        (ModeState::PaeEnabled, TransitionWrite::SetLongModeBit) => ModeState::LongModeBitSet,
        (ModeState::LongModeBitSet, TransitionWrite::EnablePaging) => ModeState::LongMode,
        _ => ModeState::OutOfOrder,
    }
}

/// The state after write `w` in state `s`.
pub fn advance(s: ModeState, w: TransitionWrite) -> (r: ModeState)
    ensures
        r == next_mode(s, w),
{
    match (s, w) {
        (ModeState::ProtectedMode32, TransitionWrite::LoadPagingRoot) => ModeState::PagingRootLoaded,
        (ModeState::PagingRootLoaded, TransitionWrite::EnablePae) => ModeState::PaeEnabled,
        (ModeState::PaeEnabled, TransitionWrite::SetLongModeBit) => ModeState::LongModeBitSet,
        (ModeState::LongModeBitSet, TransitionWrite::EnablePaging) => ModeState::LongMode,
        _ => ModeState::OutOfOrder,
    }
}

/// The state after the writes `ws`, in order, from `s`.
pub open spec fn run_writes(s: ModeState, ws: Seq<TransitionWrite>) -> ModeState
    decreases ws.len(),
{
    if ws.len() == 0 {
        s
    } else {
        next_mode(run_writes(s, ws.drop_last()), ws.last())
    }
}

/// The order of the mode switch; enabling paging comes last.
pub open spec fn transition_plan() -> Seq<TransitionWrite> {
    seq![
        TransitionWrite::LoadPagingRoot,
        TransitionWrite::EnablePae,
        TransitionWrite::SetLongModeBit,
        TransitionWrite::EnablePaging,
    ]
}

/// The four writes of the mode switch, in the order to make them.
pub fn transition_sequence() -> (r: [TransitionWrite; 4])
    ensures
        r@ == transition_plan(),
{
    let r = [
        TransitionWrite::LoadPagingRoot,
        TransitionWrite::EnablePae,
        TransitionWrite::SetLongModeBit,
        TransitionWrite::EnablePaging,
    ];
    assert(r@ =~= transition_plan());
    r
}

/// Order of the mode switch: from protected mode, four writes reach long
/// mode exactly when they come in the planned order; any other sequence of
/// four writes ends in the out-of-order state.
pub proof fn lemma_transition_order(ws: Seq<TransitionWrite>)
    requires
        ws.len() == 4,
    ensures
        ws == transition_plan() ==> run_writes(ModeState::ProtectedMode32, ws) == ModeState::LongMode,
        ws != transition_plan() ==> run_writes(ModeState::ProtectedMode32, ws) == ModeState::OutOfOrder,
{
    let p = ModeState::ProtectedMode32;
    let s1 = next_mode(p, ws[0]);
    let s2 = next_mode(s1, ws[1]);
    let s3 = next_mode(s2, ws[2]);
    let s4 = next_mode(s3, ws[3]);
    assert(ws.take(1).drop_last() =~= ws.take(0));
    assert(ws.take(2).drop_last() =~= ws.take(1));
    assert(ws.take(3).drop_last() =~= ws.take(2));
    assert(ws.drop_last() =~= ws.take(3));
    assert(run_writes(p, ws.take(0)) == p);
    assert(run_writes(p, ws.take(1)) == s1);
    assert(run_writes(p, ws.take(2)) == s2);
    assert(run_writes(p, ws.take(3)) == s3);
    assert(run_writes(p, ws) == s4);
    if ws != transition_plan() {
        if ws[0] == TransitionWrite::LoadPagingRoot && ws[1] == TransitionWrite::EnablePae
            && ws[2] == TransitionWrite::SetLongModeBit && ws[3] == TransitionWrite::EnablePaging {
            assert(ws =~= transition_plan());
        }
    }
}

/// The out-of-order state is final: no write leaves it.
pub proof fn lemma_out_of_order_stays(ws: Seq<TransitionWrite>)
    ensures
        run_writes(ModeState::OutOfOrder, ws) == ModeState::OutOfOrder,
    decreases ws.len(),
{
    if ws.len() > 0 {
        lemma_out_of_order_stays(ws.drop_last());
    }
}

/// A simulated processor: the answers it gives to the feature probe, and
/// the privileged state that the boot stage writes.
pub struct SimCpu {
    /// Whether the ID bit of the flags register can be toggled.
    pub id_flag_writable: bool,
    /// The highest extended leaf that the feature query answers.
    pub max_extended_leaf: u32,
    /// `edx` of the extended feature leaf.
    pub extended_features_edx: u32,
    pub cr0: u32,
    pub cr3: u64,
    pub cr4: u32,
    pub efer: u64,
    /// The operand of the last descriptor-table load.
    pub gdtr: Option<GdtPtr>,
    /// The code descriptor that the loaded table provides.
    pub code_descriptor: u64,
    pub mode: ModeState,
}

impl SimCpu {
    /// Long mode is active: paging, PAE and long mode enable are set, the
    /// code descriptor is a long-mode one, and the switch went in order.
    pub open spec fn in_long_mode(&self) -> bool {
        &&& self.cr0 & CR0_PAGING == CR0_PAGING
        &&& self.cr4 & CR4_PAE == CR4_PAE
        &&& self.efer & EFER_LONG_MODE_ENABLE == EFER_LONG_MODE_ENABLE
        &&& is_long_mode_code(self.code_descriptor)
        &&& self.mode == ModeState::LongMode
    }

    /// The two processors give the same answers to the feature probe.
    pub open spec fn same_answers(&self, other: &SimCpu) -> bool {
        &&& self.id_flag_writable == other.id_flag_writable
        &&& self.max_extended_leaf == other.max_extended_leaf
        &&& self.extended_features_edx == other.extended_features_edx
    }

    /// A processor in 32-bit protected mode, with no paging and no descriptor
    /// table loaded, that answers the probe as given.
    pub fn new(id_flag_writable: bool, max_extended_leaf: u32, extended_features_edx: u32) -> (r: Self)
        ensures
            r.id_flag_writable == id_flag_writable,
            r.max_extended_leaf == max_extended_leaf,
            r.extended_features_edx == extended_features_edx,
            r.cr0 == CR0_PROTECTION_ENABLE,
            r.cr3 == 0,
            r.cr4 == 0,
            r.efer == 0,
            r.gdtr is None,
            r.code_descriptor == 0,
            r.mode == ModeState::ProtectedMode32,
    {
        SimCpu {
            id_flag_writable,
            max_extended_leaf,
            extended_features_edx,
            cr0: CR0_PROTECTION_ENABLE,
            cr3: 0,
            cr4: 0,
            efer: 0,
            gdtr: None,
            code_descriptor: 0,
            mode: ModeState::ProtectedMode32,
        }
    }

    /// Flips the ID bit of the flags register and reports whether the flip
    /// held.
    pub fn toggle_id_flag(&self) -> (r: bool)
        ensures
            r == self.id_flag_writable,
    {
        self.id_flag_writable
    }

    /// The answer to the feature query for `leaf`: the extended-leaf count,
    /// the extended feature bits where that leaf exists, zeros otherwise.
    pub open spec fn spec_cpuid(&self, leaf: u32) -> Regs {
        if leaf == CPUID_EXTENDED_ARGS {
            Regs { eax: self.max_extended_leaf, ebx: 0, ecx: 0, edx: 0 }
        } else if leaf == CPUID_EXTENDED_FEATURES && self.max_extended_leaf >= CPUID_EXTENDED_FEATURES {
            Regs { eax: 0, ebx: 0, ecx: 0, edx: self.extended_features_edx }
        } else {
            Regs { eax: 0, ebx: 0, ecx: 0, edx: 0 }
        }
    }

    /// The feature query for `leaf`; the sub-leaf plays no part in the
    /// leaves that the probe asks.
    pub fn cpuid(&self, leaf: u32, sub_leaf: u32) -> (r: Regs)
        ensures
            r == self.spec_cpuid(leaf),
    {
        if leaf == CPUID_EXTENDED_ARGS {
            Regs { eax: self.max_extended_leaf, ebx: 0, ecx: 0, edx: 0 }
        } else if leaf == CPUID_EXTENDED_FEATURES && self.max_extended_leaf >= CPUID_EXTENDED_FEATURES {
            Regs { eax: 0, ebx: 0, ecx: 0, edx: self.extended_features_edx }
        } else {
            Regs { eax: 0, ebx: 0, ecx: 0, edx: 0 }
        }
    }

    /// Loads the descriptor table `ptr`, whose code descriptor is
    /// `code_descriptor`.
    pub fn load_gdt(&mut self, ptr: GdtPtr, code_descriptor: u64)
        ensures
            final(self).gdtr == Some(ptr),
            final(self).code_descriptor == code_descriptor,
            final(self).same_answers(old(self)),
            final(self).cr0 == old(self).cr0,
            final(self).cr3 == old(self).cr3,
            final(self).cr4 == old(self).cr4,
            final(self).efer == old(self).efer,
            final(self).mode == old(self).mode,
    {
        self.gdtr = Some(ptr);
        self.code_descriptor = code_descriptor;
    }

    /// Makes write `w`; `p4_table` is the address that `LoadPagingRoot`
    /// loads.
    pub fn apply(&mut self, w: TransitionWrite, p4_table: u64)
        ensures
            final(self).mode == next_mode(old(self).mode, w),
            final(self).cr3 == (if w == TransitionWrite::LoadPagingRoot { p4_table } else { old(self).cr3 }),
            final(self).cr4 == (if w == TransitionWrite::EnablePae { old(self).cr4 | CR4_PAE } else { old(self).cr4 }),
            final(self).efer == (if w == TransitionWrite::SetLongModeBit {
                old(self).efer | EFER_LONG_MODE_ENABLE
            } else {
                old(self).efer
            }),
            final(self).cr0 == (if w == TransitionWrite::EnablePaging { old(self).cr0 | CR0_PAGING } else { old(self).cr0 }),
            final(self).same_answers(old(self)),
            final(self).gdtr == old(self).gdtr,
            final(self).code_descriptor == old(self).code_descriptor,
    {
        match w {
            TransitionWrite::LoadPagingRoot => {
                self.cr3 = p4_table;
            },
            TransitionWrite::EnablePae => {
                self.cr4 = self.cr4 | CR4_PAE;
            },
            TransitionWrite::SetLongModeBit => {
                self.efer = self.efer | EFER_LONG_MODE_ENABLE;
            },
            TransitionWrite::EnablePaging => {
                self.cr0 = self.cr0 | CR0_PAGING;
            },
        }
        self.mode = advance(self.mode, w);
    }
}

/// Runs the feature probe on `cpu`: the ID-flag toggle, then the
/// extended-leaf count, then the extended feature bits, stopping at the
/// first failure.
pub fn support_cpuid(cpu: &SimCpu) -> (r: Result<(), BootError>)
    ensures
        r == long_mode_support(cpu.id_flag_writable, cpu.max_extended_leaf, cpu.extended_features_edx),
{
    if !cpu.toggle_id_flag() {
        return Err(BootError::CpuidUnsupported);
    }
    let regs = cpu.cpuid(CPUID_EXTENDED_ARGS, 0);
    let res = check_extended_leaf(regs);
    if res.is_err() {
        return res;
    }
    let regs = cpu.cpuid(CPUID_EXTENDED_FEATURES, 0);
    check_long_mode_bit(regs)
}

pub(crate) proof fn lemma_bit_set_u32(x: u32, b: u32)
    ensures
        (x | b) & b == b,
{
    assert((x | b) & b == b) by (bit_vector);
}

pub(crate) proof fn lemma_bit_set_u64(x: u64, b: u64)
    ensures
        (x | b) & b == b,
{
    assert((x | b) & b == b) by (bit_vector);
}

/// Makes the four writes of the mode switch on `cpu`, in the planned order,
/// with `p4_table` as the paging root.
pub fn enter_long_mode(cpu: &mut SimCpu, p4_table: u64)
    requires
        old(cpu).mode == ModeState::ProtectedMode32,
    ensures
        final(cpu).mode == ModeState::LongMode,
        final(cpu).mode == run_writes(ModeState::ProtectedMode32, transition_plan()),
        final(cpu).cr3 == p4_table,
        final(cpu).cr4 == old(cpu).cr4 | CR4_PAE,
        final(cpu).efer == old(cpu).efer | EFER_LONG_MODE_ENABLE,
        final(cpu).cr0 == old(cpu).cr0 | CR0_PAGING,
        final(cpu).cr0 & CR0_PAGING == CR0_PAGING,
        final(cpu).cr4 & CR4_PAE == CR4_PAE,
        final(cpu).efer & EFER_LONG_MODE_ENABLE == EFER_LONG_MODE_ENABLE,
        final(cpu).same_answers(old(cpu)),
        final(cpu).gdtr == old(cpu).gdtr,
        final(cpu).code_descriptor == old(cpu).code_descriptor,
{
    let plan = transition_sequence();
    cpu.apply(plan[0], p4_table);
    cpu.apply(plan[1], p4_table);
    cpu.apply(plan[2], p4_table);
    cpu.apply(plan[3], p4_table);
    proof {
        lemma_transition_order(transition_plan());
        lemma_bit_set_u32(old(cpu).cr0, CR0_PAGING);
        lemma_bit_set_u32(old(cpu).cr4, CR4_PAE);
        lemma_bit_set_u64(old(cpu).efer, EFER_LONG_MODE_ENABLE);
    }
}

} // verus!
