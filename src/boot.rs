//! The boot stage from the loader's handoff to long mode, with its state
//! held in one explicit context instead of ambient globals.

use vstd::prelude::*;

use crate::console::{blank_screen, VgaState};
use crate::error::BootError;
use crate::gdt::{is_long_mode_code, Gdt, GdtPtr, GDT_LIMIT, LONG_MODE_CODE_DESCRIPTOR};
use crate::long_mode::{
    lemma_bit_set_u32, lemma_bit_set_u64, lemma_transition_order, long_mode_support, next_mode, run_writes,
    transition_plan, ModeState, SimCpu, TransitionWrite, CPUID_EXTENDED_ARGS, CPUID_EXTENDED_FEATURES,
    CR0_PAGING, CR4_PAE, EFER_LONG_MODE_ENABLE,
};
use crate::multiboot::{check_multiboot2_header, MULTIBOOT2_MAGIC_EAX};
use crate::paging::{
    identity_entry, setup_identity_paging, IdentityPaging, MAX_ENTRY_VALUE, PAGE_TABLE_SIZE, TABLE_FLAGS,
};
use crate::sequence::{long_mode_step, spec_event_fits, stage_rank, Action, Event, Stage};
use crate::stack::{check_stack, STACK_SIZE};

verus! {

/// Where the boot stage's fixed storage lies in physical memory.
#[derive(Clone, Copy, Debug, PartialEq, Eq, Structural)]
pub struct BootLayout {
    pub stack_base: usize,
    pub level_4_addr: u64,
    pub level_3_addr: u64,
    pub level_2_addr: u64,
    pub gdt_addr: u64,
}

/// The state that the boot stage owns: the console, the page tables, the
/// descriptor table and the processor.
pub struct BootContext {
    pub console: VgaState,
    pub paging: IdentityPaging,
    pub gdt: Gdt,
    pub cpu: SimCpu,
}

/// The table addresses, with their flags, fit the 32-bit write path.
pub open spec fn tables_fit(layout: BootLayout) -> bool {
    (layout.level_3_addr | TABLE_FLAGS) <= MAX_ENTRY_VALUE && (layout.level_2_addr | TABLE_FLAGS) <= MAX_ENTRY_VALUE
}

/// How the way from protected mode to long mode ends on `cpu`.
pub open spec fn long_mode_outcome(cpu: SimCpu, layout: BootLayout) -> Result<(), BootError> {
    let probe = long_mode_support(cpu.id_flag_writable, cpu.max_extended_leaf, cpu.extended_features_edx);
    if probe is Err {
        probe
    } else if !tables_fit(layout) {
        Err(BootError::PhysicalAddressOverflow)
    } else {
        Ok(())
    }
}

/// How the whole boot stage ends.
pub open spec fn boot_outcome(eax: u32, cpu: SimCpu, layout: BootLayout) -> Result<(), BootError> {
    if eax != MULTIBOOT2_MAGIC_EAX {
        Err(BootError::HandoffMismatch)
    } else {
        long_mode_outcome(cpu, layout)
    }
}

impl BootContext {
    /// A usable console, a descriptor table whose code descriptor is a
    /// long-mode one, and a processor still in protected mode.
    pub open spec fn wf(&self) -> bool {
        &&& self.console.wf()
        &&& is_long_mode_code(self.gdt.entries[1])
        &&& self.cpu.mode == ModeState::ProtectedMode32
    }

    /// Fresh storage around `cpu`: a blank console, blank page tables and
    /// the descriptor table.
    pub fn new(cpu: SimCpu) -> (r: Self)
        requires
            cpu.mode == ModeState::ProtectedMode32,
        ensures
            r.wf(),
            r.console@ == blank_screen(),
            r.paging.is_blank(),
            r.gdt.entries@ == seq![0u64, LONG_MODE_CODE_DESCRIPTOR],
            r.cpu == cpu,
    {
        BootContext { console: VgaState::new(), paging: IdentityPaging::new(), gdt: Gdt::new(), cpu }
    }
}

/// The identity tree was built in `paging` from `old_paging`, as a
/// successful `setup_identity_paging` leaves it.
pub open spec fn paging_built(old_paging: IdentityPaging, paging: IdentityPaging, layout: BootLayout) -> bool {
    &&& paging.level_4.entries@ == old_paging.level_4.entries@.update(0, layout.level_3_addr | TABLE_FLAGS)
    &&& paging.level_3.entries@ == old_paging.level_3.entries@.update(0, layout.level_2_addr | TABLE_FLAGS)
    &&& forall|i: int| 0 <= i < PAGE_TABLE_SIZE ==> #[trigger] paging.level_2.entries[i] == identity_entry(i)
    &&& old_paging.is_blank() ==> paging.is_identity_tree(layout.level_3_addr, layout.level_2_addr)
}

/// `paging` is as a failed `setup_identity_paging` leaves `old_paging`.
pub open spec fn paging_refused(old_paging: IdentityPaging, paging: IdentityPaging, layout: BootLayout) -> bool {
    &&& (layout.level_3_addr | TABLE_FLAGS) > MAX_ENTRY_VALUE ==> paging.level_4.entries@ == old_paging.level_4.entries@
    &&& (layout.level_3_addr | TABLE_FLAGS) <= MAX_ENTRY_VALUE ==> paging.level_4.entries@
        == old_paging.level_4.entries@.update(0, layout.level_3_addr | TABLE_FLAGS)
    &&& paging.level_3.entries@ == old_paging.level_3.entries@
    &&& paging.level_2.entries@ == old_paging.level_2.entries@
}

/// `cpu` is `old_cpu` with the descriptor table of `ctx` loaded at the
/// layout's address and the first `k` writes of the mode switch made.
pub open spec fn cpu_switched(old_cpu: SimCpu, cpu: SimCpu, gdt: Gdt, layout: BootLayout, k: int) -> bool {
    &&& cpu.same_answers(&old_cpu)
    &&& cpu.gdtr == Some(GdtPtr { len: GDT_LIMIT, ptr: layout.gdt_addr })
    &&& cpu.code_descriptor == gdt.entries[1]
    &&& cpu.mode == run_writes(ModeState::ProtectedMode32, transition_plan().take(k))
    &&& cpu.cr3 == if k >= 1 { layout.level_4_addr } else { old_cpu.cr3 }
    &&& cpu.cr4 == if k >= 2 { old_cpu.cr4 | CR4_PAE } else { old_cpu.cr4 }
    &&& cpu.efer == if k >= 3 { old_cpu.efer | EFER_LONG_MODE_ENABLE } else { old_cpu.efer }
    &&& cpu.cr0 == if k >= 4 { old_cpu.cr0 | CR0_PAGING } else { old_cpu.cr0 }
}

/// What holds of the machine when the way to long mode has reached `stage`
/// and the last action ended in `event`, starting from `c0`.
pub open spec fn progress(c0: BootContext, ctx: BootContext, layout: BootLayout, stage: Stage, event: Event) -> bool {
    let cpu0 = c0.cpu;
    let probe = long_mode_support(cpu0.id_flag_writable, cpu0.max_extended_leaf, cpu0.extended_features_edx);
    &&& ctx.console.wf()
    &&& ctx.gdt == c0.gdt
    &&& spec_event_fits(stage, event)
    &&& match stage {
        Stage::Start => event is Begin && ctx.cpu == cpu0 && ctx.paging == c0.paging,
        Stage::ProbeIdFlag => event == Event::IdFlag(cpu0.id_flag_writable) && ctx.cpu == cpu0 && ctx.paging
            == c0.paging,
        Stage::ProbeMaxLeaf => cpu0.id_flag_writable && event == Event::Cpuid(cpu0.spec_cpuid(CPUID_EXTENDED_ARGS))
            && ctx.cpu == cpu0 && ctx.paging == c0.paging,
        Stage::ProbeFeatures => cpu0.id_flag_writable && cpu0.max_extended_leaf >= CPUID_EXTENDED_FEATURES
            && event == Event::Cpuid(cpu0.spec_cpuid(CPUID_EXTENDED_FEATURES)) && ctx.cpu == cpu0 && ctx.paging
            == c0.paging,
        Stage::BuildPaging => probe is Ok && ctx.cpu == cpu0 && event == Event::PagingBuilt(
            if tables_fit(layout) { Ok(()) } else { Err(BootError::PhysicalAddressOverflow) },
        ) && (tables_fit(layout) ==> paging_built(c0.paging, ctx.paging, layout)) && (!tables_fit(layout)
            ==> paging_refused(c0.paging, ctx.paging, layout)),
        Stage::LoadGdt => probe is Ok && tables_fit(layout) && paging_built(c0.paging, ctx.paging, layout)
            && cpu_switched(cpu0, ctx.cpu, c0.gdt, layout, 0),
        Stage::Transition(k) => probe is Ok && tables_fit(layout) && paging_built(c0.paging, ctx.paging, layout)
            && cpu_switched(cpu0, ctx.cpu, c0.gdt, layout, k + 1),
        Stage::Finished => false,
    }
}

impl BootContext {
    /// Carries out `action` on the simulated machine and reports how it
    /// ended.
    pub fn perform(&mut self, layout: &BootLayout, action: Action) -> (event: Event)
        requires
            old(self).console.wf(),
            !(action is Finish),
        ensures
            final(self).console.wf(),
            final(self).gdt == old(self).gdt,
            match action {
                Action::ToggleIdFlag => event == Event::IdFlag(old(self).cpu.id_flag_writable) && final(self).cpu
                    == old(self).cpu && final(self).paging == old(self).paging,
                Action::QueryCpuid(leaf) => event == Event::Cpuid(old(self).cpu.spec_cpuid(leaf)) && final(self).cpu
                    == old(self).cpu && final(self).paging == old(self).paging,
                Action::BuildPaging => event == Event::PagingBuilt(
                    if tables_fit(*layout) { Ok(()) } else { Err(BootError::PhysicalAddressOverflow) },
                ) && final(self).cpu == old(self).cpu && (tables_fit(*layout) ==> paging_built(
                    old(self).paging,
                    final(self).paging,
                    *layout,
                )) && (!tables_fit(*layout) ==> paging_refused(old(self).paging, final(self).paging, *layout)),
                Action::LoadGdt => event == Event::GdtLoaded && final(self).paging == old(self).paging
                    && final(self).cpu.gdtr == Some(GdtPtr { len: GDT_LIMIT, ptr: layout.gdt_addr })
                    && final(self).cpu.code_descriptor == old(self).gdt.entries[1] && final(self).cpu.same_answers(
                    &old(self).cpu,
                ) && final(self).cpu.cr0 == old(self).cpu.cr0 && final(self).cpu.cr3 == old(self).cpu.cr3
                    && final(self).cpu.cr4 == old(self).cpu.cr4 && final(self).cpu.efer == old(self).cpu.efer
                    && final(self).cpu.mode == old(self).cpu.mode,
                Action::Write(w) => event == Event::Written && final(self).paging == old(self).paging
                    && final(self).cpu.mode == next_mode(old(self).cpu.mode, w) && final(self).cpu.cr3 == (if w
                    == TransitionWrite::LoadPagingRoot { layout.level_4_addr } else { old(self).cpu.cr3 })
                    && final(self).cpu.cr4 == (if w == TransitionWrite::EnablePae {
                    old(self).cpu.cr4 | CR4_PAE
                } else {
                    old(self).cpu.cr4
                }) && final(self).cpu.efer == (if w == TransitionWrite::SetLongModeBit {
                    old(self).cpu.efer | EFER_LONG_MODE_ENABLE
                } else {
                    old(self).cpu.efer
                }) && final(self).cpu.cr0 == (if w == TransitionWrite::EnablePaging {
                    old(self).cpu.cr0 | CR0_PAGING
                } else {
                    old(self).cpu.cr0
                }) && final(self).cpu.same_answers(&old(self).cpu) && final(self).cpu.gdtr == old(self).cpu.gdtr
                    && final(self).cpu.code_descriptor == old(self).cpu.code_descriptor,
                Action::Finish(_) => true,
            },
    {
        match action {
            Action::ToggleIdFlag => Event::IdFlag(self.cpu.toggle_id_flag()),
            Action::QueryCpuid(leaf) => Event::Cpuid(self.cpu.cpuid(leaf, 0)),
            Action::BuildPaging => {
                self.console.write_line("=== Identity Paging Setup ===");
                let res = setup_identity_paging(&mut self.paging, layout.level_3_addr, layout.level_2_addr);
                if res.is_ok() {
                    Event::PagingBuilt(Ok(()))
                } else {
                    Event::PagingBuilt(Err(BootError::PhysicalAddressOverflow))
                }
            },
            Action::LoadGdt => {
                self.gdt.load_gdt(layout.gdt_addr, &mut self.cpu, &mut self.console);
                Event::GdtLoaded
            },
            Action::Write(w) => {
                self.cpu.apply(w, layout.level_4_addr);
                Event::Written
            },
            Action::Finish(_) => Event::Begin,
        }
    }
}

/// Probes for long mode, builds the identity tree, loads the descriptor
/// table and switches the processor to long mode, in the order that
/// `long_mode_step` gives. Stops at the first failure, before any control
/// register is written.
pub fn enable_long_mode(ctx: &mut BootContext, layout: &BootLayout) -> (r: Result<(), BootError>)
    requires
        old(ctx).wf(),
    ensures
        final(ctx).console.wf(),
        final(ctx).gdt == old(ctx).gdt,
        r == long_mode_outcome(old(ctx).cpu, *layout),
        r is Ok ==> final(ctx).cpu.in_long_mode(),
        r is Ok ==> final(ctx).cpu.cr3 == layout.level_4_addr,
        r is Ok ==> final(ctx).cpu.gdtr == Some(GdtPtr { len: GDT_LIMIT, ptr: layout.gdt_addr }),
        r is Ok ==> paging_built(old(ctx).paging, final(ctx).paging, *layout),
        r is Ok && old(ctx).paging.is_blank() ==> final(ctx).paging.is_identity_tree(
            layout.level_3_addr,
            layout.level_2_addr,
        ),
        r is Err ==> final(ctx).cpu == old(ctx).cpu,
        r == Err::<(), BootError>(BootError::PhysicalAddressOverflow) ==> paging_refused(
            old(ctx).paging,
            final(ctx).paging,
            *layout,
        ),
        r is Err && r != Err::<(), BootError>(BootError::PhysicalAddressOverflow) ==> final(ctx).paging == old(
            ctx,
        ).paging,
{
    let ghost c0 = *ctx;
    ctx.console.write_line("=== Long Mode Setup ===");
    let mut stage = Stage::Start;
    let mut event = Event::Begin;
    loop
        invariant
            progress(c0, *ctx, *layout, stage, event),
            c0.wf(),
            c0 == *old(ctx),
        decreases stage_rank(stage),
    {
        let (next, action) = long_mode_step(stage, event);
        if let Action::Finish(res) = action {
            proof {
                if res is Ok {
                    lemma_transition_order(transition_plan());
                    assert(transition_plan().take(4) =~= transition_plan());
                    lemma_bit_set_u32(c0.cpu.cr0, CR0_PAGING);
                    lemma_bit_set_u32(c0.cpu.cr4, CR4_PAE);
                    lemma_bit_set_u64(c0.cpu.efer, EFER_LONG_MODE_ENABLE);
                }
            }
            match res {
                Ok(()) => ctx.console.write_line("Long mode setup successful!"),
                Err(e) => ctx.console.write_line(e.message()),
            }
            return res;
        }
        let ghost before = *ctx;
        event = ctx.perform(layout, action);
        proof {
            if let Stage::Transition(k) = next {
                let plan = transition_plan();
                assert(plan.take(k + 1).drop_last() =~= plan.take(k as int));
                assert(plan.take(k + 1).last() == plan[k as int]);
            }
        }
        stage = next;
    }
}

/// The boot stage's entry: checks the loader's handoff, reports on the
/// stack, then goes on to long mode. The stack check only reports.
pub fn entrypoint(ctx: &mut BootContext, layout: &BootLayout, eax: u32, ebx: u32, esp: usize) -> (r: Result<(), BootError>)
    requires
        old(ctx).wf(),
        layout.stack_base + STACK_SIZE <= usize::MAX,
    ensures
        final(ctx).console.wf(),
        r == boot_outcome(eax, old(ctx).cpu, *layout),
        r is Ok ==> final(ctx).cpu.in_long_mode(),
        r is Ok ==> final(ctx).cpu.cr3 == layout.level_4_addr,
        r is Ok ==> final(ctx).cpu.gdtr == Some(GdtPtr { len: GDT_LIMIT, ptr: layout.gdt_addr }),
        r is Ok && old(ctx).paging.is_blank() ==> final(ctx).paging.is_identity_tree(
            layout.level_3_addr,
            layout.level_2_addr,
        ),
        r is Err ==> final(ctx).cpu == old(ctx).cpu,
        final(ctx).gdt == old(ctx).gdt,
        r == Err::<(), BootError>(BootError::PhysicalAddressOverflow) ==> paging_refused(
            old(ctx).paging,
            final(ctx).paging,
            *layout,
        ),
        r is Err && r != Err::<(), BootError>(BootError::PhysicalAddressOverflow) ==> final(ctx).paging == old(
            ctx,
        ).paging,
{
    let res = check_multiboot2_header(eax, ebx, &mut ctx.console);
    if res.is_err() {
        return res;
    }
    let _ = check_stack(layout.stack_base, esp, &mut ctx.console);
    enable_long_mode(ctx, layout)
}

} // verus!
