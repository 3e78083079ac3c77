//! The order of the way from protected mode to long mode, as a step
//! function: from the stage reached and the outcome of the last action, the
//! next stage and the next action. The simulated machine and the hardware
//! backend both drive it, so both make the same queries and writes in the
//! same order and stop at the same failures.

use vstd::prelude::*;

use crate::error::BootError;
use crate::long_mode::{
    transition_plan, transition_sequence, Regs, TransitionWrite, CPUID_EXTENDED_ARGS,
    CPUID_EXTENDED_FEATURES, LONG_MODE_FEATURE_BIT,
};

verus! {

/// How far the way to long mode has come.
#[derive(Clone, Copy, Debug, PartialEq, Eq, Structural)]
pub enum Stage {
    /// Nothing done yet.
    Start,
    /// The ID-flag toggle was asked for.
    ProbeIdFlag,
    /// The extended-leaf count was asked for.
    ProbeMaxLeaf,
    /// The extended feature bits were asked for.
    ProbeFeatures,
    /// The identity tree was asked for.
    BuildPaging,
    /// The descriptor-table load was asked for.
    LoadGdt,
    /// Write `k` of the mode switch was asked for.
    Transition(u8),
    /// The way has ended.
    Finished,
}

/// What the driver is to do next.
#[derive(Clone, Copy, Debug)]
pub enum Action {
    ToggleIdFlag,
    QueryCpuid(u32),
    BuildPaging,
    LoadGdt,
    Write(TransitionWrite),
    /// Stop: long mode is on, or the error says why not.
    Finish(Result<(), BootError>),
}

/// What came of the last action.
#[derive(Clone, Copy, Debug)]
pub enum Event {
    /// Nothing has been done yet.
    Begin,
    /// Whether the ID flag could be toggled.
    IdFlag(bool),
    /// The registers that the feature query returned.
    Cpuid(Regs),
    /// How building the identity tree ended.
    PagingBuilt(Result<(), BootError>),
    GdtLoaded,
    Written,
}

/// `event` is the kind of outcome that `stage` waits for.
pub open spec fn spec_event_fits(stage: Stage, event: Event) -> bool {
    match stage {
        Stage::Start => event is Begin,
        Stage::ProbeIdFlag => event is IdFlag,
        Stage::ProbeMaxLeaf => event is Cpuid,
        Stage::ProbeFeatures => event is Cpuid,
        Stage::BuildPaging => event is PagingBuilt,
        Stage::LoadGdt => event is GdtLoaded,
        Stage::Transition(k) => k < 4 && event is Written,
        Stage::Finished => false,
    }
}

/// Whether `event` is an outcome that `stage` waits for.
pub fn event_fits(stage: Stage, event: Event) -> (r: bool)
    ensures
        r == spec_event_fits(stage, event),
{
    match stage {
        Stage::Start => matches!(event, Event::Begin),
        Stage::ProbeIdFlag => matches!(event, Event::IdFlag(_)),
        Stage::ProbeMaxLeaf => matches!(event, Event::Cpuid(_)),
        Stage::ProbeFeatures => matches!(event, Event::Cpuid(_)),
        Stage::BuildPaging => matches!(event, Event::PagingBuilt(_)),
        Stage::LoadGdt => matches!(event, Event::GdtLoaded),
        Stage::Transition(k) => k < 4 && matches!(event, Event::Written),
        Stage::Finished => false,
    }
}

/// The next stage and action: the ID-flag toggle, the extended-leaf count,
/// the extended feature bits, the identity tree, the descriptor table, then
/// the four writes of the mode switch in their planned order. The first
/// failure ends the way with its error.
pub open spec fn spec_step(stage: Stage, event: Event) -> (Stage, Action) {
    match (stage, event) {
        (Stage::Start, _) => (Stage::ProbeIdFlag, Action::ToggleIdFlag),
        (Stage::ProbeIdFlag, Event::IdFlag(toggles)) => if toggles {
            (Stage::ProbeMaxLeaf, Action::QueryCpuid(CPUID_EXTENDED_ARGS))
        } else {
            (Stage::Finished, Action::Finish(Err(BootError::CpuidUnsupported)))
        },
        (Stage::ProbeMaxLeaf, Event::Cpuid(regs)) => if regs.eax < CPUID_EXTENDED_FEATURES {
            (Stage::Finished, Action::Finish(Err(BootError::ExtendedModeUnsupported)))
        } else {
            (Stage::ProbeFeatures, Action::QueryCpuid(CPUID_EXTENDED_FEATURES))
        },
        (Stage::ProbeFeatures, Event::Cpuid(regs)) => if regs.edx & LONG_MODE_FEATURE_BIT == 0 {
            (Stage::Finished, Action::Finish(Err(BootError::LongModeUnsupported)))
        } else {
            (Stage::BuildPaging, Action::BuildPaging)
        },
        (Stage::BuildPaging, Event::PagingBuilt(res)) => if res is Err {
            (Stage::Finished, Action::Finish(res))
        } else {
            (Stage::LoadGdt, Action::LoadGdt)
        },
        (Stage::LoadGdt, _) => (Stage::Transition(0), Action::Write(transition_plan()[0])),
        (Stage::Transition(k), _) => if k < 3 {
            (Stage::Transition((k + 1) as u8), Action::Write(transition_plan()[k + 1]))
        } else {
            (Stage::Finished, Action::Finish(Ok(())))
        },
        _ => (Stage::Finished, Action::Finish(Ok(()))),
    }
}

/// Takes one step; see `spec_step`.
pub fn long_mode_step(stage: Stage, event: Event) -> (r: (Stage, Action))
    requires
        spec_event_fits(stage, event),
    ensures
        r == spec_step(stage, event),
{
    let plan = transition_sequence();
    match (stage, event) {
        (Stage::Start, _) => (Stage::ProbeIdFlag, Action::ToggleIdFlag),
        (Stage::ProbeIdFlag, Event::IdFlag(toggles)) => if toggles {
            (Stage::ProbeMaxLeaf, Action::QueryCpuid(CPUID_EXTENDED_ARGS))
        } else {
            (Stage::Finished, Action::Finish(Err(BootError::CpuidUnsupported)))
        },
        (Stage::ProbeMaxLeaf, Event::Cpuid(regs)) => if regs.eax < CPUID_EXTENDED_FEATURES {
            (Stage::Finished, Action::Finish(Err(BootError::ExtendedModeUnsupported)))
        } else {
            (Stage::ProbeFeatures, Action::QueryCpuid(CPUID_EXTENDED_FEATURES))
        },
        (Stage::ProbeFeatures, Event::Cpuid(regs)) => if regs.edx & LONG_MODE_FEATURE_BIT == 0 {
            (Stage::Finished, Action::Finish(Err(BootError::LongModeUnsupported)))
        } else {
            (Stage::BuildPaging, Action::BuildPaging)
        },
        (Stage::BuildPaging, Event::PagingBuilt(res)) => if res.is_err() {
            (Stage::Finished, Action::Finish(res))
        } else {
            (Stage::LoadGdt, Action::LoadGdt)
        },
        (Stage::LoadGdt, _) => (Stage::Transition(0), Action::Write(plan[0])),
        (Stage::Transition(k), _) => if k < 3 {
            (Stage::Transition(k + 1), Action::Write(plan[(k + 1) as usize]))
        } else {
            (Stage::Finished, Action::Finish(Ok(())))
        },
        _ => (Stage::Finished, Action::Finish(Ok(()))),
    }
}

/// A measure that every step lowers until the way ends.
pub open spec fn stage_rank(stage: Stage) -> int {
    match stage {
        Stage::Start => 10,
        Stage::ProbeIdFlag => 9,
        Stage::ProbeMaxLeaf => 8,
        Stage::ProbeFeatures => 7,
        Stage::BuildPaging => 6,
        Stage::LoadGdt => 5,
        Stage::Transition(k) => 4 - k,
        Stage::Finished => 0,
    }
}

} // verus!
