//! Boot orchestration: the strictly ordered one-time sequence that installs
//! the tables.
//!
//! Interrupts are masked before any table is loaded, the GDT is loaded
//! before the IDT, and interrupts are unmasked only after both tables are
//! active. The decisions live here as a verified plan over abstract actions;
//! the caller performs each action in order — issuing the privileged mask,
//! load and unmask instructions — and never skips or repeats a step.

use vstd::prelude::*;

verus! {

/// One hardware-facing step of the boot sequence, in the order the plan
/// emits them.
#[derive(Clone, Copy, Debug, PartialEq, Eq)]
pub enum BootAction {
    /// Mask interrupts before any table changes.
    DisableInterrupts,
    /// Build the GDT, give it a permanent address, and load its register.
    LoadGdt,
    /// Build the IDT, give it a permanent address, and load its register.
    LoadIdt,
    /// Unmask interrupts once both tables are active.
    EnableInterrupts,
}

/// The phases the machine passes through while the plan runs, one-directional
/// and each entered exactly once.
#[derive(Clone, Copy, Debug, PartialEq, Eq)]
pub enum BootState {
    /// Nothing done yet; interrupts may still arrive.
    Start,
    InterruptsDisabled,
    GdtLoaded,
    IdtLoaded,
    /// Terminal for this phase.
    InterruptsEnabled,
}

/// The phase the machine is in after performing one action in a given phase.
/// Only the action the plan prescribes for a phase advances it; any other
/// action leaves the phase unchanged, so a run that proves progress proves
/// it took the prescribed action.
pub open spec fn boot_transition(s: BootState, a: BootAction) -> BootState {
    match (s, a) {
        (BootState::Start, BootAction::DisableInterrupts) => BootState::InterruptsDisabled,
        (BootState::InterruptsDisabled, BootAction::LoadGdt) => BootState::GdtLoaded,
        (BootState::GdtLoaded, BootAction::LoadIdt) => BootState::IdtLoaded,
        (BootState::IdtLoaded, BootAction::EnableInterrupts) => BootState::InterruptsEnabled,
        _ => s,
    }
}

/// The phase reached by performing a run of actions from a starting phase.
pub open spec fn boot_run(s: BootState, actions: Seq<BootAction>) -> BootState
    decreases actions.len(),
{
    if actions.len() == 0 {
        s
    } else {
        boot_run(boot_transition(s, actions.first()), actions.drop_first())
    }
}

/// The one order the boot sequence may run in: mask, load GDT, load IDT,
/// unmask.
pub open spec fn boot_sequence() -> Seq<BootAction> {
    seq![
        BootAction::DisableInterrupts,
        BootAction::LoadGdt,
        BootAction::LoadIdt,
        BootAction::EnableInterrupts,
    ]
}

/// The boot plan: exactly the four actions of the sequence, each once, in
/// the mandated order. The caller performs them front to back; the tables
/// themselves come from the GDT and IDT assembly.
pub fn x86_init() -> (plan: Vec<BootAction>)
    ensures
        plan@ == boot_sequence(),
{
    let mut plan: Vec<BootAction> = Vec::new();
    plan.push(BootAction::DisableInterrupts);
    plan.push(BootAction::LoadGdt);
    plan.push(BootAction::LoadIdt);
    plan.push(BootAction::EnableInterrupts);
    proof {
        assert(plan@ =~= boot_sequence());
    }
    plan
}

/// Ordering law: running the plan from the initial phase passes through
/// every phase in order — interrupts are masked before either load, the GDT
/// load precedes the IDT load, and interrupts are unmasked only at the end —
/// with no step skipped or repeated.
pub proof fn lemma_boot_order()
    ensures
        boot_run(BootState::Start, boot_sequence()) == BootState::InterruptsEnabled,
        boot_run(BootState::Start, boot_sequence().take(0)) == BootState::Start,
        boot_run(BootState::Start, boot_sequence().take(1)) == BootState::InterruptsDisabled,
        boot_run(BootState::Start, boot_sequence().take(2)) == BootState::GdtLoaded,
        boot_run(BootState::Start, boot_sequence().take(3)) == BootState::IdtLoaded,
        boot_run(BootState::Start, boot_sequence().take(4)) == BootState::InterruptsEnabled,
{
    let s0 = boot_sequence();
    assert(s0.take(0) =~= Seq::<BootAction>::empty());
    assert(s0.take(1) =~= seq![BootAction::DisableInterrupts]);
    assert(s0.take(2) =~= seq![BootAction::DisableInterrupts, BootAction::LoadGdt]);
    assert(s0.take(3) =~= seq![
        BootAction::DisableInterrupts,
        BootAction::LoadGdt,
        BootAction::LoadIdt,
    ]);
    assert(s0.take(4) =~= s0);
    reveal_with_fuel(boot_run, 5);
    assert(seq![BootAction::DisableInterrupts].drop_first() =~= Seq::<BootAction>::empty());
    assert(seq![BootAction::DisableInterrupts, BootAction::LoadGdt].drop_first() =~= seq![
        BootAction::LoadGdt,
    ]);
    assert(seq![
        BootAction::DisableInterrupts,
        BootAction::LoadGdt,
        BootAction::LoadIdt,
    ].drop_first() =~= seq![BootAction::LoadGdt, BootAction::LoadIdt]);
    assert(s0.drop_first() =~= seq![
        BootAction::LoadGdt,
        BootAction::LoadIdt,
        BootAction::EnableInterrupts,
    ]);
    assert(boot_run(BootState::Start, s0) == BootState::InterruptsEnabled) by {
        assert(s0.drop_first().drop_first() =~= seq![
            BootAction::LoadIdt,
            BootAction::EnableInterrupts,
        ]);
        assert(s0.drop_first().drop_first().drop_first() =~= seq![BootAction::EnableInterrupts]);
        assert(s0.drop_first().drop_first().drop_first().drop_first()
            =~= Seq::<BootAction>::empty());
    }
    assert(boot_run(BootState::Start, s0.take(2)) == BootState::GdtLoaded) by {
        assert(s0.take(2).drop_first() =~= seq![BootAction::LoadGdt]);
        assert(seq![BootAction::LoadGdt].drop_first() =~= Seq::<BootAction>::empty());
    }
    assert(boot_run(BootState::Start, s0.take(3)) == BootState::IdtLoaded) by {
        assert(s0.take(3).drop_first() =~= seq![BootAction::LoadGdt, BootAction::LoadIdt]);
        assert(seq![BootAction::LoadGdt, BootAction::LoadIdt].drop_first() =~= seq![
            BootAction::LoadIdt,
        ]);
        assert(seq![BootAction::LoadIdt].drop_first() =~= Seq::<BootAction>::empty());
    }
}

} // verus!
