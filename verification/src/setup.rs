//! Bringing the peripheral up: the register accesses, in order, that take an
//! instance from any state to an enabled master with a given timing.

use vstd::prelude::*;
use crate::timing::Timing;

verus! {

/// One register access of the bring-up.
#[derive(Debug, Clone, Copy, PartialEq, Eq, Structural)]
pub enum SetupStep {
    /// Set the instance's bit in the APB1 enable register.
    EnableClock,
    /// Set the instance's bit in the APB1 reset register.
    AssertReset,
    /// Clear the instance's bit in the APB1 reset register.
    ReleaseReset,
    /// Set the instance's bit in the alternate-function remap register.
    EngageRemap,
    /// Write the value to CR2.
    WriteCr2(u32),
    /// Write the value to TRISE.
    WriteTrise(u32),
    /// Write the value to CCR.
    WriteCcr(u32),
    /// Write CR1 with PE set and every other bit clear.
    Enable,
}

/// The bring-up for pins with the given mapping and a given timing: gate the
/// clock on, pulse the reset, route the pins if they are remapped, program
/// the timing while the peripheral is disabled, then enable it.
pub open spec fn bring_up_steps(remap: bool, timing: Timing) -> Seq<SetupStep> {
    let gate = seq![SetupStep::EnableClock, SetupStep::AssertReset, SetupStep::ReleaseReset];
    let route = if remap {
        seq![SetupStep::EngageRemap]
    } else {
        Seq::<SetupStep>::empty()
    };
    let program = seq![
        SetupStep::WriteCr2(timing.freq_range),
        SetupStep::WriteTrise(timing.trise),
        SetupStep::WriteCcr(timing.ccr),
        SetupStep::Enable,
    ];
    gate + route + program
}

/// The register accesses that bring the peripheral up, in the order in which
/// they are to be performed.
pub fn bring_up(remap: bool, timing: Timing) -> (steps: Vec<SetupStep>)
    ensures
        steps@ == bring_up_steps(remap, timing),
{
    let mut steps: Vec<SetupStep> = Vec::new();
    steps.push(SetupStep::EnableClock);
    steps.push(SetupStep::AssertReset);
    steps.push(SetupStep::ReleaseReset);
    if remap {
        steps.push(SetupStep::EngageRemap);
    }
    steps.push(SetupStep::WriteCr2(timing.freq_range));
    steps.push(SetupStep::WriteTrise(timing.trise));
    steps.push(SetupStep::WriteCcr(timing.ccr));
    steps.push(SetupStep::Enable);
    assert(steps@ =~= bring_up_steps(remap, timing));
    steps
}

} // verus!
