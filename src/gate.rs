//! Making sure the extraction tool is present: probe for it, install it when
//! it is missing, probe once more, and go on either way.
use vstd::prelude::*;

verus! {

/// The name of the extraction tool's executable.
pub const TOOL_NAME: &'static str = "unar";

/// Where the availability check stands.
#[derive(Clone, Copy, Debug, PartialEq, Eq, Structural)]
pub enum GateStage {
    FirstProbe,
    Installing,
    SecondProbe,
    /// Finished; whether the tool was found.
    Finished(bool),
}

/// What the availability check asks for next.
#[derive(Clone, Copy, Debug, PartialEq, Eq, Structural)]
pub enum GateAction {
    /// Look for the tool's executable.
    Probe,
    /// Install the tool with the host's package manager.
    Install,
    /// Go on with the batch; whether the tool was found.
    Proceed(bool),
}

pub open spec fn gate_action(stage: GateStage) -> GateAction {
    match stage {
        GateStage::FirstProbe => GateAction::Probe,
        GateStage::Installing => GateAction::Install,
        GateStage::SecondProbe => GateAction::Probe,
        GateStage::Finished(found) => GateAction::Proceed(found),
    }
}

/// The stage after a probe that found the tool or not.
pub open spec fn after_probe(stage: GateStage, found: bool) -> GateStage {
    match stage {
        GateStage::FirstProbe => if found {
            GateStage::Finished(true)
        } else {
            GateStage::Installing
        },
        _ => GateStage::Finished(found),
    }
}

/// The step asked for at `stage`.
pub fn gate_pending(stage: GateStage) -> (a: GateAction)
    ensures
        a == gate_action(stage),
{
    match stage {
        GateStage::FirstProbe => GateAction::Probe,
        GateStage::Installing => GateAction::Install,
        GateStage::SecondProbe => GateAction::Probe,
        GateStage::Finished(found) => GateAction::Proceed(found),
    }
}

/// Takes in the outcome of a probe. A tool found at the first probe ends the
/// check; a missing one is installed and probed for again, and the second
/// probe ends the check.
pub fn gate_probed(stage: GateStage, found: bool) -> (r: GateStage)
    requires
        stage is FirstProbe || stage is SecondProbe,
    ensures
        r == after_probe(stage, found),
{
    match stage {
        GateStage::FirstProbe => if found {
            GateStage::Finished(true)
        } else {
            GateStage::Installing
        },
        _ => GateStage::Finished(found),
    }
}

/// Takes in the end of an installation, successful or not: the tool is
/// probed for again in both cases, and a failure is not fatal.
pub fn gate_installed(stage: GateStage, succeeded: bool) -> (r: GateStage)
    requires
        stage is Installing,
    ensures
        r == GateStage::SecondProbe,
{
    GateStage::SecondProbe
}

/// A tool found at the first probe is never installed, and the check ends
/// after at most one installation, proceeding whatever the probes found.
pub proof fn lemma_gate_installs_at_most_once(first: bool, second: bool)
    ensures
        first ==> gate_action(after_probe(GateStage::FirstProbe, first)) == GateAction::Proceed(
            true,
        ),
        !first ==> gate_action(after_probe(GateStage::FirstProbe, first)) == GateAction::Install,
        gate_action(after_probe(GateStage::SecondProbe, second)) == GateAction::Proceed(second),
{
}

} // verus!
