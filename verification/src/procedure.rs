//! The four procedures that the controller runs on every simulation tick.

use vstd::prelude::*;

verus! {

/// One of the per-tick procedures of the controller.
#[derive(Clone, Copy, Debug, PartialEq, Eq, Hash, Structural)]
pub enum Procedure {
    /// Writes the motor body's linear acceleration from the throttle.
    Drive,
    /// Rotates the car about the vertical axis from the steering.
    Turn,
    /// Chooses the motor body's damping coefficient from the handbrake flag.
    Handbrake,
    /// Moves the car to the ground point below the motor body.
    PositionSync,
}

/// Where a procedure stands relative to the physics engine's integration pass.
#[derive(Clone, Copy, Debug, PartialEq, Eq, Hash, Structural)]
pub enum Stage {
    /// The procedure sets forces or damping for the pass to consume.
    BeforeIntegration,
    /// The procedure reads the velocity or position that the pass produced.
    AfterIntegration,
}

impl Procedure {
    /// The stage a procedure belongs to.
    pub open spec fn spec_stage(self) -> Stage {
        match self {
            Procedure::Drive | Procedure::Handbrake => Stage::BeforeIntegration,
            Procedure::Turn | Procedure::PositionSync => Stage::AfterIntegration,
        }
    }

    /// The stage in which the host has to run this procedure.
    #[verifier::when_used_as_spec(spec_stage)]
    pub fn stage(self) -> (stage: Stage)
        ensures
            stage == self.spec_stage(),
    {
        match self {
            Procedure::Drive | Procedure::Handbrake => Stage::BeforeIntegration,
            Procedure::Turn | Procedure::PositionSync => Stage::AfterIntegration,
        }
    }
}

/// The procedures in the order in which one tick runs them.
pub open spec fn spec_pipeline() -> Seq<Procedure> {
    seq![Procedure::Drive, Procedure::Turn, Procedure::Handbrake, Procedure::PositionSync]
}

/// The procedures in the order in which one tick runs them.
pub fn pipeline() -> (order: [Procedure; 4])
    ensures
        order@ == spec_pipeline(),
{
    [Procedure::Drive, Procedure::Turn, Procedure::Handbrake, Procedure::PositionSync]
}

} // verus!
