//! What a procedure does to one motor, decided from the handbrake flag and
//! from whether the motor's car reference resolves.

use vstd::prelude::*;
use bevy::ecs::entity::Entity;

verus! {

/// Damping coefficient of a motor body whose handbrake is released.
/// A freshly built motor body starts with it.
pub const BASELINE_DAMPING: u8 = 1;

/// Damping coefficient of a motor body whose handbrake is held.
pub const HANDBRAKE_DAMPING: u8 = 5;

/// A motor's reference to its car, with what the host found behind it in
/// this tick. The motor does not own the car, so the handle may dangle.
#[derive(Clone, Copy, Debug, PartialEq, Eq, Hash)]
pub struct CarRef {
    /// The handle that the motor holds.
    pub car_entity: Entity,
    /// Whether the handle names a live entity that carries both a transform
    /// and the car marker at this moment.
    pub resolved: bool,
}

/// What Drive observes of one motor during one tick.
#[derive(Clone, Copy, Debug, PartialEq, Eq, Hash)]
pub struct DriveStatus {
    /// Whether the motor's input holds the handbrake.
    pub handbrake: bool,
    /// The motor's reference to its car.
    pub car: CarRef,
}

/// What a procedure does to one motor.
#[derive(Clone, Copy, Debug, PartialEq, Eq, Hash, Structural)]
pub enum Action {
    /// Carry out the procedure's write for this motor.
    Apply,
    /// Write nothing and report nothing.
    Skip,
    /// Write nothing and report the motor's car reference as unresolved.
    Diagnose,
}

/// The action of a procedure that moves the car after its motor, which Turn
/// and PositionSync do: it needs the car, whatever the input says.
pub open spec fn follow_action(car: CarRef) -> Action {
    if car.resolved {
        Action::Apply
    } else {
        Action::Diagnose
    }
}

/// The action of Drive: the handbrake suppresses it before the car is looked
/// at; released, Drive needs the car for its facing.
pub open spec fn drive_action(motor: DriveStatus) -> Action {
    if motor.handbrake {
        Action::Skip
    } else {
        follow_action(motor.car)
    }
}

/// The damping coefficient that the handbrake flag asks for.
pub open spec fn damping_for(handbrake: bool) -> u8 {
    if handbrake {
        HANDBRAKE_DAMPING
    } else {
        BASELINE_DAMPING
    }
}

/// Decides what Turn or PositionSync does to the motor that holds `car`.
pub fn decide_follow(car: &CarRef) -> (action: Action)
    ensures
        action == follow_action(*car),
{
    if car.resolved {
        Action::Apply
    } else {
        Action::Diagnose
    }
}

/// Decides what Drive does to `motor`.
pub fn decide_drive(motor: &DriveStatus) -> (action: Action)
    ensures
        action == drive_action(*motor),
        motor.handbrake ==> action == Action::Skip,
{
    if motor.handbrake {
        Action::Skip
    } else {
        decide_follow(&motor.car)
    }
}

/// The damping coefficient to set on a motor body: 5 while the handbrake is
/// held, 1 otherwise. The result depends on the flag alone, so the
/// coefficient snaps between the two values whatever it was before.
pub fn damping_coefficient(handbrake: bool) -> (coefficient: u8)
    ensures
        coefficient == damping_for(handbrake),
        handbrake ==> coefficient == 5,
        !handbrake ==> coefficient == 1,
{
    if handbrake {
        HANDBRAKE_DAMPING
    } else {
        BASELINE_DAMPING
    }
}

} // verus!
