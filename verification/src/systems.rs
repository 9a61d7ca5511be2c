//! The per-tick entry points: each runs one procedure over all motors and
//! hands back what to do for every motor, with the diagnostics of the tick.

use vstd::prelude::*;
use bevy::ecs::entity::Entity;
use crate::control::{
    damping_coefficient, damping_for, decide_drive, decide_follow, drive_action, follow_action,
    Action, CarRef, DriveStatus,
};
use crate::procedure::Procedure;

verus! {

/// The report that a motor points to a car that cannot be found: the entity
/// is gone, or it lacks its transform or its car marker.
#[derive(Clone, Copy, Debug, PartialEq, Eq, Hash)]
pub struct Diagnostic {
    /// The procedure that met the unresolved reference.
    pub procedure: Procedure,
    /// The handle that did not resolve.
    pub car_entity: Entity,
}

/// The outcome of one procedure over all motors in one tick.
#[derive(Clone, Debug, PartialEq, Eq)]
pub struct TickReport {
    /// The action for each motor, in the order of the motors.
    pub actions: Vec<Action>,
    /// One entry for each motor whose car reference the procedure could not
    /// resolve, in the order of the motors.
    pub diagnostics: Vec<Diagnostic>,
}

/// The diagnostic that a procedure which needs the car emits for `car`, if
/// it emits one.
pub open spec fn follow_diagnostic(procedure: Procedure, car: CarRef) -> Option<Diagnostic> {
    if car.resolved {
        None
    } else {
        Some(Diagnostic { procedure, car_entity: car.car_entity })
    }
}

/// The diagnostic that Drive emits for `motor`, if it emits one.
pub open spec fn drive_diagnostic(motor: DriveStatus) -> Option<Diagnostic> {
    if motor.handbrake {
        None
    } else {
        follow_diagnostic(Procedure::Drive, motor.car)
    }
}

/// `follow_diagnostic` with the procedure fixed.
pub open spec fn diagnosing(procedure: Procedure) -> spec_fn(CarRef) -> Option<Diagnostic> {
    |car: CarRef| follow_diagnostic(procedure, car)
}

/// The actions of Turn or PositionSync over a batch: each motor gets the
/// action it would get alone.
pub open spec fn follow_actions(cars: Seq<CarRef>) -> Seq<Action> {
    cars.map_values(|car: CarRef| follow_action(car))
}

/// The diagnostics of Turn or PositionSync over a batch: one for each
/// reference that does not resolve, in the order of the motors, repeats
/// included.
pub open spec fn follow_diagnostics(procedure: Procedure, cars: Seq<CarRef>) -> Seq<Diagnostic> {
    cars.filter_map(diagnosing(procedure))
}

/// The actions of Drive over a batch.
pub open spec fn drive_actions(motors: Seq<DriveStatus>) -> Seq<Action> {
    motors.map_values(|motor: DriveStatus| drive_action(motor))
}

/// The diagnostics of Drive over a batch: one for each motor with the
/// handbrake released whose reference does not resolve.
pub open spec fn drive_diagnostics(motors: Seq<DriveStatus>) -> Seq<Diagnostic> {
    motors.filter_map(|motor: DriveStatus| drive_diagnostic(motor))
}

/// The damping coefficients that a batch of handbrake flags asks for.
pub open spec fn dampings_of(handbrakes: Seq<bool>) -> Seq<u8> {
    handbrakes.map_values(|handbrake: bool| damping_for(handbrake))
}

fn follow_cars(procedure: Procedure, cars: &Vec<CarRef>) -> (report: TickReport)
    ensures
        report.actions@ == follow_actions(cars@),
        report.diagnostics@ == follow_diagnostics(procedure, cars@),
{
    let mut actions: Vec<Action> = Vec::new();
    let mut diagnostics: Vec<Diagnostic> = Vec::new();
    let mut i: usize = 0;
    while i < cars.len()
        invariant
            i <= cars.len(),
            actions@ == follow_actions(cars@.take(i as int)),
            diagnostics@ == follow_diagnostics(procedure, cars@.take(i as int)),
        decreases cars.len() - i,
    {
        let action = decide_follow(&cars[i]);
        proof {
            cars@.lemma_filter_map_take_succ(diagnosing(procedure), i as int);
        }
        actions.push(action);
        match action {
            Action::Diagnose => {
                diagnostics.push(Diagnostic { procedure, car_entity: cars[i].car_entity });
            },
            _ => {},
        }
        i += 1;
    }
    proof {
        assert(cars@.take(i as int) == cars@);
    }
    TickReport { actions, diagnostics }
}

/// Drive: which motors get a new linear acceleration. A motor with the
/// handbrake held is skipped before its car is looked at, so its
/// acceleration stays as it was and nothing is reported for it. An
/// unresolved reference costs that one motor its turn and adds one
/// diagnostic; every other motor is decided as if it were alone.
pub fn drive_car_system(motors: &Vec<DriveStatus>) -> (report: TickReport)
    ensures
        report.actions@.len() == motors@.len(),
        report.actions@ == drive_actions(motors@),
        report.diagnostics@ == drive_diagnostics(motors@),
        forall|i: int|
            0 <= i < motors@.len() && motors@[i].handbrake ==> #[trigger] report.actions@[i]
                == Action::Skip,
{
    let mut actions: Vec<Action> = Vec::new();
    let mut diagnostics: Vec<Diagnostic> = Vec::new();
    let mut i: usize = 0;
    while i < motors.len()
        invariant
            i <= motors.len(),
            actions@ == drive_actions(motors@.take(i as int)),
            diagnostics@ == drive_diagnostics(motors@.take(i as int)),
        decreases motors.len() - i,
    {
        let action = decide_drive(&motors[i]);
        proof {
            motors@.lemma_filter_map_take_succ(
                |motor: DriveStatus| drive_diagnostic(motor),
                i as int,
            );
        }
        actions.push(action);
        match action {
            Action::Diagnose => {
                diagnostics.push(
                    Diagnostic { procedure: Procedure::Drive, car_entity: motors[i].car.car_entity },
                );
            },
            _ => {},
        }
        i += 1;
    }
    proof {
        assert(motors@.take(i as int) == motors@);
    }
    TickReport { actions, diagnostics }
}

/// Turn: which cars are rotated about the vertical axis. The handbrake has
/// no say in it. An unresolved reference costs that one motor its turn and
/// adds one diagnostic.
pub fn turn_car_system(cars: &Vec<CarRef>) -> (report: TickReport)
    ensures
        report.actions@.len() == cars@.len(),
        report.actions@ == follow_actions(cars@),
        report.diagnostics@ == follow_diagnostics(Procedure::Turn, cars@),
{
    follow_cars(Procedure::Turn, cars)
}

/// Position sync: which cars are moved to the ground point below their motor
/// body. An unresolved reference costs that one motor its turn and adds one
/// diagnostic.
pub fn copy_position_system(cars: &Vec<CarRef>) -> (report: TickReport)
    ensures
        report.actions@.len() == cars@.len(),
        report.actions@ == follow_actions(cars@),
        report.diagnostics@ == follow_diagnostics(Procedure::PositionSync, cars@),
{
    follow_cars(Procedure::PositionSync, cars)
}

/// Handbrake: the damping coefficient of every body that carries an input,
/// from its handbrake flag alone: 5 where it is held, 1 where it is not.
pub fn handbrake_car_system(handbrakes: &Vec<bool>) -> (dampings: Vec<u8>)
    ensures
        dampings@ == dampings_of(handbrakes@),
        dampings@.len() == handbrakes@.len(),
        forall|i: int|
            0 <= i < handbrakes@.len() ==> #[trigger] dampings@[i] == (if handbrakes@[i] {
                5u8
            } else {
                1u8
            }),
{
    let mut dampings: Vec<u8> = Vec::new();
    let mut i: usize = 0;
    while i < handbrakes.len()
        invariant
            i <= handbrakes.len(),
            dampings@ == dampings_of(handbrakes@.take(i as int)),
        decreases handbrakes.len() - i,
    {
        dampings.push(damping_coefficient(handbrakes[i]));
        i += 1;
    }
    proof {
        assert(handbrakes@.take(i as int) == handbrakes@);
    }
    dampings
}

} // verus!
