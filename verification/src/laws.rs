//! What holds of the procedures for every motor and every batch.

use vstd::prelude::*;
use crate::control::{damping_for, drive_action, follow_action, Action, CarRef, DriveStatus};
use crate::procedure::Procedure;
use crate::systems::{
    diagnosing, drive_actions, drive_diagnostic, drive_diagnostics, follow_actions,
    follow_diagnostic, follow_diagnostics, Diagnostic,
};

verus! {

proof fn lemma_filter_map_concat<A, B>(front: Seq<A>, back: Seq<A>, f: spec_fn(A) -> Option<B>)
    ensures
        (front + back).filter_map(f) == front.filter_map(f) + back.filter_map(f),
    decreases back.len(),
{
    if back.len() == 0 {
        assert(front + back == front);
        assert(back.filter_map(f) == Seq::<B>::empty());
    } else {
        assert((front + back).drop_last() == front + back.drop_last());
        assert((front + back).last() == back.last());
        lemma_filter_map_concat(front, back.drop_last(), f);
    }
}

proof fn lemma_filter_map_split<A, B>(items: Seq<A>, k: int, f: spec_fn(A) -> Option<B>)
    requires
        0 <= k < items.len(),
    ensures
        items.filter_map(f) == items.take(k).filter_map(f) + (match f(items[k]) {
            Some(found) => seq![found],
            None => Seq::empty(),
        }) + items.skip(k + 1).filter_map(f),
{
    let front = items.take(k);
    let back = items.skip(k + 1);
    assert(items == front + seq![items[k]] + back);
    lemma_filter_map_concat(front + seq![items[k]], back, f);
    lemma_filter_map_concat(front, seq![items[k]], f);
    Seq::lemma_filter_map_singleton(items[k], f);
}

/// While the handbrake is held, Drive neither writes the motor body's
/// acceleration nor reports anything, whether or not the car resolves. The
/// same motor with the handbrake released and a car that resolves is driven.
pub proof fn handbrake_suppresses_drive(motor: DriveStatus)
    requires
        motor.handbrake,
    ensures
        drive_action(motor) == Action::Skip,
        drive_diagnostic(motor) is None,
        drive_action(
            (DriveStatus {
                handbrake: false,
                car: CarRef { car_entity: motor.car.car_entity, resolved: true },
            }),
        ) == Action::Apply,
{
}

/// The handbrake flag alone puts a motor in one of two modes, anew every
/// tick: braking, where Drive is suppressed and the damping is raised, and
/// driving, where Drive is not suppressed and the damping is at its baseline.
pub proof fn handbrake_selects_the_mode(motor: DriveStatus)
    ensures
        motor.handbrake ==> drive_action(motor) == Action::Skip && damping_for(motor.handbrake)
            == 5,
        !motor.handbrake ==> drive_action(motor) != Action::Skip && damping_for(motor.handbrake)
            == 1,
{
}

/// In a batch, Drive skips every motor whose handbrake is held, and none of
/// them is reported: the diagnostics are those of the other motors.
pub proof fn drive_skips_braking_motors(motors: Seq<DriveStatus>)
    ensures
        forall|i: int|
            0 <= i < motors.len() && motors[i].handbrake ==> #[trigger] drive_actions(motors)[i]
                == Action::Skip,
        drive_diagnostics(motors) == drive_diagnostics(
            motors.filter(|motor: DriveStatus| !motor.handbrake),
        ),
    decreases motors.len(),
{
    reveal(Seq::filter);
    if motors.len() > 0 {
        let released = |motor: DriveStatus| !motor.handbrake;
        let kept = motors.drop_last().filter(released);
        drive_skips_braking_motors(motors.drop_last());
        if !motors.last().handbrake {
            assert(motors.filter(released) == kept.push(motors.last()));
            assert(kept.push(motors.last()).drop_last() == kept);
        }
    }
}

/// With the handbrake released, Drive treats a motor's car reference as Turn
/// and PositionSync do, and reports it under its own name.
pub proof fn released_drive_follows_the_car(motor: DriveStatus)
    requires
        !motor.handbrake,
    ensures
        drive_action(motor) == follow_action(motor.car),
        drive_diagnostic(motor) == follow_diagnostic(Procedure::Drive, motor.car),
{
}

/// A motor whose car reference does not resolve is inert: Turn and
/// PositionSync do not act on it, and neither does Drive.
pub proof fn dangling_motor_is_inert(motor: DriveStatus)
    requires
        !motor.car.resolved,
    ensures
        follow_action(motor.car) == Action::Diagnose,
        drive_action(motor) != Action::Apply,
{
}

/// Turn and PositionSync decide every motor of a batch, and each as if it
/// were alone: what another motor's car reference does has no part in it.
pub proof fn cars_are_decided_alone(cars: Seq<CarRef>, k: int, other: CarRef)
    requires
        0 <= k < cars.len(),
    ensures
        follow_actions(cars).len() == cars.len(),
        forall|i: int|
            0 <= i < cars.len() ==> #[trigger] follow_actions(cars)[i] == follow_action(cars[i]),
        forall|i: int|
            0 <= i < cars.len() && i != k ==> #[trigger] follow_actions(cars.update(k, other))[i]
                == follow_actions(cars)[i],
{
}

/// Drive decides every motor of a batch, and each as if it were alone.
pub proof fn motors_are_driven_alone(motors: Seq<DriveStatus>, k: int, other: DriveStatus)
    requires
        0 <= k < motors.len(),
    ensures
        drive_actions(motors).len() == motors.len(),
        forall|i: int|
            0 <= i < motors.len() ==> #[trigger] drive_actions(motors)[i] == drive_action(
                motors[i],
            ),
        forall|i: int|
            0 <= i < motors.len() && i != k ==> #[trigger] drive_actions(
                motors.update(k, other),
            )[i] == drive_actions(motors)[i],
{
}

/// A car reference that does not resolve adds exactly one diagnostic to Turn
/// and to PositionSync, naming that reference. It stands between the
/// diagnostics of the motors before it and of those after it, which are what
/// they would be without it.
pub proof fn unresolved_car_adds_one_diagnostic(procedure: Procedure, cars: Seq<CarRef>, k: int)
    requires
        0 <= k < cars.len(),
        !cars[k].resolved,
    ensures
        follow_actions(cars)[k] == Action::Diagnose,
        follow_diagnostics(procedure, cars) == follow_diagnostics(procedure, cars.take(k))
            + seq![Diagnostic { procedure, car_entity: cars[k].car_entity }] + follow_diagnostics(
            procedure,
            cars.skip(k + 1),
        ),
{
    lemma_filter_map_split(cars, k, diagnosing(procedure));
}

/// A car reference that resolves adds no diagnostic to Turn or PositionSync.
pub proof fn resolved_car_adds_no_diagnostic(procedure: Procedure, cars: Seq<CarRef>, k: int)
    requires
        0 <= k < cars.len(),
        cars[k].resolved,
    ensures
        follow_actions(cars)[k] == Action::Apply,
        follow_diagnostics(procedure, cars) == follow_diagnostics(procedure, cars.take(k))
            + follow_diagnostics(procedure, cars.skip(k + 1)),
{
    lemma_filter_map_split(cars, k, diagnosing(procedure));
}

/// A motor with the handbrake released whose car reference does not resolve
/// adds exactly one diagnostic to Drive, naming that reference, between
/// those of the motors before it and of those after it.
pub proof fn unresolved_motor_adds_one_diagnostic(motors: Seq<DriveStatus>, k: int)
    requires
        0 <= k < motors.len(),
        !motors[k].handbrake,
        !motors[k].car.resolved,
    ensures
        drive_actions(motors)[k] == Action::Diagnose,
        drive_diagnostics(motors) == drive_diagnostics(motors.take(k))
            + seq![Diagnostic { procedure: Procedure::Drive, car_entity: motors[k].car.car_entity }]
            + drive_diagnostics(motors.skip(k + 1)),
{
    lemma_filter_map_split(motors, k, |motor: DriveStatus| drive_diagnostic(motor));
}

/// A motor that is braking, or whose car resolves, adds no diagnostic to
/// Drive.
pub proof fn other_motor_adds_no_diagnostic(motors: Seq<DriveStatus>, k: int)
    requires
        0 <= k < motors.len(),
        motors[k].handbrake || motors[k].car.resolved,
    ensures
        drive_actions(motors)[k] != Action::Diagnose,
        drive_diagnostics(motors) == drive_diagnostics(motors.take(k)) + drive_diagnostics(
            motors.skip(k + 1),
        ),
{
    lemma_filter_map_split(motors, k, |motor: DriveStatus| drive_diagnostic(motor));
}

/// Turn and PositionSync emit as many diagnostics as there are references
/// that do not resolve: one for each occurrence, in order, with nothing
/// merged and nothing left out.
pub proof fn one_diagnostic_per_unresolved_car(procedure: Procedure, cars: Seq<CarRef>)
    ensures
        follow_diagnostics(procedure, cars).len() == cars.filter(
            |car: CarRef| !car.resolved,
        ).len(),
        follow_diagnostics(procedure, cars) == cars.filter(
            |car: CarRef| !car.resolved,
        ).map_values(|car: CarRef| Diagnostic { procedure, car_entity: car.car_entity }),
    decreases cars.len(),
{
    reveal(Seq::filter);
    if cars.len() > 0 {
        one_diagnostic_per_unresolved_car(procedure, cars.drop_last());
    }
}

/// Drive emits as many diagnostics as there are motors with the handbrake
/// released whose reference does not resolve, one for each, in order.
pub proof fn one_diagnostic_per_undriven_motor(motors: Seq<DriveStatus>)
    ensures
        drive_diagnostics(motors).len() == motors.filter(
            |motor: DriveStatus| !motor.handbrake && !motor.car.resolved,
        ).len(),
        drive_diagnostics(motors) == motors.filter(
            |motor: DriveStatus| !motor.handbrake && !motor.car.resolved,
        ).map_values(
            |motor: DriveStatus|
                Diagnostic { procedure: Procedure::Drive, car_entity: motor.car.car_entity },
        ),
    decreases motors.len(),
{
    reveal(Seq::filter);
    if motors.len() > 0 {
        one_diagnostic_per_undriven_motor(motors.drop_last());
    }
}

/// A batch in which every car reference resolves yields no diagnostic in
/// Turn or PositionSync, and every car is acted on.
pub proof fn resolved_batch_is_silent(procedure: Procedure, cars: Seq<CarRef>)
    requires
        forall|i: int| 0 <= i < cars.len() ==> (#[trigger] cars[i]).resolved,
    ensures
        follow_diagnostics(procedure, cars) == Seq::<Diagnostic>::empty(),
        forall|i: int| 0 <= i < cars.len() ==> #[trigger] follow_actions(cars)[i] == Action::Apply,
    decreases cars.len(),
{
    if cars.len() > 0 {
        resolved_batch_is_silent(procedure, cars.drop_last());
    }
}

/// When exactly one motor of a batch has a car reference that does not
/// resolve, Turn and PositionSync each emit exactly one diagnostic, for that
/// reference, and act on every other motor.
pub proof fn single_missing_car(procedure: Procedure, cars: Seq<CarRef>, k: int)
    requires
        0 <= k < cars.len(),
        !cars[k].resolved,
        forall|i: int| 0 <= i < cars.len() && i != k ==> (#[trigger] cars[i]).resolved,
    ensures
        follow_diagnostics(procedure, cars) == seq![
            Diagnostic { procedure, car_entity: cars[k].car_entity },
        ],
        follow_actions(cars)[k] == Action::Diagnose,
        forall|i: int|
            0 <= i < cars.len() && i != k ==> #[trigger] follow_actions(cars)[i] == Action::Apply,
{
    unresolved_car_adds_one_diagnostic(procedure, cars, k);
    resolved_batch_is_silent(procedure, cars.take(k));
    resolved_batch_is_silent(procedure, cars.skip(k + 1));
}

/// When exactly one motor of a batch has a car reference that does not
/// resolve, and its handbrake is released, Drive emits exactly one
/// diagnostic, for that reference, and decides every other motor by its
/// handbrake alone.
pub proof fn single_missing_car_in_drive(motors: Seq<DriveStatus>, k: int)
    requires
        0 <= k < motors.len(),
        !motors[k].handbrake,
        !motors[k].car.resolved,
        forall|i: int| 0 <= i < motors.len() && i != k ==> (#[trigger] motors[i]).car.resolved,
    ensures
        drive_diagnostics(motors) == seq![
            Diagnostic { procedure: Procedure::Drive, car_entity: motors[k].car.car_entity },
        ],
        drive_actions(motors)[k] == Action::Diagnose,
        forall|i: int|
            0 <= i < motors.len() && i != k ==> #[trigger] drive_actions(motors)[i] == (if motors[i].handbrake {
                Action::Skip
            } else {
                Action::Apply
            }),
{
    one_diagnostic_per_undriven_motor(motors);
    let undriven = |motor: DriveStatus| !motor.handbrake && !motor.car.resolved;
    lemma_filter_single(motors, k, undriven);
}

proof fn lemma_filter_single<A>(items: Seq<A>, k: int, pred: spec_fn(A) -> bool)
    requires
        0 <= k < items.len(),
        pred(items[k]),
        forall|i: int| 0 <= i < items.len() && i != k ==> !pred(#[trigger] items[i]),
    ensures
        items.filter(pred) == seq![items[k]],
    decreases items.len(),
{
    reveal(Seq::filter);
    if k == items.len() - 1 {
        lemma_filter_none(items.drop_last(), pred);
    } else {
        lemma_filter_single(items.drop_last(), k, pred);
    }
}

proof fn lemma_filter_none<A>(items: Seq<A>, pred: spec_fn(A) -> bool)
    requires
        forall|i: int| 0 <= i < items.len() ==> !pred(#[trigger] items[i]),
    ensures
        items.filter(pred) == Seq::<A>::empty(),
    decreases items.len(),
{
    reveal(Seq::filter);
    if items.len() > 0 {
        lemma_filter_none(items.drop_last(), pred);
    }
}

} // verus!
