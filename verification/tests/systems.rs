use arcade_car_controller::control::{Action, CarRef, DriveStatus};
use arcade_car_controller::procedure::Procedure;
use arcade_car_controller::systems::{
    copy_position_system, drive_car_system, handbrake_car_system, turn_car_system, Diagnostic,
};
use bevy::ecs::entity::Entity;

fn car(id: u32, resolved: bool) -> CarRef {
    CarRef { car_entity: Entity::from_raw(id), resolved }
}

fn motor(id: u32, handbrake: bool, resolved: bool) -> DriveStatus {
    DriveStatus { handbrake, car: car(id, resolved) }
}

fn missing(procedure: Procedure, id: u32) -> Diagnostic {
    Diagnostic { procedure, car_entity: Entity::from_raw(id) }
}

#[test]
fn end_to_end_tick_of_one_motor() {
    // Throttle 1, no steering, handbrake released, car present.
    let drive = drive_car_system(&vec![motor(0, false, true)]);
    assert_eq!(drive.actions, vec![Action::Apply]);
    assert!(drive.diagnostics.is_empty());

    let turn = turn_car_system(&vec![car(0, true)]);
    assert_eq!(turn.actions, vec![Action::Apply]);
    assert!(turn.diagnostics.is_empty());

    assert_eq!(handbrake_car_system(&vec![false]), vec![1]);

    let sync = copy_position_system(&vec![car(0, true)]);
    assert_eq!(sync.actions, vec![Action::Apply]);
    assert!(sync.diagnostics.is_empty());
}

#[test]
fn empty_batch_yields_an_empty_report() {
    let drive = drive_car_system(&Vec::new());
    assert!(drive.actions.is_empty());
    assert!(drive.diagnostics.is_empty());
    let turn = turn_car_system(&Vec::new());
    assert!(turn.actions.is_empty());
    assert!(turn.diagnostics.is_empty());
    let sync = copy_position_system(&Vec::new());
    assert!(sync.actions.is_empty());
    assert!(sync.diagnostics.is_empty());
    assert!(handbrake_car_system(&Vec::new()).is_empty());
}

#[test]
fn handbrake_leaves_acceleration_alone() {
    let motors = vec![motor(1, true, true), motor(2, true, false), motor(3, false, true)];
    let report = drive_car_system(&motors);
    assert_eq!(report.actions, vec![Action::Skip, Action::Skip, Action::Apply]);
    assert!(report.diagnostics.is_empty());
}

#[test]
fn handbrake_differs_from_released_drive() {
    let held = drive_car_system(&vec![motor(1, true, true)]);
    let released = drive_car_system(&vec![motor(1, false, true)]);
    assert_eq!(held.actions, vec![Action::Skip]);
    assert_eq!(released.actions, vec![Action::Apply]);
    assert_ne!(held.actions, released.actions);
}

#[test]
fn handbrake_system_maps_every_flag() {
    assert_eq!(handbrake_car_system(&vec![true, false, false, true]), vec![5, 1, 1, 5]);
}

#[test]
fn one_missing_car_costs_one_motor_its_turn() {
    let cars = vec![car(10, true), car(11, false), car(12, true)];
    let expected = vec![Action::Apply, Action::Diagnose, Action::Apply];

    let turn = turn_car_system(&cars);
    assert_eq!(turn.actions, expected);
    assert_eq!(turn.diagnostics, vec![missing(Procedure::Turn, 11)]);

    let sync = copy_position_system(&cars);
    assert_eq!(sync.actions, expected);
    assert_eq!(sync.diagnostics, vec![missing(Procedure::PositionSync, 11)]);

    let motors = vec![motor(10, false, true), motor(11, false, false), motor(12, true, true)];
    let drive = drive_car_system(&motors);
    assert_eq!(drive.actions, vec![Action::Apply, Action::Diagnose, Action::Skip]);
    assert_eq!(drive.diagnostics, vec![missing(Procedure::Drive, 11)]);
}

#[test]
fn braking_motor_with_missing_car_is_silent_in_drive_only() {
    let drive = drive_car_system(&vec![motor(7, true, false)]);
    assert_eq!(drive.actions, vec![Action::Skip]);
    assert!(drive.diagnostics.is_empty());

    let turn = turn_car_system(&vec![car(7, false)]);
    assert_eq!(turn.actions, vec![Action::Diagnose]);
    assert_eq!(turn.diagnostics, vec![missing(Procedure::Turn, 7)]);

    let sync = copy_position_system(&vec![car(7, false)]);
    assert_eq!(sync.actions, vec![Action::Diagnose]);
    assert_eq!(sync.diagnostics, vec![missing(Procedure::PositionSync, 7)]);
}

#[test]
fn diagnostics_are_not_merged() {
    let cars = vec![car(5, false), car(6, true), car(5, false)];
    let report = copy_position_system(&cars);
    assert_eq!(report.actions, vec![Action::Diagnose, Action::Apply, Action::Diagnose]);
    assert_eq!(
        report.diagnostics,
        vec![missing(Procedure::PositionSync, 5), missing(Procedure::PositionSync, 5)]
    );
}

#[test]
fn diagnostics_keep_the_order_of_the_motors() {
    let cars = vec![car(9, false), car(3, true), car(8, false), car(1, false)];
    let report = turn_car_system(&cars);
    assert_eq!(
        report.diagnostics,
        vec![
            missing(Procedure::Turn, 9),
            missing(Procedure::Turn, 8),
            missing(Procedure::Turn, 1)
        ]
    );
}

#[test]
fn drive_reports_only_released_motors() {
    let motors = vec![
        motor(1, false, false),
        motor(2, true, false),
        motor(3, false, true),
        motor(4, false, false),
    ];
    let report = drive_car_system(&motors);
    assert_eq!(
        report.actions,
        vec![Action::Diagnose, Action::Skip, Action::Apply, Action::Diagnose]
    );
    assert_eq!(
        report.diagnostics,
        vec![missing(Procedure::Drive, 1), missing(Procedure::Drive, 4)]
    );
}

#[test]
fn diagnostics_tell_generations_apart() {
    let stale = Entity::from_bits((3u64 << 32) | 5);
    let report = turn_car_system(&vec![CarRef { car_entity: stale, resolved: false }]);
    assert_eq!(report.diagnostics.len(), 1);
    assert_eq!(report.diagnostics[0].car_entity, stale);
    assert_ne!(report.diagnostics[0].car_entity, Entity::from_raw(5));
}

#[test]
fn a_motor_recovers_when_its_car_comes_back() {
    assert_eq!(copy_position_system(&vec![car(2, false)]).actions, vec![Action::Diagnose]);
    let back = copy_position_system(&vec![car(2, true)]);
    assert_eq!(back.actions, vec![Action::Apply]);
    assert!(back.diagnostics.is_empty());
}

#[test]
fn sync_decides_the_same_when_run_twice() {
    let cars = vec![car(1, true), car(2, false)];
    assert_eq!(copy_position_system(&cars), copy_position_system(&cars));
}

#[test]
fn handbrake_flag_selects_braking_or_driving() {
    let braking = drive_car_system(&vec![motor(1, true, true)]);
    assert_eq!(braking.actions, vec![Action::Skip]);
    assert_eq!(handbrake_car_system(&vec![true]), vec![5]);

    let driving = drive_car_system(&vec![motor(1, false, true)]);
    assert_eq!(driving.actions, vec![Action::Apply]);
    assert_eq!(handbrake_car_system(&vec![false]), vec![1]);
}

#[test]
fn all_cars_present_means_no_diagnostics() {
    let cars = vec![car(1, true), car(2, true), car(3, true)];
    let turn = turn_car_system(&cars);
    assert_eq!(turn.actions, vec![Action::Apply, Action::Apply, Action::Apply]);
    assert!(turn.diagnostics.is_empty());
    let sync = copy_position_system(&cars);
    assert_eq!(sync.actions, vec![Action::Apply, Action::Apply, Action::Apply]);
    assert!(sync.diagnostics.is_empty());
}

#[test]
fn changing_one_motor_leaves_the_others_as_they_were() {
    let before = turn_car_system(&vec![car(1, true), car(2, true), car(3, false)]);
    let after = turn_car_system(&vec![car(1, true), car(2, false), car(3, false)]);
    assert_eq!(before.actions[0], after.actions[0]);
    assert_eq!(before.actions[2], after.actions[2]);
    assert_eq!(before.actions[1], Action::Apply);
    assert_eq!(after.actions[1], Action::Diagnose);
}
