use deur::door::{DoorAction, DoorRun, DoorStep, DOOR_PIN, OPEN_PULSE_MILLIS};

fn drive(outcomes: &[bool]) -> Vec<DoorAction> {
    let (mut run, first) = DoorRun::start(42);
    let mut actions = vec![first];
    for &ok in outcomes {
        let (next, action) = run.advance(ok);
        run = next;
        actions.push(action);
    }
    actions
}

#[test]
fn successful_opening_sequence() {
    let actions = drive(&[true; 7]);
    assert_eq!(
        actions,
        vec![
            DoorAction::RecordVisit { user_id: 42 },
            DoorAction::ExportPin { pin: 27 },
            DoorAction::SetDirectionOut { pin: 27 },
            DoorAction::SetValue { pin: 27, value: 1 },
            DoorAction::Sleep { millis: 75 },
            DoorAction::SetValue { pin: 27, value: 0 },
            DoorAction::UnexportPin { pin: 27 },
            DoorAction::Finish { succeeded: true },
        ]
    );
    assert_eq!(DOOR_PIN, 27);
    assert_eq!(OPEN_PULSE_MILLIS, 75);
}

#[test]
fn failed_log_entry_leaves_pin_alone() {
    assert_eq!(
        drive(&[false]),
        vec![DoorAction::RecordVisit { user_id: 42 }, DoorAction::Finish { succeeded: false }]
    );
}

#[test]
fn failed_export_ends_the_run() {
    assert_eq!(drive(&[true, false])[2], DoorAction::Finish { succeeded: false });
}

#[test]
fn failure_after_export_still_unexports() {
    let actions = drive(&[true, true, true, false, true]);
    assert_eq!(actions[4], DoorAction::UnexportPin { pin: 27 });
    assert_eq!(actions[5], DoorAction::Finish { succeeded: false });
    let actions = drive(&[true, true, true, true, true, false, true]);
    assert_eq!(actions[6], DoorAction::UnexportPin { pin: 27 });
    assert_eq!(actions[7], DoorAction::Finish { succeeded: false });
}

#[test]
fn failed_unexport_fails_the_run() {
    assert_eq!(drive(&[true, true, true, true, true, true, false])[7], DoorAction::Finish { succeeded: false });
}

#[test]
fn finished_run_stays_finished() {
    let (run, _) = DoorRun::start(1);
    let (run, _) = run.advance(false);
    assert_eq!(run.step, DoorStep::Done);
    let (again, action) = run.advance(true);
    assert_eq!(again, run);
    assert_eq!(action, DoorAction::Finish { succeeded: false });
}
