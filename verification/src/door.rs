//! Opening the door: record the visit, then pulse the opener's GPIO pin.
//! The steps are decided here; the caller performs each action and reports whether
//! it succeeded.
use vstd::prelude::*;

verus! {

/// The GPIO pin that drives the door opener.
pub const DOOR_PIN: u64 = 27;

/// How long the opener is powered, in milliseconds.
pub const OPEN_PULSE_MILLIS: u64 = 75;

/// Where a door-opening run stands.
#[derive(Debug, Clone, Copy, PartialEq, Eq, Structural)]
pub enum DoorStep {
    /// Waiting for the visit to be written to the log.
    Recording,
    /// Waiting for the pin to be exported.
    Exporting,
    /// Waiting for the pin to be made an output.
    Directing,
    /// Waiting for the pin to be set high.
    SwitchingOn,
    /// Waiting for the pulse to last.
    Waiting,
    /// Waiting for the pin to be set low.
    SwitchingOff,
    /// Waiting for the pin to be unexported.
    Unexporting,
    /// The run has ended.
    Done,
}

/// What the caller is to do next.
#[derive(Debug, Clone, Copy, PartialEq, Eq, Structural)]
pub enum DoorAction {
    /// Write a log entry for `user_id`, dated now.
    RecordVisit { user_id: i32 },
    /// Export the pin through sysfs.
    ExportPin { pin: u64 },
    /// Make the pin an output.
    SetDirectionOut { pin: u64 },
    /// Set the pin to `value`.
    SetValue { pin: u64, value: u8 },
    /// Sleep for `millis` milliseconds.
    Sleep { millis: u64 },
    /// Unexport the pin.
    UnexportPin { pin: u64 },
    /// Stop; the door was opened when `succeeded`, and otherwise the request is
    /// answered with 500 Internal Server Error.
    Finish { succeeded: bool },
}

/// A door-opening run: its step, whether a step has failed, and the visitor.
#[derive(Debug, Clone, Copy, PartialEq, Eq, Structural)]
pub struct DoorRun {
    pub step: DoorStep,
    pub failed: bool,
    pub user_id: i32,
}

/// The run and action that follow `run` when its pending action reported `ok`.
/// A failed log entry or export ends the run at once; any later failure still
/// unexports the pin before the run ends with an error. The pulse itself cannot fail.
pub open spec fn spec_advance(run: DoorRun, ok: bool) -> (DoorRun, DoorAction) {
    let failed_run = DoorRun { failed: true, ..run };
    match run.step {
        DoorStep::Recording => if ok {
            (DoorRun { step: DoorStep::Exporting, ..run }, DoorAction::ExportPin { pin: DOOR_PIN })
        } else {
            (DoorRun { step: DoorStep::Done, ..failed_run }, DoorAction::Finish { succeeded: false })
        },
        DoorStep::Exporting => if ok {
            (DoorRun { step: DoorStep::Directing, ..run }, DoorAction::SetDirectionOut { pin: DOOR_PIN })
        } else {
            (DoorRun { step: DoorStep::Done, ..failed_run }, DoorAction::Finish { succeeded: false })
        },
        DoorStep::Directing => if ok {
            (DoorRun { step: DoorStep::SwitchingOn, ..run }, DoorAction::SetValue { pin: DOOR_PIN, value: 1 })
        } else {
            (DoorRun { step: DoorStep::Unexporting, ..failed_run }, DoorAction::UnexportPin { pin: DOOR_PIN })
        },
        DoorStep::SwitchingOn => if ok {
            (DoorRun { step: DoorStep::Waiting, ..run }, DoorAction::Sleep { millis: OPEN_PULSE_MILLIS })
        } else {
            (DoorRun { step: DoorStep::Unexporting, ..failed_run }, DoorAction::UnexportPin { pin: DOOR_PIN })
        },
        DoorStep::Waiting => (
            DoorRun { step: DoorStep::SwitchingOff, ..run },
            DoorAction::SetValue { pin: DOOR_PIN, value: 0 },
        ),
        DoorStep::SwitchingOff => if ok {
            (DoorRun { step: DoorStep::Unexporting, ..run }, DoorAction::UnexportPin { pin: DOOR_PIN })
        } else {
            (DoorRun { step: DoorStep::Unexporting, ..failed_run }, DoorAction::UnexportPin { pin: DOOR_PIN })
        },
        DoorStep::Unexporting => if ok {
            (DoorRun { step: DoorStep::Done, ..run }, DoorAction::Finish { succeeded: !run.failed })
        } else {
            (DoorRun { step: DoorStep::Done, ..failed_run }, DoorAction::Finish { succeeded: false })
        },
        DoorStep::Done => (run, DoorAction::Finish { succeeded: !run.failed }),
    }
}

impl DoorRun {
    /// A new run for `user_id` and its first action: recording the visit, so that
    /// failed attempts are logged as well.
    pub fn start(user_id: i32) -> (r: (DoorRun, DoorAction))
        ensures
            r.0 == (DoorRun { step: DoorStep::Recording, failed: false, user_id }),
            r.1 == (DoorAction::RecordVisit { user_id }),
    {
        (DoorRun { step: DoorStep::Recording, failed: false, user_id }, DoorAction::RecordVisit { user_id })
    }

    /// The next run and action after the pending action reported `ok`.
    pub fn advance(&self, ok: bool) -> (r: (DoorRun, DoorAction))
        ensures
            r == spec_advance(*self, ok),
            r.0.step == DoorStep::Unexporting ==> r.1 == (DoorAction::UnexportPin { pin: DOOR_PIN }),
            self.step == DoorStep::Directing || self.step == DoorStep::SwitchingOn
                || self.step == DoorStep::Waiting || self.step == DoorStep::SwitchingOff ==> !(r.1 is Finish),
            r.1 is Finish ==> r.0.step == DoorStep::Done,
            r.0.user_id == self.user_id,
    {
        let failed_run = DoorRun { failed: true, ..*self };
        match self.step {
            DoorStep::Recording => if ok {
                (DoorRun { step: DoorStep::Exporting, ..*self }, DoorAction::ExportPin { pin: DOOR_PIN })
            } else {
                (DoorRun { step: DoorStep::Done, ..failed_run }, DoorAction::Finish { succeeded: false })
            },
            DoorStep::Exporting => if ok {
                (DoorRun { step: DoorStep::Directing, ..*self }, DoorAction::SetDirectionOut { pin: DOOR_PIN })
            } else {
                (DoorRun { step: DoorStep::Done, ..failed_run }, DoorAction::Finish { succeeded: false })
            },
            DoorStep::Directing => if ok {
                (DoorRun { step: DoorStep::SwitchingOn, ..*self }, DoorAction::SetValue { pin: DOOR_PIN, value: 1 })
            } else {
                (DoorRun { step: DoorStep::Unexporting, ..failed_run }, DoorAction::UnexportPin { pin: DOOR_PIN })
            },
            DoorStep::SwitchingOn => if ok {
                (DoorRun { step: DoorStep::Waiting, ..*self }, DoorAction::Sleep { millis: OPEN_PULSE_MILLIS })
            } else {
                (DoorRun { step: DoorStep::Unexporting, ..failed_run }, DoorAction::UnexportPin { pin: DOOR_PIN })
            },
            DoorStep::Waiting => (
                DoorRun { step: DoorStep::SwitchingOff, ..*self },
                DoorAction::SetValue { pin: DOOR_PIN, value: 0 },
            ),
            DoorStep::SwitchingOff => if ok {
                (DoorRun { step: DoorStep::Unexporting, ..*self }, DoorAction::UnexportPin { pin: DOOR_PIN })
            } else {
                (DoorRun { step: DoorStep::Unexporting, ..failed_run }, DoorAction::UnexportPin { pin: DOOR_PIN })
            },
            DoorStep::Unexporting => if ok {
                (DoorRun { step: DoorStep::Done, ..*self }, DoorAction::Finish { succeeded: !self.failed })
            } else {
                (DoorRun { step: DoorStep::Done, ..failed_run }, DoorAction::Finish { succeeded: false })
            },
            DoorStep::Done => {
                (*self, DoorAction::Finish { succeeded: !self.failed })
            },
        }
    }
}

/// Steps during which the pin is exported and is to be unexported before the run ends.
pub open spec fn holds_pin(step: DoorStep) -> bool {
    match step {
        DoorStep::Directing | DoorStep::SwitchingOn | DoorStep::Waiting | DoorStep::SwitchingOff
        | DoorStep::Unexporting => true,
        _ => false,
    }
}

/// The run after each of `outcomes` has been reported in turn.
pub open spec fn run_through(run: DoorRun, outcomes: Seq<bool>) -> DoorRun
    decreases outcomes.len(),
{
    if outcomes.len() == 0 {
        run
    } else {
        run_through(spec_advance(run, outcomes[0]).0, outcomes.drop_first())
    }
}

/// The visit is logged before anything touches the pin: a run starts by recording
/// it, and a run whose recording fails ends at once, unsuccessfully, with the pin
/// untouched.
pub proof fn law_door_visit_recorded_first(user_id: i32)
    ensures
        ({
            let run = DoorRun { step: DoorStep::Recording, failed: false, user_id };
            &&& spec_advance(run, false).0.step == DoorStep::Done
            &&& spec_advance(run, false).1 == (DoorAction::Finish { succeeded: false })
            &&& spec_advance(run, true).1 == (DoorAction::ExportPin { pin: DOOR_PIN })
        }),
{
}

/// Once the pin is exported, the run cannot end without unexporting it: from a step
/// that holds the pin, every sequence of outcomes that ends the run passes through
/// the unexport step.
pub proof fn law_door_pin_released(run: DoorRun, outcomes: Seq<bool>)
    requires
        holds_pin(run.step),
        run_through(run, outcomes).step == DoorStep::Done,
    ensures
        exists|k: int| 0 <= k < outcomes.len() && #[trigger] run_through(run, outcomes.take(k)).step == DoorStep::Unexporting,
    decreases outcomes.len(),
{
    if outcomes.len() == 0 {
    } else if run.step == DoorStep::Unexporting {
        assert(outcomes.take(0) =~= Seq::<bool>::empty());
        assert(run_through(run, outcomes.take(0)).step == DoorStep::Unexporting);
    } else {
        let next = spec_advance(run, outcomes[0]).0;
        let rest = outcomes.drop_first();
        assert(holds_pin(next.step));
        law_door_pin_released(next, rest);
        let k: int = choose|k: int| 0 <= k < rest.len() && #[trigger] run_through(next, rest.take(k)).step == DoorStep::Unexporting;
        assert(outcomes.take(k + 1).drop_first() =~= rest.take(k));
        assert(run_through(run, outcomes.take(k + 1)) == run_through(next, rest.take(k)));
    }
}

/// The pin is unexported before a run that holds it ends: whenever a run moves into
/// the unexport step, the action it returns is to unexport the door pin, and no step
/// that holds the exported pin (other than the unexport step itself) answers with a
/// finish; a finish always ends the run.
pub proof fn law_door_unexports_before_finishing(run: DoorRun, ok: bool)
    ensures
        spec_advance(run, ok).0.step == DoorStep::Unexporting ==> spec_advance(run, ok).1
            == (DoorAction::UnexportPin { pin: DOOR_PIN }),
        run.step == DoorStep::Directing || run.step == DoorStep::SwitchingOn || run.step
            == DoorStep::Waiting || run.step == DoorStep::SwitchingOff ==> !(spec_advance(run, ok).1 is Finish),
        spec_advance(run, ok).1 is Finish ==> spec_advance(run, ok).0.step == DoorStep::Done,
        spec_advance(run, ok).0.user_id == run.user_id,
{
}

/// A pin that was switched on is switched off again: after a successful switch-on
/// the run waits the pulse length and then sets the pin low, whatever the wait reports.
pub proof fn law_door_switched_off_after_on(run: DoorRun, waited: bool)
    requires
        run.step == DoorStep::SwitchingOn,
    ensures
        spec_advance(run, true).1 == (DoorAction::Sleep { millis: OPEN_PULSE_MILLIS }),
        spec_advance(spec_advance(run, true).0, waited).1 == (DoorAction::SetValue { pin: DOOR_PIN, value: 0 }),
{
}

/// A failure is never forgotten, every failed step other than the wait marks the run
/// failed, and a run ends successfully only when it is not failed.
pub proof fn law_door_failure_sticks(run: DoorRun, ok: bool)
    ensures
        run.failed ==> spec_advance(run, ok).0.failed,
        !ok && run.step != DoorStep::Waiting && run.step != DoorStep::Done ==> spec_advance(run, ok).0.failed,
        spec_advance(run, ok).1 == (DoorAction::Finish { succeeded: true }) ==> !spec_advance(run, ok).0.failed,
{
}

/// A run that has failed stays failed whatever is reported later, so it can no
/// longer end successfully.
pub proof fn law_door_failed_run_stays_failed(run: DoorRun, outcomes: Seq<bool>)
    requires
        run.failed,
    ensures
        run_through(run, outcomes).failed,
        spec_advance(run_through(run, outcomes), true).1 != (DoorAction::Finish { succeeded: true }),
    decreases outcomes.len(),
{
    if outcomes.len() > 0 {
        law_door_failed_run_stays_failed(spec_advance(run, outcomes[0]).0, outcomes.drop_first());
    }
}

/// When every step succeeds, the run records the visit, pulses the pin, releases it
/// and ends successfully after seven reports.
pub proof fn law_door_opens_when_all_steps_succeed(user_id: i32)
    ensures
        ({
            let start = DoorRun { step: DoorStep::Recording, failed: false, user_id };
            let all_ok = seq![true, true, true, true, true, true, true];
            &&& run_through(start, all_ok).step == DoorStep::Done
            &&& !run_through(start, all_ok).failed
            &&& spec_advance(run_through(start, all_ok.take(6)), true).1 == (DoorAction::Finish { succeeded: true })
        }),
{
    let start = DoorRun { step: DoorStep::Recording, failed: false, user_id };
    let all_ok = seq![true, true, true, true, true, true, true];
    reveal_with_fuel(run_through, 8);
    assert(all_ok.drop_first() =~= seq![true, true, true, true, true, true]);
    assert(all_ok.take(6) =~= seq![true, true, true, true, true, true]);
    assert(seq![true, true, true, true, true, true].drop_first() =~= seq![true, true, true, true, true]);
    assert(seq![true, true, true, true, true].drop_first() =~= seq![true, true, true, true]);
    assert(seq![true, true, true, true].drop_first() =~= seq![true, true, true]);
    assert(seq![true, true, true].drop_first() =~= seq![true, true]);
    assert(seq![true, true].drop_first() =~= seq![true]);
    assert(seq![true].drop_first() =~= Seq::<bool>::empty());
}

} // verus!
