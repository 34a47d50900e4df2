//! Tests of the engine's transition protocol, observed through the
//! recording machine: its hooks log every `enter` and `exit` call into the
//! context, in order.

use tinyfsm::recorder::{HookCall, HookLog, Phase, Recorder, Signal};

#[test]
fn construction_runs_no_hooks() {
    let recorder = Recorder::new(Phase::Idle, HookLog::default());
    assert_eq!(recorder.get_current_state(), Phase::Idle);
    assert_eq!(recorder.context().first, None);
    assert_eq!(recorder.context().second, None);
    assert_eq!(recorder.context().third, None);
}

#[test]
fn unmapped_event_runs_no_hooks_and_keeps_state() {
    let mut recorder = Recorder::new(Phase::Idle, HookLog::default());

    // Noise has no mapping in any state.
    recorder.handle(Signal::Noise);
    assert_eq!(recorder.get_current_state(), Phase::Idle);
    assert_eq!(recorder.context().first, None);

    // Stop has no mapping in Idle.
    recorder.handle(Signal::Stop);
    assert_eq!(recorder.get_current_state(), Phase::Idle);
    assert_eq!(recorder.context().first, None);
}

#[test]
fn handle_runs_exit_then_enter_exactly_once() {
    let mut recorder = Recorder::new(Phase::Idle, HookLog::default());

    recorder.handle(Signal::Start);
    assert_eq!(recorder.get_current_state(), Phase::Busy);
    // The old state's exit ran first, the new state's enter second, and
    // nothing else ran.
    assert_eq!(recorder.context().first, Some(HookCall::Exited(Phase::Idle)));
    assert_eq!(recorder.context().second, Some(HookCall::Entered(Phase::Busy)));
    assert_eq!(recorder.context().third, None);
}

#[test]
fn transition_runs_exit_then_enter_exactly_once() {
    let mut recorder = Recorder::new(Phase::Busy, HookLog::default());

    recorder.transition(Phase::Idle);
    assert_eq!(recorder.get_current_state(), Phase::Idle);
    assert_eq!(recorder.context().first, Some(HookCall::Exited(Phase::Busy)));
    assert_eq!(recorder.context().second, Some(HookCall::Entered(Phase::Idle)));
    assert_eq!(recorder.context().third, None);
}

#[test]
fn self_transition_fires_both_hooks() {
    let mut recorder = Recorder::new(Phase::Idle, HookLog::default());

    recorder.transition(Phase::Idle);
    assert_eq!(recorder.get_current_state(), Phase::Idle);
    assert_eq!(recorder.context().first, Some(HookCall::Exited(Phase::Idle)));
    assert_eq!(recorder.context().second, Some(HookCall::Entered(Phase::Idle)));
    assert_eq!(recorder.context().third, None);
}

#[test]
fn force_state_runs_no_hooks() {
    let mut recorder = Recorder::new(Phase::Idle, HookLog::default());

    recorder.force_state(Phase::Busy);
    assert_eq!(recorder.get_current_state(), Phase::Busy);
    assert_eq!(recorder.context().first, None);

    recorder.force_state(Phase::Busy);
    assert_eq!(recorder.get_current_state(), Phase::Busy);
    assert_eq!(recorder.context().first, None);
}

#[test]
fn hooks_accumulate_across_transitions() {
    let mut recorder = Recorder::new(Phase::Idle, HookLog::default());

    recorder.handle(Signal::Start);
    recorder.handle(Signal::Stop);
    assert_eq!(recorder.get_current_state(), Phase::Idle);
    assert_eq!(recorder.context().first, Some(HookCall::Exited(Phase::Idle)));
    assert_eq!(recorder.context().second, Some(HookCall::Entered(Phase::Busy)));
    assert_eq!(recorder.context().third, Some(HookCall::Exited(Phase::Busy)));
}
