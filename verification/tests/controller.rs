//! The run/pause/step-forward state machine that gates the integrator.

use ballsim::controller::{ControlInput, ControlState, SimulationController, STEP_BURST_FRAMES};

fn idle() -> ControlInput {
    ControlInput { toggle_pause: false, queue_frame: false, step_burst: false }
}

#[test]
fn starts_paused_and_idles() {
    let mut c = SimulationController::new();
    assert_eq!(c.state, ControlState::Paused);
    let ran = c.tick(idle(), 16);
    assert!(!ran);
    assert_eq!(c.time, 0);
    assert_eq!(c.frame, 0);
}

#[test]
fn toggle_runs_and_advances_the_clock() {
    let mut c = SimulationController::new();
    let ran = c.tick(ControlInput { toggle_pause: true, ..idle() }, 16);
    assert!(ran);
    assert_eq!(c.state, ControlState::Running);
    assert_eq!(c.time, 16);
    assert_eq!(c.frame, 1);

    let ran2 = c.tick(ControlInput { toggle_pause: true, ..idle() }, 16);
    assert!(!ran2);
    assert_eq!(c.state, ControlState::Paused);
    assert_eq!(c.time, 16);
    assert_eq!(c.frame, 1);
}

#[test]
fn queue_frame_runs_exactly_one_frame() {
    let mut c = SimulationController::new();
    let ran = c.tick(ControlInput { queue_frame: true, ..idle() }, 16);
    assert!(ran);
    assert_eq!(c.state, ControlState::Paused);
    assert_eq!(c.frame, 1);

    let ran2 = c.tick(idle(), 16);
    assert!(!ran2);
    assert_eq!(c.frame, 1);
}

#[test]
fn step_burst_runs_the_burst_then_pauses() {
    let mut c = SimulationController::new();
    let ran = c.tick(ControlInput { step_burst: true, ..idle() }, 16);
    assert!(ran);
    assert_eq!(c.state, ControlState::SteppingForward(STEP_BURST_FRAMES - 1));

    let mut frames: u32 = 1;
    while c.state != ControlState::Paused {
        let ran_more = c.tick(idle(), 16);
        assert!(ran_more);
        frames += 1;
    }
    assert_eq!(frames, STEP_BURST_FRAMES);
    assert_eq!(c.frame, STEP_BURST_FRAMES);

    let ran_after = c.tick(idle(), 16);
    assert!(!ran_after);
}

#[test]
fn step_burst_needs_a_pause() {
    let mut c = SimulationController::new();
    c.tick(ControlInput { toggle_pause: true, ..idle() }, 16);
    assert_eq!(c.state, ControlState::Running);

    // While running, a burst request changes nothing.
    c.tick(ControlInput { step_burst: true, ..idle() }, 16);
    assert_eq!(c.state, ControlState::Running);
}

#[test]
fn queue_frame_while_stepping_extends_the_count() {
    let mut c = SimulationController::new();
    c.tick(ControlInput { step_burst: true, ..idle() }, 16);
    assert_eq!(c.state, ControlState::SteppingForward(STEP_BURST_FRAMES - 1));

    c.tick(ControlInput { queue_frame: true, ..idle() }, 16);
    assert_eq!(c.state, ControlState::SteppingForward(STEP_BURST_FRAMES - 1));
}

#[test]
fn toggle_drops_a_pending_burst() {
    let mut c = SimulationController::new();
    c.tick(ControlInput { step_burst: true, ..idle() }, 16);
    let ran = c.tick(ControlInput { toggle_pause: true, ..idle() }, 16);
    assert!(!ran);
    assert_eq!(c.state, ControlState::Paused);
}
