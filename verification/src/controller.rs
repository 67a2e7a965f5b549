//! The simulation controller: the run/pause/step-forward state machine
//! that decides, once per frame, whether the integrator runs. The host
//! polls its input device and reports the three control actions as plain
//! booleans; the controller owns no physics state.
//!
//! Within one frame the actions apply in a fixed order: the pause toggle,
//! then queueing a single frame, then queueing a burst; afterwards, if the
//! controller is active, the clock and frame counter advance, a pending
//! step count ticks down (pausing again at zero), and the frame is reported
//! as one the integrator should run on.

use vstd::prelude::*;

verus! {

use crate::fixed::fp_add_spec;
use crate::fixed::fp_add;

/// How many frames a step burst queues.
pub const STEP_BURST_FRAMES: u32 = 60;

/// Whether the simulation is advancing, halted, or advancing for a known
/// number of frames before halting again.
#[derive(Clone, Copy, PartialEq, Eq, Structural, Debug)]
pub enum ControlState {
    /// Advancing freely.
    Running,
    /// Halted; the integrator does not run.
    Paused,
    /// Advancing, with this many frames left before pausing again.
    SteppingForward(u32),
}

/// The control actions a host reports for one frame.
#[derive(Clone, Copy, PartialEq, Eq, Structural, Debug)]
pub struct ControlInput {
    /// Toggle between running and paused; a pending step count is dropped.
    pub toggle_pause: bool,
    /// Queue one more frame to run before pausing.
    pub queue_frame: bool,
    /// From a pause, queue a burst of [`STEP_BURST_FRAMES`] frames.
    pub step_burst: bool,
}

/// The controller: the control state plus the simulated clock (fixed-point
/// seconds) and the count of frames the integrator has run on.
#[derive(Clone, Copy, PartialEq, Eq, Structural, Debug)]
pub struct SimulationController {
    pub state: ControlState,
    pub time: i64,
    pub frame: u32,
}

/// The control state after the frame's actions, before the clock advances.
pub open spec fn apply_inputs_spec(s: ControlState, inp: ControlInput) -> ControlState {
    let s1 = if inp.toggle_pause {
        match s {
            ControlState::Paused => ControlState::Running,
            _ => ControlState::Paused,
        }
    } else {
        s
    };
    let s2 = if inp.queue_frame {
        match s1 {
            ControlState::SteppingForward(k) => ControlState::SteppingForward(
                if k < 0xffffffffu32 {
                    (k + 1) as u32
                } else {
                    k
                },
            ),
            _ => ControlState::SteppingForward(1),
        }
    } else {
        s1
    };
    if inp.step_burst && s2 == ControlState::Paused {
        ControlState::SteppingForward(STEP_BURST_FRAMES)
    } else {
        s2
    }
}

/// Whether a control state lets the integrator run this frame.
pub open spec fn is_active_spec(s: ControlState) -> bool {
    s != ControlState::Paused
}

/// The controller after one frame with the given actions and time delta.
pub open spec fn tick_spec(c: SimulationController, inp: ControlInput, dt: int)
    -> SimulationController {
    let s = apply_inputs_spec(c.state, inp);
    if is_active_spec(s) {
        let after = match s {
            ControlState::SteppingForward(k) => if k <= 1 {
                ControlState::Paused
            } else {
                ControlState::SteppingForward((k - 1) as u32)
            },
            _ => s,
        };
        SimulationController {
            state: after,
            time: fp_add_spec(c.time as int, dt) as i64,
            frame: if c.frame < 0xffffffffu32 {
                (c.frame + 1) as u32
            } else {
                c.frame
            },
        }
    } else {
        SimulationController { state: s, ..c }
    }
}

impl SimulationController {
    /// A fresh controller: paused, at time zero, no frames run.
    pub fn new() -> (c: SimulationController)
        ensures
            c == (SimulationController { state: ControlState::Paused, time: 0i64, frame: 0u32 }),
    {
        SimulationController { state: ControlState::Paused, time: 0, frame: 0 }
    }

    /// Advance the controller by one frame. Returns whether the integrator
    /// should run on this frame; exactly when it does, the clock has moved
    /// by `dt` (saturating fixed-point seconds) and the frame count by one
    /// (saturating).
    pub fn tick(&mut self, inp: ControlInput, dt: i64) -> (run: bool)
        requires
            dt >= 0,
        ensures
            *final(self) == tick_spec(*old(self), inp, dt as int),
            run == is_active_spec(apply_inputs_spec(old(self).state, inp)),
    {
        let s1 = if inp.toggle_pause {
            match self.state {
                ControlState::Paused => ControlState::Running,
                _ => ControlState::Paused,
            }
        } else {
            self.state
        };
        let s2 = if inp.queue_frame {
            match s1 {
                ControlState::SteppingForward(k) => ControlState::SteppingForward(
                    if k < 0xffffffffu32 {
                        k + 1
                    } else {
                        k
                    },
                ),
                _ => ControlState::SteppingForward(1),
            }
        } else {
            s1
        };
        let s = if inp.step_burst && s2 == ControlState::Paused {
            ControlState::SteppingForward(STEP_BURST_FRAMES)
        } else {
            s2
        };
        if s != ControlState::Paused {
            let after = match s {
                ControlState::SteppingForward(k) => if k <= 1 {
                    ControlState::Paused
                } else {
                    ControlState::SteppingForward(k - 1)
                },
                _ => s,
            };
            self.state = after;
            self.time = fp_add(self.time, dt);
            if self.frame < 0xffffffffu32 {
                self.frame = self.frame + 1;
            }
            true
        } else {
            self.state = s;
            false
        }
    }
}

} // verus!
