//! Horizontal walking. Per frame, the held direction and the current
//! horizontal velocity decide the next velocity: walking speed is kept
//! between a minimum and a maximum threshold, turning against the current
//! motion first skids (decelerates) to a stop, and releasing the input
//! stops the walk. Velocities are in fixed-point sub-pixel units per frame;
//! the thresholds are the game's tuning.

use vstd::prelude::*;

verus! {

/// The held horizontal input.
#[derive(Copy, Clone, Eq, PartialEq, Debug)]
pub enum WalkInput {
    Left,
    Neutral,
    Right,
}

/// The walking thresholds: the slowest and fastest walking speeds, and how
/// much a skid slows the body each frame. All positive.
#[derive(Copy, Clone, Eq, PartialEq, Debug)]
pub struct WalkTuning {
    pub min_walk_speed: i64,
    pub max_walk_speed: i64,
    pub skid_deceleration: i64,
}

impl WalkTuning {
    pub open spec fn wf(&self) -> bool {
        &&& 0 < self.min_walk_speed <= self.max_walk_speed
        &&& 0 < self.skid_deceleration
    }
}

/// A walk held in the direction of travel (or from a stand): the speed,
/// clamped between the minimum and maximum walking thresholds.
pub open spec fn spec_clamped_speed(tuning: WalkTuning, speed: int) -> int {
    if speed < tuning.min_walk_speed {
        tuning.min_walk_speed as int
    } else if speed > tuning.max_walk_speed {
        tuning.max_walk_speed as int
    } else {
        speed
    }
}

/// A skid: the speed reduced by the skid deceleration, stopping at zero.
pub open spec fn spec_skidded_speed(tuning: WalkTuning, speed: int) -> int {
    if speed <= tuning.skid_deceleration {
        0
    } else {
        speed - tuning.skid_deceleration
    }
}

/// The next horizontal velocity. With the input neutral the walk stops;
/// held against the motion the body skids toward a stop; held with the
/// motion (or from a stop) the body walks at the clamped speed, signed by
/// the input direction.
pub open spec fn spec_walk_velocity(tuning: WalkTuning, velocity: int, input: WalkInput) -> int {
    match input {
        WalkInput::Neutral => 0,
        WalkInput::Right => if velocity < 0 {
            -spec_skidded_speed(tuning, -velocity)
        } else {
            spec_clamped_speed(tuning, velocity)
        },
        WalkInput::Left => if velocity > 0 {
            spec_skidded_speed(tuning, velocity)
        } else {
            -spec_clamped_speed(tuning, -velocity)
        },
    }
}

/// Per-frame update of the horizontal velocity from the held input.
pub fn walk_velocity(tuning: &WalkTuning, velocity: i64, input: WalkInput) -> (v: i64)
    requires
        tuning.wf(),
    ensures
        v == spec_walk_velocity(*tuning, velocity as int, input),
{
    match input {
        WalkInput::Neutral => 0,
        WalkInput::Right => {
            if velocity < 0 {
                if velocity >= -tuning.skid_deceleration {
                    0
                } else {
                    velocity + tuning.skid_deceleration
                }
            } else if velocity < tuning.min_walk_speed {
                tuning.min_walk_speed
            } else if velocity > tuning.max_walk_speed {
                tuning.max_walk_speed
            } else {
                velocity
            }
        },
        WalkInput::Left => {
            if velocity > 0 {
                if velocity <= tuning.skid_deceleration {
                    0
                } else {
                    velocity - tuning.skid_deceleration
                }
            } else if velocity > -tuning.min_walk_speed {
                -tuning.min_walk_speed
            } else if velocity < -tuning.max_walk_speed {
                -tuning.max_walk_speed
            } else {
                velocity
            }
        },
    }
}

/// A velocity within the maximum walking threshold stays within it, and a
/// skid slows the body without reversing its motion.
pub proof fn lemma_walk_velocity_bounded(tuning: WalkTuning, velocity: int, input: WalkInput)
    requires
        tuning.wf(),
    ensures
        -tuning.max_walk_speed <= velocity <= tuning.max_walk_speed ==> -tuning.max_walk_speed
            <= spec_walk_velocity(tuning, velocity, input) <= tuning.max_walk_speed,
        velocity > 0 && input == WalkInput::Left ==> 0 <= spec_walk_velocity(
            tuning,
            velocity,
            input,
        ) < velocity,
        velocity < 0 && input == WalkInput::Right ==> velocity < spec_walk_velocity(
            tuning,
            velocity,
            input,
        ) <= 0,
{
}

} // verus!
