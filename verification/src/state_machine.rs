//! The top-level mode machine.  The robot loops through Initialization,
//! Calibration, Exploration, and Rotation; every decision a mode takes
//! between its suspension points is a function here, so the transitions
//! are verified while the waiting, sensing, and persisting around them is
//! driven from outside the crate.

use crate::ir_sensors::NUM_SENSORS;
use crate::motor::{in_range, MotorController, FULL_SCALE};
use vstd::prelude::*;

verus! {

/// Milliseconds between two sensor polls of the mode machine.
pub const UPDATE_DELAY_MS: u32 = 100;

/// Additional presses within a second of the first that select
/// calibration.
pub const CONFIG_EXTRA_PRESSES: u8 = 2;

/// Heading error, in degrees, at which a rotation counts as done.
pub const TOLERANCE: i32 = 5;

/// Offset added to the proportional rotation speed, in thousandths.
pub const BASE_SPEED: i16 = 0;

/// Milliseconds between rotation corrections (the magnetometer produces
/// 50 readings a second).
pub const ROTATION_UPDATE_MS: u32 = 20;

/// Milliseconds for the motors to settle before a rotation reads the
/// compass.
pub const ROTATION_SETTLE_MS: u32 = 500;

/// Milliseconds to pause once a rotation is done.
pub const ROTATION_EXIT_WAIT_MS: u32 = 100;

/// Cruising speed of the exploration mode, in thousandths of full scale.
pub const EXPLORATION_SPEED: i16 = 500;

/// Degrees turned after backing off a boundary.
pub const ROTATION_ANGLE: i32 = 90;

/// A calibrated reflectance value beyond this sees the boundary line.
pub const BOUNDARY_THRESHOLD: u16 = 500;

#[derive(Clone, Copy, PartialEq, Eq, Structural, Debug)]
pub enum State {
    Calibration,
    Exploration { found_edge: bool },
    Initialization,
    Rotation { angle: i32 },
}

/// Initialization's decision: enough extra presses select calibration,
/// otherwise exploration starts with no edge found yet.
pub fn initialization_next_state(additional_presses: u8) -> (s: State)
    ensures
        s == if additional_presses >= CONFIG_EXTRA_PRESSES {
            State::Calibration
        } else {
            State::Exploration { found_edge: false }
        },
{
    if additional_presses >= CONFIG_EXTRA_PRESSES {
        State::Calibration
    } else {
        State::Exploration { found_edge: false }
    }
}

/// Entering exploration: cruise forward, or back away from an edge that
/// was just found.
pub fn exploration_begin(mc: &mut MotorController, found_edge: bool)
    requires
        old(mc).wf(),
    ensures
        final(mc).wf(),
        !found_edge ==> final(mc).left_target == EXPLORATION_SPEED && final(mc).right_target
            == EXPLORATION_SPEED,
        found_edge ==> final(mc).left_target == -EXPLORATION_SPEED && final(mc).right_target
            == -EXPLORATION_SPEED,
        final(mc).left == old(mc).left,
        final(mc).right == old(mc).right,
{
    if found_edge {
        mc.set_targets(-EXPLORATION_SPEED, -EXPLORATION_SPEED);
    } else {
        mc.set_targets(EXPLORATION_SPEED, EXPLORATION_SPEED);
    }
}

/// How many of the first `n` channels see the boundary line.
pub open spec fn count_triggered(values: Seq<u16>, n: int) -> int
    decreases n,
{
    if n <= 0 {
        0
    } else {
        count_triggered(values, n - 1) + if values[n - 1] > BOUNDARY_THRESHOLD {
            1int
        } else {
            0int
        }
    }
}

/// Exploration's decision on one calibrated reading: more than one
/// triggered channel finds the edge; once the edge is behind, a clear
/// reading starts the turn.
pub fn exploration_decision(values: &Vec<u16>, found_edge: bool) -> (next: Option<State>)
    requires
        values@.len() == NUM_SENSORS,
    ensures
        next == (if count_triggered(values@, NUM_SENSORS as int) > 1 {
            if !found_edge {
                Some(State::Exploration { found_edge: true })
            } else {
                Option::<State>::None
            }
        } else {
            if found_edge {
                Some(State::Rotation { angle: ROTATION_ANGLE })
            } else {
                Option::<State>::None
            }
        }),
{
    let mut triggered_count: usize = 0;
    let mut i: usize = 0;
    while i < NUM_SENSORS
        invariant
            i <= NUM_SENSORS,
            values@.len() == NUM_SENSORS,
            triggered_count == count_triggered(values@, i as int),
            triggered_count <= i,
        decreases NUM_SENSORS - i,
    {
        if values[i] > BOUNDARY_THRESHOLD {
            triggered_count = triggered_count + 1;
        }
        i = i + 1;
    }

    if triggered_count > 1 {
        if !found_edge {
            Some(State::Exploration { found_edge: true })
        } else {
            None
        }
    } else if found_edge {
        Some(State::Rotation { angle: ROTATION_ANGLE })
    } else {
        None
    }
}

/// Backing off a detected boundary: reverse both targets and explore on
/// with the edge remembered.
pub fn boundary_detected_step(mc: &mut MotorController) -> (r: (State, u32))
    requires
        old(mc).wf(),
    ensures
        final(mc).wf(),
        final(mc).left_target == crate::motor::scaled(
            old(mc).left_target as int,
            -FULL_SCALE as int,
        ),
        final(mc).right_target == crate::motor::scaled(
            old(mc).right_target as int,
            -FULL_SCALE as int,
        ),
        final(mc).left == old(mc).left,
        final(mc).right == old(mc).right,
        r.0 == (State::Exploration { found_edge: true }),
        r.1 == UPDATE_DELAY_MS,
{
    mc.scale_targets(-FULL_SCALE);
    (State::Exploration { found_edge: true }, UPDATE_DELAY_MS)
}

/// Entering calibration: spin in place, left backward and right forward,
/// while the magnetometer pass runs.
pub fn calibration_begin(mc: &mut MotorController)
    requires
        old(mc).wf(),
    ensures
        final(mc).wf(),
        final(mc).left_target == -FULL_SCALE,
        final(mc).right_target == FULL_SCALE,
        final(mc).left == old(mc).left,
        final(mc).right == old(mc).right,
{
    mc.set_targets(-FULL_SCALE, FULL_SCALE);
}

/// Calibration hands control back to initialization once its passes are
/// persisted.
pub fn calibration_next_state() -> (s: State)
    ensures
        s == State::Initialization,
{
    State::Initialization
}

/// Entering a rotation: stop both motors and let them settle before the
/// compass is read.
pub fn rotation_begin(mc: &mut MotorController) -> (wait_ms: u32)
    requires
        old(mc).wf(),
    ensures
        final(mc).wf(),
        final(mc).left_target == 0,
        final(mc).right_target == 0,
        final(mc).left == old(mc).left,
        final(mc).right == old(mc).right,
        wait_ms == ROTATION_SETTLE_MS,
{
    mc.set_targets(0, 0);
    ROTATION_SETTLE_MS
}

/// Leaving a rotation: stop the turn, pause briefly, and explore afresh
/// with no edge in sight.
pub fn rotation_finish(mc: &mut MotorController) -> (r: (State, u32))
    requires
        old(mc).wf(),
    ensures
        final(mc).wf(),
        final(mc).left_target == 0,
        final(mc).right_target == 0,
        final(mc).left == old(mc).left,
        final(mc).right == old(mc).right,
        r.0 == (State::Exploration { found_edge: false }),
        r.1 == ROTATION_EXIT_WAIT_MS,
{
    mc.set_targets(0, 0);
    (State::Exploration { found_edge: false }, ROTATION_EXIT_WAIT_MS)
}

/// The signed distance from one heading to another, the short way around
/// the circle: always in (-180, 180].
pub open spec fn delta_spec(heading_from: int, heading_to: int) -> int {
    let d = heading_to - heading_from;
    if d > 180 {
        d - 360
    } else if d <= -180 {
        d + 360
    } else {
        d
    }
}

/// Compute the signed heading difference.  For headings in [0, 360) the
/// result lies in (-180, 180].
pub fn degrees_delta(heading_from: i32, heading_to: i32) -> (delta: i32)
    requires
        0 <= heading_from < 360,
        0 <= heading_to < 360,
    ensures
        delta == delta_spec(heading_from as int, heading_to as int),
        -180 < delta <= 180,
{
    let mut delta = heading_to - heading_from;
    if delta > 180 {
        delta = delta - 360;
    } else if delta <= -180 {
        delta = delta + 360;
    }
    delta
}

/// The heading to hold after turning by `angle`: the current heading
/// advanced by the angle, wrapped into [0, 360).
pub fn rotation_target_heading(current: i32, angle: i32) -> (target: i32)
    requires
        0 <= current < 360,
        -360 <= angle <= 360,
    ensures
        0 <= target < 360,
        target == (current + angle) % 360 || target == (current + angle + 360) % 360,
        (target - current - angle) % 360 == 0,
{
    let mut target = current + angle;
    if target >= 360 {
        target = target - 360;
    } else if target < 0 {
        target = target + 360;
    }
    proof {
        vstd::arithmetic::div_mod::lemma_mod_self_0(360);
        if current + angle >= 360 {
            vstd::arithmetic::div_mod::lemma_mod_sub_multiples_vanish(current + angle, 360);
            vstd::arithmetic::div_mod::lemma_small_mod(target as nat, 360);
        } else if current + angle < 0 {
            vstd::arithmetic::div_mod::lemma_mod_add_multiples_vanish(current + angle + 360, 360);
            vstd::arithmetic::div_mod::lemma_small_mod(target as nat, 360);
        } else {
            vstd::arithmetic::div_mod::lemma_small_mod(target as nat, 360);
        }
        vstd::arithmetic::div_mod::lemma_mod_sub_multiples_vanish(
            target - current - angle + 360,
            360,
        );
        vstd::arithmetic::div_mod::lemma_mod_add_multiples_vanish(target - current - angle, 360);
    }
    target
}

/// The proportional turn speed for a heading error, in thousandths:
/// six tenths of full scale at a half turn, plus the base offset, against
/// the error's sign.
pub open spec fn rotation_speed(delta: int) -> int {
    if delta >= 0 {
        (600 * delta) / 180 + BASE_SPEED
    } else {
        -((600 * (-delta)) / 180 + BASE_SPEED)
    }
}

/// What one rotation correction does: stop, or turn in place at a speed
/// proportional to the remaining error.
#[derive(Clone, Copy, PartialEq, Eq, Structural, Debug)]
pub enum RotationStep {
    Turn { left: i16, right: i16 },
    Done,
}

/// One rotation correction: within tolerance of the target the turn is
/// over; otherwise turn in place, left and right opposed, at the
/// proportional speed.
pub fn rotation_step(current_heading: i32, target_heading: i32) -> (r: RotationStep)
    requires
        0 <= current_heading < 360,
        0 <= target_heading < 360,
    ensures
        ({
            let d = delta_spec(current_heading as int, target_heading as int);
            &&& (-TOLERANCE <= d <= TOLERANCE ==> r == RotationStep::Done)
            &&& (!(-TOLERANCE <= d <= TOLERANCE) ==> r == (RotationStep::Turn {
                left: rotation_speed(d) as i16,
                right: -rotation_speed(d) as i16,
            }) && in_range(rotation_speed(d)) && rotation_speed(d) != 0)
        }),
{
    let delta = degrees_delta(current_heading, target_heading);
    let magnitude = if delta < 0 {
        -delta
    } else {
        delta
    };
    if magnitude <= TOLERANCE {
        return RotationStep::Done;
    }
    let speed_magnitude: i32 = (600 * magnitude) / 180 + BASE_SPEED as i32;
    let speed: i16 = if delta < 0 {
        (-speed_magnitude) as i16
    } else {
        speed_magnitude as i16
    };
    RotationStep::Turn { left: speed, right: -speed }
}

} // verus!
