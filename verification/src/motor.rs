//! Slew-limited motor control.  Motor values are fixed-point thousandths
//! of full scale in [-1000, 1000] (the hardware has no floating point
//! worth its cycles).  Each channel tracks its target by at most
//! `MAX_MOTOR_DELTA` per update tick, and a value is translated to a
//! direction and an 8-bit PWM duty of `round(|value| * 255 / 1000)`.
//! Driving the two pins with the returned command is the caller's side.

use vstd::prelude::*;

verus! {

/// Full scale of a motor value: 1000 thousandths stand for 1.0.
pub const FULL_SCALE: i16 = 1000;

/// Largest change of a motor value in one update tick (a tenth of full
/// scale), bounding current spikes.
pub const MAX_MOTOR_DELTA: i16 = 100;

/// Milliseconds between two update ticks of the motor task.
pub const UPDATE_DELAY_MS: u32 = 10;

#[derive(Clone, Copy, PartialEq, Eq, Structural, Debug)]
pub enum MotorDirection {
    Forward,
    Reverse,
}

/// A motor value lies within full scale in both directions.
pub open spec fn in_range(v: int) -> bool {
    -FULL_SCALE <= v <= FULL_SCALE
}

/// Motor values are clamped to full scale before they reach the hardware.
pub open spec fn clamped(v: int) -> int {
    if v < -FULL_SCALE {
        -FULL_SCALE as int
    } else if v > FULL_SCALE {
        FULL_SCALE as int
    } else {
        v
    }
}

/// The direction a value drives: reverse exactly for negative values.
pub open spec fn direction_of(v: int) -> MotorDirection {
    if clamped(v) < 0 {
        MotorDirection::Reverse
    } else {
        MotorDirection::Forward
    }
}

/// The PWM duty of a value: its magnitude rescaled from thousandths to
/// [0, 255], rounded to the nearest step.
pub open spec fn duty_of(v: int) -> int {
    (vstd::math::abs(clamped(v)) as int * 255 + 500) / 1000
}

/// The duty of any motor value lies in [0, 255], and full scale maps to
/// the extremes: rest to 0 and full power to 255.
pub proof fn lemma_duty_bounds(v: int)
    ensures
        0 <= duty_of(v) <= 255,
        duty_of(0) == 0,
        duty_of(FULL_SCALE as int) == 255,
        duty_of(-FULL_SCALE as int) == 255,
{
}

/// Translate a motor value into the direction and 8-bit PWM duty that the
/// hardware pins take.
pub fn compute_direction_and_throttle(value: i16) -> (r: (MotorDirection, u8))
    ensures
        r.0 == direction_of(value as int),
        r.1 == duty_of(value as int),
{
    let value: i16 = if value < -FULL_SCALE {
        -FULL_SCALE
    } else if value > FULL_SCALE {
        FULL_SCALE
    } else {
        value
    };

    let direction = if value < 0 {
        MotorDirection::Reverse
    } else {
        MotorDirection::Forward
    };

    let magnitude: i32 = if value < 0 {
        -(value as i32)
    } else {
        value as i32
    };
    let throttle: u8 = ((magnitude * 255 + 500) / 1000) as u8;
    (direction, throttle)
}

/// One motor channel: the value most recently driven to its pins.
pub struct SingleMotorController {
    pub current_value: i16,
}

impl SingleMotorController {
    /// One update tick: move the current value toward `target_value` by at
    /// most `MAX_MOTOR_DELTA`, then translate it for the pins.  The change
    /// per tick never exceeds `MAX_MOTOR_DELTA` in magnitude.
    pub fn update(&mut self, target_value: i16) -> (cmd: (MotorDirection, u8))
        requires
            in_range(old(self).current_value as int),
            in_range(target_value as int),
        ensures
            in_range(final(self).current_value as int),
            final(self).current_value as int == if old(self).current_value < target_value
                - MAX_MOTOR_DELTA {
                old(self).current_value + MAX_MOTOR_DELTA
            } else if old(self).current_value > target_value + MAX_MOTOR_DELTA {
                old(self).current_value - MAX_MOTOR_DELTA
            } else {
                target_value as int
            },
            // the slew bound
            -MAX_MOTOR_DELTA <= final(self).current_value - old(self).current_value
                <= MAX_MOTOR_DELTA,
            cmd.0 == direction_of(final(self).current_value as int),
            cmd.1 == duty_of(final(self).current_value as int),
    {
        let cv = self.current_value;
        self.current_value = if cv < target_value - MAX_MOTOR_DELTA {
            cv + MAX_MOTOR_DELTA
        } else if cv > target_value + MAX_MOTOR_DELTA {
            cv - MAX_MOTOR_DELTA
        } else {
            target_value
        };
        compute_direction_and_throttle(self.current_value)
    }
}

/// Both drive channels with their shared targets.  The mode machine writes
/// the targets; the motor task reads them on its periodic tick.
pub struct MotorController {
    pub left: SingleMotorController,
    pub left_target: i16,
    pub right: SingleMotorController,
    pub right_target: i16,
}

/// Scale a motor value by a factor in thousandths, truncating toward zero
/// as the hardware's single-precision product does for these ranges.
pub open spec fn scaled(v: int, k: int) -> int {
    if v * k >= 0 {
        (v * k) / 1000
    } else {
        -((-(v * k)) / 1000)
    }
}

impl MotorController {
    pub open spec fn wf(self) -> bool {
        &&& in_range(self.left.current_value as int)
        &&& in_range(self.left_target as int)
        &&& in_range(self.right.current_value as int)
        &&& in_range(self.right_target as int)
    }

    /// Both channels start at rest.
    pub fn new() -> (m: MotorController)
        ensures
            m.wf(),
            m.left.current_value == 0,
            m.left_target == 0,
            m.right.current_value == 0,
            m.right_target == 0,
    {
        MotorController {
            left: SingleMotorController { current_value: 0 },
            left_target: 0,
            right: SingleMotorController { current_value: 0 },
            right_target: 0,
        }
    }

    /// Set both targets; the motor task picks them up on its next tick.
    pub fn set_targets(&mut self, left_target: i16, right_target: i16)
        requires
            old(self).wf(),
            in_range(left_target as int),
            in_range(right_target as int),
        ensures
            final(self).wf(),
            final(self).left_target == left_target,
            final(self).right_target == right_target,
            final(self).left == old(self).left,
            final(self).right == old(self).right,
    {
        self.left_target = left_target;
        self.right_target = right_target;
    }

    /// Scale both targets by a factor in thousandths; a factor of -1000
    /// reverses the direction of travel.
    pub fn scale_targets(&mut self, scalar: i16)
        requires
            old(self).wf(),
            in_range(scalar as int),
        ensures
            final(self).wf(),
            final(self).left_target == scaled(old(self).left_target as int, scalar as int),
            final(self).right_target == scaled(old(self).right_target as int, scalar as int),
            final(self).left == old(self).left,
            final(self).right == old(self).right,
    {
        self.left_target = scale_value(self.left_target, scalar);
        self.right_target = scale_value(self.right_target, scalar);
    }

    /// One tick of the motor task: a channel whose current value differs
    /// from its target moves toward it and hands back the command for its
    /// pins; a settled channel is left alone.
    pub fn update_tick(&mut self) -> (cmds: (
        Option<(MotorDirection, u8)>,
        Option<(MotorDirection, u8)>,
    ))
        requires
            old(self).wf(),
        ensures
            final(self).wf(),
            final(self).left_target == old(self).left_target,
            final(self).right_target == old(self).right_target,
            // the slew bound on either channel, moved or not
            -MAX_MOTOR_DELTA <= final(self).left.current_value - old(self).left.current_value
                <= MAX_MOTOR_DELTA,
            -MAX_MOTOR_DELTA <= final(self).right.current_value - old(self).right.current_value
                <= MAX_MOTOR_DELTA,
            old(self).left_target == old(self).left.current_value ==> cmds.0 is None
                && final(self).left == old(self).left,
            old(self).left_target != old(self).left.current_value ==> {
                &&& cmds.0 == Some(
                    (
                        direction_of(final(self).left.current_value as int),
                        duty_of(final(self).left.current_value as int) as u8,
                    ),
                )
                &&& final(self).left.current_value as int == if old(self).left.current_value
                    < old(self).left_target - MAX_MOTOR_DELTA {
                    old(self).left.current_value + MAX_MOTOR_DELTA
                } else if old(self).left.current_value > old(self).left_target + MAX_MOTOR_DELTA {
                    old(self).left.current_value - MAX_MOTOR_DELTA
                } else {
                    old(self).left_target as int
                }
            },
            old(self).right_target == old(self).right.current_value ==> cmds.1 is None
                && final(self).right == old(self).right,
            old(self).right_target != old(self).right.current_value ==> {
                &&& cmds.1 == Some(
                    (
                        direction_of(final(self).right.current_value as int),
                        duty_of(final(self).right.current_value as int) as u8,
                    ),
                )
                &&& final(self).right.current_value as int == if old(self).right.current_value
                    < old(self).right_target - MAX_MOTOR_DELTA {
                    old(self).right.current_value + MAX_MOTOR_DELTA
                } else if old(self).right.current_value > old(self).right_target
                    + MAX_MOTOR_DELTA {
                    old(self).right.current_value - MAX_MOTOR_DELTA
                } else {
                    old(self).right_target as int
                }
            },
    {
        let left_cmd = if self.left_target != self.left.current_value {
            Some(self.left.update(self.left_target))
        } else {
            None
        };
        let right_cmd = if self.right_target != self.right.current_value {
            Some(self.right.update(self.right_target))
        } else {
            None
        };
        (left_cmd, right_cmd)
    }
}

/// Scale one motor value by a factor in thousandths, truncating toward
/// zero.
fn scale_value(v: i16, k: i16) -> (r: i16)
    requires
        in_range(v as int),
        in_range(k as int),
    ensures
        r == scaled(v as int, k as int),
        in_range(r as int),
{
    let negative = (v < 0) != (k < 0);
    let mv: i32 = if v < 0 {
        -(v as i32)
    } else {
        v as i32
    };
    let mk: i32 = if k < 0 {
        -(k as i32)
    } else {
        k as i32
    };
    proof {
        lemma_scaled_magnitude(v as int, k as int, mv as int, mk as int);
    }
    let magnitude = (mv * mk) / 1000;
    if negative {
        (-magnitude) as i16
    } else {
        magnitude as i16
    }
}

/// Scaling by magnitudes agrees with `scaled`, and the result stays in
/// range.
proof fn lemma_scaled_magnitude(v: int, k: int, mv: int, mk: int)
    requires
        in_range(v),
        in_range(k),
        mv == vstd::math::abs(v),
        mk == vstd::math::abs(k),
    ensures
        mv * mk == vstd::math::abs(v * k),
        0 <= mv * mk <= 1000000,
        (mv * mk) / 1000 <= 1000,
        v * k >= 0 ==> scaled(v, k) == (mv * mk) / 1000,
        v * k < 0 ==> scaled(v, k) == -((mv * mk) / 1000),
        ((v < 0) != (k < 0)) ==> v * k <= 0,
        !((v < 0) != (k < 0)) ==> v * k >= 0,
{
    assert(((v < 0) != (k < 0)) ==> v * k <= 0) by (nonlinear_arith);
    assert(!((v < 0) != (k < 0)) ==> v * k >= 0) by (nonlinear_arith);
    assert(mv * mk == vstd::math::abs(v * k)) by (nonlinear_arith)
        requires
            mv == vstd::math::abs(v),
            mk == vstd::math::abs(k),
    ;
    assert(mv * mk <= 1000 * 1000) by (nonlinear_arith)
        requires
            0 <= mv <= 1000,
            0 <= mk <= 1000,
    ;
    assert((mv * mk) / 1000 <= 1000);
    if v * k >= 0 {
        assert(vstd::math::abs(v * k) == v * k);
    } else {
        assert(vstd::math::abs(v * k) == -(v * k));
    }
}

} // verus!
