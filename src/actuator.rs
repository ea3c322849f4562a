//! Steering and throttle actuators built on motor drivers.
//!
//! Every actuator reports its current position from the state of its
//! drivers, never from a cached copy of the last command.
use crate::driver::{BinaryMotor, MotorDriver};
use crate::remap::{lemma_remap_round_trip, map_range, remap};
use vstd::prelude::*;

verus! {

/// Steers the chassis; the magnitude is signed, negative to the left.
pub trait SteeringAxle: Sized {
    /// Whether the drivers' states are consistent.
    spec fn wf(&self) -> bool;

    /// The steering that `get_current_steering` reports.
    spec fn steering(&self) -> i8;

    /// The steering reported after `set_steering(value)`; it depends on the
    /// actuator's configuration only.
    spec fn steering_after(&self, value: i8) -> i8;

    /// Whether a real steering actuator is fitted; a chassis without one
    /// has no steering to report or to set.
    spec fn present(&self) -> bool;

    fn is_present(&self) -> (r: bool)
        ensures
            r == self.present(),
    ;

    /// Whether `after` is what `set_steering(value)` makes of `self`.
    spec fn sets(&self, value: i8, after: Self) -> bool;

    fn set_steering(&mut self, value: i8)
        requires
            old(self).wf(),
        ensures
            final(self).wf(),
            old(self).sets(value, *final(self)),
            final(self).present() == old(self).present(),
            final(self).steering() == old(self).steering_after(value),
            value == 0 ==> final(self).steering() == 0,
            forall|v: i8| #[trigger] final(self).steering_after(v) == old(self).steering_after(v),
    ;

    fn get_current_steering(&self) -> (r: i8)
        requires
            self.wf(),
        ensures
            r == self.steering(),
    ;
}

/// Drives the chassis forward (positive) or backward (negative).
pub trait Accelerator: Sized {
    /// Whether the drivers' states are consistent.
    spec fn wf(&self) -> bool;

    /// The throttle that `get_current_throttle` reports.
    spec fn throttle(&self) -> i8;

    /// The throttle reported after `set_throttle(value)`; it depends on the
    /// actuator's configuration only.
    spec fn throttle_after(&self, value: i8) -> i8;

    /// Whether `after` is what `set_throttle(value)` makes of `self`.
    spec fn sets(&self, value: i8, after: Self) -> bool;

    fn set_throttle(&mut self, value: i8)
        requires
            old(self).wf(),
        ensures
            final(self).wf(),
            old(self).sets(value, *final(self)),
            final(self).throttle() == old(self).throttle_after(value),
            value == 0 ==> final(self).throttle() == 0,
            forall|v: i8| #[trigger] final(self).throttle_after(v) == old(self).throttle_after(v),
    ;

    fn get_current_throttle(&self) -> (r: i8)
        requires
            self.wf(),
        ensures
            r == self.throttle(),
    ;
}

/// Driver level of the centre command of a proportional actuator.
pub const NEUTRAL_LEVEL: u8 = 128;

/// Signed position read from a driver level, where `neutral` is the level
/// the driver reports for the centre command: that level reads as centred.
pub open spec fn position_of_level(level: u8, neutral: u8) -> i8 {
    if level == neutral {
        0
    } else {
        remap(level as int, 0, 255, -128, 127) as i8
    }
}

/// Stands in for a chassis without steering: always centred, ignores writes.
pub struct DummySteeringAxle {}

impl DummySteeringAxle {
    pub fn new() -> (r: Self)
        ensures
            r.wf(),
    {
        DummySteeringAxle {  }
    }
}

impl SteeringAxle for DummySteeringAxle {
    open spec fn wf(&self) -> bool {
        true
    }

    open spec fn present(&self) -> bool {
        false
    }

    fn is_present(&self) -> (r: bool) {
        false
    }

    open spec fn steering(&self) -> i8 {
        0
    }

    open spec fn steering_after(&self, value: i8) -> i8 {
        0
    }

    open spec fn sets(&self, value: i8, after: Self) -> bool {
        after == *self
    }

    #[allow(unused_variables)]
    fn set_steering(&mut self, value: i8) {
    }

    fn get_current_steering(&self) -> (r: i8) {
        0
    }
}

/// Steering by two on/off motors, one pulling to each side.
pub struct BinarySteeringAxle<M> {
    pub motor_left: M,
    pub motor_right: M,
}

impl<M: MotorDriver> SteeringAxle for BinarySteeringAxle<M> {
    open spec fn wf(&self) -> bool {
        self.motor_left.wf() && self.motor_right.wf()
    }

    open spec fn present(&self) -> bool {
        true
    }

    fn is_present(&self) -> (r: bool) {
        true
    }

    open spec fn steering(&self) -> i8 {
        if self.motor_right.power() != 0 {
            127
        } else if self.motor_left.power() != 0 {
            -128i8
        } else {
            0
        }
    }

    open spec fn steering_after(&self, value: i8) -> i8 {
        if value > 0 {
            if self.motor_right.power_after(255) != 0 {
                127
            } else {
                0
            }
        } else if value < 0 {
            if self.motor_left.power_after(255) != 0 {
                -128i8
            } else {
                0
            }
        } else {
            0
        }
    }

    open spec fn sets(&self, value: i8, after: Self) -> bool {
        if value > 0 {
            self.motor_left.sets(0, after.motor_left) && self.motor_right.sets(
                255,
                after.motor_right,
            )
        } else if value < 0 {
            self.motor_left.sets(255, after.motor_left) && self.motor_right.sets(
                0,
                after.motor_right,
            )
        } else {
            self.motor_left.sets(0, after.motor_left) && self.motor_right.sets(
                0,
                after.motor_right,
            )
        }
    }

    fn set_steering(&mut self, value: i8) {
        if value > 0 {
            self.motor_right.set_power(255);
            self.motor_left.set_power(0);
        } else if value < 0 {
            self.motor_left.set_power(255);
            self.motor_right.set_power(0);
        } else {
            self.motor_left.set_power(0);
            self.motor_right.set_power(0);
        }
    }

    fn get_current_steering(&self) -> (r: i8) {
        if self.motor_right.get_power() != 0 {
            127
        } else if self.motor_left.get_power() != 0 {
            -128
        } else {
            0
        }
    }
}

/// Steering by a servo whose position follows its driver's level. Whatever
/// level the driver reports for the centre command reads as centred.
pub struct ServoSteeringAxle<M> {
    pub motor_steer: M,
}

impl<M: MotorDriver> SteeringAxle for ServoSteeringAxle<M> {
    open spec fn wf(&self) -> bool {
        self.motor_steer.wf()
    }

    open spec fn present(&self) -> bool {
        true
    }

    fn is_present(&self) -> (r: bool) {
        true
    }

    open spec fn steering(&self) -> i8 {
        position_of_level(self.motor_steer.power(), self.motor_steer.power_after(NEUTRAL_LEVEL))
    }

    open spec fn steering_after(&self, value: i8) -> i8 {
        let level = remap(value as int, -128, 127, 0, 255) as u8;
        position_of_level(
            self.motor_steer.power_after(level),
            self.motor_steer.power_after(NEUTRAL_LEVEL),
        )
    }

    open spec fn sets(&self, value: i8, after: Self) -> bool {
        self.motor_steer.sets(
            remap(value as int, -128, 127, 0, 255) as u8,
            after.motor_steer,
        )
    }

    fn set_steering(&mut self, value: i8) {
        self.motor_steer.set_power(map_range(value as i32, -128, 127, 0, 255) as u8);
    }

    fn get_current_steering(&self) -> (r: i8) {
        let level = self.motor_steer.get_power();
        if level == self.motor_steer.level_after(NEUTRAL_LEVEL) {
            0
        } else {
            map_range(level as i32, 0, 255, -128, 127) as i8
        }
    }
}

/// Throttle by two on/off motors, one per direction.
pub struct BinaryAccelerator<MF, MB> {
    pub motor_forward: MF,
    pub motor_backward: MB,
}

impl<MF: MotorDriver, MB: MotorDriver> Accelerator for BinaryAccelerator<MF, MB> {
    open spec fn wf(&self) -> bool {
        self.motor_forward.wf() && self.motor_backward.wf()
    }

    open spec fn throttle(&self) -> i8 {
        if self.motor_forward.power() != 0 {
            1
        } else if self.motor_backward.power() != 0 {
            -1i8
        } else {
            0
        }
    }

    open spec fn throttle_after(&self, value: i8) -> i8 {
        if value > 0 {
            if self.motor_forward.power_after(127) != 0 {
                1
            } else {
                0
            }
        } else if value < 0 {
            if self.motor_backward.power_after(127) != 0 {
                -1i8
            } else {
                0
            }
        } else {
            0
        }
    }

    open spec fn sets(&self, value: i8, after: Self) -> bool {
        if value > 0 {
            self.motor_forward.sets(127, after.motor_forward) && self.motor_backward.sets(
                0,
                after.motor_backward,
            )
        } else if value < 0 {
            self.motor_forward.sets(0, after.motor_forward) && self.motor_backward.sets(
                127,
                after.motor_backward,
            )
        } else {
            self.motor_forward.sets(0, after.motor_forward) && self.motor_backward.sets(
                0,
                after.motor_backward,
            )
        }
    }

    fn set_throttle(&mut self, value: i8) {
        if value > 0 {
            self.motor_forward.set_power(127);
            self.motor_backward.set_power(0);
        } else if value < 0 {
            self.motor_backward.set_power(127);
            self.motor_forward.set_power(0);
        } else {
            self.motor_forward.set_power(0);
            self.motor_backward.set_power(0);
        }
    }

    fn get_current_throttle(&self) -> (r: i8) {
        if self.motor_forward.get_power() != 0 {
            1
        } else if self.motor_backward.get_power() != 0 {
            -1
        } else {
            0
        }
    }
}

/// Throttle by one driver whose full range spans full reverse to full
/// forward, with zero throttle at mid level. Whatever level the driver
/// reports for the mid level reads as zero throttle.
pub struct LinearAccelerator<M> {
    pub motor: M,
}

impl<M: MotorDriver> Accelerator for LinearAccelerator<M> {
    open spec fn wf(&self) -> bool {
        self.motor.wf()
    }

    open spec fn throttle(&self) -> i8 {
        position_of_level(self.motor.power(), self.motor.power_after(NEUTRAL_LEVEL))
    }

    open spec fn throttle_after(&self, value: i8) -> i8 {
        let level = remap(value as int, -128, 127, 0, 255) as u8;
        position_of_level(self.motor.power_after(level), self.motor.power_after(NEUTRAL_LEVEL))
    }

    open spec fn sets(&self, value: i8, after: Self) -> bool {
        self.motor.sets(remap(value as int, -128, 127, 0, 255) as u8, after.motor)
    }

    fn set_throttle(&mut self, value: i8) {
        self.motor.set_power(map_range(value as i32, -128, 127, 0, 255) as u8);
    }

    fn get_current_throttle(&self) -> (r: i8) {
        let level = self.motor.get_power();
        if level == self.motor.level_after(NEUTRAL_LEVEL) {
            0
        } else {
            map_range(level as i32, 0, 255, -128, 127) as i8
        }
    }
}

/// Throttle by one driver for the magnitude and a digital output that
/// selects the direction: high for positive throttle, low for negative.
/// At rest the selector is low and the driver is off.
pub struct LinearAcceleratorWithDirectionChoose<MA, MD> {
    pub motor: MA,
    pub direction_selector: MD,
}

/// Driver level for a throttle magnitude in `[1, 127]`.
pub open spec fn level_for_magnitude(magnitude: int) -> u8 {
    remap(magnitude, 1, 127, 0, 255) as u8
}

/// Throttle magnitude, in `[1, 127]`, that a driver level stands for.
pub open spec fn magnitude_of_level(level: u8) -> i8 {
    remap(level as int, 0, 255, 1, 127) as i8
}

/// Throttle read from a driver level and the selector's level.
pub open spec fn directed_throttle(level: u8, high: bool) -> i8 {
    if high {
        magnitude_of_level(level)
    } else if level == 0 {
        0
    } else {
        (-magnitude_of_level(level)) as i8
    }
}

/// Magnitude of a negative throttle, the lowest one standing for the next.
pub open spec fn reverse_magnitude(value: i8) -> int {
    if value == -128 {
        127
    } else {
        -value
    }
}

impl<MA: MotorDriver> Accelerator for LinearAcceleratorWithDirectionChoose<MA, BinaryMotor> {
    open spec fn wf(&self) -> bool {
        self.motor.wf()
    }

    open spec fn throttle(&self) -> i8 {
        directed_throttle(self.motor.power(), self.direction_selector.is_high())
    }

    open spec fn throttle_after(&self, value: i8) -> i8 {
        if value > 0 {
            directed_throttle(self.motor.power_after(level_for_magnitude(value as int)), true)
        } else if value < 0 {
            directed_throttle(
                self.motor.power_after(level_for_magnitude(reverse_magnitude(value))),
                false,
            )
        } else {
            0
        }
    }

    open spec fn sets(&self, value: i8, after: Self) -> bool {
        if value > 0 {
            after.direction_selector.is_high() && self.motor.sets(
                level_for_magnitude(value as int),
                after.motor,
            )
        } else if value < 0 {
            !after.direction_selector.is_high() && self.motor.sets(
                level_for_magnitude(reverse_magnitude(value)),
                after.motor,
            )
        } else {
            !after.direction_selector.is_high() && self.motor.sets(0, after.motor)
        }
    }

    fn set_throttle(&mut self, value: i8) {
        if value > 0 {
            self.direction_selector.set_high();
            self.motor.set_power(map_range(value as i32, 1, 127, 0, 255) as u8);
        } else if value < 0 {
            self.direction_selector.set_low();
            let magnitude: i8 = if value == -128 {
                127
            } else {
                -value
            };
            self.motor.set_power(map_range(magnitude as i32, 1, 127, 0, 255) as u8);
        } else {
            self.direction_selector.set_low();
            self.motor.set_power(0);
        }
    }

    fn get_current_throttle(&self) -> (r: i8) {
        let level = self.motor.get_power();
        let magnitude = map_range(level as i32, 0, 255, 1, 127) as i8;
        if self.direction_selector.is_set_high() {
            magnitude
        } else if level == 0 {
            0
        } else {
            -magnitude
        }
    }
}

/// A throttle magnitude survives the trip through a driver level within one
/// unit, and only the smallest magnitude gives the zero level.
proof fn lemma_magnitude_round_trip(magnitude: int)
    requires
        1 <= magnitude <= 127,
    ensures
        0 <= remap(magnitude, 1, 127, 0, 255) <= 255,
        magnitude - 1 <= remap(remap(magnitude, 1, 127, 0, 255), 0, 255, 1, 127) <= magnitude,
        remap(magnitude, 1, 127, 0, 255) == 0 <==> magnitude == 1,
{
    let k = magnitude - 1;
    let level = remap(magnitude, 1, 127, 0, 255);
    assert(level == k * 255 / 126);
    assert(0 <= k * 255 / 126 <= 255) by (nonlinear_arith)
        requires
            0 <= k <= 126,
    ;
    assert(k - 1 <= (k * 255 / 126) * 126 / 255 <= k) by (nonlinear_arith)
        requires
            0 <= k <= 126,
    ;
    assert(k * 255 / 126 == 0 <==> k == 0) by (nonlinear_arith)
        requires
            0 <= k <= 126,
    ;
}

/// Setting a throttle on a linear accelerator whose driver holds every level
/// exactly reads the same throttle back.
pub proof fn lemma_linear_throttle_round_trip<M: MotorDriver>(a: LinearAccelerator<M>, m: i8)
    requires
        forall|v: u8| #[trigger] a.motor.power_after(v) == v,
    ensures
        a.throttle_after(m) == m,
{
    lemma_remap_round_trip(m as int);
    let level = remap(m as int, -128, 127, 0, 255) as u8;
    assert(level as int == remap(m as int, -128, 127, 0, 255));
    assert(a.motor.power_after(level) == level);
}

/// Setting a throttle on a direction-selected accelerator whose driver holds
/// every level exactly reads back a throttle within one unit of it.
pub proof fn lemma_directed_throttle_round_trip<M: MotorDriver>(
    a: LinearAcceleratorWithDirectionChoose<M, BinaryMotor>,
    m: i8,
)
    requires
        forall|v: u8| #[trigger] a.motor.power_after(v) == v,
    ensures
        -1 <= a.throttle_after(m) - m <= 1,
{
    if m > 0 {
        lemma_magnitude_round_trip(m as int);
        let level = level_for_magnitude(m as int);
        assert(a.motor.power_after(level) == level);
    } else if m < 0 {
        let k = reverse_magnitude(m);
        lemma_magnitude_round_trip(k);
        let level = level_for_magnitude(k);
        assert(a.motor.power_after(level) == level);
    }
}

} // verus!
