//! The chassis (one throttle and one steering actuator) and the dispatcher
//! that executes remote instructions on it.
use crate::actuator::{Accelerator, SteeringAxle};
use crate::instruction::{AddressablePeripheral, PerformFunctionError};
use vstd::prelude::*;

verus! {

/// Operations of a whole chassis.
pub trait MotorSetup: Sized {
    /// Whether the actuators' states are consistent.
    spec fn wf(&self) -> bool;

    /// Whether the chassis reports motion.
    spec fn moving(&self) -> bool;

    /// Whether `self` is what `stop` leaves of `before`.
    spec fn stopped_from(&self, before: Self) -> bool;

    fn moves(&mut self) -> (r: bool)
        requires
            old(self).wf(),
        ensures
            r == old(self).moving(),
            *final(self) == *old(self),
    ;

    fn stop(&mut self)
        requires
            old(self).wf(),
        ensures
            final(self).wf(),
            final(self).stopped_from(*old(self)),
            !final(self).moving(),
    ;
}

/// A throttle actuator and a steering actuator mounted together.
pub struct RobotChassis<A, S> {
    pub accelerator: A,
    pub steering: S,
}

impl<A: Accelerator, S: SteeringAxle> RobotChassis<A, S> {
    pub fn new(accelerator: A, steering: S) -> (r: Self)
        ensures
            r.accelerator == accelerator,
            r.steering == steering,
    {
        RobotChassis { accelerator, steering }
    }
}

impl<A: Accelerator, S: SteeringAxle> MotorSetup for RobotChassis<A, S> {
    open spec fn wf(&self) -> bool {
        self.accelerator.wf() && self.steering.wf()
    }

    /// Throttle off centre, or steering off centre where a real steering
    /// actuator is fitted.
    open spec fn moving(&self) -> bool {
        self.accelerator.throttle() != 0 || (self.steering.present() && self.steering.steering()
            != 0)
    }

    open spec fn stopped_from(&self, before: Self) -> bool {
        &&& before.accelerator.sets(0, self.accelerator)
        &&& self.accelerator.throttle() == before.accelerator.throttle_after(0)
        &&& before.steering.present() ==> before.steering.sets(0, self.steering)
        &&& before.steering.present() ==> self.steering.steering()
            == before.steering.steering_after(0)
        &&& !before.steering.present() ==> self.steering == before.steering
        &&& self.steering.present() == before.steering.present()
    }

    fn moves(&mut self) -> (r: bool) {
        self.accelerator.get_current_throttle() != 0 || (self.steering.is_present()
            && self.steering.get_current_steering() != 0)
    }

    fn stop(&mut self) {
        self.accelerator.set_throttle(0);
        if self.steering.is_present() {
            self.steering.set_steering(0);
        }
    }
}

/// Whether the chassis is at rest or moving.
#[derive(Debug, Clone, Copy, PartialEq, Eq, Structural)]
pub enum MotorsStatus {
    Steady,
    Moving,
}

/// The status that stands for `moving`.
pub open spec fn status_of(moving: bool) -> MotorsStatus {
    if moving {
        MotorsStatus::Moving
    } else {
        MotorsStatus::Steady
    }
}

impl From<bool> for MotorsStatus {
    fn from(value: bool) -> (r: Self) {
        if value {
            MotorsStatus::Moving
        } else {
            MotorsStatus::Steady
        }
    }
}

impl vstd::std_specs::convert::FromSpecImpl<bool> for MotorsStatus {
    open spec fn obeys_from_spec() -> bool {
        true
    }

    open spec fn from_spec(v: bool) -> Self {
        status_of(v)
    }
}

/// What the address byte of a `Move` instruction names.
#[derive(Debug, Clone, Copy, PartialEq, Eq, Structural)]
pub enum MotorAddress {
    Stop,
    Accelerate,
    Steer,
    UnknownAddress,
}

/// Decoding of the address byte: 0 stops, 1 sets the throttle, 3 sets the
/// steering; 2 and everything above 3 name nothing.
pub open spec fn address_of(value: u8) -> MotorAddress {
    if value == 0 {
        MotorAddress::Stop
    } else if value == 1 {
        MotorAddress::Accelerate
    } else if value == 3 {
        MotorAddress::Steer
    } else {
        MotorAddress::UnknownAddress
    }
}

impl From<u8> for MotorAddress {
    fn from(value: u8) -> (r: Self) {
        match value {
            0x0 => MotorAddress::Stop,
            0x1 => MotorAddress::Accelerate,
            0x3 => MotorAddress::Steer,
            _ => MotorAddress::UnknownAddress,
        }
    }
}

impl vstd::std_specs::convert::FromSpecImpl<u8> for MotorAddress {
    open spec fn obeys_from_spec() -> bool {
        true
    }

    open spec fn from_spec(v: u8) -> Self {
        address_of(v)
    }
}

/// What the function code byte of an instruction names.
#[derive(Debug, Clone, Copy, PartialEq, Eq, Structural)]
pub enum MotorFunctionCode {
    Dummy,
    Move,
    Config,
    UnknownAddress,
}

/// Decoding of the function code byte: 0 polls, 1 moves, 2 is reserved for
/// configuration; everything above names nothing.
pub open spec fn function_code_of(value: u8) -> MotorFunctionCode {
    if value == 0 {
        MotorFunctionCode::Dummy
    } else if value == 1 {
        MotorFunctionCode::Move
    } else if value == 2 {
        MotorFunctionCode::Config
    } else {
        MotorFunctionCode::UnknownAddress
    }
}

impl From<u8> for MotorFunctionCode {
    fn from(value: u8) -> (r: Self) {
        match value {
            0x0 => MotorFunctionCode::Dummy,
            0x1 => MotorFunctionCode::Move,
            0x2 => MotorFunctionCode::Config,
            _ => MotorFunctionCode::UnknownAddress,
        }
    }
}

impl vstd::std_specs::convert::FromSpecImpl<u8> for MotorFunctionCode {
    open spec fn obeys_from_spec() -> bool {
        true
    }

    open spec fn from_spec(v: u8) -> Self {
        function_code_of(v)
    }
}

/// The signed magnitude carried by a value byte in offset binary: the byte
/// with its top bit flipped, read as two's complement.
pub open spec fn signed_magnitude(value: u8) -> i8 {
    (value as int - 128) as i8
}

/// Flips the top bit of `value` and reads the result as a signed byte.
pub fn signed_from_offset(value: u8) -> (r: i8)
    ensures
        r == signed_magnitude(value),
        r as int == value as int - 128,
{
    let flipped: u8 = value ^ 0x80;
    assert(flipped as i8 as int == value as int - 128) by (bit_vector)
        requires
            flipped == value ^ 0x80u8,
    ;
    flipped as i8
}

/// The motors of the robot, executing remote instructions on one chassis.
pub struct Motors<A, S> {
    pub chassis: RobotChassis<A, S>,
}

impl<A, S> Motors<A, S> {
    pub fn setup(chassis: RobotChassis<A, S>) -> (r: Self)
        ensures
            r.chassis == chassis,
    {
        Motors { chassis }
    }
}

impl<A: Accelerator, S: SteeringAxle> Motors<A, S> {
    /// Whether a `Move` to `address` with `value`, on `self`, may leave the
    /// motors as `after` and return `result`.
    pub open spec fn acts(
        &self,
        address: MotorAddress,
        value: u8,
        after: Self,
        result: Result<MotorsStatus, PerformFunctionError>,
    ) -> bool {
        let before = self.chassis;
        let magnitude = signed_magnitude(value);
        match address {
            MotorAddress::Stop => {
                &&& after.chassis.stopped_from(before)
                &&& !after.chassis.moving()
                &&& result == Ok::<MotorsStatus, PerformFunctionError>(MotorsStatus::Steady)
            },
            MotorAddress::Accelerate => {
                &&& after.chassis.steering == before.steering
                &&& before.accelerator.sets(magnitude, after.chassis.accelerator)
                &&& after.chassis.accelerator.throttle() == before.accelerator.throttle_after(
                    magnitude,
                )
                &&& result == Ok::<MotorsStatus, PerformFunctionError>(
                    status_of(after.chassis.moving()),
                )
            },
            MotorAddress::Steer => if before.steering.present() {
                &&& after.chassis.accelerator == before.accelerator
                &&& before.steering.sets(magnitude, after.chassis.steering)
                &&& after.chassis.steering.steering() == before.steering.steering_after(
                    magnitude,
                )
                &&& result == Ok::<MotorsStatus, PerformFunctionError>(
                    status_of(after.chassis.moving()),
                )
            } else {
                &&& after == *self
                &&& result == Err::<MotorsStatus, PerformFunctionError>(
                    PerformFunctionError::IncorrectAddress,
                )
            },
            MotorAddress::UnknownAddress => {
                &&& after == *self
                &&& result == Err::<MotorsStatus, PerformFunctionError>(
                    PerformFunctionError::IncorrectAddress,
                )
            },
        }
    }

    fn perform_action(&mut self, address: MotorAddress, value: u8) -> (r: Result<
        MotorsStatus,
        PerformFunctionError,
    >)
        requires
            old(self).wf(),
        ensures
            final(self).wf(),
            old(self).acts(address, value, *final(self), r),
    {
        let value: i8 = signed_from_offset(value);
        match address {
            MotorAddress::Stop => {
                self.chassis.stop();
                let moving = self.chassis.moves();
                proof {
                    assert(!moving);
                }
                Ok(MotorsStatus::Steady)
            },
            MotorAddress::Accelerate => {
                self.chassis.accelerator.set_throttle(value);
                Ok(MotorsStatus::from(self.chassis.moves()))
            },
            MotorAddress::Steer => {
                if !self.chassis.steering.is_present() {
                    return Err(PerformFunctionError::IncorrectAddress);
                }
                self.chassis.steering.set_steering(value);
                Ok(MotorsStatus::from(self.chassis.moves()))
            },
            MotorAddress::UnknownAddress => Err(PerformFunctionError::IncorrectAddress),
        }
    }
}

impl<'a, A: Accelerator, S: SteeringAxle> AddressablePeripheral<'a, MotorsStatus> for Motors<
    A,
    S,
> {
    /// The chassis is consistent.
    open spec fn wf(&self) -> bool {
        self.chassis.wf()
    }

    open spec fn performs(
        &self,
        function_code: u8,
        address: u8,
        value: u8,
        after: Self,
        result: Result<MotorsStatus, PerformFunctionError>,
    ) -> bool {
        match function_code_of(function_code) {
            MotorFunctionCode::Dummy => {
                &&& after == *self
                &&& result == Ok::<MotorsStatus, PerformFunctionError>(
                    status_of(self.chassis.moving()),
                )
            },
            MotorFunctionCode::Move => self.acts(address_of(address), value, after, result),
            _ => {
                &&& after == *self
                &&& result == Err::<MotorsStatus, PerformFunctionError>(
                    PerformFunctionError::WrongFunctionCode,
                )
            },
        }
    }

    fn perform_function(&mut self, function_code: u8, address: u8, value: u8) -> (r: Result<
        MotorsStatus,
        PerformFunctionError,
    >) {
        match MotorFunctionCode::from(function_code) {
            MotorFunctionCode::Dummy => Ok(MotorsStatus::from(self.chassis.moves())),
            MotorFunctionCode::Move => self.perform_action(MotorAddress::from(address), value),
            _ => Err(PerformFunctionError::WrongFunctionCode),
        }
    }
}

/// A `Move` to the stop address succeeds with `Steady` whatever the value
/// byte, and leaves a chassis that reports no motion.
pub proof fn lemma_stop_is_steady<A: Accelerator, S: SteeringAxle>(
    motors: Motors<A, S>,
    value: u8,
    after: Motors<A, S>,
    result: Result<MotorsStatus, PerformFunctionError>,
)
    requires
        motors.wf(),
        motors.performs(1, 0, value, after, result),
    ensures
        result == Ok::<MotorsStatus, PerformFunctionError>(MotorsStatus::Steady),
        !after.chassis.moving(),
{
}

/// A function code other than 0 (poll) and 1 (move) is refused with
/// `WrongFunctionCode` and leaves the motors untouched.
pub proof fn lemma_unknown_function_rejected<A: Accelerator, S: SteeringAxle>(
    motors: Motors<A, S>,
    function_code: u8,
    address: u8,
    value: u8,
    after: Motors<A, S>,
    result: Result<MotorsStatus, PerformFunctionError>,
)
    requires
        function_code > 1,
        motors.performs(function_code, address, value, after, result),
    ensures
        result == Err::<MotorsStatus, PerformFunctionError>(
            PerformFunctionError::WrongFunctionCode,
        ),
        after == motors,
{
}

/// A `Move` to an address that the chassis does not support (one that names
/// nothing, or steering on a chassis without a steering actuator) is refused
/// with `IncorrectAddress` and leaves the motors untouched.
pub proof fn lemma_unsupported_address_rejected<A: Accelerator, S: SteeringAxle>(
    motors: Motors<A, S>,
    address: u8,
    value: u8,
    after: Motors<A, S>,
    result: Result<MotorsStatus, PerformFunctionError>,
)
    requires
        address_of(address) == MotorAddress::UnknownAddress || (address_of(address)
            == MotorAddress::Steer && !motors.chassis.steering.present()),
        motors.performs(1, address, value, after, result),
    ensures
        result == Err::<MotorsStatus, PerformFunctionError>(
            PerformFunctionError::IncorrectAddress,
        ),
        after == motors,
{
}

} // verus!
