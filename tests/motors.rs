use remote_rc_bt::actuator::{
    Accelerator, BinaryAccelerator, BinarySteeringAxle, DummySteeringAxle, LinearAccelerator,
    LinearAcceleratorWithDirectionChoose, ServoSteeringAxle, SteeringAxle,
};
use remote_rc_bt::chassis::{
    signed_from_offset, MotorAddress, MotorFunctionCode, MotorSetup, Motors, MotorsStatus,
    RobotChassis,
};
use remote_rc_bt::driver::{BinaryMotor, MotorDriver, MotorVariant, PwmMotor};
use remote_rc_bt::instruction::{AddressablePeripheral, PerformFunctionError};
use remote_rc_bt::remap::map_range;

/// A driver that holds every level exactly.
struct ExactDriver(u8);

impl MotorDriver for ExactDriver {
    fn wf(&self) -> bool {
        true
    }

    fn power(&self) -> u8 {
        self.0
    }

    fn power_after(&self, value: u8) -> u8 {
        value
    }

    fn sets(&self, value: u8, after: Self) -> bool {
        after.0 == value
    }

    fn level_after(&self, value: u8) -> u8 {
        value
    }

    fn set_power(&mut self, value: u8) {
        self.0 = value;
    }

    fn get_power(&self) -> u8 {
        self.0
    }
}

type DirectionChassis = RobotChassis<
    LinearAcceleratorWithDirectionChoose<PwmMotor, BinaryMotor>,
    DummySteeringAxle,
>;

fn direction_chassis() -> DirectionChassis {
    RobotChassis::new(
        LinearAcceleratorWithDirectionChoose {
            motor: PwmMotor::new(100),
            direction_selector: BinaryMotor::new(false),
        },
        DummySteeringAxle::new(),
    )
}

fn binary_chassis() -> RobotChassis<
    BinaryAccelerator<BinaryMotor, BinaryMotor>,
    BinarySteeringAxle<BinaryMotor>,
> {
    RobotChassis::new(
        BinaryAccelerator {
            motor_forward: BinaryMotor::new(false),
            motor_backward: BinaryMotor::new(false),
        },
        BinarySteeringAxle {
            motor_left: BinaryMotor::new(false),
            motor_right: BinaryMotor::new(false),
        },
    )
}

fn servo_chassis() -> RobotChassis<LinearAccelerator<ExactDriver>, ServoSteeringAxle<ExactDriver>>
{
    RobotChassis::new(
        LinearAccelerator { motor: ExactDriver(128) },
        ServoSteeringAxle { motor_steer: ExactDriver(128) },
    )
}

#[test]
fn map_range_exact_values() {
    assert_eq!(map_range(1, 1, 127, 0, 255), 0);
    assert_eq!(map_range(2, 1, 127, 0, 255), 2);
    assert_eq!(map_range(127, 1, 127, 0, 255), 255);
    assert_eq!(map_range(0, -128, 127, 0, 255), 128);
    assert_eq!(map_range(128, 0, 255, 0, 100), 50);
    assert_eq!(map_range(50, 0, 100, 0, 255), 127);
    assert_eq!(map_range(255, 0, 255, -1, -127), -127);
    assert_eq!(map_range(1, 0, 255, -1, -127), -1);
}

#[test]
fn map_range_over_wide_ranges() {
    assert_eq!(map_range(1000, 0, 40_000, 0, 50_000), 1250);
    assert_eq!(map_range(40_000, 0, 40_000, -25_000, 25_000), 25_000);
    assert_eq!(map_range(1, 0, 3, 0, -7), -2);
}

#[test]
fn map_range_clamps_input() {
    assert_eq!(map_range(300, 0, 255, 0, 100), 100);
    assert_eq!(map_range(-5, 0, 255, 0, 100), 0);
    assert_eq!(map_range(1000, -128, 127, 0, 255), 255);
}

#[test]
fn remap_round_trip_recovers_every_signed_byte() {
    for x in -128..=127 {
        let level = map_range(x, -128, 127, 0, 255);
        assert!((0..=255).contains(&level));
        let back = map_range(level, 0, 255, -128, 127);
        assert!((back - x).abs() <= 1);
        assert_eq!(back, x);
    }
}

#[test]
fn signed_from_offset_flips_the_top_bit() {
    assert_eq!(signed_from_offset(0x81), 1);
    assert_eq!(signed_from_offset(0x80), 0);
    assert_eq!(signed_from_offset(0x00), -128);
    assert_eq!(signed_from_offset(0xff), 127);
    assert_eq!(signed_from_offset(0x7f), -1);
}

#[test]
fn binary_motor_reports_on_or_off() {
    let mut m = BinaryMotor::new(false);
    assert_eq!(m.get_power(), 0);
    m.set_power(200);
    assert_eq!(m.get_power(), 1);
    assert!(m.is_set_high());
    m.set_power(0);
    assert_eq!(m.get_power(), 0);
    assert!(m.is_set_low());
}

#[test]
fn pwm_motor_duty_cycle() {
    let mut m = PwmMotor::new(100);
    assert_eq!(m.get_duty_cycle(), 0);
    m.set_duty_cycle(150);
    assert_eq!(m.timestamp(), 100);
    assert_eq!(m.get_duty_cycle(), 100);
    m.set_duty_cycle(37);
    assert_eq!(m.get_duty_cycle(), 37);
    let mut slow = PwmMotor::new(400);
    slow.set_duty_cycle(25);
    assert_eq!(slow.timestamp(), 100);
    assert_eq!(slow.get_duty_cycle(), 25);
}

#[test]
fn pwm_motor_power_goes_through_percent() {
    let mut m = PwmMotor::new(100);
    m.set_power(255);
    assert_eq!(m.get_duty_cycle(), 100);
    assert_eq!(m.get_power(), 255);
    m.set_power(128);
    assert_eq!(m.get_duty_cycle(), 50);
    assert_eq!(m.get_power(), 127);
    m.set_power(0);
    assert_eq!(m.get_power(), 0);
}

#[test]
fn motor_variant_dispatches_to_its_driver() {
    let mut b: MotorVariant<BinaryMotor, PwmMotor> = MotorVariant::Binary(BinaryMotor::new(false));
    b.set_power(128);
    assert_eq!(b.get_power(), 1);
    let mut p: MotorVariant<BinaryMotor, PwmMotor> = MotorVariant::Pwm(PwmMotor::new(100));
    p.set_power(128);
    assert_eq!(p.get_power(), 127);
}

#[test]
fn linear_throttle_round_trip_is_exact_on_an_exact_driver() {
    let mut a = LinearAccelerator { motor: ExactDriver(0) };
    for m in -128..=127i8 {
        a.set_throttle(m);
        assert_eq!(a.get_current_throttle(), m);
    }
}

#[test]
fn directed_throttle_round_trip_within_one_unit() {
    let mut a = LinearAcceleratorWithDirectionChoose {
        motor: ExactDriver(0),
        direction_selector: BinaryMotor::new(false),
    };
    for m in -128..=127i8 {
        a.set_throttle(m);
        let read = a.get_current_throttle();
        assert!((read as i32 - m as i32).abs() <= 1, "{} read back as {}", m, read);
    }
}

#[test]
fn directed_throttle_signs_follow_the_selector() {
    let mut a = LinearAcceleratorWithDirectionChoose {
        motor: ExactDriver(0),
        direction_selector: BinaryMotor::new(false),
    };
    a.set_throttle(127);
    assert!(a.direction_selector.is_set_high());
    assert_eq!(a.motor.get_power(), 255);
    assert_eq!(a.get_current_throttle(), 127);
    a.set_throttle(-128);
    assert!(a.direction_selector.is_set_low());
    assert_eq!(a.motor.get_power(), 255);
    assert_eq!(a.get_current_throttle(), -127);
    a.set_throttle(0);
    assert!(a.direction_selector.is_set_low());
    assert_eq!(a.motor.get_power(), 0);
    assert_eq!(a.get_current_throttle(), 0);
}

#[test]
fn fresh_direction_chassis_is_at_rest() {
    let mut c = direction_chassis();
    assert_eq!(c.accelerator.get_current_throttle(), 0);
    assert!(!c.moves());
}

#[test]
fn binary_accelerator_reports_direction_only() {
    let mut a = BinaryAccelerator {
        motor_forward: BinaryMotor::new(false),
        motor_backward: BinaryMotor::new(false),
    };
    a.set_throttle(40);
    assert_eq!(a.get_current_throttle(), 1);
    assert!(a.motor_forward.is_set_high());
    assert!(a.motor_backward.is_set_low());
    a.set_throttle(-3);
    assert_eq!(a.get_current_throttle(), -1);
    a.set_throttle(0);
    assert_eq!(a.get_current_throttle(), 0);
}

#[test]
fn binary_steering_energises_one_side() {
    let mut s = BinarySteeringAxle {
        motor_left: BinaryMotor::new(false),
        motor_right: BinaryMotor::new(false),
    };
    assert_eq!(s.get_current_steering(), 0);
    s.set_steering(10);
    assert_eq!(s.get_current_steering(), 127);
    assert!(s.motor_right.is_set_high() && s.motor_left.is_set_low());
    s.set_steering(-10);
    assert_eq!(s.get_current_steering(), -128);
    assert!(s.motor_left.is_set_high() && s.motor_right.is_set_low());
    s.set_steering(0);
    assert_eq!(s.get_current_steering(), 0);
}

#[test]
fn servo_steering_follows_the_remap_law() {
    let mut s = ServoSteeringAxle { motor_steer: PwmMotor::new(100) };
    s.set_steering(127);
    assert_eq!(s.motor_steer.get_duty_cycle(), 100);
    assert_eq!(s.get_current_steering(), 127);
    s.set_steering(-128);
    assert_eq!(s.get_current_steering(), -128);
    let mut exact = ServoSteeringAxle { motor_steer: ExactDriver(0) };
    exact.set_steering(-40);
    assert_eq!(exact.get_current_steering(), -40);
}

#[test]
fn dummy_steering_is_always_centred() {
    let mut s = DummySteeringAxle::new();
    s.set_steering(100);
    assert_eq!(s.get_current_steering(), 0);
    assert!(!s.is_present());
}

#[test]
fn stop_brings_every_composition_to_rest() {
    let mut c = direction_chassis();
    c.accelerator.set_throttle(-90);
    assert!(c.moves());
    c.stop();
    assert!(!c.moves());

    let mut c = binary_chassis();
    c.accelerator.set_throttle(5);
    c.steering.set_steering(-5);
    assert!(c.moves());
    c.stop();
    assert!(!c.moves());

    let mut c = servo_chassis();
    c.steering.set_steering(77);
    assert!(c.moves());
    c.stop();
    assert!(!c.moves());
    assert_eq!(c.steering.get_current_steering(), 0);
}

#[test]
fn status_and_codes_from_bytes() {
    assert_eq!(MotorsStatus::from(true), MotorsStatus::Moving);
    assert_eq!(MotorsStatus::from(false), MotorsStatus::Steady);
    assert_eq!(MotorAddress::from(0), MotorAddress::Stop);
    assert_eq!(MotorAddress::from(1), MotorAddress::Accelerate);
    assert_eq!(MotorAddress::from(2), MotorAddress::UnknownAddress);
    assert_eq!(MotorAddress::from(3), MotorAddress::Steer);
    assert_eq!(MotorAddress::from(9), MotorAddress::UnknownAddress);
    assert_eq!(MotorFunctionCode::from(0), MotorFunctionCode::Dummy);
    assert_eq!(MotorFunctionCode::from(1), MotorFunctionCode::Move);
    assert_eq!(MotorFunctionCode::from(2), MotorFunctionCode::Config);
    assert_eq!(MotorFunctionCode::from(200), MotorFunctionCode::UnknownAddress);
}

#[test]
fn move_accelerate_sets_direction_and_duty() {
    let mut motors = Motors::setup(direction_chassis());
    let [_, function_code, address, value] = [0x00u8, 0x01, 0x01, 0x81];
    let r = motors.perform_function(function_code, address, value);
    assert_eq!(r, Ok(MotorsStatus::Moving));
    let a = &motors.chassis.accelerator;
    assert!(a.direction_selector.is_set_high());
    assert_eq!(map_range(1, 1, 127, 0, 255), 0);
    assert_eq!(a.motor.get_power(), map_range(1, 1, 127, 0, 255) as u8);
    assert_eq!(a.motor.get_duty_cycle(), 0);
    assert_eq!(a.get_current_throttle(), 1);
}

#[test]
fn move_accelerate_full_reverse() {
    let mut motors = Motors::setup(direction_chassis());
    assert_eq!(motors.perform_function(1, 1, 0x00), Ok(MotorsStatus::Moving));
    let a = &motors.chassis.accelerator;
    assert!(a.direction_selector.is_set_low());
    assert_eq!(a.motor.get_duty_cycle(), 100);
    assert_eq!(a.get_current_throttle(), -127);
}

#[test]
fn move_stop_is_steady_for_every_value() {
    for value in 0..=255u8 {
        let mut motors = Motors::setup(direction_chassis());
        assert_eq!(motors.perform_function(1, 1, 0xff), Ok(MotorsStatus::Moving));
        assert_eq!(motors.perform_function(0x01, 0x00, value), Ok(MotorsStatus::Steady));
        assert_eq!(motors.chassis.accelerator.get_current_throttle(), 0);
    }
    let mut motors = Motors::setup(direction_chassis());
    assert_eq!(motors.perform_function(0x01, 0x00, 0x80), Ok(MotorsStatus::Steady));
}

#[test]
fn move_with_neutral_throttle_is_steady() {
    let mut motors = Motors::setup(direction_chassis());
    assert_eq!(motors.perform_function(1, 1, 0x80), Ok(MotorsStatus::Steady));
}

#[test]
fn poll_reports_status_without_change() {
    let mut motors = Motors::setup(direction_chassis());
    assert_eq!(motors.perform_function(0, 0, 0), Ok(MotorsStatus::Steady));
    motors.perform_function(1, 1, 0xc0).unwrap();
    assert_eq!(motors.perform_function(0, 1, 0x00), Ok(MotorsStatus::Moving));
    // 64 asks for level 127, which the PWM channel holds as 49 %, level 124.
    assert_eq!(motors.chassis.accelerator.motor.get_duty_cycle(), 49);
    assert_eq!(motors.chassis.accelerator.get_current_throttle(), 62);
}

#[test]
fn unknown_function_codes_are_rejected_without_change() {
    for function_code in 2..=255u8 {
        let mut motors = Motors::setup(direction_chassis());
        motors.perform_function(1, 1, 0xa0).unwrap();
        let before = motors.chassis.accelerator.get_current_throttle();
        for address in [0u8, 1, 3] {
            assert_eq!(
                motors.perform_function(function_code, address, 0x00),
                Err(PerformFunctionError::WrongFunctionCode)
            );
        }
        assert_eq!(motors.chassis.accelerator.get_current_throttle(), before);
        assert!(motors.chassis.accelerator.direction_selector.is_set_high());
    }
}

#[test]
fn unsupported_addresses_are_rejected_without_change() {
    let mut motors = Motors::setup(direction_chassis());
    motors.perform_function(1, 1, 0x90).unwrap();
    let before = motors.chassis.accelerator.get_current_throttle();
    for address in [2u8, 3, 4, 0x10, 0xff] {
        assert_eq!(
            motors.perform_function(1, address, 0x00),
            Err(PerformFunctionError::IncorrectAddress)
        );
    }
    assert_eq!(motors.chassis.accelerator.get_current_throttle(), before);

    let mut motors = Motors::setup(binary_chassis());
    assert_eq!(motors.perform_function(1, 2, 0x00), Err(PerformFunctionError::IncorrectAddress));
    assert_eq!(motors.perform_function(1, 3, 0x00), Ok(MotorsStatus::Moving));
    assert_eq!(motors.chassis.steering.get_current_steering(), -128);
}

#[test]
fn steering_on_a_real_axle() {
    let mut motors = Motors::setup(servo_chassis());
    assert_eq!(motors.perform_function(1, 3, 0xa0), Ok(MotorsStatus::Moving));
    assert_eq!(motors.chassis.steering.get_current_steering(), 32);
    assert_eq!(motors.perform_function(1, 0, 0x12), Ok(MotorsStatus::Steady));
    assert_eq!(motors.chassis.steering.get_current_steering(), 0);
}

#[test]
fn lossy_drivers_read_the_centre_command_as_rest() {
    let mut a = LinearAccelerator { motor: PwmMotor::new(100) };
    a.set_throttle(90);
    assert_ne!(a.get_current_throttle(), 0);
    a.set_throttle(0);
    assert_eq!(a.motor.get_duty_cycle(), 50);
    assert_eq!(a.get_current_throttle(), 0);

    let mut b = LinearAccelerator { motor: BinaryMotor::new(false) };
    b.set_throttle(0);
    assert_eq!(b.get_current_throttle(), 0);

    let mut s = ServoSteeringAxle { motor_steer: PwmMotor::new(100) };
    s.set_steering(-60);
    assert_ne!(s.get_current_steering(), 0);
    s.set_steering(0);
    assert_eq!(s.get_current_steering(), 0);
}

#[test]
fn stop_rests_chassis_on_pwm_drivers() {
    let mut c = RobotChassis::new(
        BinaryAccelerator {
            motor_forward: BinaryMotor::new(false),
            motor_backward: BinaryMotor::new(false),
        },
        ServoSteeringAxle { motor_steer: PwmMotor::new(100) },
    );
    c.accelerator.set_throttle(-1);
    c.steering.set_steering(100);
    assert!(c.moves());
    c.stop();
    assert!(!c.moves());

    let mut c = RobotChassis::new(
        LinearAccelerator { motor: PwmMotor::new(100) },
        BinarySteeringAxle {
            motor_left: BinaryMotor::new(false),
            motor_right: BinaryMotor::new(false),
        },
    );
    c.accelerator.set_throttle(127);
    c.steering.set_steering(1);
    assert!(c.moves());
    c.stop();
    assert!(!c.moves());
    assert_eq!(c.accelerator.get_current_throttle(), 0);
    assert_eq!(c.steering.get_current_steering(), 0);
}

#[test]
fn stop_through_dispatch_on_a_servo_chassis() {
    let mut motors = Motors::setup(RobotChassis::new(
        LinearAccelerator { motor: PwmMotor::new(100) },
        ServoSteeringAxle { motor_steer: PwmMotor::new(100) },
    ));
    assert_eq!(motors.perform_function(1, 3, 0x10), Ok(MotorsStatus::Moving));
    assert_eq!(motors.perform_function(1, 1, 0xf0), Ok(MotorsStatus::Moving));
    assert_eq!(motors.perform_function(1, 0, 0x33), Ok(MotorsStatus::Steady));
    assert_eq!(motors.perform_function(0, 0, 0), Ok(MotorsStatus::Steady));
}
