//! Motor drivers: the lowest capability of the actuation layer, a single
//! output that holds a power level.
//!
//! The drivers hold the state of their output as plain values (the latched
//! level of a digital pin, the compare value of a PWM channel); the board
//! support code copies that state to the hardware.
use crate::remap::{map_range, remap};
use vstd::prelude::*;

verus! {

/// A single motor output that holds a power level in `[0, 255]`.
pub trait MotorDriver: Sized {
    /// Whether the driver's state is consistent.
    spec fn wf(&self) -> bool;

    /// The level that `get_power` reports.
    spec fn power(&self) -> u8;

    /// The level reported after `set_power(value)`; it depends on the
    /// driver's configuration only, not on the level it holds.
    spec fn power_after(&self, value: u8) -> u8;

    /// Whether `after` is what `set_power(value)` makes of `self`.
    spec fn sets(&self, value: u8, after: Self) -> bool;

    /// Drives the output at `value`. Zero always switches it off.
    fn set_power(&mut self, value: u8)
        requires
            old(self).wf(),
        ensures
            final(self).wf(),
            old(self).sets(value, *final(self)),
            final(self).power() == old(self).power_after(value),
            value == 0 ==> final(self).power() == 0,
            forall|v: u8| #[trigger] final(self).power_after(v) == old(self).power_after(v),
    ;

    /// The level that `get_power` would report after `set_power(value)`,
    /// worked out from the driver's configuration; the output is untouched.
    fn level_after(&self, value: u8) -> (r: u8)
        requires
            self.wf(),
        ensures
            r == self.power_after(value),
    ;

    /// The level the output currently holds.
    fn get_power(&self) -> (r: u8)
        requires
            self.wf(),
        ensures
            r == self.power(),
    ;
}

/// A driver chosen among two kinds.
pub enum MotorVariant<B, P> {
    Binary(B),
    Pwm(P),
}

impl<B: MotorDriver, P: MotorDriver> MotorDriver for MotorVariant<B, P> {
    open spec fn wf(&self) -> bool {
        match self {
            MotorVariant::Binary(b) => b.wf(),
            MotorVariant::Pwm(p) => p.wf(),
        }
    }

    open spec fn power(&self) -> u8 {
        match self {
            MotorVariant::Binary(b) => b.power(),
            MotorVariant::Pwm(p) => p.power(),
        }
    }

    open spec fn power_after(&self, value: u8) -> u8 {
        match self {
            MotorVariant::Binary(b) => b.power_after(value),
            MotorVariant::Pwm(p) => p.power_after(value),
        }
    }

    open spec fn sets(&self, value: u8, after: Self) -> bool {
        match (self, after) {
            (MotorVariant::Binary(b), MotorVariant::Binary(a)) => b.sets(value, a),
            (MotorVariant::Pwm(p), MotorVariant::Pwm(a)) => p.sets(value, a),
            _ => false,
        }
    }

    fn set_power(&mut self, power: u8) {
        match self {
            MotorVariant::Binary(b) => b.set_power(power),
            MotorVariant::Pwm(p) => p.set_power(power),
        }
    }

    fn level_after(&self, value: u8) -> (r: u8) {
        match self {
            MotorVariant::Binary(b) => b.level_after(value),
            MotorVariant::Pwm(p) => p.level_after(value),
        }
    }

    fn get_power(&self) -> (r: u8) {
        match self {
            MotorVariant::Binary(b) => b.get_power(),
            MotorVariant::Pwm(p) => p.get_power(),
        }
    }
}

/// An on/off motor behind one digital output.
pub struct BinaryMotor {
    high: bool,
}

impl BinaryMotor {
    /// A motor whose output starts at the given level.
    pub fn new(high: bool) -> (r: Self)
        ensures
            r.is_high() == high,
    {
        BinaryMotor { high }
    }

    /// Whether the output is latched high.
    pub closed spec fn is_high(&self) -> bool {
        self.high
    }

    pub fn set_high(&mut self)
        ensures
            final(self).is_high(),
    {
        self.high = true;
    }

    pub fn set_low(&mut self)
        ensures
            !final(self).is_high(),
    {
        self.high = false;
    }

    pub fn is_set_high(&self) -> (r: bool)
        ensures
            r == self.is_high(),
    {
        self.high
    }

    pub fn is_set_low(&self) -> (r: bool)
        ensures
            r == !self.is_high(),
    {
        !self.high
    }
}

impl MotorDriver for BinaryMotor {
    open spec fn wf(&self) -> bool {
        true
    }

    open spec fn power(&self) -> u8 {
        if self.is_high() {
            1
        } else {
            0
        }
    }

    open spec fn power_after(&self, value: u8) -> u8 {
        if value != 0 {
            1
        } else {
            0
        }
    }

    open spec fn sets(&self, value: u8, after: Self) -> bool {
        after.is_high() == (value != 0)
    }

    fn set_power(&mut self, value: u8) {
        self.high = value != 0;
    }

    fn level_after(&self, value: u8) -> (r: u8) {
        if value != 0 {
            1
        } else {
            0
        }
    }

    fn get_power(&self) -> (r: u8) {
        if self.high {
            1
        } else {
            0
        }
    }
}

/// A motor behind one PWM channel whose timer counts `period_ticks` ticks
/// per period; the channel's compare value sets the duty.
pub struct PwmMotor {
    timestamp: u16,
    period_ticks: u16,
}

/// Compare value that gives a duty of `percent` (at most 100) over `period`.
pub open spec fn timestamp_for(percent: int, period: int) -> int {
    (if percent > 100 { 100 } else { percent }) * period / 100
}

/// Duty, in percent, of compare value `timestamp` over `period`.
pub open spec fn duty_of(timestamp: int, period: int) -> int {
    timestamp * 100 / period
}

impl PwmMotor {
    /// A stopped motor on a timer of `period_ticks` ticks per period.
    pub fn new(period_ticks: u16) -> (r: Self)
        requires
            period_ticks > 0,
        ensures
            r.wf(),
            r.period() == period_ticks,
            r.compare() == 0,
    {
        PwmMotor { timestamp: 0, period_ticks }
    }

    /// The channel's compare value.
    pub closed spec fn compare(&self) -> u16 {
        self.timestamp
    }

    /// The timer's period in ticks.
    pub closed spec fn period(&self) -> u16 {
        self.period_ticks
    }

    /// Sets the duty to `percent` of the period, 100 at most.
    pub fn set_duty_cycle(&mut self, percent: u8)
        requires
            old(self).wf(),
        ensures
            final(self).wf(),
            final(self).period() == old(self).period(),
            final(self).compare() == timestamp_for(percent as int, old(self).period() as int),
    {
        let percent: u8 = if percent > 100 {
            100
        } else {
            percent
        };
        assert(percent as u32 * self.period_ticks as u32 <= 100 * self.period_ticks as u32)
            by (nonlinear_arith)
            requires
                percent <= 100,
        ;
        let timestamp: u32 = (percent as u32 * self.period_ticks as u32) / 100;
        assert(timestamp <= self.period_ticks) by (nonlinear_arith)
            requires
                timestamp as int == (percent as int * self.period_ticks as int) / 100,
                percent <= 100,
        ;
        self.timestamp = timestamp as u16;
    }

    /// The duty in percent of the period.
    pub fn get_duty_cycle(&self) -> (r: u8)
        requires
            self.wf(),
        ensures
            r == duty_of(self.compare() as int, self.period() as int),
            r <= 100,
    {
        assert(self.timestamp as u32 * 100 <= self.period_ticks as u32 * 100) by (nonlinear_arith)
            requires
                self.timestamp <= self.period_ticks,
        ;
        let r: u32 = (self.timestamp as u32 * 100) / self.period_ticks as u32;
        assert(r <= 100) by (nonlinear_arith)
            requires
                r as int == (self.timestamp as int * 100) / (self.period_ticks as int),
                self.timestamp <= self.period_ticks,
                self.period_ticks > 0,
        ;
        r as u8
    }

    /// The channel's compare value, for the board to load into the hardware.
    pub fn timestamp(&self) -> (r: u16)
        ensures
            r == self.compare(),
    {
        self.timestamp
    }
}

impl MotorDriver for PwmMotor {
    open spec fn wf(&self) -> bool {
        0 < self.period() && self.compare() <= self.period()
    }

    open spec fn power(&self) -> u8 {
        remap(duty_of(self.compare() as int, self.period() as int), 0, 100, 0, 255) as u8
    }

    open spec fn power_after(&self, value: u8) -> u8 {
        let duty = remap(value as int, 0, 255, 0, 100);
        let timestamp = timestamp_for(duty, self.period() as int);
        remap(duty_of(timestamp, self.period() as int), 0, 100, 0, 255) as u8
    }

    open spec fn sets(&self, value: u8, after: Self) -> bool {
        &&& after.period() == self.period()
        &&& after.compare() == timestamp_for(
            remap(value as int, 0, 255, 0, 100),
            self.period() as int,
        )
    }

    fn set_power(&mut self, value: u8) {
        let duty_cycle = map_range(value as i32, 0, 255, 0, 100) as u8;
        self.set_duty_cycle(duty_cycle);
        proof {
            if value == 0 {
                assert(duty_cycle == 0);
                let period = self.period() as int;
                assert(0int * period / 100 == 0 && 0int * 100 / period == 0) by (nonlinear_arith)
                    requires
                        period > 0,
                ;
            }
        }
    }

    fn level_after(&self, value: u8) -> (r: u8) {
        let mut probe = PwmMotor { timestamp: self.timestamp, period_ticks: self.period_ticks };
        probe.set_power(value);
        probe.get_power()
    }

    fn get_power(&self) -> (r: u8) {
        let duty_cycle = self.get_duty_cycle() as i32;
        map_range(duty_cycle, 0, 100, 0, 255) as u8
    }
}

} // verus!
