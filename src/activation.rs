//! Decision logic of the activation controller: a button held long enough
//! opens an advertising window.
//!
//! The board support code waits for the event that the current phase asks
//! for, feeds it to `step`, and carries out the effects that come back on
//! the indicator and on the advertising-enable flag.
use crate::flag::{flag_value, flag_writes, AdvertisingFlag};
use vstd::prelude::*;

verus! {

/// Delay before a press is recognised, in milliseconds.
pub const BUTTON_DEBOUNCE_DELAY_MS: u64 = 100;

/// How long the button must stay pressed to open a window, in milliseconds.
pub const BLE_BUTTON_HOLD_TIME_MS: u64 = 3_000;

/// Blink period of the indicator while advertising, in milliseconds.
pub const BLE_LED_BLINK_PERIOD_MS: u64 = 500;

/// Length of the advertising window, in milliseconds.
pub const BLE_ADVERTISEMENT_TIME_MS: u64 = 5_000;

/// Where the controller stands.
#[derive(Debug, Clone, Copy, PartialEq, Eq, Structural)]
pub enum ActivationPhase {
    /// Waiting for the button to be pressed.
    Released,
    /// Pressed; waiting out the debounce delay.
    Debouncing,
    /// Indicator lit; racing the hold time against an early release.
    Holding,
    /// Flag raised; the window runs until it expires or the flag is lowered
    /// by someone else.
    Advertising,
}

/// What the board support code observed.
#[derive(Debug, Clone, Copy, PartialEq, Eq, Structural)]
pub enum ActivationEvent {
    Pressed,
    DebounceElapsed,
    /// The button was still held when the hold time ran out.
    HoldElapsed,
    /// The button was released before the hold time ran out.
    ReleasedEarly,
    /// The advertising window expired, or the flag was lowered elsewhere.
    WindowClosed,
}

/// What the indicator must do.
#[derive(Debug, Clone, Copy, PartialEq, Eq, Structural)]
pub enum Indicator {
    Unchanged,
    On,
    Off,
    Blink,
}

/// The outcome of one event: the next phase, the indicator, and the value to
/// broadcast on the advertising-enable flag, if any.
#[derive(Debug, Clone, Copy, PartialEq, Eq, Structural)]
pub struct ActivationStep {
    pub phase: ActivationPhase,
    pub indicator: Indicator,
    pub flag: Option<bool>,
}

/// The outcome of `event` in `phase`. An event that the phase does not
/// wait for changes nothing.
pub open spec fn activation_step(phase: ActivationPhase, event: ActivationEvent) -> ActivationStep {
    match (phase, event) {
        (ActivationPhase::Released, ActivationEvent::Pressed) => ActivationStep {
            phase: ActivationPhase::Debouncing,
            indicator: Indicator::Unchanged,
            flag: None,
        },
        (ActivationPhase::Debouncing, ActivationEvent::DebounceElapsed) => ActivationStep {
            phase: ActivationPhase::Holding,
            indicator: Indicator::On,
            flag: None,
        },
        (ActivationPhase::Holding, ActivationEvent::HoldElapsed) => ActivationStep {
            phase: ActivationPhase::Advertising,
            indicator: Indicator::Blink,
            flag: Some(true),
        },
        (ActivationPhase::Holding, ActivationEvent::ReleasedEarly) => ActivationStep {
            phase: ActivationPhase::Released,
            indicator: Indicator::Off,
            flag: None,
        },
        (ActivationPhase::Advertising, ActivationEvent::WindowClosed) => ActivationStep {
            phase: ActivationPhase::Released,
            indicator: Indicator::Off,
            flag: Some(false),
        },
        (p, _) => ActivationStep { phase: p, indicator: Indicator::Unchanged, flag: None },
    }
}

impl ActivationPhase {
    /// The outcome of `event` in this phase.
    pub fn step(self, event: ActivationEvent) -> (r: ActivationStep)
        ensures
            r == activation_step(self, event),
    {
        match (self, event) {
            (ActivationPhase::Released, ActivationEvent::Pressed) => ActivationStep {
                phase: ActivationPhase::Debouncing,
                indicator: Indicator::Unchanged,
                flag: None,
            },
            (ActivationPhase::Debouncing, ActivationEvent::DebounceElapsed) => ActivationStep {
                phase: ActivationPhase::Holding,
                indicator: Indicator::On,
                flag: None,
            },
            (ActivationPhase::Holding, ActivationEvent::HoldElapsed) => ActivationStep {
                phase: ActivationPhase::Advertising,
                indicator: Indicator::Blink,
                flag: Some(true),
            },
            (ActivationPhase::Holding, ActivationEvent::ReleasedEarly) => ActivationStep {
                phase: ActivationPhase::Released,
                indicator: Indicator::Off,
                flag: None,
            },
            (ActivationPhase::Advertising, ActivationEvent::WindowClosed) => ActivationStep {
                phase: ActivationPhase::Released,
                indicator: Indicator::Off,
                flag: Some(false),
            },
            (p, _) => ActivationStep { phase: p, indicator: Indicator::Unchanged, flag: None },
        }
    }
}

impl ActivationStep {
    /// Broadcasts the step's flag value, if it carries one and the flag's
    /// write counter has room; returns whether it did.
    pub fn publish(&self, flag: &mut AdvertisingFlag) -> (r: bool)
        ensures
            r == (self.flag is Some && flag_writes(*old(flag)) < u64::MAX),
            r ==> flag_value(*final(flag)) == self.flag,
            !r ==> *final(flag) == *old(flag),
    {
        match self.flag {
            Some(enabled) => {
                if flag.message_id() < u64::MAX {
                    flag.send(enabled);
                    true
                } else {
                    false
                }
            },
            None => false,
        }
    }
}

/// The flag is raised only when the hold time runs out with the button still
/// held, and every way out of the advertising phase lowers it.
pub proof fn lemma_flag_discipline(phase: ActivationPhase, event: ActivationEvent)
    ensures
        activation_step(phase, event).flag == Some(true) <==> (phase
            == ActivationPhase::Holding && event == ActivationEvent::HoldElapsed),
        phase == ActivationPhase::Advertising && activation_step(phase, event).phase
            != ActivationPhase::Advertising ==> activation_step(phase, event).flag == Some(
            false,
        ),
{
}

} // verus!
