//! Decision logic of the connection supervisor.
//!
//! The supervisor owns one session state. For each state it asks the board
//! support code to perform an action on the wireless transport (`action`),
//! and the outcome of that action comes back as an event that selects the
//! next state (`next_state`).
use crate::flag::{flag_value, AdvertisingFlag};
use vstd::prelude::*;

verus! {

/// How long the supervisor advertises for a reconnection after losing a
/// session, in milliseconds.
pub const RECOVERY_WINDOW_MS: u64 = 20_000;

/// State of the connection session; `C` is a connection handle, `E` a
/// transport error.
pub enum BleState<C, E> {
    Idle,
    Advertising,
    Connected(C),
    LostConnection,
    Fatal(E),
}

/// What happened while the action of the current state was performed.
pub enum BleEvent<C, E> {
    /// The advertising-enable flag changed; its current value.
    FlagObserved(bool),
    /// A peer connected while advertising.
    Accepted(C),
    /// The transport reported an error while advertising.
    Failed(E),
    /// Advertising ended without a connection: the flag was lowered, or the
    /// recovery window expired.
    Cancelled,
    /// The session ended: the peer disconnected, the instruction feed
    /// stopped, or the operator forced advertising off (see `SessionWatch`).
    SessionEnded,
    /// The instruction channel could not be reset to the neutral instruction.
    ResetFailed,
}

/// What the board support code must do in a state.
#[derive(Debug, Clone, Copy, PartialEq, Eq, Structural)]
pub enum BleAction {
    /// Wait for the advertising-enable flag to change, then report its value.
    AwaitFlag,
    /// Advertise until a peer connects or the flag is lowered.
    AdvertiseUntilFlagLowered,
    /// Lower the advertising-enable flag, then serve the session until it
    /// ends.
    LowerFlagAndServe,
    /// Reset the instruction channel to the neutral instruction; if that
    /// succeeds, advertise for the given number of milliseconds.
    ResetAndAdvertiseFor(u64),
    /// Stop: the transport is in a state the supervisor cannot recover from.
    Halt,
}

/// The action the supervisor takes in `state`.
pub open spec fn action_of<C, E>(state: BleState<C, E>) -> BleAction {
    match state {
        BleState::Idle => BleAction::AwaitFlag,
        BleState::Advertising => BleAction::AdvertiseUntilFlagLowered,
        BleState::Connected(_) => BleAction::LowerFlagAndServe,
        BleState::LostConnection => BleAction::ResetAndAdvertiseFor(RECOVERY_WINDOW_MS),
        BleState::Fatal(_) => BleAction::Halt,
    }
}

/// The state that follows `state` on `event`. An event that the state's
/// action cannot produce leaves the state as it is; an error is final.
pub open spec fn transition<C, E>(state: BleState<C, E>, event: BleEvent<C, E>) -> BleState<
    C,
    E,
> {
    match (state, event) {
        (BleState::Idle, BleEvent::FlagObserved(true)) => BleState::Advertising,
        (BleState::Advertising, BleEvent::Accepted(conn)) => BleState::Connected(conn),
        (BleState::Advertising, BleEvent::Failed(e)) => BleState::Fatal(e),
        (BleState::Advertising, BleEvent::Cancelled) => BleState::Idle,
        (BleState::Connected(_), BleEvent::SessionEnded) => BleState::LostConnection,
        (BleState::LostConnection, BleEvent::ResetFailed) => BleState::Idle,
        (BleState::LostConnection, BleEvent::Accepted(conn)) => BleState::Connected(conn),
        (BleState::LostConnection, BleEvent::Failed(e)) => BleState::Fatal(e),
        (BleState::LostConnection, BleEvent::Cancelled) => BleState::Idle,
        (s, _) => s,
    }
}

impl<C, E> BleState<C, E> {
    /// The action to perform in this state.
    pub fn action(&self) -> (r: BleAction)
        ensures
            r == action_of(*self),
    {
        match self {
            BleState::Idle => BleAction::AwaitFlag,
            BleState::Advertising => BleAction::AdvertiseUntilFlagLowered,
            BleState::Connected(_) => BleAction::LowerFlagAndServe,
            BleState::LostConnection => BleAction::ResetAndAdvertiseFor(RECOVERY_WINDOW_MS),
            BleState::Fatal(_) => BleAction::Halt,
        }
    }

    /// The state that follows this one on `event`.
    pub fn next_state(self, event: BleEvent<C, E>) -> (r: Self)
        ensures
            r == transition(self, event),
    {
        match (self, event) {
            (BleState::Idle, BleEvent::FlagObserved(true)) => BleState::Advertising,
            (BleState::Advertising, BleEvent::Accepted(conn)) => BleState::Connected(conn),
            (BleState::Advertising, BleEvent::Failed(e)) => BleState::Fatal(e),
            (BleState::Advertising, BleEvent::Cancelled) => BleState::Idle,
            (BleState::Connected(_), BleEvent::SessionEnded) => BleState::LostConnection,
            (BleState::LostConnection, BleEvent::ResetFailed) => BleState::Idle,
            (BleState::LostConnection, BleEvent::Accepted(conn)) => BleState::Connected(conn),
            (BleState::LostConnection, BleEvent::Failed(e)) => BleState::Fatal(e),
            (BleState::LostConnection, BleEvent::Cancelled) => BleState::Idle,
            (s, _) => s,
        }
    }

    /// The state that follows this one when the advertising-enable flag
    /// reports a change: the flag's current value is read again, since
    /// writes between two reads collapse into the last one.
    pub fn observe_flag(self, flag: &AdvertisingFlag) -> (r: Self)
        ensures
            r == match flag_value(*flag) {
                Some(enabled) => transition(self, BleEvent::FlagObserved(enabled)),
                None => self,
            },
    {
        match flag.try_get() {
            Some(enabled) => self.next_state(BleEvent::FlagObserved(enabled)),
            None => self,
        }
    }

    /// Whether this is the initial, idle state.
    pub fn is_idle(&self) -> (r: bool)
        ensures
            r == (*self is Idle),
    {
        match self {
            BleState::Idle => true,
            _ => false,
        }
    }
}

/// Watches the advertising-enable flag during a session. Entering a session
/// lowers the flag, and the activation controller's own closing write lowers
/// it again; neither ends the session. The operator ends it by raising the
/// flag with the button and then driving it false: a lowering that follows a
/// raise seen during the session.
#[derive(Debug, Clone, Copy, PartialEq, Eq, Structural)]
pub struct SessionWatch {
    pub raised: bool,
}

impl SessionWatch {
    /// A watch at the start of a session: no raise seen yet.
    pub fn new() -> (r: Self)
        ensures
            !r.raised,
    {
        SessionWatch { raised: false }
    }

    /// Takes the flag's current value after a change; returns whether the
    /// session must end.
    pub fn observe(&mut self, enabled: bool) -> (r: bool)
        ensures
            r == (old(self).raised && !enabled),
            final(self).raised == (old(self).raised || enabled),
    {
        let ends = self.raised && !enabled;
        self.raised = self.raised || enabled;
        ends
    }

    /// Reads the flag's current value after a change notification; returns
    /// whether the session must end. A flag never written changes nothing.
    pub fn observe_flag(&mut self, flag: &AdvertisingFlag) -> (r: bool)
        ensures
            match flag_value(*flag) {
                Some(enabled) => {
                    &&& r == (old(self).raised && !enabled)
                    &&& final(self).raised == (old(self).raised || enabled)
                },
                None => !r && *final(self) == *old(self),
            },
    {
        match flag.try_get() {
            Some(enabled) => self.observe(enabled),
            None => false,
        }
    }
}

} // verus!
