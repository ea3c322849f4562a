//! The remote instruction channel: its wire format and the interface of a
//! peripheral that executes instructions.
use vstd::prelude::*;

verus! {

/// Why an instruction was refused.
#[derive(Debug, Clone, Copy, PartialEq, Eq, Structural)]
pub enum PerformFunctionError {
    /// The function code is reserved or unknown.
    WrongFunctionCode,
    /// The address names nothing on the active peripheral.
    IncorrectAddress,
    /// The value lies outside what a discrete actuator accepts.
    InvalidValue,
}

/// An instruction as written by the remote peer:
/// `[reserved, function_code, address, value]`.
pub type Instruction = [u8; 4];

/// The neutral instruction, written over the channel when a session ends so
/// that a stale command cannot be replayed.
pub const NEUTRAL_INSTRUCTION: Instruction = [0, 0, 0, 0];

/// A peripheral that executes addressed functions and reports a status `T`.
pub trait AddressablePeripheral<'a, T>: Sized {
    /// Whether the peripheral's state is consistent.
    spec fn wf(&self) -> bool;

    /// Whether `perform_function(function_code, address, value)`, called on
    /// `self`, may leave the peripheral as `after` and return `result`.
    spec fn performs(
        &self,
        function_code: u8,
        address: u8,
        value: u8,
        after: Self,
        result: Result<T, PerformFunctionError>,
    ) -> bool;

    fn perform_function(&mut self, function_code: u8, address: u8, value: u8) -> (r: Result<
        T,
        PerformFunctionError,
    >)
        requires
            old(self).wf(),
        ensures
            final(self).wf(),
            old(self).performs(function_code, address, value, *final(self), r),
    ;
}

} // verus!
