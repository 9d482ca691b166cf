//! The command vocabulary shared by the host and the device.

use vstd::prelude::*;

verus! {

/// A command exchanged between the host and the throttle peripheral.
///
/// `Throttle` carries the commanded position as the IEEE 754 bit pattern of a
/// single-precision percentage in `[0.0, 100.0]`; out-of-range values are
/// accepted and mapped all the same.  `Nop` is the empty acknowledgement
/// sentinel.
#[derive(Clone, Copy, Debug, PartialEq, Eq, Structural)]
pub enum Command {
    /// Liveness probe carrying an opaque token.
    Ping(u32),
    /// Liveness reply carrying the same token.
    Pong(u32),
    /// Set the actuator position; the payload is the bit pattern of an
    /// IEEE 754 single-precision percentage.
    Throttle(u32),
    /// Reserved toggle; accepted but not acted on.
    AutoPilot(bool),
    /// Empty acknowledgement.
    Nop,
}

/// An error the device reports back to the host.
#[derive(Clone, Copy, Debug, PartialEq, Eq, Structural)]
pub enum DeviceError {
    /// The command was recognized but cannot be carried out on this hardware.
    NotSupported,
    /// The incoming payload did not decode to a known command.
    UnknownCommand,
}

/// The entity exchanged over the wire from device to host: a command reply
/// (`Accepted`) or a device-reported error (`Rejected`).  A bare `Command` is
/// never transmitted standalone in that direction.  The type is isomorphic to
/// the standard success/failure result and converts losslessly both ways.
#[derive(Clone, Copy, Debug, PartialEq, Eq, Structural)]
pub enum DeviceResult {
    Accepted(Command),
    Rejected(DeviceError),
}

impl DeviceResult {
    /// The success/failure result this value stands for.
    pub open spec fn spec_as_result(self) -> Result<Command, DeviceError> {
        match self {
            DeviceResult::Accepted(c) => Result::Ok(c),
            DeviceResult::Rejected(e) => Result::Err(e),
        }
    }

    /// Convert into the standard success/failure result type (lossless).
    pub fn into_result(self) -> (r: Result<Command, DeviceError>)
        ensures
            r == self.spec_as_result(),
    {
        match self {
            DeviceResult::Accepted(c) => Result::Ok(c),
            DeviceResult::Rejected(e) => Result::Err(e),
        }
    }

    /// Convert from the standard success/failure result type (lossless, the
    /// inverse of `into_result`).
    pub fn from_result(r: Result<Command, DeviceError>) -> (d: DeviceResult)
        ensures
            d.spec_as_result() == r,
    {
        match r {
            Result::Ok(c) => DeviceResult::Accepted(c),
            Result::Err(e) => DeviceResult::Rejected(e),
        }
    }
}

impl From<Result<Command, DeviceError>> for DeviceResult {
    /// Wrap a success/failure result for the wire (lossless).
    fn from(value: Result<Command, DeviceError>) -> (d: DeviceResult) {
        match value {
            Result::Ok(c) => DeviceResult::Accepted(c),
            Result::Err(e) => DeviceResult::Rejected(e),
        }
    }
}

impl vstd::std_specs::convert::FromSpecImpl<Result<Command, DeviceError>> for DeviceResult {
    open spec fn obeys_from_spec() -> bool {
        true
    }

    open spec fn from_spec(value: Result<Command, DeviceError>) -> DeviceResult {
        match value {
            Result::Ok(c) => DeviceResult::Accepted(c),
            Result::Err(e) => DeviceResult::Rejected(e),
        }
    }
}

impl From<DeviceResult> for Result<Command, DeviceError> {
    /// Unwrap a wire result into the standard result type (lossless, the
    /// inverse of the wrapping conversion).
    fn from(value: DeviceResult) -> (r: Result<Command, DeviceError>) {
        match value {
            DeviceResult::Accepted(c) => Result::Ok(c),
            DeviceResult::Rejected(e) => Result::Err(e),
        }
    }
}

impl vstd::std_specs::convert::FromSpecImpl<DeviceResult> for Result<Command, DeviceError> {
    open spec fn obeys_from_spec() -> bool {
        true
    }

    open spec fn from_spec(value: DeviceResult) -> Result<Command, DeviceError> {
        value.spec_as_result()
    }
}

/// The two conversions between `DeviceResult` and the standard result type
/// are mutually inverse: converting either way and back yields the value one
/// started from.
pub proof fn lemma_result_conversion_roundtrip(d: DeviceResult, r: Result<Command, DeviceError>)
    ensures
        match d.spec_as_result() {
            Result::Ok(c) => d == DeviceResult::Accepted(c),
            Result::Err(e) => d == DeviceResult::Rejected(e),
        },
        (match r {
            Result::Ok(c) => DeviceResult::Accepted(c),
            Result::Err(e) => DeviceResult::Rejected(e),
        }).spec_as_result() == r,
{
}

} // verus!
