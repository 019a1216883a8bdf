//! The failure taxonomy shared by every operation: transport failures,
//! correlation failures, firmware-reported failures, precondition
//! failures raised before any exchange, and wire-decoding failures.

use vstd::prelude::*;

use crate::types::{CpuBoost, FanMode, GpuBoost, PerfMode};

verus! {

/// The device-mode requirement that a precondition check found violated.
#[derive(Clone, Copy, Debug, PartialEq, Eq, Structural)]
pub enum ModeRequirement {
    /// The performance mode must be `Balanced` (any fan mode).
    BalancedPerf,
    /// The performance mode must be `Custom` (any fan mode).
    CustomPerf,
    /// The mode pair must be exactly `(Balanced, Manual)`.
    BalancedManual,
    /// The mode pair must be exactly `(Custom, Auto)`.
    CustomAuto,
}

/// Everything that can go wrong in one operation.  No variant is ever
/// retried inside the library; each one propagates to the caller.
#[derive(Clone, Copy, Debug, PartialEq, Eq, Structural)]
pub enum Error {
    /// The transport could not complete the exchange.
    Io,
    /// The response's command class, command id, or correlation id does
    /// not match the request: the frame answers some other request.
    CorrelationMismatch,
    /// The response's remaining-packets field does not match the request
    /// and the command is not one of the two carved-out queries.
    RemainingPacketsMismatch,
    /// The firmware explicitly rejected the command.
    CommandNotSupported,
    /// The firmware answered with a status byte that is neither success
    /// nor not-supported; the raw byte is kept for diagnostics.
    UnknownStatus(u8),
    /// The response does not begin with the argument bytes that were
    /// sent, although the command expects that echo.
    EchoMismatch,
    /// A response that reports a read-only value does not carry the
    /// expected discriminant byte at the checked index.
    DiscriminantMismatch(u8),
    /// A byte buffer of the wrong length was handed to the frame decoder.
    WrongSize,
    /// A response byte does not decode to any variant of the expected
    /// value object.
    InvalidWireValue(u8),
    /// The two zones reported different mode pairs: the device is in an
    /// inconsistent state.
    ModesMismatch,
    /// A write was refused before any exchange because the device is not
    /// in the mode the firmware requires for it.
    ModePrecondition { required: ModeRequirement, actual_perf: PerfMode, actual_fan: FanMode },
    /// The max-fan-speed write was refused because the CPU boost level
    /// read back from the device is below the stricter precondition.
    CpuBoostPrecondition { actual_cpu: CpuBoost },
    /// The max-fan-speed write was refused because the GPU boost level
    /// read back from the device is below the stricter precondition.
    GpuBoostPrecondition { actual_gpu: GpuBoost },
    /// A manual fan mode was requested together with a performance mode
    /// other than `Balanced`.
    ManualFanRequiresBalanced,
    /// The requested fan speed lies outside the supported band.
    RpmOutOfRange { rpm: u16 },
    /// `Off` is not a stored logo animation mode and cannot be written
    /// through the mode sub-command.
    InvalidLogoMode,
}

} // verus!
