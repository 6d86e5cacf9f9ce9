use vstd::prelude::*;
use crate::values::{HostCategory, HostValue, WasmType};

verus! {

/// Why a single argument could not be converted to a machine value.
#[derive(Debug, Clone, PartialEq, Eq)]
pub enum ConversionReason {
    /// The value was a number, but does not decode exactly at the
    /// expected numeric type's width and representation.
    NumericDecodeFailed { expected: WasmType },
    /// The pairing of expected type and observed category admits no
    /// conversion at all: a non-number value, or an expected type the
    /// bridge cannot marshal into.
    UnsupportedPairing { observed: HostCategory },
}

/// A per-argument conversion failure, with the 1-based position of
/// the offending argument.
#[derive(Debug, Clone, PartialEq, Eq)]
pub struct ConversionError {
    pub position: usize,
    pub reason: ConversionReason,
}

/// Every way a call through the bridge can fail. Nothing here is
/// fatal to the host: each variant is an ordinary, reportable value.
#[derive(Debug, Clone, PartialEq, Eq)]
pub enum CallError {
    /// No export of the given name exists.
    NotFound,
    /// The number of given values differs from the declared number of
    /// parameters.
    ArityMismatch,
    /// One argument could not be converted; the call never ran.
    Conversion(ConversionError),
    /// The virtual machine faulted while executing the call.
    RuntimeTrap(String),
    /// The call succeeded, but its result is a value the bridge
    /// cannot represent to the host.
    UnsupportedReturnType,
}

/// The successful outcome of a call: either a designated "no value"
/// marker for a function with no results, or the first result encoded
/// as a host value.
#[derive(Debug, Clone, PartialEq, Eq)]
pub enum CallOutcome {
    NoValue,
    Value(HostValue),
}

/// Failure to turn module bytes into a live instance.
#[derive(Debug, Clone, Copy, PartialEq, Eq)]
pub enum InstantiationError {
    CouldNotInstantiate,
}

} // verus!
