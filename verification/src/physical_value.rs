//! The integer-valued reading model.
//!
//! To avoid float handling, sensor values are integers; a fixed base-10
//! scaling exponent provided separately (see
//! [`ReadingAxis`](crate::sensor::ReadingAxis)) converts an integer reading
//! into its physical quantity.

use vstd::prelude::*;

verus! {

/// Accuracy of a [`PhysicalValue`].
///
/// The accuracy is either unknown, zero, or a symmetrical deviation around a
/// bias, with its own base-10 scaling exponent — all integers, so that no
/// floating point is required at this layer.
#[derive(Debug, Copy, Clone, PartialEq, Eq, Structural)]
#[non_exhaustive]
pub enum AccuracyError {
    /// The accuracy is unknown.
    Unknown,
    /// The value carries no accuracy error.
    NoError,
    /// Symmetrical accuracy error around `bias`, of magnitude `deviation`,
    /// both scaled by `10^scaling`.
    Symmetrical { deviation: i32, bias: i32, scaling: i8 },
}

/// One value obtained from a sensor, as a scaled integer plus its accuracy.
#[derive(Debug, Copy, Clone, PartialEq, Eq, Structural)]
pub struct PhysicalValue {
    /// The raw integer value; its base-10 scaling exponent is provided by the
    /// driver's matching [`ReadingAxis`](crate::sensor::ReadingAxis).
    pub value: i32,
    /// Accuracy of the value.
    pub error: AccuracyError,
}

impl PhysicalValue {
    /// Creates a new value from the raw integer and its accuracy.
    pub fn new(value: i32, error: AccuracyError) -> (r: Self)
        ensures
            r == (PhysicalValue { value, error }),
    {
        PhysicalValue { value, error }
    }

    /// Returns the raw integer value.
    pub fn value(&self) -> (r: i32)
        ensures
            r == self.value,
    {
        self.value
    }

    /// Returns the accuracy of the value.
    pub fn error(&self) -> (r: AccuracyError)
        ensures
            r == self.error,
    {
        self.error
    }
}

} // verus!
