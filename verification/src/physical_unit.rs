//! Units of measurement for sensor readings.

use vstd::prelude::*;

verus! {

/// Unit of measurement of one axis of a sensor reading.
#[derive(Debug, Copy, Clone, PartialEq, Eq, Structural)]
#[non_exhaustive]
pub enum PhysicalUnit {
    /// Acceleration in g.
    AccelG,
    /// Logic value: 1 when active, 0 otherwise.
    ActiveOne,
    /// Temperature in degrees Celsius.
    Celsius,
}

} // verus!
