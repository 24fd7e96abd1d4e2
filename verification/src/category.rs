//! Categories a sensor device can be part of.

use vstd::prelude::*;

verus! {

/// Categories a sensor can be part of.
///
/// A sensor can be part of multiple categories.
#[derive(Debug, Copy, Clone, PartialEq, Eq, Structural)]
#[non_exhaustive]
pub enum Category {
    /// Accelerometer.
    Accelerometer,
    /// Humidity sensor.
    Humidity,
    /// Humidity and temperature sensor.
    HumidityTemperature,
    /// Push button.
    PushButton,
    /// Temperature sensor.
    Temperature,
}

} // verus!
