//! Labels disambiguating the values of a multi-value reading.

use vstd::prelude::*;

verus! {

/// Label attached to one axis of a sensor reading.
///
/// Allows to tell apart the values provided by a sensor driver returning
/// several values per reading.
#[derive(Debug, Copy, Clone, PartialEq, Eq, Structural)]
#[non_exhaustive]
pub enum Label {
    /// The main (or only) value of a reading.
    Main,
    /// X axis.
    X,
    /// Y axis.
    Y,
    /// Z axis.
    Z,
}

} // verus!
