//! A hardware-abstraction and sensor-orchestration layer for embedded
//! microcontrollers: a wrapping ring-buffer index primitive, a lock-free-style
//! sensor lifecycle state machine, a trigger/reading handshake for
//! asynchronous measurements, and the sensor capability interface with its
//! typed reading model, plus the hardware-setup description data model.

pub mod rbi;
pub mod category;
pub mod label;
pub mod physical_unit;
pub mod physical_value;
pub mod sensor;
pub mod temp_sensor;
pub mod hwsetup;

pub use category::Category;
pub use label::Label;
pub use physical_unit::PhysicalUnit;
pub use sensor::Sensor;
