//! A temperature sensor driver built on the generic sensor machinery.
//!
//! The driver owns a [`StateAtomic`] lifecycle state and a
//! [`SensorSignaling`] handshake. The hardware bus transaction itself is an
//! external collaborator: the driver's background task obtains a raw sample
//! (or a bus error) and hands it to [`GenericTempSensor::service()`], which
//! performs every decision — consuming the trigger, mapping the bus outcome
//! to a reading, and delivering it through the single-slot channel.

use vstd::prelude::*;

use crate::category::Category;
use crate::label::Label;
use crate::physical_unit::PhysicalUnit;
use crate::physical_value::AccuracyError;
use crate::physical_value::PhysicalValue;
use crate::sensor::AccuracyFn;
use crate::sensor::MeasurementError;
use crate::sensor::Mode;
use crate::sensor::ModeSettingError;
use crate::sensor::PhysicalValues;
use crate::sensor::ReadingAxes;
use crate::sensor::ReadingAxis;
use crate::sensor::ReadingError;
use crate::sensor::ReadingResult;
use crate::sensor::ReadingWaiter;
use crate::sensor::Sensor;
use crate::sensor::SensorSignaling;
use crate::sensor::State;
use crate::sensor::StateAtomic;

verus! {

/// Error reported by the hardware bus when a transaction fails.
///
/// This layer does not distinguish transient bus contention from a permanent
/// wiring fault; any bus error surfaces as [`ReadingError::SensorAccess`].
#[derive(Debug, PartialEq, Eq, Structural)]
pub struct BusError;

/// The reading outcome that a raw bus sample maps to: a successful sample
/// becomes a single-value reading carrying the sample with no accuracy
/// error; a failed transaction becomes [`ReadingError::SensorAccess`].
pub open spec fn reading_of_sample(sample: Result<i32, BusError>) -> ReadingResult<
    PhysicalValues,
> {
    match sample {
        Ok(v) => Ok(
            PhysicalValues::V1(
                [PhysicalValue { value: v, error: AccuracyError::NoError }],
            ),
        ),
        Err(_) => Err(ReadingError::SensorAccess),
    }
}

/// A temperature sensor driver whose raw samples are integer hundredths of a
/// degree Celsius (base-10 scaling exponent -2), supplied by an external bus.
pub struct GenericTempSensor {
    state: StateAtomic,
    signaling: SensorSignaling,
    label: Option<&'static str>,
}

impl GenericTempSensor {
    /// The driver's lifecycle state.
    pub closed spec fn driver_state(self) -> State {
        self.state@
    }

    /// Whether a measurement trigger is pending for the background task.
    pub closed spec fn trigger_pending(self) -> bool {
        self.signaling.trigger_spec()
    }

    /// The not-yet-consumed reading result, if one is pending.
    pub closed spec fn pending_reading(self) -> Option<ReadingResult<PhysicalValues>> {
        self.signaling.reading_spec()
    }

    /// The configured instance label, if any.
    pub closed spec fn label_spec(self) -> Option<&'static str> {
        self.label
    }

    /// Creates a new driver instance, uninitialized and idle.
    pub fn new(label: Option<&'static str>) -> (r: Self)
        ensures
            r.driver_state() == State::Uninitialized,
            !r.trigger_pending(),
            r.pending_reading() is None,
            r.label_spec() == label,
    {
        Self {
            state: StateAtomic::new(State::Uninitialized),
            signaling: SensorSignaling::new(),
            label,
        }
    }

    /// One-time hardware bring-up: enables the driver if it was never
    /// initialized, and does nothing otherwise.
    pub fn init(&mut self)
        ensures
            old(self).driver_state() == State::Uninitialized ==> final(self).driver_state()
                == State::Enabled,
            old(self).driver_state() != State::Uninitialized ==> final(self).driver_state() == old(self).driver_state(),
            final(self).trigger_pending() == old(self).trigger_pending(),
            final(self).pending_reading() == old(self).pending_reading(),
    {
        if self.state.get() == State::Uninitialized {
            self.state.set(State::Enabled);
        }
    }

    /// One step of the driver's background task: if a trigger is pending,
    /// consumes it and delivers the outcome of the bus transaction — the
    /// mapped reading on success, [`ReadingError::SensorAccess`] on a bus
    /// error — through the single-slot channel. Returns whether a trigger
    /// was consumed. The driver state is never changed: a transient bus
    /// fault does not self-disable the driver.
    pub fn service(&mut self, sample: Result<i32, BusError>) -> (r: bool)
        ensures
            final(self).driver_state() == old(self).driver_state(),
            r == old(self).trigger_pending(),
            !final(self).trigger_pending(),
            !old(self).trigger_pending() ==> final(self).pending_reading() == old(self).pending_reading(),
            old(self).trigger_pending() && old(self).pending_reading() is None ==> final(self).pending_reading() == Some(reading_of_sample(sample)),
            old(self).trigger_pending() && old(self).pending_reading() is Some ==> final(self).pending_reading() == old(self).pending_reading(),
    {
        if self.signaling.wait_for_trigger() {
            match sample {
                Ok(v) => {
                    let values = PhysicalValues::V1(
                        [PhysicalValue::new(v, AccuracyError::NoError)],
                    );
                    self.signaling.signal_reading(values);
                },
                Err(_) => {
                    self.signaling.signal_reading_err(ReadingError::SensorAccess);
                },
            }
            true
        } else {
            false
        }
    }

    /// Polls a waiter obtained from [`Sensor::wait_for_reading()`] against
    /// this driver's handshake: `None` means still pending, `Some` delivers
    /// the outcome exactly once.
    pub fn poll_reading(&mut self, waiter: &mut ReadingWaiter) -> (r: Option<
        ReadingResult<PhysicalValues>,
    >)
        requires
            !(*old(waiter) is Resolved),
        ensures
            final(self).driver_state() == old(self).driver_state(),
            final(self).trigger_pending() == old(self).trigger_pending(),
            *old(waiter) is Waiter && old(self).pending_reading() is Some ==> {
                &&& r == old(self).pending_reading()
                &&& *final(waiter) == ReadingWaiter::Resolved
                &&& final(self).pending_reading() is None
            },
            *old(waiter) is Waiter && old(self).pending_reading() is None ==> {
                &&& r is None
                &&& *final(waiter) == *old(waiter)
                &&& final(self).pending_reading() == old(self).pending_reading()
            },
            *old(waiter) is ImmediateError ==> {
                &&& r == Some(Err::<PhysicalValues, ReadingError>(old(waiter)->ImmediateError_0))
                &&& *final(waiter) == ReadingWaiter::Resolved
                &&& final(self).pending_reading() == old(self).pending_reading()
            },
    {
        waiter.poll(&mut self.signaling)
    }
}

impl Sensor for GenericTempSensor {
    open spec fn state_spec(&self) -> State {
        self.driver_state()
    }

    fn trigger_measurement(&mut self) -> (r: Result<(), MeasurementError>)
        ensures
            old(self).driver_state() == State::Enabled ==> final(self).trigger_pending() && final(self).pending_reading() is None,
            old(self).driver_state() != State::Enabled ==> final(self).trigger_pending() == old(self).trigger_pending() && final(self).pending_reading() == old(self).pending_reading(),
    {
        if self.state.get() != State::Enabled {
            Err(MeasurementError::NonEnabled)
        } else {
            self.signaling.trigger_measurement();
            Ok(())
        }
    }

    fn wait_for_reading(&mut self) -> (r: ReadingWaiter)
        ensures
            final(self).trigger_pending() == old(self).trigger_pending(),
            final(self).pending_reading() == old(self).pending_reading(),
    {
        if self.state.get() != State::Enabled {
            ReadingWaiter::ImmediateError(ReadingError::NonEnabled)
        } else {
            self.signaling.wait_for_reading()
        }
    }

    /// A single axis: the main value, in hundredths of a degree Celsius.
    fn reading_axes(&self) -> (r: ReadingAxes)
        ensures
            r.axes().len() == 1,
            r.axes()[0].label_spec() == Label::Main,
            r.axes()[0].scaling_spec() == -2,
            r.axes()[0].unit_spec() == PhysicalUnit::Celsius,
            r.axes()[0].accuracy_spec() == AccuracyFn::Constant(AccuracyError::NoError),
    {
        ReadingAxes::V1(
            [
                ReadingAxis::new(
                    Label::Main,
                    -2,
                    PhysicalUnit::Celsius,
                    AccuracyFn::Constant(AccuracyError::NoError),
                ),
            ],
        )
    }

    fn set_mode(&mut self, mode: Mode) -> (r: Result<State, ModeSettingError>)
        ensures
            final(self).trigger_pending() == old(self).trigger_pending(),
            final(self).pending_reading() == old(self).pending_reading(),
    {
        let new_state = self.state.set_mode(mode);
        if new_state == State::Uninitialized {
            Err(ModeSettingError::Uninitialized)
        } else {
            Ok(new_state)
        }
    }

    fn state(&self) -> (r: State) {
        self.state.get()
    }

    fn categories(&self) -> (r: Vec<Category>)
        ensures
            r@ == seq![Category::Temperature],
    {
        let mut v: Vec<Category> = Vec::new();
        v.push(Category::Temperature);
        proof {
            assert(v@ =~= seq![Category::Temperature]);
        }
        v
    }

    fn label(&self) -> (r: Option<&'static str>)
        ensures
            r == self.label_spec(),
    {
        self.label
    }

    fn display_name(&self) -> (r: Option<&'static str>)
        ensures
            r matches Some(name) && name@ == "Temperature sensor"@,
    {
        Some("Temperature sensor")
    }

    fn part_number(&self) -> (r: Option<&'static str>)
        ensures
            r is None,
    {
        None
    }

    fn version(&self) -> (r: u8)
        ensures
            r == 0,
    {
        0
    }
}

/// Any successful reading this driver delivers has exactly as many values as
/// the driver advertises axes: one.
pub proof fn lemma_reading_matches_axes(sample: Result<i32, BusError>)
    ensures
        reading_of_sample(sample) matches Ok(values) ==> values.values().len() == 1,
{
}

} // verus!
