//! The sensor capability interface and its concurrency-safe support types.
//!
//! After triggering a measurement with [`Sensor::trigger_measurement()`], a
//! reading can be obtained using [`Sensor::wait_for_reading()`].
//! [`Sensor::reading_axes()`] indicates what physical value each value of the
//! obtained reading corresponds to, using a [`Label`], and provides the
//! base-10 scaling exponent of each value, so that no floating point is
//! needed at this layer.

use vstd::prelude::*;

use crate::category::Category;
use crate::label::Label;
use crate::physical_unit::PhysicalUnit;
use crate::physical_value::AccuracyError;
use crate::physical_value::PhysicalValue;

verus! {

/// Mode of a sensor driver.
#[derive(Debug, Copy, Clone, PartialEq, Eq, Structural)]
pub enum Mode {
    /// The sensor driver is disabled.
    Disabled,
    /// The sensor driver is enabled.
    Enabled,
    /// The sensor driver is sleeping.
    /// The sensor device may be in a low-power mode.
    Sleeping,
}

/// Error returned when attempting to set the mode of a sensor driver.
#[derive(Debug, PartialEq, Eq, Structural)]
pub enum ModeSettingError {
    /// The one-time hardware bring-up of the driver has not completed.
    Uninitialized,
}

/// State of a sensor driver.
///
/// The driver starts `Uninitialized` and leaves that state exactly once, via
/// a successful one-time hardware bring-up; it then cycles among the three
/// mode states and can never return to `Uninitialized`.
#[derive(Debug, Copy, Clone, PartialEq, Eq, Structural)]
pub enum State {
    /// The sensor driver is uninitialized.
    /// It has not been initialized yet, or initialization could not succeed.
    Uninitialized,
    /// The sensor driver is disabled.
    Disabled,
    /// The sensor driver is enabled.
    Enabled,
    /// The sensor driver is sleeping.
    Sleeping,
}

/// The byte encoding under which a [`State`] is stored atomically.
pub open spec fn state_code(s: State) -> u8 {
    match s {
        State::Uninitialized => 0,
        State::Disabled => 1,
        State::Enabled => 2,
        State::Sleeping => 3,
    }
}

/// The [`State`] encoded by a byte below 4.
pub open spec fn state_of_code(v: u8) -> State {
    if v == 0 {
        State::Uninitialized
    } else if v == 1 {
        State::Disabled
    } else if v == 2 {
        State::Enabled
    } else {
        State::Sleeping
    }
}

/// The [`State`] a sensor driver is in after it was put in a [`Mode`].
pub open spec fn state_of_mode(mode: Mode) -> State {
    match mode {
        Mode::Disabled => State::Disabled,
        Mode::Enabled => State::Enabled,
        Mode::Sleeping => State::Sleeping,
    }
}

impl State {
    /// Encodes the state as a byte, for atomic storage.
    pub fn to_u8(self) -> (r: u8)
        ensures
            r == state_code(self),
            r <= 3,
    {
        match self {
            State::Uninitialized => 0,
            State::Disabled => 1,
            State::Enabled => 2,
            State::Sleeping => 3,
        }
    }

    /// Decodes a stored byte back to a state.
    ///
    /// Fails exactly on bytes that no state encodes to (those above 3).
    pub fn try_from_u8(value: u8) -> (r: Result<State, TryFromIntError>)
        ensures
            value <= 3 <==> r is Ok,
            value <= 3 ==> r == Ok::<State, TryFromIntError>(state_of_code(value)),
            value > 3 ==> r == Err::<State, TryFromIntError>(TryFromIntError),
    {
        match value {
            0 => Ok(State::Uninitialized),
            1 => Ok(State::Disabled),
            2 => Ok(State::Enabled),
            3 => Ok(State::Sleeping),
            _ => Err(TryFromIntError),
        }
    }
}

impl Default for State {
    /// A sensor driver starts out uninitialized.
    fn default() -> (r: Self)
        ensures
            r == State::Uninitialized,
    {
        State::Uninitialized
    }
}

impl From<Mode> for State {
    fn from(mode: Mode) -> (r: Self) {
        match mode {
            Mode::Disabled => Self::Disabled,
            Mode::Enabled => Self::Enabled,
            Mode::Sleeping => Self::Sleeping,
        }
    }
}

impl vstd::std_specs::convert::FromSpecImpl<Mode> for State {
    open spec fn obeys_from_spec() -> bool {
        true
    }

    open spec fn from_spec(mode: Mode) -> State {
        state_of_mode(mode)
    }
}

/// No mode maps to the uninitialized state, so once a driver has left
/// [`State::Uninitialized`], no sequence of [`StateAtomic::set_mode`] calls
/// can ever bring it back: a successful transition always lands on the state
/// implied by the requested mode.
pub proof fn lemma_modes_never_reach_uninitialized(mode: Mode)
    ensures
        state_of_mode(mode) != State::Uninitialized,
{
}

/// Error returned when decoding a byte that encodes no [`State`].
#[derive(Debug, PartialEq, Eq, Structural)]
pub struct TryFromIntError;

/// A helper to store a [`State`] as a single byte, the form in which the
/// state is shared between task and interrupt context.
///
/// Intended for sensor driver implementors only. Decoding the stored byte
/// back to the enumeration never fails because only valid [`State`] values
/// are ever stored.
pub struct StateAtomic {
    state: u8,
}

impl StateAtomic {
    /// Only encodings of the four states are ever stored.
    pub closed spec fn wf(self) -> bool {
        self.state <= 3
    }
}

impl View for StateAtomic {
    type V = State;

    /// The state that the stored byte encodes (a byte that encodes no state,
    /// which this type never stores, reads as the uninitialized state).
    closed spec fn view(&self) -> State {
        if self.state <= 3 {
            state_of_code(self.state)
        } else {
            State::Uninitialized
        }
    }
}

impl StateAtomic {
    /// Creates a new [`StateAtomic`] holding the given state.
    pub fn new(state: State) -> (r: Self)
        ensures
            r.wf(),
            r@ == state,
    {
        Self { state: state.to_u8() }
    }

    /// Returns the current state.
    pub fn get(&self) -> (r: State)
        ensures
            r == self@,
    {
        match State::try_from_u8(self.state) {
            Ok(s) => s,
            Err(_) => State::Uninitialized,
        }
    }

    /// Sets the current state, unconditionally.
    ///
    /// Intended for the driver's own initialization path only.
    pub fn set(&mut self, state: State)
        ensures
            final(self).wf(),
            final(self)@ == state,
    {
        self.state = state.to_u8();
    }

    /// Sets the current mode, only if the current state is not
    /// [`State::Uninitialized`]: the uninitialized state blocks all mode transitions
    /// until hardware bring-up completes.
    ///
    /// Returns the new state on success, or [`State::Uninitialized`],
    /// unchanged, if the transition was blocked.
    pub fn set_mode(&mut self, mode: Mode) -> (r: State)
        ensures
            old(self)@ == State::Uninitialized ==> r == State::Uninitialized && *final(self)
                == *old(self),
            old(self)@ != State::Uninitialized ==> r == state_of_mode(mode) && final(self).wf()
                && final(self)@ == state_of_mode(mode),
    {
        if self.get() == State::Uninitialized {
            State::Uninitialized
        } else {
            let new_state = State::from(mode);
            self.state = new_state.to_u8();
            new_state
        }
    }
}

impl Default for StateAtomic {
    /// Starts out holding [`State::Uninitialized`].
    fn default() -> (r: Self)
        ensures
            r.wf(),
            r@ == State::Uninitialized,
    {
        Self::new(State::Uninitialized)
    }
}

/// Represents errors happening when *triggering* a sensor measurement.
#[derive(Debug, PartialEq, Eq, Structural)]
pub enum MeasurementError {
    /// The sensor driver is not enabled (e.g., it may be disabled or
    /// sleeping).
    NonEnabled,
}

impl MeasurementError {
    /// A human-readable description of the error.
    pub fn message(&self) -> (r: &'static str)
        ensures
            r@ == "sensor driver is not enabled"@,
    {
        "sensor driver is not enabled"
    }
}

/// Represents errors happening when accessing a sensor reading.
#[derive(Debug, PartialEq, Eq, Structural)]
pub enum ReadingError {
    /// The sensor driver is not enabled (e.g., it may be disabled or
    /// sleeping).
    NonEnabled,
    /// Cannot access the sensor device (e.g., because of a bus error).
    SensorAccess,
}

impl ReadingError {
    /// A human-readable description of the error.
    pub fn message(&self) -> (r: &'static str)
        ensures
            self is NonEnabled ==> r@ == "sensor driver is not enabled"@,
            self is SensorAccess ==> r@ == "sensor device could not be accessed"@,
    {
        match self {
            Self::NonEnabled => "sensor driver is not enabled",
            Self::SensorAccess => "sensor device could not be accessed",
        }
    }
}

/// A specialized [`Result`] type for reading operations.
pub type ReadingResult<R> = Result<R, ReadingError>;

/// The values of one reading, as a fixed-size tuple sized to the driver's
/// axis count, chosen at compile time per driver — no heap allocation and no
/// dynamically-sized collection.
#[derive(Debug, Copy, Clone, PartialEq)]
pub enum PhysicalValues {
    /// A single-value reading.
    V1([PhysicalValue; 1]),
    /// A two-value reading.
    V2([PhysicalValue; 2]),
    /// A three-value reading (e.g., a 3-axis accelerometer).
    V3([PhysicalValue; 3]),
}

impl PhysicalValues {
    /// The values of the reading, in axis order.
    pub open spec fn values(self) -> Seq<PhysicalValue> {
        match self {
            PhysicalValues::V1(a) => a@,
            PhysicalValues::V2(a) => a@,
            PhysicalValues::V3(a) => a@,
        }
    }

    /// Number of values in the reading.
    pub fn len(&self) -> (r: usize)
        ensures
            r == self.values().len(),
            1 <= r <= 3,
    {
        match self {
            PhysicalValues::V1(_) => 1,
            PhysicalValues::V2(_) => 2,
            PhysicalValues::V3(_) => 3,
        }
    }

    /// The `i`-th value of the reading.
    pub fn get(&self, i: usize) -> (r: PhysicalValue)
        requires
            i < self.values().len(),
        ensures
            r == self.values()[i as int],
    {
        match self {
            PhysicalValues::V1(a) => a[i],
            PhysicalValues::V2(a) => a[i],
            PhysicalValues::V3(a) => a[i],
        }
    }
}

/// Rule computing the accuracy error of a recently obtained
/// [`PhysicalValue`], returned by [`ReadingAxis::accuracy_fn()`].
///
/// Represented as data rather than as a function value, so that the axis
/// metadata stays a plain, comparable value; apply it with
/// [`AccuracyFn::of()`].
#[derive(Debug, Copy, Clone, PartialEq, Eq, Structural)]
#[non_exhaustive]
pub enum AccuracyFn {
    /// Every value of the axis carries the same accuracy.
    Constant(AccuracyError),
}

impl AccuracyFn {
    /// The accuracy error this rule assigns to a value.
    pub open spec fn of_spec(self, value: PhysicalValue) -> AccuracyError {
        match self {
            AccuracyFn::Constant(e) => e,
        }
    }

    /// Computes the accuracy error of a value obtained on this axis.
    pub fn of(&self, value: PhysicalValue) -> (r: AccuracyError)
        ensures
            r == self.of_spec(value),
    {
        match self {
            AccuracyFn::Constant(e) => *e,
        }
    }
}

/// Provides metadata about one [`PhysicalValue`] of a reading: its label,
/// its base-10 scaling exponent, its unit, and its accuracy function.
///
/// This metadata is fixed for the life of a driver, independent of any
/// specific reading.
#[derive(Debug, Copy, Clone)]
pub struct ReadingAxis {
    label: Label,
    scaling: i8,
    unit: PhysicalUnit,
    accuracy: AccuracyFn,
}

impl ReadingAxis {
    /// The label of the axis.
    pub closed spec fn label_spec(self) -> Label {
        self.label
    }

    /// The base-10 scaling exponent of the axis.
    pub closed spec fn scaling_spec(self) -> i8 {
        self.scaling
    }

    /// The unit of the axis.
    pub closed spec fn unit_spec(self) -> PhysicalUnit {
        self.unit
    }

    /// The accuracy function of the axis.
    pub closed spec fn accuracy_spec(self) -> AccuracyFn {
        self.accuracy
    }

    /// Creates a new [`ReadingAxis`].
    ///
    /// Intended for sensor driver implementors only.
    pub fn new(label: Label, scaling: i8, unit: PhysicalUnit, accuracy: AccuracyFn) -> (r: Self)
        ensures
            r.label_spec() == label,
            r.scaling_spec() == scaling,
            r.unit_spec() == unit,
            r.accuracy_spec() == accuracy,
    {
        Self { label, scaling, unit, accuracy }
    }

    /// Returns the [`Label`] for this axis.
    pub fn label(&self) -> (r: Label)
        ensures
            r == self.label_spec(),
    {
        self.label
    }

    /// Returns the scaling for this axis.
    pub fn scaling(&self) -> (r: i8)
        ensures
            r == self.scaling_spec(),
    {
        self.scaling
    }

    /// Returns the unit for this axis.
    pub fn unit(&self) -> (r: PhysicalUnit)
        ensures
            r == self.unit_spec(),
    {
        self.unit
    }

    /// Returns a function allowing to obtain the accuracy error of a recently
    /// obtained [`PhysicalValue`].
    ///
    /// As the accuracy may depend on the sensor driver configuration, that
    /// function should only be used for one [`PhysicalValue`] instance,
    /// obtained through an up-to-date [`ReadingAxis`].
    pub fn accuracy_fn(&self) -> (r: AccuracyFn)
        ensures
            r == self.accuracy_spec(),
    {
        self.accuracy
    }
}

/// Metadata about every value of a reading, in the same order as the values;
/// same fixed-arity shape as [`PhysicalValues`].
#[derive(Debug, Copy, Clone)]
pub enum ReadingAxes {
    /// Metadata of a single-value reading.
    V1([ReadingAxis; 1]),
    /// Metadata of a two-value reading.
    V2([ReadingAxis; 2]),
    /// Metadata of a three-value reading.
    V3([ReadingAxis; 3]),
}

impl ReadingAxes {
    /// The axes, in value order.
    pub open spec fn axes(self) -> Seq<ReadingAxis> {
        match self {
            ReadingAxes::V1(a) => a@,
            ReadingAxes::V2(a) => a@,
            ReadingAxes::V3(a) => a@,
        }
    }

    /// Number of axes.
    pub fn len(&self) -> (r: usize)
        ensures
            r == self.axes().len(),
            1 <= r <= 3,
    {
        match self {
            ReadingAxes::V1(_) => 1,
            ReadingAxes::V2(_) => 2,
            ReadingAxes::V3(_) => 3,
        }
    }

    /// The `i`-th axis.
    pub fn get(&self, i: usize) -> (r: ReadingAxis)
        requires
            i < self.axes().len(),
        ensures
            r == self.axes()[i as int],
    {
        match self {
            ReadingAxes::V1(a) => a[i],
            ReadingAxes::V2(a) => a[i],
            ReadingAxes::V3(a) => a[i],
        }
    }
}

/// The trigger/reading handshake between an application task asking for a
/// measurement and a sensor driver's background task performing it: a
/// one-shot wake signal carrying no payload, plus a single-slot overwritable
/// result channel.
///
/// At most one outstanding, not-yet-consumed reading result exists at any
/// time; triggering a new measurement discards any stale unread result first.
/// Intended for sensor driver implementors only; one instance is exclusively
/// owned by one sensor driver, with a single orchestrating task as consumer.
pub struct SensorSignaling {
    trigger: bool,
    reading: Option<ReadingResult<PhysicalValues>>,
}

impl SensorSignaling {
    /// Whether a trigger has been signaled and not yet consumed.
    pub closed spec fn trigger_spec(self) -> bool {
        self.trigger
    }

    /// The not-yet-consumed reading result, if one is pending.
    pub closed spec fn reading_spec(self) -> Option<ReadingResult<PhysicalValues>> {
        self.reading
    }

    /// The state after `trigger_measurement`: the wake signal is set and any
    /// stale reading is discarded.
    pub closed spec fn after_trigger(self) -> Self {
        SensorSignaling { trigger: true, reading: None }
    }

    /// The state after a result was signaled into the empty slot.
    pub closed spec fn after_signal(self, res: ReadingResult<PhysicalValues>) -> Self {
        SensorSignaling { reading: Some(res), ..self }
    }

    /// Creates a new handshake with no pending trigger and no pending result.
    pub fn new() -> (r: Self)
        ensures
            !r.trigger_spec(),
            r.reading_spec() is None,
    {
        Self { trigger: false, reading: None }
    }

    /// Removes the possibly lingering reading, then signals the one-shot
    /// wake. Non-blocking; signaling an already-signaled wake does not queue
    /// a second wakeup.
    pub fn trigger_measurement(&mut self)
        ensures
            *final(self) == old(self).after_trigger(),
            final(self).trigger_spec(),
            final(self).reading_spec() is None,
    {
        // remove the possibly lingering reading
        self.reading = None;
        self.trigger = true;
    }

    /// Consumes a pending trigger: returns whether the wake signal was set,
    /// clearing it. The driver's background task calls this; a `false`
    /// result models the task staying suspended.
    pub fn wait_for_trigger(&mut self) -> (r: bool)
        ensures
            r == old(self).trigger_spec(),
            !final(self).trigger_spec(),
            final(self).reading_spec() == old(self).reading_spec(),
    {
        let was_triggered = self.trigger;
        self.trigger = false;
        was_triggered
    }

    /// Pushes a successful reading into the single-slot result channel.
    ///
    /// Succeeds exactly when the slot is free; a `false` result means the
    /// previous result has not been drained yet, which models the producer
    /// staying suspended (backpressure via the capacity of one).
    pub fn signal_reading(&mut self, reading: PhysicalValues) -> (r: bool)
        ensures
            r == (old(self).reading_spec() is None),
            r ==> *final(self) == old(self).after_signal(Ok(reading)),
            r ==> final(self).reading_spec() == Some(Ok::<PhysicalValues, ReadingError>(reading))
                && final(self).trigger_spec() == old(self).trigger_spec(),
            !r ==> *final(self) == *old(self),
    {
        match self.reading {
            None => {
                self.reading = Some(Ok(reading));
                true
            },
            Some(_) => false,
        }
    }

    /// Pushes a failed reading outcome into the single-slot result channel;
    /// same backpressure behaviour as [`Self::signal_reading()`].
    pub fn signal_reading_err(&mut self, reading_err: ReadingError) -> (r: bool)
        ensures
            r == (old(self).reading_spec() is None),
            r ==> *final(self) == old(self).after_signal(Err(reading_err)),
            r ==> final(self).reading_spec() == Some(
                Err::<PhysicalValues, ReadingError>(reading_err),
            ) && final(self).trigger_spec() == old(self).trigger_spec(),
            !r ==> *final(self) == *old(self),
    {
        match self.reading {
            None => {
                self.reading = Some(Err(reading_err));
                true
            },
            Some(_) => false,
        }
    }

    /// Returns a waiter that resolves, exactly once, to the next signaled
    /// result (poll it with [`ReadingWaiter::poll()`]).
    pub fn wait_for_reading(&self) -> (r: ReadingWaiter)
        ensures
            r == ReadingWaiter::Waiter,
    {
        ReadingWaiter::Waiter
    }

    /// Takes the pending result out of the slot, if any.
    pub fn take_reading(&mut self) -> (r: Option<ReadingResult<PhysicalValues>>)
        ensures
            r == old(self).reading_spec(),
            final(self).reading_spec() is None,
            final(self).trigger_spec() == old(self).trigger_spec(),
    {
        self.reading.take()
    }
}

/// Signaling an already-signaled wake does not queue a second wakeup: only
/// one trigger is outstanding at a time, so triggering twice is the same as
/// triggering once.
pub proof fn lemma_trigger_idempotent(s: SensorSignaling)
    ensures
        s.after_trigger().after_trigger() == s.after_trigger(),
{
}

/// Triggering a new measurement discards any stale unread result: after a
/// result `a` was signaled, a trigger and a newly signaled result `b` leave
/// only `b` in the slot — a later read can never observe `a`.
pub proof fn lemma_trigger_discards_stale(
    s: SensorSignaling,
    a: ReadingResult<PhysicalValues>,
    b: ReadingResult<PhysicalValues>,
)
    ensures
        s.after_signal(a).after_trigger().reading_spec() is None,
        s.after_signal(a).after_trigger().after_signal(b).reading_spec() == Some(b),
{
}

/// Future-like value returned by [`Sensor::wait_for_reading()`]: the outcome
/// of a sensor read, either "wait on the result channel" or "fail
/// immediately", resolved at most once.
///
/// The immediate-error path lets a caller that is certain the sensor is
/// unavailable (e.g., disabled) fail without fabricating a fake channel
/// message, behind the same type as the real asynchronous wait path; moving
/// the error out on first poll avoids requiring `Clone` on the error type.
#[derive(Debug, PartialEq)]
pub enum ReadingWaiter {
    /// Waiting on the driver's result channel.
    Waiter,
    /// Failing immediately with this pre-determined error on first poll.
    ImmediateError(ReadingError),
    /// Terminal: the outcome was already delivered. Polling again is a
    /// contract violation.
    Resolved,
}

impl ReadingWaiter {
    /// Polls the waiter against the driver's handshake: `None` means still
    /// pending; `Some` delivers the outcome, exactly once, after which the
    /// waiter is `Resolved` and must not be polled again.
    pub fn poll(&mut self, signaling: &mut SensorSignaling) -> (r: Option<
        ReadingResult<PhysicalValues>,
    >)
        requires
            !(*old(self) is Resolved),
        ensures
            *old(self) is Waiter && old(signaling).reading_spec() is Some ==> {
                &&& r == old(signaling).reading_spec()
                &&& *final(self) == ReadingWaiter::Resolved
                &&& final(signaling).reading_spec() is None
                &&& final(signaling).trigger_spec() == old(signaling).trigger_spec()
            },
            *old(self) is Waiter && old(signaling).reading_spec() is None ==> {
                &&& r is None
                &&& *final(self) == *old(self)
                &&& *final(signaling) == *old(signaling)
            },
            *old(self) is ImmediateError ==> {
                &&& r == Some(Err::<PhysicalValues, ReadingError>(old(self)->ImmediateError_0))
                &&& *final(self) == ReadingWaiter::Resolved
                &&& *final(signaling) == *old(signaling)
            },
    {
        let mut prev = ReadingWaiter::Resolved;
        core::mem::swap(self, &mut prev);
        match prev {
            ReadingWaiter::Waiter => {
                match signaling.take_reading() {
                    Some(res) => Some(res),
                    None => {
                        *self = ReadingWaiter::Waiter;
                        None
                    },
                }
            },
            ReadingWaiter::ImmediateError(err) => Some(Err(err)),
            ReadingWaiter::Resolved => None,
        }
    }
}

/// Represents a sensor device; implemented on sensor drivers.
///
/// Every concrete driver satisfies this capability set; callers interact
/// with sensors only through it. An application task triggers a measurement
/// on every sensor of interest (fire-and-forget), then waits on each reading,
/// so that the hardware transactions happen concurrently.
pub trait Sensor {
    /// The driver's current lifecycle state, as specification-level data.
    spec fn state_spec(&self) -> State;

    /// Triggers a measurement and returns immediately.
    /// Clears the previous reading.
    ///
    /// # Errors
    ///
    /// Returns [`MeasurementError::NonEnabled`] if the sensor driver is not
    /// enabled.
    fn trigger_measurement(&mut self) -> (r: Result<(), MeasurementError>)
        ensures
            final(self).state_spec() == old(self).state_spec(),
            old(self).state_spec() == State::Enabled ==> r is Ok,
            old(self).state_spec() != State::Enabled ==> r == Err::<(), MeasurementError>(
                MeasurementError::NonEnabled,
            ),
    ;

    /// Returns a waiter for the triggered reading.
    /// Interpretation of the reading requires data from
    /// [`Sensor::reading_axes()`] as well.
    ///
    /// # Errors
    ///
    /// The waiter resolves to [`ReadingError::NonEnabled`] if the sensor
    /// driver is not enabled, and to [`ReadingError::SensorAccess`] if the
    /// sensor device cannot be accessed.
    fn wait_for_reading(&mut self) -> (r: ReadingWaiter)
        ensures
            final(self).state_spec() == old(self).state_spec(),
            old(self).state_spec() != State::Enabled ==> r == ReadingWaiter::ImmediateError(
                ReadingError::NonEnabled,
            ),
            old(self).state_spec() == State::Enabled ==> r == ReadingWaiter::Waiter,
    ;

    /// Provides information about the reading returned by
    /// [`Sensor::wait_for_reading()`].
    fn reading_axes(&self) -> ReadingAxes;

    /// Sets the sensor driver mode and returns the new state.
    /// Allows to put the sensor device to sleep if supported.
    ///
    /// # Errors
    ///
    /// Returns [`ModeSettingError::Uninitialized`] if the sensor driver is
    /// not initialized.
    fn set_mode(&mut self, mode: Mode) -> (r: Result<State, ModeSettingError>)
        ensures
            old(self).state_spec() == State::Uninitialized ==> r == Err::<State, ModeSettingError>(
                ModeSettingError::Uninitialized,
            ) && final(self).state_spec() == old(self).state_spec(),
            old(self).state_spec() != State::Uninitialized ==> r == Ok::<State, ModeSettingError>(
                state_of_mode(mode),
            ) && final(self).state_spec() == state_of_mode(mode),
    ;

    /// Returns the current sensor driver state.
    fn state(&self) -> (r: State)
        ensures
            r == self.state_spec(),
    ;

    /// Returns the categories the sensor device is part of.
    fn categories(&self) -> Vec<Category>;

    /// String label of the sensor driver *instance*, configured when setting
    /// up the instance (e.g., whether a temperature sensor is indoor or
    /// outdoor).
    fn label(&self) -> Option<&'static str>;

    /// Returns a human-readable name of the sensor driver, such as
    /// "push button" or "3-axis accelerometer".
    fn display_name(&self) -> Option<&'static str>;

    /// Returns the hardware sensor device part number, or `None` when the
    /// sensor device does not have one.
    fn part_number(&self) -> Option<&'static str>;

    /// Returns the sensor driver version number.
    fn version(&self) -> u8;
}

} // verus!
