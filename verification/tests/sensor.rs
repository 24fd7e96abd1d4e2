use riot_rs::physical_value::AccuracyError;
use riot_rs::physical_value::PhysicalValue;
use riot_rs::sensor::AccuracyFn;
use riot_rs::sensor::Mode;
use riot_rs::sensor::PhysicalValues;
use riot_rs::sensor::ReadingAxis;
use riot_rs::sensor::ReadingError;
use riot_rs::sensor::MeasurementError;
use riot_rs::sensor::ReadingWaiter;
use riot_rs::sensor::SensorSignaling;
use riot_rs::sensor::State;
use riot_rs::sensor::StateAtomic;
use riot_rs::sensor::TryFromIntError;
use riot_rs::Label;
use riot_rs::PhysicalUnit;

#[test]
fn state_byte_round_trip() {
    for state in [State::Uninitialized, State::Disabled, State::Enabled, State::Sleeping] {
        assert_eq!(State::try_from_u8(state.to_u8()), Ok(state));
    }
    assert_eq!(State::try_from_u8(4), Err(TryFromIntError));
    assert_eq!(State::try_from_u8(255), Err(TryFromIntError));
    assert_eq!(State::default(), State::Uninitialized);
}

#[test]
fn state_from_mode() {
    assert_eq!(State::from(Mode::Disabled), State::Disabled);
    assert_eq!(State::from(Mode::Enabled), State::Enabled);
    assert_eq!(State::from(Mode::Sleeping), State::Sleeping);
}

#[test]
fn set_mode_blocked_while_uninitialized() {
    let mut state = StateAtomic::new(State::Uninitialized);
    assert_eq!(state.set_mode(Mode::Enabled), State::Uninitialized);
    assert_eq!(state.get(), State::Uninitialized);
    assert_eq!(state.set_mode(Mode::Sleeping), State::Uninitialized);
    assert_eq!(state.get(), State::Uninitialized);
}

#[test]
fn set_mode_succeeds_once_initialized() {
    let mut state = StateAtomic::new(State::Uninitialized);
    state.set(State::Enabled);
    assert_eq!(state.set_mode(Mode::Sleeping), State::Sleeping);
    assert_eq!(state.get(), State::Sleeping);
    assert_eq!(state.set_mode(Mode::Disabled), State::Disabled);
    assert_eq!(state.get(), State::Disabled);
    assert_eq!(state.set_mode(Mode::Enabled), State::Enabled);
    assert_eq!(state.get(), State::Enabled);
}

fn one_value(v: i32) -> PhysicalValues {
    PhysicalValues::V1([PhysicalValue::new(v, AccuracyError::NoError)])
}

#[test]
fn signaling_delivers_reading() {
    let mut signaling = SensorSignaling::new();
    signaling.trigger_measurement();
    assert!(signaling.wait_for_trigger());
    assert!(signaling.signal_reading(one_value(7)));
    let mut waiter = signaling.wait_for_reading();
    assert_eq!(waiter.poll(&mut signaling), Some(Ok(one_value(7))));
    assert_eq!(waiter, ReadingWaiter::Resolved);
}

#[test]
fn signaling_trigger_discards_stale_reading() {
    let mut signaling = SensorSignaling::new();
    signaling.trigger_measurement();
    assert!(signaling.wait_for_trigger());
    assert!(signaling.signal_reading(one_value(1)));

    // a second trigger before the first reading is consumed discards it
    signaling.trigger_measurement();
    assert!(signaling.wait_for_trigger());
    assert!(signaling.signal_reading(one_value(2)));

    let mut waiter = signaling.wait_for_reading();
    assert_eq!(waiter.poll(&mut signaling), Some(Ok(one_value(2))));
}

#[test]
fn signaling_single_slot_backpressure() {
    let mut signaling = SensorSignaling::new();
    assert!(signaling.signal_reading(one_value(1)));
    // the slot is full until the reading is drained
    assert!(!signaling.signal_reading(one_value(2)));
    assert!(!signaling.signal_reading_err(ReadingError::SensorAccess));
    let mut waiter = signaling.wait_for_reading();
    assert_eq!(waiter.poll(&mut signaling), Some(Ok(one_value(1))));
    assert!(signaling.signal_reading(one_value(2)));
}

#[test]
fn signaling_wait_pending_until_signaled() {
    let mut signaling = SensorSignaling::new();
    signaling.trigger_measurement();
    let mut waiter = signaling.wait_for_reading();
    assert_eq!(waiter.poll(&mut signaling), None);
    assert_eq!(waiter, ReadingWaiter::Waiter);
    assert!(signaling.wait_for_trigger());
    assert!(signaling.signal_reading_err(ReadingError::SensorAccess));
    assert_eq!(waiter.poll(&mut signaling), Some(Err(ReadingError::SensorAccess)));
}

#[test]
fn waiter_immediate_error_resolves_once() {
    let mut signaling = SensorSignaling::new();
    let mut waiter = ReadingWaiter::ImmediateError(ReadingError::NonEnabled);
    assert_eq!(waiter.poll(&mut signaling), Some(Err(ReadingError::NonEnabled)));
    assert_eq!(waiter, ReadingWaiter::Resolved);
}

#[test]
fn physical_values_shapes() {
    let v1 = one_value(5);
    assert_eq!(v1.len(), 1);
    assert_eq!(v1.get(0).value(), 5);
    assert_eq!(v1.get(0).error(), AccuracyError::NoError);

    let a = PhysicalValue::new(-3, AccuracyError::Unknown);
    let b = PhysicalValue::new(4, AccuracyError::Symmetrical { deviation: 2, bias: 0, scaling: -1 });
    let v2 = PhysicalValues::V2([a, b]);
    assert_eq!(v2.len(), 2);
    assert_eq!(v2.get(1), b);

    let v3 = PhysicalValues::V3([a, b, a]);
    assert_eq!(v3.len(), 3);
    assert_eq!(v3.get(2), a);
}

#[test]
fn reading_axis_metadata() {
    let axis = ReadingAxis::new(
        Label::X,
        -2,
        PhysicalUnit::AccelG,
        AccuracyFn::Constant(AccuracyError::Unknown),
    );
    assert_eq!(axis.label(), Label::X);
    assert_eq!(axis.scaling(), -2);
    assert_eq!(axis.unit(), PhysicalUnit::AccelG);
    let accuracy = axis.accuracy_fn();
    assert_eq!(
        accuracy.of(PhysicalValue::new(100, AccuracyError::NoError)),
        AccuracyError::Unknown,
    );
}

#[test]
fn error_messages() {
    assert_eq!(MeasurementError::NonEnabled.message(), "sensor driver is not enabled");
    assert_eq!(ReadingError::NonEnabled.message(), "sensor driver is not enabled");
    assert_eq!(ReadingError::SensorAccess.message(), "sensor device could not be accessed");
}
