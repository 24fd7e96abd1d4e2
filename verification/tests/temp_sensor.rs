use riot_rs::physical_value::AccuracyError;
use riot_rs::physical_value::PhysicalValue;
use riot_rs::sensor::MeasurementError;
use riot_rs::sensor::Mode;
use riot_rs::sensor::ModeSettingError;
use riot_rs::sensor::PhysicalValues;
use riot_rs::sensor::ReadingError;
use riot_rs::sensor::State;
use riot_rs::temp_sensor::BusError;
use riot_rs::temp_sensor::GenericTempSensor;
use riot_rs::Category;
use riot_rs::Label;
use riot_rs::PhysicalUnit;
use riot_rs::Sensor;

#[test]
fn successful_measurement_end_to_end() {
    let mut driver = GenericTempSensor::new(Some("board"));
    assert_eq!(driver.state(), State::Uninitialized);

    driver.init();
    assert_eq!(driver.state(), State::Enabled);

    assert_eq!(driver.trigger_measurement(), Ok(()));

    // the background task observes the trigger and performs the bus read
    assert!(driver.service(Ok(2225)));

    let mut waiter = driver.wait_for_reading();
    let reading = driver.poll_reading(&mut waiter);
    let expected = PhysicalValues::V1([PhysicalValue::new(2225, AccuracyError::NoError)]);
    assert_eq!(reading, Some(Ok(expected)));

    // the reading decodes to 22.25 degrees Celsius
    let axes = driver.reading_axes();
    assert_eq!(axes.len(), 1);
    let axis = axes.get(0);
    assert_eq!(axis.label(), Label::Main);
    assert_eq!(axis.scaling(), -2);
    assert_eq!(axis.unit(), PhysicalUnit::Celsius);
    let value = match reading {
        Some(Ok(values)) => values.get(0).value(),
        _ => panic!("expected a successful reading"),
    };
    let decoded = f64::from(value) * 10f64.powi(i32::from(axis.scaling()));
    assert!((decoded - 22.25).abs() < 1e-9);
}

#[test]
fn disabled_driver_rejects_trigger() {
    let mut driver = GenericTempSensor::new(None);
    driver.init();
    assert_eq!(driver.set_mode(Mode::Disabled), Ok(State::Disabled));
    assert_eq!(driver.state(), State::Disabled);

    assert_eq!(driver.trigger_measurement(), Err(MeasurementError::NonEnabled));
    // the hardware layer was never reached: no trigger is pending
    assert!(!driver.service(Ok(2225)));
}

#[test]
fn bus_fault_surfaces_as_sensor_access() {
    let mut driver = GenericTempSensor::new(None);
    driver.init();
    assert_eq!(driver.trigger_measurement(), Ok(()));

    // the bus transaction fails
    assert!(driver.service(Err(BusError)));

    let mut waiter = driver.wait_for_reading();
    assert_eq!(driver.poll_reading(&mut waiter), Some(Err(ReadingError::SensorAccess)));

    // a transient fault does not self-disable the driver
    assert_eq!(driver.state(), State::Enabled);
    assert_eq!(driver.trigger_measurement(), Ok(()));
}

#[test]
fn waiting_while_disabled_fails_immediately() {
    let mut driver = GenericTempSensor::new(None);
    driver.init();
    assert_eq!(driver.set_mode(Mode::Sleeping), Ok(State::Sleeping));
    let mut waiter = driver.wait_for_reading();
    assert_eq!(driver.poll_reading(&mut waiter), Some(Err(ReadingError::NonEnabled)));
}

#[test]
fn set_mode_requires_initialization() {
    let mut driver = GenericTempSensor::new(None);
    assert_eq!(driver.set_mode(Mode::Enabled), Err(ModeSettingError::Uninitialized));
    assert_eq!(driver.state(), State::Uninitialized);
}

#[test]
fn descriptive_accessors() {
    let driver = GenericTempSensor::new(Some("outdoor"));
    assert_eq!(driver.label(), Some("outdoor"));
    assert_eq!(driver.display_name(), Some("Temperature sensor"));
    assert_eq!(driver.part_number(), None);
    assert_eq!(driver.version(), 0);
    assert_eq!(driver.categories(), vec![Category::Temperature]);
}

#[test]
fn second_trigger_discards_unread_result() {
    let mut driver = GenericTempSensor::new(None);
    driver.init();

    assert_eq!(driver.trigger_measurement(), Ok(()));
    assert!(driver.service(Ok(100)));

    // trigger again without reading: the stale result is discarded
    assert_eq!(driver.trigger_measurement(), Ok(()));
    assert!(driver.service(Ok(200)));

    let mut waiter = driver.wait_for_reading();
    let expected = PhysicalValues::V1([PhysicalValue::new(200, AccuracyError::NoError)]);
    assert_eq!(driver.poll_reading(&mut waiter), Some(Ok(expected)));
}
