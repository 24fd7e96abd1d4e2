use std::collections::HashMap;

use riot_rs::hwsetup::buses;
use riot_rs::hwsetup::Buses;
use riot_rs::hwsetup::Conditioned;
use riot_rs::hwsetup::HwSetup;
use riot_rs::hwsetup::I2cBus;
use riot_rs::hwsetup::I2cFrequency;
use riot_rs::hwsetup::I2cPin;
use riot_rs::hwsetup::Input;
use riot_rs::hwsetup::Output;
use riot_rs::hwsetup::Peripheral;
use riot_rs::hwsetup::Peripherals;
use riot_rs::hwsetup::PullResistor;
use riot_rs::hwsetup::Sensor;
use riot_rs::hwsetup::SensorBus;
use riot_rs::hwsetup::SensorBusI2c;

fn sample_i2c_bus() -> I2cBus {
    let sda = vec![I2cPin::new("P0.31".to_string(), true, None, None)];
    let scl = vec![I2cPin::new(
        "P0.30".to_string(),
        false,
        Some("context-a".to_string()),
        None,
    )];
    I2cBus::new(
        "TWISPI0".to_string(),
        None,
        Some("feature-x".to_string()),
        sda,
        scl,
        I2cFrequency::K100,
    )
}

#[test]
fn i2c_bus_accessors() {
    let bus = sample_i2c_bus();
    assert_eq!(bus.sda().len(), 1);
    assert_eq!(bus.sda()[0].pin(), "P0.31");
    assert!(bus.sda()[0].pull_up());
    assert_eq!(bus.scl()[0].pin(), "P0.30");
    assert!(!bus.scl()[0].pull_up());
    assert_eq!(bus.frequency(), I2cFrequency::K100);
    assert_eq!(bus.on(), None);
    assert_eq!(bus.when(), Some("feature-x"));
    assert_eq!(bus.scl()[0].on(), Some("context-a"));
    assert_eq!(bus.scl()[0].when(), None);
}

#[test]
fn hwsetup_holds_buses_and_sensors() {
    let buses = Buses::new(vec![sample_i2c_bus()]);
    let sensor = Sensor::new(
        "temp-indoor".to_string(),
        "generic-temp".to_string(),
        None,
        None,
        Some(SensorBus::I2c(vec![SensorBusI2c::new(None, "TWISPI0".to_string())])),
        None,
    );
    assert_eq!(sensor.name(), "temp-indoor");
    assert_eq!(sensor.driver(), "generic-temp");
    assert_eq!(sensor.on(), None);
    assert_eq!(sensor.when(), None);
    assert!(sensor.bus().is_some());
    assert!(sensor.peripherals().is_none());

    let setup = HwSetup::new(buses, vec![sensor]);
    assert_eq!(setup.buses().i2c().len(), 1);
    assert_eq!(setup.sensors().len(), 1);
    assert_eq!(setup.sensors()[0].driver(), "generic-temp");
}

#[test]
fn peripherals_inputs_filters_inputs() {
    let input_a = Input::new("P1.00".to_string(), None, None, PullResistor::Up);
    let output = Output::new("P1.01".to_string(), None);
    let input_b = Input::new("P1.02".to_string(), None, None, PullResistor::NoPull);
    let peripherals = Peripherals::new(vec![
        Peripheral::Input(input_a),
        Peripheral::Output(output),
        Peripheral::Input(input_b),
    ]);
    assert_eq!(peripherals.get().len(), 3);
    let inputs = peripherals.inputs();
    assert_eq!(inputs.len(), 2);
    assert_eq!(inputs[0].pin(), "P1.00");
    assert_eq!(inputs[0].pull(), PullResistor::Up);
    assert_eq!(inputs[1].pin(), "P1.02");
    assert_eq!(inputs[1].pull(), PullResistor::NoPull);
}

#[test]
fn buses_module_i2c_and_spi() {
    let mut i2c_peripheral = HashMap::new();
    i2c_peripheral.insert(
        "nrf52840dk".to_string(),
        buses::i2c::BusPeripheral::new(
            None,
            None,
            vec![buses::i2c::Pin::new("P0.31".to_string(), true, None, None)],
            vec![buses::i2c::Pin::new("P0.30".to_string(), true, None, None)],
            buses::i2c::Frequency::K400,
        ),
    );
    let i2c_bus = buses::i2c::Bus::new("sensors-i2c".to_string(), i2c_peripheral);
    assert_eq!(i2c_bus.name(), "sensors-i2c");
    let peripheral = &i2c_bus.peripheral()["nrf52840dk"];
    assert_eq!(peripheral.sda()[0].pin(), "P0.31");
    assert!(peripheral.sda()[0].pull_up());
    assert_eq!(peripheral.frequency(), buses::i2c::Frequency::K400);
    assert_eq!(peripheral.on(), None);

    let mut spi_peripheral = HashMap::new();
    spi_peripheral.insert(
        "rp2040".to_string(),
        buses::spi::BusPeripheral::new(
            Some("context-b".to_string()),
            None,
            vec![buses::spi::Pin::new("PIN_18".to_string(), None, None)],
            vec![buses::spi::Pin::new("PIN_16".to_string(), None, None)],
            vec![buses::spi::Pin::new("PIN_19".to_string(), None, None)],
            buses::spi::Frequency::M8,
            buses::spi::Mode::Mode0,
            Some(buses::spi::BitOrder::MsbFirst),
        ),
    );
    let spi_bus = buses::spi::Bus::new("display-spi".to_string(), spi_peripheral);
    assert_eq!(spi_bus.name(), "display-spi");
    let peripheral = &spi_bus.peripheral()["rp2040"];
    assert_eq!(peripheral.sck()[0].pin(), "PIN_18");
    assert_eq!(peripheral.miso()[0].pin(), "PIN_16");
    assert_eq!(peripheral.mosi()[0].pin(), "PIN_19");
    assert_eq!(peripheral.frequency(), buses::spi::Frequency::M8);
    assert_eq!(peripheral.mode(), buses::spi::Mode::Mode0);
    assert_eq!(peripheral.bit_order(), Some(buses::spi::BitOrder::MsbFirst));
    assert_eq!(peripheral.on(), Some("context-b"));
    assert_eq!(peripheral.when(), None);

    let all = buses::Buses::new(vec![i2c_bus], vec![spi_bus]);
    assert_eq!(all.i2c().len(), 1);
    assert_eq!(all.spi().len(), 1);

    let empty = buses::Buses::default();
    assert!(empty.i2c().is_empty());
    assert!(empty.spi().is_empty());
}
