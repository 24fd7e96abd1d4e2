//! The hardware setup defined in a configuration file, as plain data.
//!
//! The types here describe the buses, sensors and peripherals a board
//! provides. Reading and parsing the configuration file itself is I/O and
//! lives outside this library; these types hold the parsed result.

use vstd::prelude::*;

pub mod buses;

verus! {

/// An item of the hardware setup that may be conditional on a
/// configuration predicate (`on`) or a feature condition (`when`).
pub trait Conditioned {
    /// The configuration predicate under which the item applies, if any.
    spec fn on_spec(&self) -> Option<Seq<char>>;

    /// The feature condition under which the item applies, if any.
    spec fn when_spec(&self) -> Option<Seq<char>>;

    /// The configuration predicate under which the item applies, if any.
    fn on(&self) -> (r: Option<&str>)
        ensures
            r is Some <==> self.on_spec() is Some,
            r matches Some(s) ==> self.on_spec() == Some(s@),
    ;

    /// The feature condition under which the item applies, if any.
    fn when(&self) -> (r: Option<&str>)
        ensures
            r is Some <==> self.when_spec() is Some,
            r matches Some(s) ==> self.when_spec() == Some(s@),
    ;
}

/// Errors reading the hardware setup.
#[derive(Debug, PartialEq, Eq, Structural)]
pub enum Error {
    /// The configuration file was not found.
    ConfigNotFound,
    /// The configuration file could not be parsed.
    YamlError,
}

/// Frequency of an I2C bus.
#[derive(Debug, Copy, Clone, PartialEq, Eq, Structural)]
pub enum I2cFrequency {
    /// 100 kHz.
    K100,
    /// 250 kHz.
    K250,
    /// 400 kHz.
    K400,
}

/// A pin of an I2C bus, possibly conditional.
#[derive(Debug, Clone)]
pub struct I2cPin {
    pin: String,
    pull_up: bool,
    on: Option<String>,
    when: Option<String>,
}

impl I2cPin {
    /// The pin name.
    pub closed spec fn pin_spec(self) -> Seq<char> {
        self.pin@
    }

    /// Whether the pin uses an internal pull-up resistor.
    pub closed spec fn pull_up_spec(self) -> bool {
        self.pull_up
    }

    /// Builds the description of one I2C pin.
    pub fn new(pin: String, pull_up: bool, on: Option<String>, when: Option<String>) -> (r: Self)
        ensures
            r.pin_spec() == pin@,
            r.pull_up_spec() == pull_up,
            r.on_spec() == (match on {
                Some(s) => Some(s@),
                None => None,
            }),
            r.when_spec() == (match when {
                Some(s) => Some(s@),
                None => None,
            }),
    {
        Self { pin, pull_up, on, when }
    }

    /// The pin name.
    pub fn pin(&self) -> (r: &str)
        ensures
            r@ == self.pin_spec(),
    {
        self.pin.as_str()
    }

    /// Whether the pin uses an internal pull-up resistor.
    pub fn pull_up(&self) -> (r: bool)
        ensures
            r == self.pull_up_spec(),
    {
        self.pull_up
    }
}

impl Conditioned for I2cPin {
    closed spec fn on_spec(&self) -> Option<Seq<char>> {
        match self.on {
            Some(s) => Some(s@),
            None => None,
        }
    }

    closed spec fn when_spec(&self) -> Option<Seq<char>> {
        match self.when {
            Some(s) => Some(s@),
            None => None,
        }
    }

    fn on(&self) -> (r: Option<&str>) {
        match &self.on {
            Some(s) => Some(s.as_str()),
            None => None,
        }
    }

    fn when(&self) -> (r: Option<&str>) {
        match &self.when {
            Some(s) => Some(s.as_str()),
            None => None,
        }
    }
}

/// An I2C bus instance of the board, possibly conditional.
#[derive(Debug)]
pub struct I2cBus {
    instance: String,
    on: Option<String>,
    when: Option<String>,
    sda: Vec<I2cPin>,
    scl: Vec<I2cPin>,
    frequency: I2cFrequency,
}

impl I2cBus {
    /// The peripheral instance driving the bus.
    pub closed spec fn instance_spec(self) -> Seq<char> {
        self.instance@
    }

    /// The candidate SDA pins.
    pub closed spec fn sda_spec(self) -> Seq<I2cPin> {
        self.sda@
    }

    /// The candidate SCL pins.
    pub closed spec fn scl_spec(self) -> Seq<I2cPin> {
        self.scl@
    }

    /// The bus frequency.
    pub closed spec fn frequency_spec(self) -> I2cFrequency {
        self.frequency
    }

    /// Builds the description of one I2C bus.
    pub fn new(
        instance: String,
        on: Option<String>,
        when: Option<String>,
        sda: Vec<I2cPin>,
        scl: Vec<I2cPin>,
        frequency: I2cFrequency,
    ) -> (r: Self)
        ensures
            r.instance_spec() == instance@,
            r.sda_spec() == sda@,
            r.scl_spec() == scl@,
            r.frequency_spec() == frequency,
            r.on_spec() == (match on {
                Some(s) => Some(s@),
                None => None,
            }),
            r.when_spec() == (match when {
                Some(s) => Some(s@),
                None => None,
            }),
    {
        Self { instance, on, when, sda, scl, frequency }
    }

    /// The candidate SDA pins.
    pub fn sda(&self) -> (r: &Vec<I2cPin>)
        ensures
            r@ == self.sda_spec(),
    {
        &self.sda
    }

    /// The candidate SCL pins.
    pub fn scl(&self) -> (r: &Vec<I2cPin>)
        ensures
            r@ == self.scl_spec(),
    {
        &self.scl
    }

    /// The bus frequency.
    pub fn frequency(&self) -> (r: I2cFrequency)
        ensures
            r == self.frequency_spec(),
    {
        self.frequency
    }
}

impl Conditioned for I2cBus {
    closed spec fn on_spec(&self) -> Option<Seq<char>> {
        match self.on {
            Some(s) => Some(s@),
            None => None,
        }
    }

    closed spec fn when_spec(&self) -> Option<Seq<char>> {
        match self.when {
            Some(s) => Some(s@),
            None => None,
        }
    }

    fn on(&self) -> (r: Option<&str>) {
        match &self.on {
            Some(s) => Some(s.as_str()),
            None => None,
        }
    }

    fn when(&self) -> (r: Option<&str>) {
        match &self.when {
            Some(s) => Some(s.as_str()),
            None => None,
        }
    }
}

/// The buses of the board's hardware setup.
#[derive(Debug)]
pub struct Buses {
    i2c: Vec<I2cBus>,
}

impl Buses {
    /// The I2C buses.
    pub closed spec fn i2c_spec(self) -> Seq<I2cBus> {
        self.i2c@
    }

    /// Builds the bus list.
    pub fn new(i2c: Vec<I2cBus>) -> (r: Self)
        ensures
            r.i2c_spec() == i2c@,
    {
        Self { i2c }
    }

    /// The I2C buses.
    pub fn i2c(&self) -> (r: &Vec<I2cBus>)
        ensures
            r@ == self.i2c_spec(),
    {
        &self.i2c
    }
}

/// Pull resistor configuration of an input pin.
#[derive(Debug, Copy, Clone, PartialEq, Eq, Structural)]
pub enum PullResistor {
    /// Pull-up resistor.
    Up,
    /// Pull-down resistor.
    Down,
    /// No pull resistor.
    NoPull,
}

/// An input pin used by a sensor, possibly conditional.
#[derive(Debug)]
pub struct Input {
    pin: String,
    on: Option<String>,
    when: Option<String>,
    pull: PullResistor,
}

impl Input {
    /// The pin name.
    pub closed spec fn pin_spec(self) -> Seq<char> {
        self.pin@
    }

    /// The pull resistor configuration.
    pub closed spec fn pull_spec(self) -> PullResistor {
        self.pull
    }

    /// Builds the description of one input pin.
    pub fn new(pin: String, on: Option<String>, when: Option<String>, pull: PullResistor) -> (r:
        Self)
        ensures
            r.pin_spec() == pin@,
            r.pull_spec() == pull,
            r.on_spec() == (match on {
                Some(s) => Some(s@),
                None => None,
            }),
            r.when_spec() == (match when {
                Some(s) => Some(s@),
                None => None,
            }),
    {
        Self { pin, on, when, pull }
    }

    /// The pin name.
    pub fn pin(&self) -> (r: &str)
        ensures
            r@ == self.pin_spec(),
    {
        self.pin.as_str()
    }

    /// The pull resistor configuration.
    pub fn pull(&self) -> (r: PullResistor)
        ensures
            r == self.pull_spec(),
    {
        self.pull
    }
}

impl Conditioned for Input {
    closed spec fn on_spec(&self) -> Option<Seq<char>> {
        match self.on {
            Some(s) => Some(s@),
            None => None,
        }
    }

    closed spec fn when_spec(&self) -> Option<Seq<char>> {
        match self.when {
            Some(s) => Some(s@),
            None => None,
        }
    }

    fn on(&self) -> (r: Option<&str>) {
        match &self.on {
            Some(s) => Some(s.as_str()),
            None => None,
        }
    }

    fn when(&self) -> (r: Option<&str>) {
        match &self.when {
            Some(s) => Some(s.as_str()),
            None => None,
        }
    }
}

/// An output pin used by a sensor, possibly conditional.
#[derive(Debug)]
pub struct Output {
    pin: String,
    on: Option<String>,
}

impl Output {
    /// The pin name.
    pub closed spec fn pin_spec(self) -> Seq<char> {
        self.pin@
    }

    /// The configuration predicate under which the pin applies, if any.
    pub closed spec fn on_spec(self) -> Option<Seq<char>> {
        match self.on {
            Some(s) => Some(s@),
            None => None,
        }
    }

    /// Builds the description of one output pin.
    pub fn new(pin: String, on: Option<String>) -> (r: Self)
        ensures
            r.pin_spec() == pin@,
            r.on_spec() == (match on {
                Some(s) => Some(s@),
                None => None,
            }),
    {
        Self { pin, on }
    }
}

/// One peripheral used by a sensor.
#[derive(Debug)]
#[non_exhaustive]
pub enum Peripheral {
    /// An input pin.
    Input(Input),
    /// An output pin.
    Output(Output),
}

/// The input pins among a sequence of peripherals, in order.
pub open spec fn inputs_of(s: Seq<Peripheral>) -> Seq<Input>
    decreases s.len(),
{
    if s.len() == 0 {
        Seq::empty()
    } else {
        let prefix = inputs_of(s.drop_last());
        match s.last() {
            Peripheral::Input(i) => prefix.push(i),
            _ => prefix,
        }
    }
}

/// The peripherals used by a sensor.
#[derive(Debug)]
pub struct Peripherals(Vec<Peripheral>);

impl View for Peripherals {
    type V = Seq<Peripheral>;

    closed spec fn view(&self) -> Seq<Peripheral> {
        self.0@
    }
}

impl Peripherals {
    /// Builds the peripheral list.
    pub fn new(peripherals: Vec<Peripheral>) -> (r: Self)
        ensures
            r@ == peripherals@,
    {
        Self(peripherals)
    }

    /// All peripherals, in declaration order.
    pub fn get(&self) -> (r: &Vec<Peripheral>)
        ensures
            r@ == self@,
    {
        &self.0
    }

    /// The input pins among the peripherals, in declaration order.
    pub fn inputs(&self) -> (r: Vec<&Input>)
        ensures
            r@.len() == inputs_of(self@).len(),
            forall|j: int| 0 <= j < r@.len() ==> *r@[j] == inputs_of(self@)[j],
    {
        let mut out: Vec<&Input> = Vec::new();
        let n = self.0.len();
        let mut i: usize = 0;
        while i < n
            invariant
                n == self.0.len(),
                i <= n,
                out@.len() == inputs_of(self.0@.take(i as int)).len(),
                forall|j: int|
                    0 <= j < out@.len() ==> *out@[j] == inputs_of(self.0@.take(i as int))[j],
            decreases n - i,
        {
            proof {
                assert(self.0@.take(i as int + 1).drop_last() =~= self.0@.take(i as int));
                assert(self.0@.take(i as int + 1).last() == self.0@[i as int]);
            }
            match &self.0[i] {
                Peripheral::Input(input) => {
                    out.push(input);
                },
                _ => {},
            }
            i = i + 1;
        }
        proof {
            assert(self.0@.take(n as int) =~= self.0@);
        }
        out
    }
}

/// Identifies the I2C bus a sensor is connected to, possibly conditional.
#[derive(Debug)]
pub struct SensorBusI2c {
    on: Option<String>,
    instance: String,
}

impl SensorBusI2c {
    /// The bus instance name.
    pub closed spec fn instance_spec(self) -> Seq<char> {
        self.instance@
    }

    /// The configuration predicate under which this connection applies.
    pub closed spec fn on_spec(self) -> Option<Seq<char>> {
        match self.on {
            Some(s) => Some(s@),
            None => None,
        }
    }

    /// Builds the description of one sensor bus connection.
    pub fn new(on: Option<String>, instance: String) -> (r: Self)
        ensures
            r.instance_spec() == instance@,
            r.on_spec() == (match on {
                Some(s) => Some(s@),
                None => None,
            }),
    {
        Self { on, instance }
    }
}

/// The bus a sensor is connected to.
#[derive(Debug)]
#[non_exhaustive]
pub enum SensorBus {
    /// An I2C bus, with one candidate connection per configuration.
    I2c(Vec<SensorBusI2c>),
}

/// A sensor of the hardware setup, possibly conditional.
#[derive(Debug)]
pub struct Sensor {
    name: String,
    driver: String,
    on: Option<String>,
    when: Option<String>,
    bus: Option<SensorBus>,
    peripherals: Option<Peripherals>,
}

impl Sensor {
    /// The sensor instance name.
    pub closed spec fn name_spec(self) -> Seq<char> {
        self.name@
    }

    /// The name of the driver for this sensor.
    pub closed spec fn driver_spec(self) -> Seq<char> {
        self.driver@
    }

    /// The bus the sensor is connected to, if any.
    pub closed spec fn bus_spec(self) -> Option<SensorBus> {
        self.bus
    }

    /// The peripherals the sensor uses, if any.
    pub closed spec fn peripherals_spec(self) -> Option<Peripherals> {
        self.peripherals
    }

    /// Builds the description of one sensor.
    pub fn new(
        name: String,
        driver: String,
        on: Option<String>,
        when: Option<String>,
        bus: Option<SensorBus>,
        peripherals: Option<Peripherals>,
    ) -> (r: Self)
        ensures
            r.name_spec() == name@,
            r.driver_spec() == driver@,
            r.bus_spec() == bus,
            r.peripherals_spec() == peripherals,
            r.on_spec() == (match on {
                Some(s) => Some(s@),
                None => None,
            }),
            r.when_spec() == (match when {
                Some(s) => Some(s@),
                None => None,
            }),
    {
        Self { name, driver, on, when, bus, peripherals }
    }

    /// The sensor instance name.
    pub fn name(&self) -> (r: &str)
        ensures
            r@ == self.name_spec(),
    {
        self.name.as_str()
    }

    /// The name of the driver for this sensor.
    pub fn driver(&self) -> (r: &str)
        ensures
            r@ == self.driver_spec(),
    {
        self.driver.as_str()
    }

    /// The bus the sensor is connected to, if any.
    pub fn bus(&self) -> (r: Option<&SensorBus>)
        ensures
            r is Some <==> self.bus_spec() is Some,
            r matches Some(b) ==> self.bus_spec() == Some(*b),
    {
        self.bus.as_ref()
    }

    /// The peripherals the sensor uses, if any.
    pub fn peripherals(&self) -> (r: Option<&Peripherals>)
        ensures
            r is Some <==> self.peripherals_spec() is Some,
            r matches Some(p) ==> self.peripherals_spec() == Some(*p),
    {
        self.peripherals.as_ref()
    }
}

impl Conditioned for Sensor {
    closed spec fn on_spec(&self) -> Option<Seq<char>> {
        match self.on {
            Some(s) => Some(s@),
            None => None,
        }
    }

    closed spec fn when_spec(&self) -> Option<Seq<char>> {
        match self.when {
            Some(s) => Some(s@),
            None => None,
        }
    }

    fn on(&self) -> (r: Option<&str>) {
        match &self.on {
            Some(s) => Some(s.as_str()),
            None => None,
        }
    }

    fn when(&self) -> (r: Option<&str>) {
        match &self.when {
            Some(s) => Some(s.as_str()),
            None => None,
        }
    }
}

/// The whole hardware setup: the board's buses and its sensors.
#[derive(Debug)]
pub struct HwSetup {
    buses: Buses,
    sensors: Vec<Sensor>,
}

impl HwSetup {
    /// The buses of the setup.
    pub closed spec fn buses_spec(self) -> Buses {
        self.buses
    }

    /// The sensors of the setup.
    pub closed spec fn sensors_spec(self) -> Seq<Sensor> {
        self.sensors@
    }

    /// Builds a hardware setup from its parts.
    pub fn new(buses: Buses, sensors: Vec<Sensor>) -> (r: Self)
        ensures
            r.buses_spec() == buses,
            r.sensors_spec() == sensors@,
    {
        Self { buses, sensors }
    }

    /// The buses of the setup.
    pub fn buses(&self) -> (r: &Buses)
        ensures
            *r == self.buses_spec(),
    {
        &self.buses
    }

    /// The sensors of the setup.
    pub fn sensors(&self) -> (r: &Vec<Sensor>)
        ensures
            r@ == self.sensors_spec(),
    {
        &self.sensors
    }
}

} // verus!
