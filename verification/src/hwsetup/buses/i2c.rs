//! The I2C bus section of the hardware setup.

use std::collections::HashMap;

use vstd::prelude::*;

use crate::hwsetup::Conditioned;

verus! {

/// One I2C bus of the setup, with a configuration per peripheral context.
#[derive(Debug)]
pub struct Bus {
    name: String,
    peripheral: HashMap<String, BusPeripheral>,
}

impl Bus {
    /// The bus name.
    pub closed spec fn name_spec(self) -> Seq<char> {
        self.name@
    }

    /// The configuration of the bus, keyed by peripheral context.
    pub closed spec fn peripheral_spec(self) -> Map<String, BusPeripheral> {
        self.peripheral@
    }

    /// Builds the description of one bus.
    pub fn new(name: String, peripheral: HashMap<String, BusPeripheral>) -> (r: Self)
        ensures
            r.name_spec() == name@,
            r.peripheral_spec() == peripheral@,
    {
        Self { name, peripheral }
    }

    /// The bus name.
    pub fn name(&self) -> (r: &str)
        ensures
            r@ == self.name_spec(),
    {
        self.name.as_str()
    }

    /// The configuration of the bus, keyed by peripheral context.
    pub fn peripheral(&self) -> (r: &HashMap<String, BusPeripheral>)
        ensures
            r@ == self.peripheral_spec(),
    {
        &self.peripheral
    }
}

/// The configuration of one I2C bus on one peripheral context.
#[derive(Debug)]
pub struct BusPeripheral {
    on: Option<String>,
    when: Option<String>,
    sda: Vec<Pin>,
    scl: Vec<Pin>,
    frequency: Frequency,
}

impl BusPeripheral {
    /// The candidate SDA pins.
    pub closed spec fn sda_spec(self) -> Seq<Pin> {
        self.sda@
    }

    /// The candidate SCL pins.
    pub closed spec fn scl_spec(self) -> Seq<Pin> {
        self.scl@
    }

    /// The bus frequency.
    pub closed spec fn frequency_spec(self) -> Frequency {
        self.frequency
    }

    /// Builds the configuration of one bus peripheral.
    pub fn new(
        on: Option<String>,
        when: Option<String>,
        sda: Vec<Pin>,
        scl: Vec<Pin>,
        frequency: Frequency,
    ) -> (r: Self)
        ensures
            r.sda_spec() == sda@,
            r.scl_spec() == scl@,
            r.frequency_spec() == frequency,
            r.on_spec() == (match on {
                Some(s) => Some(s@),
                None => None,
            }),
            r.when_spec() == (match when {
                Some(s) => Some(s@),
                None => None,
            }),
    {
        Self { on, when, sda, scl, frequency }
    }

    /// The candidate SDA pins.
    pub fn sda(&self) -> (r: &Vec<Pin>)
        ensures
            r@ == self.sda_spec(),
    {
        &self.sda
    }

    /// The candidate SCL pins.
    pub fn scl(&self) -> (r: &Vec<Pin>)
        ensures
            r@ == self.scl_spec(),
    {
        &self.scl
    }

    /// The bus frequency.
    pub fn frequency(&self) -> (r: Frequency)
        ensures
            r == self.frequency_spec(),
    {
        self.frequency
    }
}

impl Conditioned for BusPeripheral {
    closed spec fn on_spec(&self) -> Option<Seq<char>> {
        match self.on {
            Some(s) => Some(s@),
            None => None,
        }
    }

    closed spec fn when_spec(&self) -> Option<Seq<char>> {
        match self.when {
            Some(s) => Some(s@),
            None => None,
        }
    }

    fn on(&self) -> (r: Option<&str>) {
        match &self.on {
            Some(s) => Some(s.as_str()),
            None => None,
        }
    }

    fn when(&self) -> (r: Option<&str>) {
        match &self.when {
            Some(s) => Some(s.as_str()),
            None => None,
        }
    }
}

/// A pin of an I2C bus, possibly conditional.
#[derive(Debug, Clone)]
pub struct Pin {
    pin: String,
    pull_up: bool,
    on: Option<String>,
    when: Option<String>,
}

impl Pin {
    /// The pin name.
    pub closed spec fn pin_spec(self) -> Seq<char> {
        self.pin@
    }

    /// Whether the pin uses an internal pull-up resistor.
    pub closed spec fn pull_up_spec(self) -> bool {
        self.pull_up
    }

    /// Builds the description of one pin.
    pub fn new(pin: String, pull_up: bool, on: Option<String>, when: Option<String>) -> (r: Self)
        ensures
            r.pin_spec() == pin@,
            r.pull_up_spec() == pull_up,
            r.on_spec() == (match on {
                Some(s) => Some(s@),
                None => None,
            }),
            r.when_spec() == (match when {
                Some(s) => Some(s@),
                None => None,
            }),
    {
        Self { pin, pull_up, on, when }
    }

    /// The pin name.
    pub fn pin(&self) -> (r: &str)
        ensures
            r@ == self.pin_spec(),
    {
        self.pin.as_str()
    }

    /// Whether the pin uses an internal pull-up resistor.
    pub fn pull_up(&self) -> (r: bool)
        ensures
            r == self.pull_up_spec(),
    {
        self.pull_up
    }
}

impl Conditioned for Pin {
    closed spec fn on_spec(&self) -> Option<Seq<char>> {
        match self.on {
            Some(s) => Some(s@),
            None => None,
        }
    }

    closed spec fn when_spec(&self) -> Option<Seq<char>> {
        match self.when {
            Some(s) => Some(s@),
            None => None,
        }
    }

    fn on(&self) -> (r: Option<&str>) {
        match &self.on {
            Some(s) => Some(s.as_str()),
            None => None,
        }
    }

    fn when(&self) -> (r: Option<&str>) {
        match &self.when {
            Some(s) => Some(s.as_str()),
            None => None,
        }
    }
}

/// Frequency of an I2C bus.
#[derive(Debug, Copy, Clone, PartialEq, Eq, Structural)]
pub enum Frequency {
    /// 100 kHz.
    K100,
    /// 250 kHz.
    K250,
    /// 400 kHz.
    K400,
}

} // verus!
