//! The SPI bus section of the hardware setup.

use std::collections::HashMap;

use vstd::prelude::*;

use crate::hwsetup::Conditioned;

verus! {

/// One SPI bus of the setup, with a configuration per peripheral context.
#[derive(Debug)]
pub struct Bus {
    name: String,
    peripheral: HashMap<String, BusPeripheral>,
}

impl Bus {
    /// The bus name.
    pub closed spec fn name_spec(self) -> Seq<char> {
        self.name@
    }

    /// The configuration of the bus, keyed by peripheral context.
    pub closed spec fn peripheral_spec(self) -> Map<String, BusPeripheral> {
        self.peripheral@
    }

    /// Builds the description of one bus.
    pub fn new(name: String, peripheral: HashMap<String, BusPeripheral>) -> (r: Self)
        ensures
            r.name_spec() == name@,
            r.peripheral_spec() == peripheral@,
    {
        Self { name, peripheral }
    }

    /// The bus name.
    pub fn name(&self) -> (r: &str)
        ensures
            r@ == self.name_spec(),
    {
        self.name.as_str()
    }

    /// The configuration of the bus, keyed by peripheral context.
    pub fn peripheral(&self) -> (r: &HashMap<String, BusPeripheral>)
        ensures
            r@ == self.peripheral_spec(),
    {
        &self.peripheral
    }
}

/// The configuration of one SPI bus on one peripheral context.
#[derive(Debug)]
pub struct BusPeripheral {
    on: Option<String>,
    when: Option<String>,
    sck: Vec<Pin>,
    miso: Vec<Pin>,
    mosi: Vec<Pin>,
    frequency: Frequency,
    mode: Mode,
    bit_order: Option<BitOrder>,
}

impl BusPeripheral {
    /// The candidate SCK pins.
    pub closed spec fn sck_spec(self) -> Seq<Pin> {
        self.sck@
    }

    /// The candidate MISO pins.
    pub closed spec fn miso_spec(self) -> Seq<Pin> {
        self.miso@
    }

    /// The candidate MOSI pins.
    pub closed spec fn mosi_spec(self) -> Seq<Pin> {
        self.mosi@
    }

    /// The bus frequency.
    pub closed spec fn frequency_spec(self) -> Frequency {
        self.frequency
    }

    /// The SPI mode.
    pub closed spec fn mode_spec(self) -> Mode {
        self.mode
    }

    /// The bit order, if configured.
    pub closed spec fn bit_order_spec(self) -> Option<BitOrder> {
        self.bit_order
    }

    /// Builds the configuration of one bus peripheral.
    pub fn new(
        on: Option<String>,
        when: Option<String>,
        sck: Vec<Pin>,
        miso: Vec<Pin>,
        mosi: Vec<Pin>,
        frequency: Frequency,
        mode: Mode,
        bit_order: Option<BitOrder>,
    ) -> (r: Self)
        ensures
            r.sck_spec() == sck@,
            r.miso_spec() == miso@,
            r.mosi_spec() == mosi@,
            r.frequency_spec() == frequency,
            r.mode_spec() == mode,
            r.bit_order_spec() == bit_order,
            r.on_spec() == (match on {
                Some(s) => Some(s@),
                None => None,
            }),
            r.when_spec() == (match when {
                Some(s) => Some(s@),
                None => None,
            }),
    {
        Self { on, when, sck, miso, mosi, frequency, mode, bit_order }
    }

    /// The candidate SCK pins.
    pub fn sck(&self) -> (r: &Vec<Pin>)
        ensures
            r@ == self.sck_spec(),
    {
        &self.sck
    }

    /// The candidate MISO pins.
    pub fn miso(&self) -> (r: &Vec<Pin>)
        ensures
            r@ == self.miso_spec(),
    {
        &self.miso
    }

    /// The candidate MOSI pins.
    pub fn mosi(&self) -> (r: &Vec<Pin>)
        ensures
            r@ == self.mosi_spec(),
    {
        &self.mosi
    }

    /// The bus frequency.
    pub fn frequency(&self) -> (r: Frequency)
        ensures
            r == self.frequency_spec(),
    {
        self.frequency
    }

    /// The SPI mode.
    pub fn mode(&self) -> (r: Mode)
        ensures
            r == self.mode_spec(),
    {
        self.mode
    }

    /// The bit order, if configured.
    pub fn bit_order(&self) -> (r: Option<BitOrder>)
        ensures
            r == self.bit_order_spec(),
    {
        self.bit_order
    }
}

impl Conditioned for BusPeripheral {
    closed spec fn on_spec(&self) -> Option<Seq<char>> {
        match self.on {
            Some(s) => Some(s@),
            None => None,
        }
    }

    closed spec fn when_spec(&self) -> Option<Seq<char>> {
        match self.when {
            Some(s) => Some(s@),
            None => None,
        }
    }

    fn on(&self) -> (r: Option<&str>) {
        match &self.on {
            Some(s) => Some(s.as_str()),
            None => None,
        }
    }

    fn when(&self) -> (r: Option<&str>) {
        match &self.when {
            Some(s) => Some(s.as_str()),
            None => None,
        }
    }
}

/// A pin of an SPI bus, possibly conditional.
#[derive(Debug, Clone)]
pub struct Pin {
    pin: String,
    on: Option<String>,
    when: Option<String>,
}

impl Pin {
    /// The pin name.
    pub closed spec fn pin_spec(self) -> Seq<char> {
        self.pin@
    }

    /// Builds the description of one pin.
    pub fn new(pin: String, on: Option<String>, when: Option<String>) -> (r: Self)
        ensures
            r.pin_spec() == pin@,
            r.on_spec() == (match on {
                Some(s) => Some(s@),
                None => None,
            }),
            r.when_spec() == (match when {
                Some(s) => Some(s@),
                None => None,
            }),
    {
        Self { pin, on, when }
    }

    /// The pin name.
    pub fn pin(&self) -> (r: &str)
        ensures
            r@ == self.pin_spec(),
    {
        self.pin.as_str()
    }
}

impl Conditioned for Pin {
    closed spec fn on_spec(&self) -> Option<Seq<char>> {
        match self.on {
            Some(s) => Some(s@),
            None => None,
        }
    }

    closed spec fn when_spec(&self) -> Option<Seq<char>> {
        match self.when {
            Some(s) => Some(s@),
            None => None,
        }
    }

    fn on(&self) -> (r: Option<&str>) {
        match &self.on {
            Some(s) => Some(s.as_str()),
            None => None,
        }
    }

    fn when(&self) -> (r: Option<&str>) {
        match &self.when {
            Some(s) => Some(s.as_str()),
            None => None,
        }
    }
}

/// Frequency of an SPI bus.
#[derive(Debug, Copy, Clone, PartialEq, Eq, Structural)]
pub enum Frequency {
    /// 125 kHz.
    K125,
    /// 250 kHz.
    K250,
    /// 500 kHz.
    K500,
    /// 1 MHz.
    M1,
    /// 2 MHz.
    M2,
    /// 4 MHz.
    M4,
    /// 8 MHz.
    M8,
    /// 16 MHz.
    M16,
    /// 32 MHz.
    M32,
}

/// SPI mode (clock polarity and phase).
#[derive(Debug, Copy, Clone, PartialEq, Eq, Structural)]
pub enum Mode {
    /// CPOL = 0, CPHA = 0.
    Mode0,
    /// CPOL = 0, CPHA = 1.
    Mode1,
    /// CPOL = 1, CPHA = 0.
    Mode2,
    /// CPOL = 1, CPHA = 1.
    Mode3,
}

/// Bit order of an SPI transfer.
#[derive(Debug, Copy, Clone, PartialEq, Eq, Structural)]
pub enum BitOrder {
    /// Most significant bit first.
    MsbFirst,
    /// Least significant bit first.
    LsbFirst,
}

} // verus!
