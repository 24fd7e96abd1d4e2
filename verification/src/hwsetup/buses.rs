//! The bus section of the hardware setup, with per-peripheral
//! configurations keyed by context.

use vstd::prelude::*;

pub mod i2c;
pub mod spi;

verus! {

/// The buses of the hardware setup: the I2C buses and the SPI buses.
#[derive(Debug)]
pub struct Buses {
    i2c: Vec<i2c::Bus>,
    spi: Vec<spi::Bus>,
}

impl Buses {
    /// The I2C buses.
    pub closed spec fn i2c_spec(self) -> Seq<i2c::Bus> {
        self.i2c@
    }

    /// The SPI buses.
    pub closed spec fn spi_spec(self) -> Seq<spi::Bus> {
        self.spi@
    }

    /// Builds the bus lists.
    pub fn new(i2c: Vec<i2c::Bus>, spi: Vec<spi::Bus>) -> (r: Self)
        ensures
            r.i2c_spec() == i2c@,
            r.spi_spec() == spi@,
    {
        Self { i2c, spi }
    }

    /// The I2C buses.
    pub fn i2c(&self) -> (r: &Vec<i2c::Bus>)
        ensures
            r@ == self.i2c_spec(),
    {
        &self.i2c
    }

    /// The SPI buses.
    pub fn spi(&self) -> (r: &Vec<spi::Bus>)
        ensures
            r@ == self.spi_spec(),
    {
        &self.spi
    }
}

impl Default for Buses {
    /// An empty setup: no buses at all.
    fn default() -> (r: Self)
        ensures
            r.i2c_spec() == Seq::<i2c::Bus>::empty(),
            r.spi_spec() == Seq::<spi::Bus>::empty(),
    {
        Self { i2c: Vec::new(), spi: Vec::new() }
    }
}

} // verus!
