//! The FUSB302B driver handle: the I2C bus it owns and the 7-bit address of the PHY on it.

use vstd::prelude::*;

use crate::DEFAULT_ADDRESS;

verus! {

/// FUSB302B-family PHY driver that owns its I2C bus.
///
/// Each driver operation in [`crate::operations`] names the transfers to perform; they are
/// carried out on [`Fusb302::bus`] at [`Fusb302::address`].
pub struct Fusb302<I2C> {
    i2c: I2C,
    address: u8,
}

impl<I2C> Fusb302<I2C> {
    /// The 7-bit I2C address the driver talks to.
    pub closed spec fn i2c_address(&self) -> u8 {
        self.address
    }

    /// The bus the driver owns.
    pub closed spec fn held_bus(&self) -> I2C {
        self.i2c
    }

    /// Construct a driver at [`DEFAULT_ADDRESS`].
    pub fn new(i2c: I2C) -> (driver: Self)
        ensures
            driver.i2c_address() == DEFAULT_ADDRESS,
            driver.held_bus() == i2c,
    {
        Self::with_address(i2c, DEFAULT_ADDRESS)
    }

    /// Construct a driver with an explicitly selected 7-bit I2C address.
    pub fn with_address(i2c: I2C, address: u8) -> (driver: Self)
        ensures
            driver.i2c_address() == address,
            driver.held_bus() == i2c,
    {
        Self { i2c, address }
    }

    /// Return the configured 7-bit I2C address.
    pub fn address(&self) -> (address: u8)
        ensures
            address == self.i2c_address(),
    {
        self.address
    }

    /// Borrow the owned bus to carry out a transfer.
    pub fn bus(&mut self) -> (bus: &mut I2C)
        ensures
            *bus == old(self).held_bus(),
            final(self).held_bus() == *final(bus),
            final(self).i2c_address() == old(self).i2c_address(),
    {
        &mut self.i2c
    }

    /// Release ownership of the I2C bus.
    pub fn release(self) -> (i2c: I2C)
        ensures
            i2c == self.held_bus(),
    {
        self.i2c
    }
}

} // verus!
