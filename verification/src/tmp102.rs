//! A small driver for the TMP102 temperature sensor.
//!
//! The sensor hands back two bytes over the bus; the temperature is a
//! signed 12-bit reading in their upper bits, in units of a sixteenth of
//! a degree. [`decode_temperature`] turns the two bytes into that signed
//! raw reading with an exact contract; the bus transaction itself, and
//! the final scaling into fractional degrees, live with the caller that
//! owns the bus.

use vstd::prelude::*;

verus! {

/// Error for bus transactions with the sensor.
#[derive(Debug)]
pub enum Error<E> {
    /// The bus transaction failed.
    Communication(E),
}

/// Possible device addresses based on ADD0 pin connection.
#[derive(Clone, Copy, PartialEq, Eq, Structural, Debug)]
pub enum Address {
    /// ADD0 tied to ground — the default.
    Ground,
    /// ADD0 tied to the supply rail.
    Vdd,
    /// ADD0 tied to the data line.
    Sda,
    /// ADD0 tied to the clock line.
    Scl,
}

/// The bus address each ADD0 wiring selects.
pub open spec fn address_value(address: Address) -> u8 {
    match address {
        Address::Ground => 0x48,
        Address::Vdd => 0x49,
        Address::Sda => 0x4a,
        Address::Scl => 0x4b,
    }
}

impl Address {
    /// The bus address in `u8` format.
    pub fn as_u8(self) -> (address: u8)
        ensures
            address == address_value(self),
    {
        match self {
            Address::Ground => 0x48,
            Address::Vdd => 0x49,
            Address::Sda => 0x4a,
            Address::Scl => 0x4b,
        }
    }
}

/// The sensor's temperature register.
pub const REG_TEMPERATURE: u8 = 0x00;

/// TMP102 temperature sensor driver: the bus it talks over, and the
/// address it answers at.
pub struct TMP102<I2C> {
    /// The bus the sensor is wired to.
    pub i2c: I2C,
    /// The address the sensor answers at.
    pub address: Address,
}

impl<I2C> TMP102<I2C> {
    /// A driver instance for the sensor at `address` on `i2c`.
    pub fn new(i2c: I2C, address: Address) -> (driver: Self)
        ensures
            driver.address == address,
    {
        TMP102 { i2c, address }
    }

    /// A driver instance with the default address (ADD0 to ground).
    pub fn with_default_address(i2c: I2C) -> (driver: Self)
        ensures
            driver.address == Address::Ground,
    {
        Self::new(i2c, Address::Ground)
    }
}

/// The signed raw reading held in two bytes from the temperature
/// register: the upper twelve bits, read as a two's-complement value.
/// One unit is a sixteenth of a degree.
pub open spec fn raw_temperature(msb: u8, lsb: u8) -> int {
    let word = msb * 256 + lsb;
    let signed = if word >= 0x8000 {
        word - 0x10000
    } else {
        word as int
    };
    signed / 16
}

/// Decode the two bytes the sensor hands back into the signed raw
/// reading. The caller scales it by a sixteenth of a degree per unit.
pub fn decode_temperature(msb: u8, lsb: u8) -> (raw: i16)
    ensures
        raw == raw_temperature(msb, lsb),
{
    let word: u16 = (msb as u16) * 256 + (lsb as u16);
    let upper: u16 = word / 16;
    if upper >= 0x800 {
        proof {
            assert(raw_temperature(msb, lsb) == upper - 0x1000);
        }
        (upper as i32 - 0x1000) as i16
    } else {
        proof {
            assert(raw_temperature(msb, lsb) == upper as int);
        }
        upper as i16
    }
}

} // verus!
