//! Status byte of the sensor, read back on every status query.
//!
//! The byte is a bitset; the driver itself only consults `BUSY` and
//! `CALIBRATION_ENABLE`, but every documented bit has an accessor.

use vstd::prelude::*;

verus! {

/// Device is busy with a measurement or calibration.
pub const BUSY: u8 = 1u8 << 7;

/// Two-bit working-mode field (unused by this driver).
pub const MODE: u8 = (1u8 << 6) | (1u8 << 5);

/// CRC generation is enabled.
pub const CRC: u8 = 1u8 << 4;

/// Device reports itself calibrated.
pub const CALIBRATION_ENABLE: u8 = 1u8 << 3;

/// FIFO is enabled.
pub const FIFO_ENABLE: u8 = 1u8 << 2;

/// FIFO is full.
pub const FIFO_FULL: u8 = 1u8 << 1;

/// FIFO is empty.
pub const FIFO_EMPTY: u8 = 1u8 << 0;

/// True when the `BUSY` bit of a raw status byte is set.
pub open spec fn busy_bit_set(bits: u8) -> bool {
    bits & BUSY != 0
}

/// True when the `CALIBRATION_ENABLE` bit of a raw status byte is set.
pub open spec fn calibration_bit_set(bits: u8) -> bool {
    bits & CALIBRATION_ENABLE != 0
}

/// Sensor status: a raw byte with named bit-test accessors.
///
/// Transient: read fresh from the device on every query, never cached.
#[derive(Clone, Copy, Debug)]
pub struct StatusFlags {
    bits: u8,
}

impl StatusFlags {
    /// The raw byte, for contracts.
    pub closed spec fn spec_bits(&self) -> u8 {
        self.bits
    }

    /// Wraps a raw status byte as read from the device.
    pub fn from_bits(bits: u8) -> (r: StatusFlags)
        ensures
            r.spec_bits() == bits,
    {
        StatusFlags { bits }
    }

    /// The raw status byte.
    pub fn bits(&self) -> (r: u8)
        ensures
            r == self.spec_bits(),
    {
        self.bits
    }

    /// Whether the device reports itself busy.
    pub fn is_busy(&self) -> (r: bool)
        ensures
            r == busy_bit_set(self.spec_bits()),
    {
        self.bits & BUSY != 0
    }

    /// The two-bit working-mode field, shifted down to `[0, 3]`.
    pub fn mode(&self) -> (r: u8)
        ensures
            r == (self.spec_bits() & MODE) >> 5,
    {
        (self.bits & MODE) >> 5
    }

    /// Whether CRC generation is enabled.
    pub fn is_crc_enabled(&self) -> (r: bool)
        ensures
            r == (self.spec_bits() & CRC != 0),
    {
        self.bits & CRC != 0
    }

    /// Whether the device reports itself calibrated.
    pub fn is_calibration_enabled(&self) -> (r: bool)
        ensures
            r == calibration_bit_set(self.spec_bits()),
    {
        self.bits & CALIBRATION_ENABLE != 0
    }

    /// Whether the FIFO is enabled.
    pub fn is_fifo_enabled(&self) -> (r: bool)
        ensures
            r == (self.spec_bits() & FIFO_ENABLE != 0),
    {
        self.bits & FIFO_ENABLE != 0
    }

    /// Whether the FIFO is full.
    pub fn is_fifo_full(&self) -> (r: bool)
        ensures
            r == (self.spec_bits() & FIFO_FULL != 0),
    {
        self.bits & FIFO_FULL != 0
    }

    /// Whether the FIFO is empty.
    pub fn is_fifo_empty(&self) -> (r: bool)
        ensures
            r == (self.spec_bits() & FIFO_EMPTY != 0),
    {
        self.bits & FIFO_EMPTY != 0
    }
}

} // verus!
