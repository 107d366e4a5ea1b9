//! The sensor driver proper: command sequencing, busy-polling with bounded
//! retries, and the calibration and measurement handshakes.

use vstd::prelude::*;
use crate::measure::{
    Humidity, Temperature, parse_measurement, spec_raw_humidity, spec_raw_temperature,
    valid_payload,
};
use crate::status::StatusFlags;

verus! {

/// Fixed peripheral address used for every bus transaction.
pub const I2C_ADDRESS: u8 = 0x38;

/// Driver error, parameterized by the underlying bus-error type.
#[derive(Debug, Copy, Clone)]
pub enum Error<E> {
    /// Device is not calibrated.
    Uncalibrated,
    /// Underlying bus error.
    Bus(E),
    /// Checksum mismatch.
    Checksum,
    /// Max tries exceeded.
    MaxTriesExceeded,
}

impl<E> From<E> for Error<E> {
    /// Wraps an underlying bus error.
    fn from(e: E) -> (r: Self)
        ensures
            r == Error::Bus(e),
    {
        Error::Bus(e)
    }
}

impl<E> vstd::std_specs::convert::FromSpecImpl<E> for Error<E> {
    open spec fn obeys_from_spec() -> bool {
        true
    }

    open spec fn from_spec(e: E) -> Self {
        Error::Bus(e)
    }
}

/// Two-wire bus capability the driver is layered on. Implementors provide
/// blocking, fallible writes to a peripheral address, and a combined
/// write-then-read that fills a caller-supplied buffer in place.
pub trait I2cBus {
    /// Opaque transport error.
    type BusError;

    /// Writes `bytes` to the peripheral at `address`, blocking.
    fn write(&mut self, address: u8, bytes: &Vec<u8>) -> Result<(), Self::BusError>;

    /// Writes `bytes` to the peripheral at `address`, then reads back
    /// exactly `buffer.len()` bytes into `buffer`, blocking.
    fn write_read(&mut self, address: u8, bytes: &Vec<u8>, buffer: &mut Vec<u8>) -> (r: Result<
        (),
        Self::BusError,
    >)
        ensures
            final(buffer)@.len() == old(buffer)@.len(),
    ;
}

/// Blocking delay capability; it has no failure mode.
pub trait DelayMs {
    /// Blocks for at least `ms` milliseconds.
    fn delay_ms(&mut self, ms: u16);
}

/// AHT20 driver. It owns its bus capability exclusively for its lifetime.
pub struct Aht20<I2C> {
    i2c: I2C,
}

impl<I2C: I2cBus> Aht20<I2C> {
    /// Creates a new AHT20 device from a bus capability and a delay:
    /// soft-resets the device, then calibrates it. Construction aborts on
    /// the first failure; the bus is consumed regardless.
    ///
    /// Only bus failures and a failed calibration are reported: never
    /// `Checksum` or `MaxTriesExceeded`.
    pub fn new<D: DelayMs>(i2c: I2C, delay: &mut D) -> (r: Result<
        Aht20<I2C>,
        Error<I2C::BusError>,
    >)
        ensures
            r matches Err(e) ==> e is Bus || e is Uncalibrated,
    {
        let mut dev = Aht20 { i2c };
        match dev.reset(delay) {
            Ok(()) => {},
            Err(e) => {
                return Err(Error::Bus(e));
            },
        }
        match dev.calibrate(delay) {
            Ok(()) => {},
            Err(e) => {
                return Err(e);
            },
        }
        Ok(dev)
    }

    /// Queries the sensor status byte: one write of the status-request
    /// byte, one byte read back.
    fn status(&mut self) -> Result<StatusFlags, I2C::BusError> {
        let mut cmd: Vec<u8> = Vec::new();
        cmd.push(0x71u8);
        let mut buf: Vec<u8> = Vec::new();
        buf.push(0u8);
        match self.i2c.write_read(I2C_ADDRESS, &cmd, &mut buf) {
            Ok(()) => Ok(StatusFlags::from_bits(buf[0])),
            Err(e) => Err(e),
        }
    }

    /// Self-calibrates the sensor: sends the calibration trigger, polls
    /// status up to 10 times (10 ms apart) until the device is no longer
    /// busy, then confirms the calibration flag.
    ///
    /// Fails with `Uncalibrated` when the device stays busy through the
    /// whole retry budget or does not confirm the flag: never `Checksum`
    /// or `MaxTriesExceeded`, which is reserved for the read path.
    pub fn calibrate<D: DelayMs>(&mut self, delay: &mut D) -> (r: Result<(), Error<I2C::BusError>>)
        ensures
            r matches Err(e) ==> e is Bus || e is Uncalibrated,
    {
        let mut cmd: Vec<u8> = Vec::new();
        cmd.push(0xE1u8);
        cmd.push(0x08u8);
        cmd.push(0x00u8);
        match self.i2c.write(I2C_ADDRESS, &cmd) {
            Ok(()) => {},
            Err(e) => {
                return Err(Error::Bus(e));
            },
        }

        let mut max_tries: u8 = 10;
        loop
            invariant
                1 <= max_tries <= 10,
            decreases max_tries,
        {
            let flags = match self.status() {
                Ok(flags) => flags,
                Err(e) => {
                    return Err(Error::Bus(e));
                },
            };
            if !flags.is_busy() {
                break;
            }
            delay.delay_ms(10);
            max_tries = max_tries - 1;
            if max_tries == 0 {
                return Err(Error::Uncalibrated);
            }
        }

        let flags = match self.status() {
            Ok(flags) => flags,
            Err(e) => {
                return Err(Error::Bus(e));
            },
        };
        if !flags.is_calibration_enabled() {
            return Err(Error::Uncalibrated);
        }
        Ok(())
    }

    /// Soft-resets the sensor, then sleeps the 20 ms settling time the
    /// device specifies. Not polled, not retried.
    pub fn reset<D: DelayMs>(&mut self, delay: &mut D) -> Result<(), I2C::BusError> {
        let mut cmd: Vec<u8> = Vec::new();
        cmd.push(0xBAu8);
        match self.i2c.write(I2C_ADDRESS, &cmd) {
            Ok(()) => {},
            Err(e) => {
                return Err(e);
            },
        }
        delay.delay_ms(20);
        Ok(())
    }

    /// Reads humidity and temperature: sends the trigger-measurement
    /// command, busy-polls up to 5 times (10 ms apart), then reads the
    /// 7-byte payload, verifies its checksum, re-checks the calibration
    /// flag, and unpacks the two raw samples.
    ///
    /// A reading is produced only from a payload whose checksum matched
    /// and whose status byte confirmed calibration; both raw samples are
    /// 20-bit values. When the retry budget is exhausted while the device
    /// is still busy, the result is `MaxTriesExceeded` and no payload read
    /// is attempted.
    pub fn read<D: DelayMs>(&mut self, delay: &mut D) -> (r: Result<
        (Humidity, Temperature),
        Error<I2C::BusError>,
    >)
        ensures
            r matches Ok(ht) ==> ht.0@ < 0x100000 && ht.1@ < 0x100000,
            r matches Ok(ht) ==> exists|b: Seq<u8>|
                {
                    &&& #[trigger] valid_payload(b)
                    &&& ht.0@ == spec_raw_humidity(b[1], b[2], b[3])
                    &&& ht.1@ == spec_raw_temperature(b[3], b[4], b[5])
                },
    {
        let mut cmd: Vec<u8> = Vec::new();
        cmd.push(0xACu8);
        cmd.push(0x33u8);
        cmd.push(0x00u8);
        match self.i2c.write(I2C_ADDRESS, &cmd) {
            Ok(()) => {},
            Err(e) => {
                return Err(Error::Bus(e));
            },
        }

        let mut max_tries: u8 = 5;
        loop
            invariant
                max_tries <= 5,
            decreases max_tries,
        {
            if max_tries == 0 {
                return Err(Error::MaxTriesExceeded);
            }
            delay.delay_ms(10);
            max_tries = max_tries - 1;
            let flags = match self.status() {
                Ok(flags) => flags,
                Err(e) => {
                    return Err(Error::Bus(e));
                },
            };
            if !flags.is_busy() {
                break;
            }
        }

        let mut cmd2: Vec<u8> = Vec::new();
        cmd2.push(0x00u8);
        let mut buf: Vec<u8> = Vec::new();
        buf.push(0u8);
        buf.push(0u8);
        buf.push(0u8);
        buf.push(0u8);
        buf.push(0u8);
        buf.push(0u8);
        buf.push(0u8);
        match self.i2c.write_read(I2C_ADDRESS, &cmd2, &mut buf) {
            Ok(()) => {},
            Err(e) => {
                return Err(Error::Bus(e));
            },
        }

        match parse_measurement(buf.as_slice()) {
            Ok(ht) => {
                proof {
                    assert(valid_payload(buf@));
                }
                Ok(ht)
            },
            Err(e) => Err(e),
        }
    }
}

} // verus!
