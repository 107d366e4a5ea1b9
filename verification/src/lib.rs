//! Driver for the AHT20 humidity/temperature sensor.
//!
//! The driver speaks the device protocol over an abstract two-wire bus
//! capability: reset, calibrate, and read a combined humidity/temperature
//! measurement, with busy-polling, checksum verification and bit-level
//! unpacking of the 7-byte payload.

mod checksum;
mod driver;
mod measure;
mod status;

pub use checksum::{crc8, crc8_prefix, crc8_push, crc8_step, crc8_steps, spec_crc8};
pub use driver::{Aht20, DelayMs, Error, I2cBus, I2C_ADDRESS};
pub use measure::{
    Humidity, Temperature, lemma_pack_unpack, lemma_raw_in_range, parse_measurement,
    spec_pack_hum_high, spec_pack_hum_mid, spec_pack_shared, spec_pack_temp_low,
    spec_pack_temp_mid, spec_raw_humidity, spec_raw_temperature, valid_payload,
};
pub use status::{
    BUSY, CALIBRATION_ENABLE, CRC, FIFO_EMPTY, FIFO_ENABLE, FIFO_FULL, MODE, StatusFlags,
    busy_bit_set, calibration_bit_set,
};
