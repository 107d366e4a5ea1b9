//! Measurement values and the decoding of the 7-byte measurement payload.
//!
//! Byte 0 of the payload is the status byte, bytes 1-5 hold the two packed
//! 20-bit raw samples, and byte 6 is the CRC-8 checksum of bytes 0-5.

use vstd::prelude::*;
use vstd::slice::slice_subrange;
use crate::checksum::{crc8, spec_crc8};
use crate::driver::Error;
use crate::status::{StatusFlags, calibration_bit_set};

verus! {

/// The raw 20-bit humidity sample packed in payload bytes 1, 2 and the top
/// half of byte 3: `(b1 << 12) | (b2 << 4) | (b3 >> 4)`.
pub open spec fn spec_raw_humidity(b1: u8, b2: u8, b3: u8) -> u32 {
    ((b1 as u32) << 12) | ((b2 as u32) << 4) | ((b3 as u32) >> 4)
}

/// The raw 20-bit temperature sample packed in the bottom half of payload
/// byte 3 and bytes 4, 5: `((b3 & 0x0F) << 16) | (b4 << 8) | b5`.
pub open spec fn spec_raw_temperature(b3: u8, b4: u8, b5: u8) -> u32 {
    (((b3 as u32) & 0x0F) << 16) | ((b4 as u32) << 8) | (b5 as u32)
}

/// How the device packs a humidity sample into payload byte 1.
pub open spec fn spec_pack_hum_high(h: u32) -> u8 {
    ((h >> 12) & 0xFF) as u8
}

/// How the device packs a humidity sample into payload byte 2.
pub open spec fn spec_pack_hum_mid(h: u32) -> u8 {
    ((h >> 4) & 0xFF) as u8
}

/// How the device packs the low humidity nibble and the high temperature
/// nibble into payload byte 3.
pub open spec fn spec_pack_shared(h: u32, t: u32) -> u8 {
    (((h & 0x0F) << 4) | ((t >> 16) & 0x0F)) as u8
}

/// How the device packs a temperature sample into payload byte 4.
pub open spec fn spec_pack_temp_mid(t: u32) -> u8 {
    ((t >> 8) & 0xFF) as u8
}

/// How the device packs a temperature sample into payload byte 5.
pub open spec fn spec_pack_temp_low(t: u32) -> u8 {
    (t & 0xFF) as u8
}

/// Both raw samples unpack to 20-bit values, whatever the payload bytes.
pub proof fn lemma_raw_in_range(b1: u8, b2: u8, b3: u8, b4: u8, b5: u8)
    ensures
        spec_raw_humidity(b1, b2, b3) < 0x100000,
        spec_raw_temperature(b3, b4, b5) < 0x100000,
{
    assert((((b1 as u32) << 12) | ((b2 as u32) << 4) | ((b3 as u32) >> 4)) < 0x100000)
        by (bit_vector);
    assert(((((b3 as u32) & 0x0F) << 16) | ((b4 as u32) << 8) | (b5 as u32)) < 0x100000)
        by (bit_vector);
}

/// Bit-unpacking round-trip: packing any pair of 20-bit raw samples into
/// payload bytes and unpacking them returns the samples exactly.
pub proof fn lemma_pack_unpack(h: u32, t: u32)
    requires
        h < 0x100000,
        t < 0x100000,
    ensures
        spec_raw_humidity(spec_pack_hum_high(h), spec_pack_hum_mid(h), spec_pack_shared(h, t)) == h,
        spec_raw_temperature(spec_pack_shared(h, t), spec_pack_temp_mid(t), spec_pack_temp_low(t))
            == t,
{
    assert(((((h >> 12) & 0xFF) as u8 as u32) << 12) | ((((h >> 4) & 0xFF) as u8 as u32) << 4)
        | (((((h & 0x0F) << 4) | ((t >> 16) & 0x0F)) as u8 as u32) >> 4) == h)
        by (bit_vector)
        requires
            h < 0x100000,
            t < 0x100000,
    ;
    assert((((((((h & 0x0F) << 4) | ((t >> 16) & 0x0F)) as u8 as u32) & 0x0F) << 16)
        | ((((t >> 8) & 0xFF) as u8 as u32) << 8) | ((t & 0xFF) as u8 as u32)) == t)
        by (bit_vector)
        requires
            h < 0x100000,
            t < 0x100000,
    ;
}

/// Humidity reading: a raw 20-bit sample, immutable after construction.
pub struct Humidity {
    h: u32,
}

impl View for Humidity {
    type V = u32;

    closed spec fn view(&self) -> u32 {
        self.h
    }
}

impl Humidity {
    /// Raw humidity reading.
    pub fn raw(&self) -> (r: u32)
        ensures
            r == self@,
    {
        self.h
    }
}

/// Temperature reading: a raw 20-bit sample, immutable after construction.
pub struct Temperature {
    t: u32,
}

impl View for Temperature {
    type V = u32;

    closed spec fn view(&self) -> u32 {
        self.t
    }
}

impl Temperature {
    /// Raw temperature reading.
    pub fn raw(&self) -> (r: u32)
        ensures
            r == self@,
    {
        self.t
    }
}

/// A well-formed measurement payload: seven bytes whose checksum byte
/// matches the CRC-8 of bytes 0-5, with the status byte confirming
/// calibration.
pub open spec fn valid_payload(b: Seq<u8>) -> bool {
    &&& b.len() == 7
    &&& spec_crc8(b.subrange(0, 6)) == b[6]
    &&& calibration_bit_set(b[0])
}

/// Checks and decodes a 7-byte measurement payload.
///
/// The checksum is verified before the calibration flag is inspected; a
/// mismatch discards the reading entirely.
pub fn parse_measurement<E>(buf: &[u8]) -> (r: Result<(Humidity, Temperature), Error<E>>)
    requires
        buf@.len() == 7,
    ensures
        r is Ok <==> valid_payload(buf@),
        r matches Ok(ht) ==> {
            &&& ht.0@ == spec_raw_humidity(buf@[1], buf@[2], buf@[3])
            &&& ht.1@ == spec_raw_temperature(buf@[3], buf@[4], buf@[5])
            &&& ht.0@ < 0x100000
            &&& ht.1@ < 0x100000
        },
        r matches Err(e) ==> !(e is Bus) && !(e is MaxTriesExceeded),
        r matches Err(e) ==> (e is Checksum <==> spec_crc8(buf@.subrange(0, 6)) != buf@[6]),
        r matches Err(e) ==> (e is Uncalibrated <==> spec_crc8(buf@.subrange(0, 6)) == buf@[6]
            && !calibration_bit_set(buf@[0])),
{
    let data = slice_subrange(buf, 0, 6);
    let computed = crc8(data);
    if computed != buf[6] {
        return Err(Error::Checksum);
    }

    let status = StatusFlags::from_bits(buf[0]);
    if !status.is_calibration_enabled() {
        return Err(Error::Uncalibrated);
    }

    let b1 = buf[1];
    let b2 = buf[2];
    let b3 = buf[3];
    let b4 = buf[4];
    let b5 = buf[5];
    let hum = ((b1 as u32) << 12) | ((b2 as u32) << 4) | ((b3 as u32) >> 4);
    let temp = (((b3 as u32) & 0x0F) << 16) | ((b4 as u32) << 8) | (b5 as u32);
    proof {
        lemma_raw_in_range(b1, b2, b3, b4, b5);
    }
    Ok((Humidity { h: hum }, Temperature { t: temp }))
}

} // verus!
