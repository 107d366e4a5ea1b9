//! CRC-8 integrity check used by the sensor's measurement payload.
//!
//! Parameters: width 8, polynomial 0x31, initial value 0xFF, no final xor,
//! no input or output reflection. The device appends this checksum, computed
//! over the first six payload bytes, as the seventh byte.

use vstd::prelude::*;

verus! {

/// One shift step of the CRC-8 computation: shift left by one and, if the
/// top bit was set, fold in the polynomial 0x31.
pub open spec fn crc8_step(c: u8) -> u8 {
    if c & 0x80 != 0 {
        (c << 1) ^ 0x31
    } else {
        c << 1
    }
}

/// `n` shift steps applied to `c`.
pub open spec fn crc8_steps(c: u8, n: nat) -> u8
    decreases n,
{
    if n == 0 {
        c
    } else {
        crc8_steps(crc8_step(c), (n - 1) as nat)
    }
}

/// Folding one message byte into the running remainder: xor it in, then
/// run the eight shift steps.
pub open spec fn crc8_push(c: u8, b: u8) -> u8 {
    crc8_steps(c ^ b, 8)
}

/// The running remainder after the first `i` bytes of `bytes`, starting
/// from the initial value 0xFF.
pub open spec fn crc8_prefix(bytes: Seq<u8>, i: int) -> u8
    decreases i,
{
    if i <= 0 {
        0xFF
    } else {
        crc8_push(crc8_prefix(bytes, i - 1), bytes[i - 1])
    }
}

/// The CRC-8 (poly 0x31, init 0xFF, no reflection, no final xor) of `bytes`.
pub open spec fn spec_crc8(bytes: Seq<u8>) -> u8 {
    crc8_prefix(bytes, bytes.len() as int)
}

/// Computes the CRC-8 checksum of `data` with the device's parameters.
pub fn crc8(data: &[u8]) -> (r: u8)
    ensures
        r == spec_crc8(data@),
{
    let mut crc: u8 = 0xFF;
    let mut i: usize = 0;
    while i < data.len()
        invariant
            i <= data@.len(),
            crc == crc8_prefix(data@, i as int),
        decreases data@.len() - i,
    {
        let b = data[i];
        crc = crc ^ b;
        let mut k: usize = 0;
        while k < 8
            invariant
                k <= 8,
                crc8_steps(crc, (8 - k) as nat) == crc8_push(crc8_prefix(data@, i as int), b),
            decreases 8 - k,
        {
            if crc & 0x80 != 0 {
                crc = (crc << 1) ^ 0x31;
            } else {
                crc = crc << 1;
            }
            k = k + 1;
        }
        assert(crc == crc8_push(crc8_prefix(data@, i as int), b));
        i = i + 1;
    }
    crc
}

} // verus!
