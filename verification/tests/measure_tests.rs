use aht20::{crc8, parse_measurement, Error};

fn payload(status: u8, data: [u8; 5]) -> Vec<u8> {
    let mut p = vec![status, data[0], data[1], data[2], data[3], data[4]];
    let c = crc8(&p);
    p.push(c);
    p
}

#[test]
fn parse_unpacks_both_raw_samples() {
    let p = payload(0x18, [0x19, 0x99, 0x9A, 0x66, 0x66]);
    let (h, t) = parse_measurement::<u8>(&p).unwrap();
    assert_eq!(h.raw(), 0x19999);
    assert_eq!(t.raw(), 0xA6666);
}

#[test]
fn parse_all_ones_payload_gives_maximal_raw_samples() {
    let p = payload(0x18, [0xFF, 0xFF, 0xFF, 0xFF, 0xFF]);
    let (h, t) = parse_measurement::<u8>(&p).unwrap();
    assert_eq!(h.raw(), 0xFFFFF);
    assert_eq!(t.raw(), 0xFFFFF);
    assert!(h.raw() < 1 << 20);
    assert!(t.raw() < 1 << 20);
}

#[test]
fn parse_zero_payload_gives_zero_raw_samples() {
    let p = payload(0x08, [0, 0, 0, 0, 0]);
    let (h, t) = parse_measurement::<u8>(&p).unwrap();
    assert_eq!(h.raw(), 0);
    assert_eq!(t.raw(), 0);
}

#[test]
fn parse_rejects_corrupted_checksum() {
    let mut p = payload(0x18, [0x19, 0x99, 0x9A, 0x66, 0x66]);
    p[6] ^= 0x20;
    let r = parse_measurement::<u8>(&p);
    assert!(matches!(r, Err(Error::Checksum)));
}

#[test]
fn parse_rejects_missing_calibration_flag() {
    let p = payload(0x10, [0x19, 0x99, 0x9A, 0x66, 0x66]);
    let r = parse_measurement::<u8>(&p);
    assert!(matches!(r, Err(Error::Uncalibrated)));
}

#[test]
fn parse_checksum_verdict_precedes_calibration_flag() {
    let mut p = payload(0x10, [0x19, 0x99, 0x9A, 0x66, 0x66]);
    p[6] ^= 0x20;
    let r = parse_measurement::<u8>(&p);
    assert!(matches!(r, Err(Error::Checksum)));
}

#[test]
fn parse_splits_the_shared_byte() {
    // Byte 3 carries the humidity low nibble (high half) and the
    // temperature high nibble (low half).
    let p = payload(0x08, [0x00, 0x00, 0xAB, 0x00, 0x00]);
    let (h, t) = parse_measurement::<u8>(&p).unwrap();
    assert_eq!(h.raw(), 0xA);
    assert_eq!(t.raw(), 0xB0000);
}
