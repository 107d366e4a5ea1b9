use aht20::StatusFlags;

#[test]
fn status_0x18_is_calibrated_and_idle() {
    let s = StatusFlags::from_bits(0x18);
    assert!(!s.is_busy());
    assert!(s.is_calibration_enabled());
    assert!(s.is_crc_enabled());
    assert!(!s.is_fifo_enabled());
    assert_eq!(s.bits(), 0x18);
}

#[test]
fn status_busy_bit_is_the_top_bit() {
    assert!(StatusFlags::from_bits(0x80).is_busy());
    assert!(!StatusFlags::from_bits(0x7F).is_busy());
}

#[test]
fn status_calibration_bit_is_bit_three() {
    assert!(StatusFlags::from_bits(0x08).is_calibration_enabled());
    assert!(!StatusFlags::from_bits(0xF7).is_calibration_enabled());
}

#[test]
fn status_mode_field_is_bits_five_and_six() {
    assert_eq!(StatusFlags::from_bits(0x60).mode(), 3);
    assert_eq!(StatusFlags::from_bits(0x20).mode(), 1);
    assert_eq!(StatusFlags::from_bits(0x9F).mode(), 0);
}

#[test]
fn status_fifo_bits() {
    let s = StatusFlags::from_bits(0x07);
    assert!(s.is_fifo_enabled());
    assert!(s.is_fifo_full());
    assert!(s.is_fifo_empty());
    let s = StatusFlags::from_bits(0xF8);
    assert!(!s.is_fifo_enabled());
    assert!(!s.is_fifo_full());
    assert!(!s.is_fifo_empty());
}
