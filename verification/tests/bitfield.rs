use ds4_report::bitfield::{extract_bits, little_endian_u16};

#[test]
fn le_u16_mixed_bytes() {
    assert_eq!(little_endian_u16(0x01, 0x02), 0x0201);
}

#[test]
fn le_u16_zero() {
    assert_eq!(little_endian_u16(0x00, 0x00), 0);
}

#[test]
fn le_u16_all_ones() {
    assert_eq!(little_endian_u16(0xFF, 0xFF), 0xFFFF);
}

#[test]
fn le_u16_single_bytes() {
    assert_eq!(little_endian_u16(0xAB, 0x00), 0x00AB);
    assert_eq!(little_endian_u16(0x00, 0xCD), 0xCD00);
}

#[test]
fn touch_window_saturated() {
    assert_eq!(extract_bits(0xFF, 0xFF, 0xFF, 8, 12), 0xFFF);
    assert_eq!(extract_bits(0xFF, 0xFF, 0xFF, 20, 12), 0xFFF);
}

#[test]
fn touch_window_x_packing() {
    // Byte 0 is the low eight bits of X, the low nibble of byte 1 its high
    // four bits.
    assert_eq!(extract_bits(0x34, 0x12, 0x00, 8, 12), 0x234);
    assert_eq!(extract_bits(0x00, 0x10, 0x00, 8, 12), 0x000);
}

#[test]
fn touch_window_y_packing() {
    // The high nibble of byte 1 is the low four bits of Y, byte 2 its high
    // eight bits.
    assert_eq!(extract_bits(0x00, 0x50, 0x67, 20, 12), 0x675);
    assert_eq!(extract_bits(0x00, 0x10, 0x00, 20, 12), 0x001);
}

#[test]
fn touch_window_zero() {
    assert_eq!(extract_bits(0x00, 0x00, 0x00, 8, 12), 0);
    assert_eq!(extract_bits(0x00, 0x00, 0x00, 20, 12), 0);
}

#[test]
fn extract_bits_other_widths() {
    // The full 24-bit window, shifted down to the bottom.
    assert_eq!(extract_bits(0xCD, 0xAB, 0x00, 8, 16), 0xABCD);
    // A narrow field: the low nibble of byte 1.
    assert_eq!(extract_bits(0x00, 0x0F, 0x00, 16, 4), 0xF);
}
