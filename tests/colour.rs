use rasteriser::colour::Colour;

#[test]
fn hex_splits_into_channels() {
    assert_eq!(Colour::HEX(0x123456).to_raw(), (0x12, 0x34, 0x56));
}

#[test]
fn hex_ignores_bits_above_24() {
    assert_eq!(Colour::HEX(0xFFAB_CDEF).to_raw(), (0xAB, 0xCD, 0xEF));
    assert_eq!(Colour::HEX(0xFF00_0000).to_raw(), (0, 0, 0));
}

#[test]
fn rgba_drops_alpha() {
    assert_eq!(Colour::RGBA(255, 50, 50, 255).to_raw(), (255, 50, 50));
    assert_eq!(Colour::RGBA(1, 2, 3, 0).to_raw(), (1, 2, 3));
}

#[test]
fn hex_and_rgba_agree_on_packed_channels() {
    for &(r, g, b) in &[(0u8, 0u8, 0u8), (255, 255, 255), (1, 128, 254), (200, 7, 99)] {
        let packed = ((r as u32) << 16) | ((g as u32) << 8) | (b as u32);
        assert_eq!(Colour::HEX(packed).to_raw(), (r, g, b));
        for a in [0u8, 77, 255] {
            assert_eq!(Colour::RGBA(r, g, b, a).to_raw(), (r, g, b));
        }
    }
}
