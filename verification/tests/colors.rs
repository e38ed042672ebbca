use libremarkable::color;

#[test]
fn native_round_trip_includes_the_last_word() {
    let [r, g, b] = color::NATIVE_COMPONENTS(0xFF, 0xFF).to_rgb8();
    assert_eq!(color::RGB(r, g, b).to_rgb565(), [0xFF, 0xFF]);
    let [r, g, b] = color::NATIVE_COMPONENTS(0x34, 0x12).to_rgb8();
    assert_eq!(color::RGB(r, g, b).to_rgb565(), [0x34, 0x12]);
}

#[test]
fn from_native_keeps_the_bytes() {
    assert_eq!(color::from_native([0x12, 0x34]), color::NATIVE_COMPONENTS(0x12, 0x34));
    assert_eq!(color::from_native([0x12, 0x34]).to_rgb565(), [0x12, 0x34]);
    assert_eq!(color::from_native([0x12, 0x34]).as_native(), [0x12, 0x34]);
}

#[test]
fn named_colors_match_their_rgb() {
    assert_eq!(color::BLACK.as_native(), color::RGB(0, 0, 0).as_native());
    assert_eq!(color::RED.as_native(), color::RGB(255, 0, 0).as_native());
    assert_eq!(color::GREEN.as_native(), color::RGB(0, 255, 0).as_native());
    assert_eq!(color::BLUE.as_native(), color::RGB(0, 0, 255).as_native());
    assert_eq!(color::WHITE.as_native(), color::RGB(255, 255, 255).as_native());
    assert_eq!(color::GRAY(100).as_native(), color::RGB(155, 155, 155).as_native());
}

#[test]
fn named_colors_native_words() {
    assert_eq!(color::RED.to_rgb565(), [0x00, 0xF8]);
    assert_eq!(color::GREEN.to_rgb565(), [0xE0, 0x07]);
    assert_eq!(color::BLUE.to_rgb565(), [0x1F, 0x00]);
    assert_eq!(color::WHITE.to_rgb565(), [0xFF, 0xFF]);
    assert_eq!(color::BLACK.to_rgb565(), [0x00, 0x00]);
}

#[test]
fn rgb_encoding_exact_values() {
    // r5 = 129 * 31 / 255 = 15, g6 = 65 * 63 / 255 = 16, b5 = 201 * 31 / 255 = 24
    // word = 15 << 11 | 16 << 5 | 24 = 0x7A18
    assert_eq!(color::RGB(128, 64, 200).to_rgb565(), [0x18, 0x7A]);
    // GRAY(200) is RGB(55, 55, 55): r5 = b5 = 56 * 31 / 255 = 6, g6 = 56 * 63 / 255 = 13
    // word = 6 << 11 | 13 << 5 | 6 = 0x31A6
    assert_eq!(color::GRAY(200).to_rgb565(), [0xA6, 0x31]);
}

#[test]
fn rgb8_exact_values() {
    // word 0x7A18: r5 = 15, g6 = 16, b5 = 24
    // 15 * 255 / 31 = 123, 16 * 255 / 63 = 64, 24 * 255 / 31 = 197
    assert_eq!(color::NATIVE_COMPONENTS(0x18, 0x7A).to_rgb8(), [123, 64, 197]);
    assert_eq!(color::WHITE.to_rgb8(), [255, 255, 255]);
    assert_eq!(color::BLACK.to_rgb8(), [0, 0, 0]);
}

#[test]
fn default_color_is_white() {
    assert_eq!(color::default(), color::WHITE);
}

#[test]
fn encoding_is_monotone_in_each_channel() {
    let fields = |c: color| {
        let v = u16::from_le_bytes(c.to_rgb565());
        (v >> 11, (v >> 5) & 63, v & 31)
    };
    let (r1, g1, b1) = fields(color::RGB(10, 100, 200));
    let (r2, g2, b2) = fields(color::RGB(11, 180, 200));
    assert!(r1 <= r2 && g1 <= g2 && b1 <= b2);
    assert!(g1 < g2);
    for v in 0u8..255 {
        let (r1, g1, b1) = fields(color::RGB(v, v, v));
        let (r2, g2, b2) = fields(color::RGB(v + 1, v + 1, v + 1));
        assert!(r1 <= r2 && g1 <= g2 && b1 <= b2);
    }
}
