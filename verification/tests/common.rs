use libremarkable::color;

#[test]
fn rgb565_conversions() {
    // Ensure that min and max values are transformed faithfully
    assert_eq!(color::RGB(0, 0, 0).to_rgb565(), [0, 0]);
    assert_eq!(color::RGB(255, 255, 255).to_rgb565(), [255, 255]);
    assert_eq!(color::GRAY(0).to_rgb565(), [255, 255]);
    assert_eq!(color::GRAY(255).to_rgb565(), [0, 0]);

    assert_eq!(color::from_native([0, 0]).to_rgb8(), [0, 0, 0]);
    assert_eq!(color::from_native([255, 255]).to_rgb8(), [255, 255, 255]);
    assert_eq!(color::BLUE.to_rgb8(), [0, 0, 255]);
    assert_eq!(color::GREEN.to_rgb8(), [0, 255, 0]);
    assert_eq!(color::RED.to_rgb8(), [255, 0, 0]);
    assert_eq!(color::RGB(255, 127, 0).to_rgb8(), [255, 125, 0]);

    // Ensure that every single RGB565 value can be transformed to RGB8 and back losslessly
    for native in 0..u16::MAX {
        let [lo, hi] = native.to_le_bytes();
        let [r, g, b] = color::NATIVE_COMPONENTS(lo, hi).to_rgb8();

        assert_eq!(color::RGB(r, g, b).to_rgb565(), [lo, hi]);
    }
}
