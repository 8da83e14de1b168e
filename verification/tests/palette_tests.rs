use lumiemu::palette::{framebuffer_to_rgb, palette_to_rgb, NES_PALETTE};

#[test]
fn test_palette_conversion() {
    // Test first color (dark gray)
    assert_eq!(palette_to_rgb(0x00), (84, 84, 84));

    // Test a blue
    assert_eq!(palette_to_rgb(0x01), (0, 30, 116));

    // Test wrapping (should mask to 0x3F)
    assert_eq!(palette_to_rgb(0x40), palette_to_rgb(0x00));
}

#[test]
fn test_framebuffer_to_rgb() {
    let fb = vec![0x00, 0x01, 0x02];
    let rgb = framebuffer_to_rgb(&fb);

    assert_eq!(rgb.len(), 9); // 3 pixels * 3 bytes each
    assert_eq!(&rgb[0..3], &[84, 84, 84]); // First pixel
    assert_eq!(&rgb[3..6], &[0, 30, 116]); // Second pixel
}

#[test]
fn test_palette_table_shape() {
    assert_eq!(NES_PALETTE.len(), 64);
    assert_eq!(NES_PALETTE[0x3F], (0, 0, 0));
    assert_eq!(NES_PALETTE[0x20], (236, 238, 236));
}
