//! Tests of the sprite-sheet pixel contract: 16-bit source pixels expanded
//! to RGBA with alpha keyed on pure black.

use sfc::pixel::{S16ImageFormat, decode_pixel, decode_pixels};

#[test]
fn black_565_pixel_is_transparent() {
    assert_eq!(decode_pixel(S16ImageFormat::Rgb565, 0x0000), (0, 0, 0, 0));
}

#[test]
fn max_red_565_pixel_is_opaque_red() {
    assert_eq!(decode_pixel(S16ImageFormat::Rgb565, 0xF800), (248, 0, 0, 255));
}

#[test]
fn max_red_555_pixel_is_opaque_red() {
    assert_eq!(decode_pixel(S16ImageFormat::Rgb555, 0x7C00), (248, 0, 0, 255));
}

#[test]
fn green_and_blue_channels_expand_from_their_bit_widths() {
    // All green bits of RGB565: 0b0000011111100000 -> 0xFC.
    assert_eq!(decode_pixel(S16ImageFormat::Rgb565, 0x07E0), (0, 252, 0, 255));
    // All blue bits: five bits shifted up by three -> 0xF8.
    assert_eq!(decode_pixel(S16ImageFormat::Rgb565, 0x001F), (0, 0, 248, 255));
    // All green bits of RGB555: 0b0000001111100000 -> 0xF8.
    assert_eq!(decode_pixel(S16ImageFormat::Rgb555, 0x03E0), (0, 248, 0, 255));
}

#[test]
fn pixel_runs_expand_four_bytes_per_pixel_in_order() {
    let pixels = [0x0000u16, 0xF800, 0x001F];
    let out = decode_pixels(S16ImageFormat::Rgb565, &pixels);
    assert_eq!(out.len(), 12);
    assert_eq!(&out[0..4], &[0, 0, 0, 0]);
    assert_eq!(&out[4..8], &[248, 0, 0, 255]);
    assert_eq!(&out[8..12], &[0, 0, 248, 255]);
}
