//! The sprite-sheet pixel contract: expanding 16-bit-per-pixel source data
//! (RGB555 or RGB565) to 32-bit RGBA, where each channel is widened from its
//! source bit-width and alpha is 0 for pure-black pixels, 255 otherwise.

use vstd::prelude::*;

verus! {

/// The two 16-bit pixel layouts a sprite sheet can use.
#[derive(Clone, Copy, Debug, PartialEq, Eq, Structural)]
pub enum S16ImageFormat {
    Rgb555,
    Rgb565,
}

/// The red channel of `p`, widened to eight bits.
pub open spec fn spec_red(f: S16ImageFormat, p: u16) -> u8 {
    match f {
        S16ImageFormat::Rgb565 => ((p & 0xf800) >> 8) as u8,
        S16ImageFormat::Rgb555 => ((p & 0x7c00) >> 7) as u8,
    }
}

/// The green channel of `p`, widened to eight bits.
pub open spec fn spec_green(f: S16ImageFormat, p: u16) -> u8 {
    match f {
        S16ImageFormat::Rgb565 => ((p & 0x07e0) >> 3) as u8,
        S16ImageFormat::Rgb555 => ((p & 0x03e0) >> 2) as u8,
    }
}

/// The blue channel of `p`, widened to eight bits.
pub open spec fn spec_blue(f: S16ImageFormat, p: u16) -> u8 {
    match f {
        S16ImageFormat::Rgb565 => ((p & 0x001f) << 3) as u8,
        S16ImageFormat::Rgb555 => ((p & 0x001f) << 3) as u8,
    }
}

/// One pixel expanded to RGBA: the three widened channels, and alpha 0 when
/// all three are zero, 255 otherwise.
pub open spec fn spec_decode_pixel(f: S16ImageFormat, p: u16) -> (u8, u8, u8, u8) {
    let red = spec_red(f, p);
    let green = spec_green(f, p);
    let blue = spec_blue(f, p);
    let alpha: u8 = if red == 0 && green == 0 && blue == 0 {
        0
    } else {
        255
    };
    (red, green, blue, alpha)
}

/// Expands one 16-bit pixel to RGBA.
pub fn decode_pixel(format: S16ImageFormat, pixel: u16) -> (rgba: (u8, u8, u8, u8))
    ensures
        rgba == spec_decode_pixel(format, pixel),
{
    let red: u8;
    let green: u8;
    let blue: u8;
    match format {
        S16ImageFormat::Rgb565 => {
            red = ((pixel & 0xf800) >> 8) as u8;
            green = ((pixel & 0x07e0) >> 3) as u8;
            blue = ((pixel & 0x001f) << 3) as u8;
        },
        S16ImageFormat::Rgb555 => {
            red = ((pixel & 0x7c00) >> 7) as u8;
            green = ((pixel & 0x03e0) >> 2) as u8;
            blue = ((pixel & 0x001f) << 3) as u8;
        },
    }
    let alpha: u8 = if red == 0 && green == 0 && blue == 0 {
        0
    } else {
        255
    };
    (red, green, blue, alpha)
}

/// Expands a run of 16-bit pixels to an RGBA byte buffer, four bytes per
/// pixel, in order.
pub fn decode_pixels(format: S16ImageFormat, pixels: &[u16]) -> (out: Vec<u8>)
    requires
        4 * pixels@.len() <= usize::MAX,
    ensures
        out@.len() == 4 * pixels@.len(),
        forall|i: int|
            0 <= i < pixels@.len() ==> {
                let rgba = #[trigger] spec_decode_pixel(format, pixels@[i]);
                out@[4 * i] == rgba.0 && out@[4 * i + 1] == rgba.1 && out@[4 * i + 2] == rgba.2
                    && out@[4 * i + 3] == rgba.3
            },
{
    let mut out: Vec<u8> = Vec::new();
    let mut i: usize = 0;
    while i < pixels.len()
        invariant
            i <= pixels@.len(),
            4 * pixels@.len() <= usize::MAX,
            out@.len() == 4 * i,
            forall|j: int|
                0 <= j < i ==> {
                    let rgba = #[trigger] spec_decode_pixel(format, pixels@[j]);
                    out@[4 * j] == rgba.0 && out@[4 * j + 1] == rgba.1 && out@[4 * j + 2]
                        == rgba.2 && out@[4 * j + 3] == rgba.3
                },
        decreases pixels@.len() - i,
    {
        let p = *vstd::slice::slice_index_get(pixels, i);
        let (red, green, blue, alpha) = decode_pixel(format, p);
        out.push(red);
        out.push(green);
        out.push(blue);
        out.push(alpha);
        i = i + 1;
    }
    out
}

} // verus!
