use vstd::prelude::*;

use crate::framebuffer::PixelFormat;

verus! {

/// A 24-bit colour.
#[derive(Debug, Clone, Copy, PartialEq, Eq, Structural)]
pub struct ColorCode {
    pub r: u8,
    pub g: u8,
    pub b: u8,
}

/// The 32-bit pixel value of `c` in `format`: blue-green-red from the low
/// byte up for `Bgr`, red-green-blue from the high byte down for `Rgb`.
pub open spec fn pixel_value(c: ColorCode, format: PixelFormat) -> u32 {
    match format {
        PixelFormat::Bgr => (c.r + c.g * 0x100 + c.b * 0x1_0000) as u32,
        PixelFormat::Rgb => (c.r * 0x1_0000 + c.g * 0x100 + c.b) as u32,
    }
}

/// The lowest byte of `value`.
pub open spec fn byte0(value: u32) -> u8 {
    (value % 0x100) as u8
}

/// The second lowest byte of `value`.
pub open spec fn byte1(value: u32) -> u8 {
    ((value / 0x100) % 0x100) as u8
}

/// The third lowest byte of `value`.
pub open spec fn byte2(value: u32) -> u8 {
    ((value / 0x1_0000) % 0x100) as u8
}

impl ColorCode {
    /// Black.
    pub fn default() -> (r: ColorCode)
        ensures
            r == (ColorCode { r: 0, g: 0, b: 0 }),
    {
        ColorCode::new(0, 0, 0)
    }

    pub fn new(r: u8, g: u8, b: u8) -> (c: ColorCode)
        ensures
            c == (ColorCode { r, g, b }),
    {
        ColorCode { r, g, b }
    }

    /// The colour of a pixel value in `format`; the byte the format leaves
    /// unused is ignored.
    pub fn from_u32(value: u32, pixel_format: PixelFormat) -> (c: ColorCode)
        ensures
            pixel_format == PixelFormat::Bgr ==> c == (ColorCode {
                r: byte0(value),
                g: byte1(value),
                b: byte2(value),
            }),
            pixel_format == PixelFormat::Rgb ==> c == (ColorCode {
                r: byte2(value),
                g: byte1(value),
                b: byte0(value),
            }),
    {
        let low = (value & 0xff) as u8;
        let mid = ((value >> 8) & 0xff) as u8;
        let high = ((value >> 16) & 0xff) as u8;
        proof {
            assert(value & 0xff == value % 0x100) by (bit_vector);
            assert((value >> 8) & 0xff == (value / 0x100) % 0x100) by (bit_vector);
            assert((value >> 16) & 0xff == (value / 0x1_0000) % 0x100) by (bit_vector);
        }
        match pixel_format {
            PixelFormat::Bgr => ColorCode::new(low, mid, high),
            PixelFormat::Rgb => ColorCode::new(high, mid, low),
        }
    }

    /// The pixel value of the colour in `format`.
    pub fn to_u32(&self, pixel_format: PixelFormat) -> (v: u32)
        ensures
            v == pixel_value(*self, pixel_format),
    {
        let r = self.r as u32;
        let g = self.g as u32;
        let b = self.b as u32;
        match pixel_format {
            PixelFormat::Bgr => {
                let v = r | g << 8 | b << 16;
                assert(v == r + g * 0x100 + b * 0x1_0000) by (bit_vector)
                    requires
                        r < 0x100 && g < 0x100 && b < 0x100,
                        v == r | g << 8 | b << 16,
                ;
                v
            },
            PixelFormat::Rgb => {
                let v = r << 16 | g << 8 | b;
                assert(v == r * 0x1_0000 + g * 0x100 + b) by (bit_vector)
                    requires
                        r < 0x100 && g < 0x100 && b < 0x100,
                        v == r << 16 | g << 8 | b,
                ;
                v
            },
        }
    }
}

} // verus!
