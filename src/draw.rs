use vstd::prelude::*;

use crate::color::ColorCode;
use crate::error::Error;

verus! {

/// What a drawing surface offers: rectangles, glyphs and strings at pixel
/// positions, filling, copying, and single pixels.
pub trait Draw {
    fn draw_rect(&mut self, x: usize, y: usize, width: usize, height: usize, color: ColorCode) -> Result<(), Error>;

    fn draw_string(&mut self, x: usize, y: usize, s: &str, fore_color: ColorCode, back_color: ColorCode) -> Result<(), Error>;

    fn draw_font(&mut self, x: usize, y: usize, c: char, fore_color: ColorCode, back_color: ColorCode) -> Result<(), Error>;

    fn fill(&mut self, color: ColorCode) -> Result<(), Error>;

    fn copy(&mut self, x: usize, y: usize, to_x: usize, to_y: usize) -> Result<(), Error>;

    fn read(&self, x: usize, y: usize) -> Result<ColorCode, Error>;

    fn write(&mut self, x: usize, y: usize, color: ColorCode) -> Result<(), Error>;
}

} // verus!
