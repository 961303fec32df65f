use vstd::prelude::*;

use crate::addr::VirtualAddress;
use crate::color::{pixel_value, ColorCode};
use crate::error::Error;

verus! {

/// Order of the colour channels within a 32-bit pixel.
#[derive(Debug, Clone, Copy, PartialEq, Eq, Structural)]
pub enum PixelFormat {
    Bgr,
    Rgb,
}

impl Default for PixelFormat {
    fn default() -> (r: PixelFormat)
        ensures
            r == PixelFormat::Bgr,
    {
        PixelFormat::Bgr
    }
}

/// The pixel format a firmware code stands for: 0 for `Bgr`, 1 for `Rgb`.
pub open spec fn pixel_format_of(code: u32) -> Result<PixelFormat, Error> {
    if code == 0 {
        Ok(PixelFormat::Bgr)
    } else if code == 1 {
        Ok(PixelFormat::Rgb)
    } else {
        Err(Error::InvalidArgument)
    }
}

impl TryFrom<u32> for PixelFormat {
    type Error = Error;

    fn try_from(value: u32) -> (r: Result<PixelFormat, Error>) {
        match value {
            0 => Ok(PixelFormat::Bgr),
            1 => Ok(PixelFormat::Rgb),
            _ => Err(Error::InvalidArgument),
        }
    }
}

impl vstd::std_specs::convert::TryFromSpecImpl<u32> for PixelFormat {
    open spec fn obeys_try_from_spec() -> bool {
        true
    }

    open spec fn try_from_spec(value: u32) -> Result<PixelFormat, Error> {
        pixel_format_of(value)
    }
}

/// Failures of drawing on the framebuffer.
#[derive(Debug, Clone, Copy, PartialEq, Eq, Structural)]
pub enum FramebufferError {
    PositionOutOfRange { x: usize, y: usize },
}

/// The framebuffer the firmware allocated: its physical and virtual
/// dimensions in pixels, its depth in bits, and where its pixels live.
#[derive(Debug, Clone, Copy)]
pub struct FramebufferInfo {
    pub p_width: usize,
    pub p_height: usize,
    pub v_width: usize,
    pub v_height: usize,
    pub depth: usize,
    pub pixel_format: PixelFormat,
    pub buf_base: VirtualAddress,
    pub buf_size: usize,
}

/// Byte offset of pixel (`x`, `y`) from the start of a framebuffer `width` pixels wide.
pub open spec fn pixel_offset(x: int, y: int, width: int) -> int {
    (y * width + x) * 4
}

/// The framebuffer, once the firmware has allocated it.
pub struct Framebuffer {
    info: Option<FramebufferInfo>,
}

impl Framebuffer {
    /// What the framebuffer has been initialized with, if anything.
    pub closed spec fn spec_info(&self) -> Option<FramebufferInfo> {
        self.info
    }

    /// A framebuffer not yet initialized.
    pub fn new() -> (r: Framebuffer)
        ensures
            r.spec_info() is None,
    {
        Framebuffer { info: None }
    }

    /// The framebuffer's description; `NotInitialized` before `init`.
    pub fn info(&self) -> (r: Result<FramebufferInfo, Error>)
        ensures
            self.spec_info() is Some ==> r == Ok::<FramebufferInfo, Error>(self.spec_info()->Some_0),
            self.spec_info() is None ==> r == Err::<FramebufferInfo, Error>(Error::NotInitialized),
    {
        match self.info {
            Some(info) => Ok(info),
            None => Err(Error::NotInitialized),
        }
    }

    pub fn init(&mut self, info: FramebufferInfo)
        ensures
            final(self).spec_info() == Some(info),
    {
        self.info = Some(info);
    }

    /// Where pixel (`x`, `y`) lives and the value that paints it `color`:
    /// `NotInitialized` before `init`; `PositionOutOfRange` when the position
    /// lies outside the virtual size or its address does not fit in 64 bits.
    pub fn pixel(&self, x: usize, y: usize, color: ColorCode) -> (r: Result<
        (VirtualAddress, u32),
        Error,
    >)
        ensures
            self.spec_info() is None ==> r == Err::<(VirtualAddress, u32), Error>(
                Error::NotInitialized,
            ),
            self.spec_info() is Some ==> ({
                let info = self.spec_info()->Some_0;
                let addr = info.buf_base@ + pixel_offset(x as int, y as int, info.v_width as int);
                if x < info.v_width && y < info.v_height && addr <= u64::MAX {
                    r is Ok && r->Ok_0.0@ == addr && r->Ok_0.1 == pixel_value(color, info.pixel_format)
                } else {
                    r == Err::<(VirtualAddress, u32), Error>(
                        Error::FramebufferError(FramebufferError::PositionOutOfRange { x, y }),
                    )
                }
            }),
    {
        let info = match self.info {
            Some(info) => info,
            None => return Err(Error::NotInitialized),
        };
        let out_of_range = Error::FramebufferError(FramebufferError::PositionOutOfRange { x, y });
        if x >= info.v_width || y >= info.v_height {
            return Err(out_of_range);
        }
        let y_wide = y as u128;
        let width = info.v_width as u128;
        assert(y_wide * width <= 0xffff_ffff_ffff_ffff * 0xffff_ffff_ffff_ffff) by (nonlinear_arith)
            requires
                y_wide <= 0xffff_ffff_ffff_ffff,
                width <= 0xffff_ffff_ffff_ffff,
        ;
        let row = y_wide * width;
        let base = info.buf_base.get() as u128;
        if row + x as u128 > (u64::MAX as u128 - base) / 4 {
            return Err(out_of_range);
        }
        let offset = (row + x as u128) * 4;
        let addr = VirtualAddress::new((base + offset) as u64);
        Ok((addr, color.to_u32(info.pixel_format)))
    }
}

} // verus!
