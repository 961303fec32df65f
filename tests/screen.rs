use kernel::addr::VirtualAddress;
use kernel::color::ColorCode;
use kernel::error::Error;
use kernel::framebuffer::{Framebuffer, FramebufferError, FramebufferInfo, PixelFormat};
use kernel::framebuffer_console::{ConsoleOutput, FramebufferConsole};

fn info(width: usize, height: usize) -> FramebufferInfo {
    FramebufferInfo {
        p_width: width,
        p_height: height,
        v_width: width,
        v_height: height,
        depth: 32,
        pixel_format: PixelFormat::Rgb,
        buf_base: VirtualAddress::new(0x1000_0000),
        buf_size: width * height * 4,
    }
}

#[test]
fn framebuffer_needs_init() {
    let fb = Framebuffer::new();
    assert!(matches!(fb.info(), Err(Error::NotInitialized)));
    assert_eq!(
        fb.pixel(0, 0, ColorCode::new(1, 2, 3)).map(|(a, v)| (a.get(), v)),
        Err(Error::NotInitialized)
    );
}

#[test]
fn framebuffer_pixel_address_and_value() {
    let mut fb = Framebuffer::new();
    fb.init(info(480, 320));
    assert_eq!(fb.info().ok().unwrap().v_width, 480);
    let (addr, value) = fb.pixel(3, 2, ColorCode::new(0x12, 0x34, 0x56)).ok().unwrap();
    assert_eq!(addr.get(), 0x1000_0000 + ((2 * 480 + 3) * 4) as u64);
    assert_eq!(value, 0x0012_3456);
}

#[test]
fn framebuffer_position_out_of_range() {
    let mut fb = Framebuffer::new();
    fb.init(info(480, 320));
    assert_eq!(
        fb.pixel(480, 0, ColorCode::new(0, 0, 0)).map(|(a, v)| (a.get(), v)),
        Err(Error::FramebufferError(FramebufferError::PositionOutOfRange { x: 480, y: 0 }))
    );
    assert_eq!(
        fb.pixel(0, 320, ColorCode::new(0, 0, 0)).map(|(a, v)| (a.get(), v)),
        Err(Error::FramebufferError(FramebufferError::PositionOutOfRange { x: 0, y: 320 }))
    );
}

#[test]
fn console_needs_init() {
    let mut console = FramebufferConsole::new(8, 16);
    assert_eq!(console.fb_wh(), Err(Error::NotInitialized));
    assert_eq!(console.write_char('a'), Err(Error::NotInitialized));
    assert_eq!(console.write_char('\t'), Ok(ConsoleOutput::Tab));
}

#[test]
fn console_places_glyphs_and_wraps() {
    let green = ColorCode::new(0, 255, 0);
    let black = ColorCode::new(0, 0, 0);
    let mut console = FramebufferConsole::new(8, 16);
    // Three full cells across, two full rows down.
    console.init(green, black, &info(32, 48));
    assert_eq!(console.fb_wh(), Ok((32, 48)));
    let glyph = |x, y, fore, back| Ok(ConsoleOutput::Glyph { x, y, fore, back });
    assert_eq!(console.write_char('a'), glyph(0, 0, green, black));
    assert_eq!(console.write_char('b'), glyph(8, 0, green, black));
    assert_eq!(console.write_char('c'), glyph(16, 0, green, black));
    assert_eq!(console.write_char('d'), glyph(0, 16, green, black));
    assert_eq!(console.write_char('\n'), Ok(ConsoleOutput::NewLine));
    // Back at the top left: the colours swap.
    assert_eq!(console.write_char('e'), glyph(0, 0, black, green));
}
