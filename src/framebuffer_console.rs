use vstd::prelude::*;

use crate::color::ColorCode;
use crate::error::Error;
use crate::framebuffer::FramebufferInfo;

verus! {

/// The row after `row` on a screen `height` pixels high with a font `font_height`
/// pixels high: back to the top when the next row would not fit entirely.
pub open spec fn next_row(row: int, font_height: int, height: int) -> int {
    if (row + 2) * font_height >= height {
        0
    } else {
        row + 1
    }
}

/// The cell after (`col`, `row`): the next column, or the start of the next
/// row when the next column would not fit entirely.
pub open spec fn next_cell(
    col: int,
    row: int,
    font_width: int,
    font_height: int,
    width: int,
    height: int,
) -> (int, int) {
    if (col + 2) * font_width >= width {
        (0, next_row(row, font_height, height))
    } else {
        (col + 1, row)
    }
}

/// Bounds on the cell `cell` of glyphs `size` pixels long, given that the
/// pixel just past it fits in a `usize`.
proof fn lemma_cell_bounds(cell: usize, size: usize)
    requires
        size >= 1,
        (cell + 1) * size <= usize::MAX,
    ensures
        cell + 1 <= usize::MAX,
        cell * size <= usize::MAX,
        (cell + 2) * size < 0x1_0000_0000_0000_0000_0000_0000_0000_0000,
{
    assert(cell + 1 <= (cell + 1) * size) by (nonlinear_arith)
        requires
            size >= 1,
    ;
    assert(cell * size <= (cell + 1) * size) by (nonlinear_arith);
    assert((cell + 2) * size <= 0x1_0000_0000_0000_0000 * 0x1_0000_0000_0000_0000 - 1) by (nonlinear_arith)
        requires
            cell + 1 <= usize::MAX,
            size <= usize::MAX,
            usize::MAX <= 0xffff_ffff_ffff_ffff,
    ;
}

/// What a character written to the console asks of the screen.
#[derive(Debug, Clone, Copy, PartialEq, Eq, Structural)]
pub enum ConsoleOutput {
    /// Draw the glyph with its top left corner at pixel (`x`, `y`), in these colours.
    Glyph { x: usize, y: usize, fore: ColorCode, back: ColorCode },
    /// The cursor moved to the start of the next line; nothing to draw.
    NewLine,
    /// Write the console's tab text in place of the character.
    Tab,
}

/// A text console on the framebuffer: a cursor over a grid of character
/// cells that wraps to the next line at the right edge and back to the top
/// at the bottom, swapping foreground and background colours each time it
/// returns to the top left cell.
pub struct FramebufferConsole {
    cursor_x: usize,
    cursor_y: usize,
    fb_width: Option<usize>,
    fb_height: Option<usize>,
    fore_color: ColorCode,
    back_color: ColorCode,
    font_width: usize,
    font_height: usize,
}

impl FramebufferConsole {
    /// Glyphs are at least one pixel wide and high, and the pixel position
    /// of the cursor's cell and of the one after it fit in a `usize`.
    pub closed spec fn wf(&self) -> bool {
        &&& self.font_width >= 1
        &&& self.font_height >= 1
        &&& (self.cursor_x + 1) * self.font_width <= usize::MAX
        &&& (self.cursor_y + 1) * self.font_height <= usize::MAX
    }

    /// Column and row of the cursor, in character cells.
    pub closed spec fn cursor(&self) -> (int, int) {
        (self.cursor_x as int, self.cursor_y as int)
    }

    /// Width and height of the framebuffer in pixels, once known.
    pub closed spec fn screen(&self) -> Option<(int, int)> {
        match (self.fb_width, self.fb_height) {
            (Some(w), Some(h)) => Some((w as int, h as int)),
            _ => None,
        }
    }

    /// Foreground and background colours.
    pub closed spec fn colors(&self) -> (ColorCode, ColorCode) {
        (self.fore_color, self.back_color)
    }

    /// Width and height of a glyph in pixels.
    pub closed spec fn font(&self) -> (int, int) {
        (self.font_width as int, self.font_height as int)
    }

    /// A console for glyphs `font_width` by `font_height` pixels, with its
    /// cursor at the top left, black on black until `init`.
    pub fn new(font_width: usize, font_height: usize) -> (r: FramebufferConsole)
        requires
            font_width >= 1,
            font_height >= 1,
        ensures
            r.wf(),
            r.cursor() == (0int, 0int),
            r.screen() is None,
            r.colors() == (ColorCode { r: 0, g: 0, b: 0 }, ColorCode { r: 0, g: 0, b: 0 }),
            r.font() == (font_width as int, font_height as int),
    {
        assert((0 + 1) * font_width == font_width) by (nonlinear_arith);
        assert((0 + 1) * font_height == font_height) by (nonlinear_arith);
        FramebufferConsole {
            cursor_x: 0,
            cursor_y: 0,
            fb_width: None,
            fb_height: None,
            fore_color: ColorCode::default(),
            back_color: ColorCode::default(),
            font_width,
            font_height,
        }
    }

    /// Width and height of the framebuffer; `NotInitialized` before `init`.
    pub fn fb_wh(&self) -> (r: Result<(usize, usize), Error>)
        ensures
            self.screen() is None ==> r == Err::<(usize, usize), Error>(Error::NotInitialized),
            self.screen() is Some ==> r is Ok && (r->Ok_0.0 as int, r->Ok_0.1 as int)
                == self.screen()->Some_0,
    {
        match (self.fb_width, self.fb_height) {
            (Some(w), Some(h)) => Ok((w, h)),
            _ => Err(Error::NotInitialized),
        }
    }

    /// Takes the colours and the framebuffer's virtual size; the cursor stays.
    pub fn init(&mut self, fore_color: ColorCode, back_color: ColorCode, info: &FramebufferInfo)
        requires
            old(self).wf(),
        ensures
            final(self).wf(),
            final(self).colors() == (fore_color, back_color),
            final(self).screen() == Some((info.v_width as int, info.v_height as int)),
            final(self).cursor() == old(self).cursor(),
            final(self).font() == old(self).font(),
    {
        self.fore_color = fore_color;
        self.back_color = back_color;
        self.fb_width = Some(info.v_width);
        self.fb_height = Some(info.v_height);
    }

    /// Swaps the colours when the cursor is back at the top left cell.
    fn swap_color(&mut self)
        requires
            old(self).wf(),
        ensures
            final(self).wf(),
            final(self).cursor() == old(self).cursor(),
            final(self).screen() == old(self).screen(),
            final(self).font() == old(self).font(),
            final(self).colors() == if old(self).cursor() == (0int, 0int) {
                (old(self).colors().1, old(self).colors().0)
            } else {
                old(self).colors()
            },
    {
        if !(self.cursor_x == 0 && self.cursor_y == 0) {
            return;
        }
        let tmp = self.back_color;
        self.back_color = self.fore_color;
        self.fore_color = tmp;
    }

    /// Moves the cursor to the next cell.
    fn inc_cursor(&mut self) -> (r: Result<(), Error>)
        requires
            old(self).wf(),
        ensures
            final(self).wf(),
            old(self).screen() is None ==> r == Err::<(), Error>(Error::NotInitialized)
                && *final(self) == *old(self),
            old(self).screen() is Some ==> r is Ok && final(self).cursor() == next_cell(
                old(self).cursor().0,
                old(self).cursor().1,
                old(self).font().0,
                old(self).font().1,
                old(self).screen()->Some_0.0,
                old(self).screen()->Some_0.1,
            ) && final(self).colors() == if final(self).cursor() == (0int, 0int) {
                (old(self).colors().1, old(self).colors().0)
            } else {
                old(self).colors()
            },
            final(self).screen() == old(self).screen(),
            final(self).font() == old(self).font(),
    {
        let (fb_width, fb_height) = self.fb_wh()?;
        proof {
            lemma_cell_bounds(self.cursor_x, self.font_width);
        }
        let next_x = self.cursor_x + 1;
        if (next_x as u128 + 1) * self.font_width as u128 >= fb_width as u128 {
            self.cursor_x = 0;
            assert((0 + 1) * self.font_width == self.font_width) by (nonlinear_arith);
            self.advance_row(fb_height);
        } else {
            self.cursor_x = next_x;
        }
        self.swap_color();
        Ok(())
    }

    /// Moves the cursor row down by one, back to the top past the bottom.
    fn advance_row(&mut self, fb_height: usize)
        requires
            old(self).wf(),
        ensures
            final(self).wf(),
            final(self).cursor() == (
                old(self).cursor().0,
                next_row(old(self).cursor().1, old(self).font().1, fb_height as int),
            ),
            final(self).colors() == old(self).colors(),
            final(self).screen() == old(self).screen(),
            final(self).font() == old(self).font(),
    {
        proof {
            lemma_cell_bounds(self.cursor_y, self.font_height);
        }
        let next_y = self.cursor_y + 1;
        if (next_y as u128 + 1) * self.font_height as u128 >= fb_height as u128 {
            self.cursor_y = 0;
            assert((0 + 1) * self.font_height == self.font_height) by (nonlinear_arith);
        } else {
            self.cursor_y = next_y;
        }
    }

    /// Moves the cursor to the start of the next line.
    fn inc_cursor_new_line(&mut self) -> (r: Result<(), Error>)
        requires
            old(self).wf(),
        ensures
            final(self).wf(),
            old(self).screen() is None ==> r == Err::<(), Error>(Error::NotInitialized)
                && *final(self) == *old(self),
            old(self).screen() is Some ==> r is Ok && final(self).cursor() == (
                0int,
                next_row(old(self).cursor().1, old(self).font().1, old(self).screen()->Some_0.1),
            ) && final(self).colors() == if final(self).cursor() == (0int, 0int) {
                (old(self).colors().1, old(self).colors().0)
            } else {
                old(self).colors()
            },
            final(self).screen() == old(self).screen(),
            final(self).font() == old(self).font(),
    {
        let (_, fb_height) = self.fb_wh()?;
        self.cursor_x = 0;
        assert((0 + 1) * self.font_width == self.font_width) by (nonlinear_arith);
        self.advance_row(fb_height);
        self.swap_color();
        Ok(())
    }

    /// Writes one character: a newline moves to the next line, a tab asks for
    /// the tab text, and any other character is drawn at the cursor in the
    /// current colours before the cursor moves on. `NotInitialized` before
    /// `init`, except for a tab.
    pub fn write_char(&mut self, c: char) -> (r: Result<ConsoleOutput, Error>)
        requires
            old(self).wf(),
        ensures
            final(self).wf(),
            c == '\t' ==> r == Ok::<ConsoleOutput, Error>(ConsoleOutput::Tab)
                && *final(self) == *old(self),
            c != '\t' && old(self).screen() is None ==> r == Err::<ConsoleOutput, Error>(
                Error::NotInitialized,
            ) && *final(self) == *old(self),
            final(self).screen() == old(self).screen(),
            final(self).font() == old(self).font(),
            c == '\n' && old(self).screen() is Some ==> r == Ok::<ConsoleOutput, Error>(
                ConsoleOutput::NewLine,
            ) && final(self).cursor() == (
                0int,
                next_row(old(self).cursor().1, old(self).font().1, old(self).screen()->Some_0.1),
            ),
            c != '\t' && old(self).screen() is Some ==> final(self).colors() == if final(self).cursor() == (0int, 0int) {
                (old(self).colors().1, old(self).colors().0)
            } else {
                old(self).colors()
            },
            c != '\n' && c != '\t' && old(self).screen() is Some ==> r == Ok::<ConsoleOutput, Error>(
                ConsoleOutput::Glyph {
                    x: (old(self).cursor().0 * old(self).font().0) as usize,
                    y: (old(self).cursor().1 * old(self).font().1) as usize,
                    fore: old(self).colors().0,
                    back: old(self).colors().1,
                },
            ) && final(self).cursor() == next_cell(
                old(self).cursor().0,
                old(self).cursor().1,
                old(self).font().0,
                old(self).font().1,
                old(self).screen()->Some_0.0,
                old(self).screen()->Some_0.1,
            ),
    {
        if c == '\n' {
            self.inc_cursor_new_line()?;
            return Ok(ConsoleOutput::NewLine);
        }
        if c == '\t' {
            return Ok(ConsoleOutput::Tab);
        }
        self.fb_wh()?;
        proof {
            lemma_cell_bounds(self.cursor_x, self.font_width);
            lemma_cell_bounds(self.cursor_y, self.font_height);
        }
        let glyph = ConsoleOutput::Glyph {
            x: self.cursor_x * self.font_width,
            y: self.cursor_y * self.font_height,
            fore: self.fore_color,
            back: self.back_color,
        };
        self.inc_cursor()?;
        Ok(glyph)
    }
}

} // verus!
