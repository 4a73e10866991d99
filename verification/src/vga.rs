//! The first text-mode console: a write-only view of the character
//! framebuffer, without cursor control.
//!
//! The framebuffer is memory the video hardware scans: a grid of 16-bit
//! cells, one per character, rows `pitch` cells apart. The console owns the
//! cell contents it has produced (starting from an all-zero screen) and every
//! write is stated cell by cell; the unverified shell maps that buffer onto
//! the device's linear address. When the cursor runs past the bottom row it
//! wraps to the top without scrolling, overwriting prior content — specified
//! behavior, not an oversight.

use vstd::prelude::*;

use crate::utils::grid::lemma_cell_index;
use crate::utils::grid::lemma_index_decompose;
use crate::utils::grid::lemma_row_index_bound;

verus! {

/// The 16 text-mode colors, in their numeric order starting at black = 0.
#[derive(Clone, Copy, Debug, PartialEq, Eq, Structural)]
pub enum Color {
    Black,
    Blue,
    Green,
    Cyan,
    Red,
    Magenta,
    Brown,
    LightGrey,
    DarkGrey,
    LightBlue,
    LightGreen,
    LightCyan,
    LightRed,
    LightMagenta,
    LightBrown,
    White,
}

impl Color {
    /// The color's 4-bit code.
    pub open spec fn spec_value(self) -> u8 {
        match self {
            Color::Black => 0,
            Color::Blue => 1,
            Color::Green => 2,
            Color::Cyan => 3,
            Color::Red => 4,
            Color::Magenta => 5,
            Color::Brown => 6,
            Color::LightGrey => 7,
            Color::DarkGrey => 8,
            Color::LightBlue => 9,
            Color::LightGreen => 10,
            Color::LightCyan => 11,
            Color::LightRed => 12,
            Color::LightMagenta => 13,
            Color::LightBrown => 14,
            Color::White => 15,
        }
    }

    /// The color's 4-bit code.
    #[verifier::when_used_as_spec(spec_value)]
    pub fn value(self) -> (r: u8)
        ensures
            r == self.spec_value(),
            r < 16,
    {
        match self {
            Color::Black => 0,
            Color::Blue => 1,
            Color::Green => 2,
            Color::Cyan => 3,
            Color::Red => 4,
            Color::Magenta => 5,
            Color::Brown => 6,
            Color::LightGrey => 7,
            Color::DarkGrey => 8,
            Color::LightBlue => 9,
            Color::LightGreen => 10,
            Color::LightCyan => 11,
            Color::LightRed => 12,
            Color::LightMagenta => 13,
            Color::LightBrown => 14,
            Color::White => 15,
        }
    }
}

/// The color byte of a cell: foreground in the low nibble, background in the
/// high nibble.
pub open spec fn spec_entry_color(fg: Color, bg: Color) -> u8 {
    fg.spec_value() | bg.spec_value() << 4
}

/// One cell: the character byte in the low half, the color byte in the high
/// half.
pub open spec fn spec_entry(byte: u8, color: u8) -> u16 {
    byte as u16 | (color as u16) << 8
}

fn entry_color(fg: Color, bg: Color) -> (r: u8)
    ensures
        r == spec_entry_color(fg, bg),
{
    fg.value() | bg.value() << 4
}

fn entry(byte: u8, color: u8) -> (r: u16)
    ensures
        r == spec_entry(byte, color),
{
    byte as u16 | (color as u16) << 8
}

/// The geometry of the character framebuffer: `width` by `height` visible
/// cells, rows `pitch` cells apart, starting at linear address `addr`.
#[derive(Clone, Copy, Debug, PartialEq, Eq, Structural)]
pub struct FrameBuffer {
    pub width: usize,
    pub height: usize,
    pub pitch: usize,
    pub addr: u32,
}

impl FrameBuffer {
    pub fn new(width: usize, height: usize, pitch: usize, addr: u32) -> (r: Self)
        ensures
            r == (FrameBuffer { width, height, pitch, addr }),
    {
        FrameBuffer { width, height, pitch, addr }
    }

    /// Geometry under which every cell write lands inside the buffer: at
    /// least one visible cell, rows no wider than the pitch, and a cell
    /// count a buffer can hold.
    pub open spec fn wf(self) -> bool {
        0 < self.width <= self.pitch && 0 < self.height && self.pitch * self.height <= usize::MAX
    }
}

/// The console over a framebuffer: the cell contents written so far (its
/// view), the cursor position, and the current color byte.
pub struct Console {
    pub buffer: FrameBuffer,
    pub cells: Vec<u16>,
    pub x: usize,
    pub y: usize,
    pub color: u8,
}

impl View for Console {
    type V = Seq<u16>;

    open spec fn view(&self) -> Seq<u16> {
        self.cells@
    }
}

/// The column the next character of `byte` lands in: column 0 after a line
/// break or once the cursor has run past the last column, the cursor column
/// otherwise.
pub open spec fn target_col(c: Console, byte: u8) -> int {
    if byte == 10 || c.x >= c.buffer.width {
        0
    } else {
        c.x as int
    }
}

/// The row the next character of `byte` lands in: the next row — wrapping to
/// the top without scrolling — after a line break or a full line, the cursor
/// row otherwise.
pub open spec fn target_row(c: Console, byte: u8) -> int {
    if byte == 10 || c.x >= c.buffer.width {
        if c.y + 1 < c.buffer.height {
            c.y + 1
        } else {
            0
        }
    } else {
        c.y as int
    }
}

impl Console {
    /// A console is well formed when its geometry is, its cell buffer covers
    /// the geometry, and the cursor is inside the screen (the column may
    /// rest one past the last, until the next write wraps it).
    pub open spec fn wf(self) -> bool {
        &&& self.buffer.wf()
        &&& self@.len() == self.buffer.pitch * self.buffer.height
        &&& self.x <= self.buffer.width
        &&& self.y < self.buffer.height
    }

    /// A console over `buffer` with the cursor at the top left, all cells
    /// zero, and the given colors.
    pub fn new(buffer: FrameBuffer, fg: Color, bg: Color) -> (r: Self)
        requires
            buffer.wf(),
        ensures
            r.wf(),
            r.buffer == buffer,
            r.x == 0,
            r.y == 0,
            r.color == spec_entry_color(fg, bg),
            forall|i: int| 0 <= i < r@.len() ==> r@[i] == 0,
    {
        let n = buffer.pitch * buffer.height;
        let mut cells: Vec<u16> = Vec::new();
        while cells.len() < n
            invariant
                cells@.len() <= n,
                forall|i: int| 0 <= i < cells@.len() ==> cells@[i] == 0,
            decreases n - cells@.len(),
        {
            cells.push(0);
        }
        Console { buffer, cells, x: 0, y: 0, color: entry_color(fg, bg) }
    }

    /// Changes the color byte used by later writes; nothing else moves.
    pub fn set_color(&mut self, fg: Color, bg: Color)
        ensures
            final(self).color == spec_entry_color(fg, bg),
            final(self)@ == old(self)@,
            final(self).buffer == old(self).buffer,
            final(self).x == old(self).x,
            final(self).y == old(self).y,
    {
        self.color = entry_color(fg, bg);
    }

    /// Writes one cell at raw index `idx`.
    pub fn write_at(&mut self, idx: usize, byte: u8, color: u8)
        requires
            idx < old(self)@.len(),
        ensures
            final(self)@ == old(self)@.update(idx as int, spec_entry(byte, color)),
            final(self).buffer == old(self).buffer,
            final(self).color == old(self).color,
            final(self).x == old(self).x,
            final(self).y == old(self).y,
    {
        self.cells[idx] = entry(byte, color);
    }

    /// Writes one character at the cursor and advances it. A line break only
    /// moves the cursor. A full line wraps to column 0 of the next row, and
    /// the bottom of the screen wraps back to the top row, without
    /// scrolling.
    pub fn write_byte(&mut self, byte: u8)
        requires
            old(self).wf(),
        ensures
            final(self).wf(),
            final(self).buffer == old(self).buffer,
            final(self).color == old(self).color,
            final(self).y == target_row(*old(self), byte),
            byte == 10 ==> final(self)@ == old(self)@ && final(self).x == 0,
            byte != 10 ==> final(self)@ == old(self)@.update(
                old(self).buffer.pitch * target_row(*old(self), byte) + target_col(
                    *old(self),
                    byte,
                ),
                spec_entry(byte, old(self).color),
            ) && final(self).x == target_col(*old(self), byte) + 1,
    {
        if byte == 10 || self.x >= self.buffer.width {
            self.x = 0;
            self.y = self.y + 1;
        }
        if self.y >= self.buffer.height {
            self.y = 0;
        }
        if byte == 10 {
            return ;
        }
        proof {
            lemma_cell_index(self.buffer.pitch as int, self.y as int, self.x as int);
            lemma_row_index_bound(
                self.buffer.pitch as int,
                self.buffer.height as int,
                self.y as int,
                self.x as int,
            );
        }
        let idx = self.buffer.pitch * self.y + self.x;
        let e = entry(byte, self.color);
        self.cells[idx] = e;
        self.x = self.x + 1;
    }

    /// Fills every visible cell with a blank in `bg` on `bg`; cells beyond
    /// the visible width of a row keep their contents, and the cursor and
    /// current color do not move.
    pub fn clear(&mut self, bg: Color)
        requires
            old(self).wf(),
        ensures
            final(self).wf(),
            final(self).buffer == old(self).buffer,
            final(self).color == old(self).color,
            final(self).x == old(self).x,
            final(self).y == old(self).y,
            final(self)@.len() == old(self)@.len(),
            forall|i: int|
                0 <= i < final(self)@.len() ==> final(self)@[i] == (if i % (
                old(self).buffer.pitch as int) < old(self).buffer.width && i / (
                old(self).buffer.pitch as int) < old(self).buffer.height {
                    spec_entry(0x20, spec_entry_color(bg, bg))
                } else {
                    old(self)@[i]
                }),
    {
        let color = entry_color(bg, bg);
        self.fill(0x20, color);
    }

    /// Fills every visible cell with `byte` in `color`.
    fn fill(&mut self, byte: u8, color: u8)
        requires
            old(self).wf(),
        ensures
            final(self).wf(),
            final(self).buffer == old(self).buffer,
            final(self).color == old(self).color,
            final(self).x == old(self).x,
            final(self).y == old(self).y,
            final(self)@.len() == old(self)@.len(),
            forall|i: int|
                0 <= i < final(self)@.len() ==> final(self)@[i] == (if i % (
                old(self).buffer.pitch as int) < old(self).buffer.width && i / (
                old(self).buffer.pitch as int) < old(self).buffer.height {
                    spec_entry(byte, color)
                } else {
                    old(self)@[i]
                }),
    {
        let width = self.buffer.width;
        let height = self.buffer.height;
        let pitch = self.buffer.pitch;
        let ghost orig = *old(self);
        let mut y: usize = 0;
        while y < height
            invariant
                self.wf(),
                orig.wf(),
                self.buffer == orig.buffer,
                self.color == orig.color,
                self.x == orig.x,
                self.y == orig.y,
                self@.len() == orig@.len(),
                width == orig.buffer.width,
                height == orig.buffer.height,
                pitch == orig.buffer.pitch,
                y <= height,
                forall|i: int|
                    0 <= i < self@.len() ==> self@[i] == (if i % (pitch as int) < width && i / (
                    pitch as int) < y {
                        spec_entry(byte, color)
                    } else {
                        orig@[i]
                    }),
            decreases height - y,
        {
            let mut x: usize = 0;
            while x < width
                invariant
                    self.wf(),
                    orig.wf(),
                    self.buffer == orig.buffer,
                    self.color == orig.color,
                    self.x == orig.x,
                    self.y == orig.y,
                    self@.len() == orig@.len(),
                    width == orig.buffer.width,
                    height == orig.buffer.height,
                    pitch == orig.buffer.pitch,
                    y < height,
                    x <= width,
                    forall|i: int|
                        0 <= i < self@.len() ==> self@[i] == (if i % (pitch as int) < width && (i / (
                        pitch as int) < y || (i / (pitch as int) == y && i % (pitch as int)
                            < x)) {
                            spec_entry(byte, color)
                        } else {
                            orig@[i]
                        }),
                decreases width - x,
            {
                proof {
                    lemma_cell_index(pitch as int, y as int, x as int);
                    lemma_row_index_bound(pitch as int, height as int, y as int, x as int);
                }
                let idx = y * pitch + x;
                self.write_at(idx, byte, color);
                proof {
                    assert forall|i: int| 0 <= i < self@.len() implies self@[i] == (if i % (
                    pitch as int) < width && (i / (pitch as int) < y || (i / (pitch as int) == y
                        && i % (pitch as int) < x + 1)) {
                        spec_entry(byte, color)
                    } else {
                        orig@[i]
                    }) by {
                        lemma_index_decompose(pitch as int, i);
                    }
                }
                x = x + 1;
            }
            y = y + 1;
        }
    }

    /// Paints the visible region with a full-screen image: cell `(x, y)`
    /// gets a blank in the color `img[y * width + x]`. An image smaller than
    /// the screen leaves the console untouched.
    pub fn wallpaper(&mut self, img: &[u8])
        requires
            old(self).wf(),
        ensures
            final(self).wf(),
            final(self).buffer == old(self).buffer,
            final(self).color == old(self).color,
            final(self).x == old(self).x,
            final(self).y == old(self).y,
            final(self)@.len() == old(self)@.len(),
            img@.len() < old(self).buffer.width * old(self).buffer.height
                ==> final(self)@ == old(self)@,
            img@.len() >= old(self).buffer.width * old(self).buffer.height
                ==> forall|i: int|
                0 <= i < final(self)@.len() ==> final(self)@[i] == (if i % (
                old(self).buffer.pitch as int) < old(self).buffer.width && i / (
                old(self).buffer.pitch as int) < old(self).buffer.height {
                    spec_entry(
                        0x20,
                        img@[i / (old(self).buffer.pitch as int) * (
                        old(self).buffer.width as int) + i % (
                        old(self).buffer.pitch as int)],
                    )
                } else {
                    old(self)@[i]
                }),
    {
        let width = self.buffer.width;
        let height = self.buffer.height;
        let pitch = self.buffer.pitch;
        proof {
            vstd::arithmetic::mul::lemma_mul_inequality(
                width as int,
                pitch as int,
                height as int,
            );
            vstd::arithmetic::mul::lemma_mul_is_commutative(width as int, height as int);
            vstd::arithmetic::mul::lemma_mul_is_commutative(pitch as int, height as int);
        }
        let len = width * height;
        if img.len() < len {
            return ;
        }
        let ghost orig = *old(self);
        let mut y: usize = 0;
        while y < height
            invariant
                self.wf(),
                orig.wf(),
                self.buffer == orig.buffer,
                self.color == orig.color,
                self.x == orig.x,
                self.y == orig.y,
                self@.len() == orig@.len(),
                width == orig.buffer.width,
                height == orig.buffer.height,
                pitch == orig.buffer.pitch,
                len == width * height,
                img@.len() >= len,
                y <= height,
                forall|i: int|
                    0 <= i < self@.len() ==> self@[i] == (if i % (pitch as int) < width && i / (
                    pitch as int) < y {
                        spec_entry(0x20, img@[i / (pitch as int) * (width as int) + i % (pitch as int)])
                    } else {
                        orig@[i]
                    }),
            decreases height - y,
        {
            let mut x: usize = 0;
            while x < width
                invariant
                    self.wf(),
                    orig.wf(),
                    self.buffer == orig.buffer,
                    self.color == orig.color,
                    self.x == orig.x,
                    self.y == orig.y,
                    self@.len() == orig@.len(),
                    width == orig.buffer.width,
                    height == orig.buffer.height,
                    pitch == orig.buffer.pitch,
                    len == width * height,
                    img@.len() >= len,
                    y < height,
                    x <= width,
                    forall|i: int|
                        0 <= i < self@.len() ==> self@[i] == (if i % (pitch as int) < width && (i / (
                        pitch as int) < y || (i / (pitch as int) == y && i % (pitch as int)
                            < x)) {
                            spec_entry(
                                0x20,
                                img@[i / (pitch as int) * (width as int) + i % (pitch as int)],
                            )
                        } else {
                            orig@[i]
                        }),
                decreases width - x,
            {
                proof {
                    lemma_cell_index(pitch as int, y as int, x as int);
                    lemma_row_index_bound(pitch as int, height as int, y as int, x as int);
                    lemma_row_index_bound(width as int, height as int, y as int, x as int);
                }
                let idx = y * pitch + x;
                let color = img[y * width + x];
                self.write_at(idx, 0x20, color);
                proof {
                    assert forall|i: int| 0 <= i < self@.len() implies self@[i] == (if i % (
                    pitch as int) < width && (i / (pitch as int) < y || (i / (pitch as int) == y
                        && i % (pitch as int) < x + 1)) {
                        spec_entry(0x20, img@[i / (pitch as int) * (width as int) + i % (pitch as int)])
                    } else {
                        orig@[i]
                    }) by {
                        lemma_index_decompose(pitch as int, i);
                    }
                }
                x = x + 1;
            }
            y = y + 1;
        }
    }
}

} // verus!
