//! The text-mode console driver: framebuffer writes plus hardware cursor
//! control through the CRT controller's register pair.
//!
//! Cell writes are modeled as in the plain framebuffer console: the console
//! owns the cell contents it has produced, and every routine states its
//! writes cell by cell. Cursor control goes over two I/O ports — an index
//! write selecting a CRT register, then a data write — and every such
//! routine appends its exact transactions to the [`IoLog`]. The cursor wraps
//! from the bottom row back to the top without scrolling, as designed.

use vstd::prelude::*;

use crate::arch::ports::IoLog;
use crate::arch::ports::IoOp;
use crate::arch::ports::Port;
use crate::utils::grid::lemma_cell_index;
use crate::utils::grid::lemma_index_decompose;
use crate::utils::grid::lemma_row_index_bound;

verus! {

/// Index register port of the CRT controller.
pub const CRTC_INDEX: u16 = 0x3D4;

/// Data register port of the CRT controller.
pub const CRTC_DATA: u16 = 0x3D5;

/// The 16 text-mode colors, in their numeric order starting at black = 0.
#[derive(Clone, Copy, Debug, PartialEq, Eq, Structural)]
pub enum Color {
    Black,
    Blue,
    Green,
    Cyan,
    Red,
    Magenta,
    Brown,
    LightGrey,
    DarkGrey,
    LightBlue,
    LightGreen,
    LightCyan,
    LightRed,
    LightMagenta,
    LightBrown,
    White,
}

impl Color {
    /// The color's 4-bit code.
    pub open spec fn spec_value(self) -> u8 {
        match self {
            Color::Black => 0,
            Color::Blue => 1,
            Color::Green => 2,
            Color::Cyan => 3,
            Color::Red => 4,
            Color::Magenta => 5,
            Color::Brown => 6,
            Color::LightGrey => 7,
            Color::DarkGrey => 8,
            Color::LightBlue => 9,
            Color::LightGreen => 10,
            Color::LightCyan => 11,
            Color::LightRed => 12,
            Color::LightMagenta => 13,
            Color::LightBrown => 14,
            Color::White => 15,
        }
    }

    /// The color's 4-bit code.
    #[verifier::when_used_as_spec(spec_value)]
    pub fn value(self) -> (r: u8)
        ensures
            r == self.spec_value(),
            r < 16,
    {
        match self {
            Color::Black => 0,
            Color::Blue => 1,
            Color::Green => 2,
            Color::Cyan => 3,
            Color::Red => 4,
            Color::Magenta => 5,
            Color::Brown => 6,
            Color::LightGrey => 7,
            Color::DarkGrey => 8,
            Color::LightBlue => 9,
            Color::LightGreen => 10,
            Color::LightCyan => 11,
            Color::LightRed => 12,
            Color::LightMagenta => 13,
            Color::LightBrown => 14,
            Color::White => 15,
        }
    }
}

/// A frame style: three stock glyph sets, one corner/vertical/horizontal
/// choice, or all eight glyphs picked freely.
#[derive(Clone, Copy, Debug)]
pub enum Border {
    Simple,
    Double,
    Thick,
    Custom { corners: u8, v: u8, h: u8 },
    FullCustom { no: u8, ne: u8, so: u8, se: u8, n: u8, s: u8, o: u8, e: u8 },
}

/// The glyph a style puts in the top-left corner.
pub open spec fn glyph_no(style: Border) -> u8 {
    match style {
        Border::Simple => 218,
        Border::Double => 201,
        Border::Thick => 219,
        Border::Custom { corners, .. } => corners,
        Border::FullCustom { no, .. } => no,
    }
}

/// The glyph a style puts in the top-right corner.
pub open spec fn glyph_ne(style: Border) -> u8 {
    match style {
        Border::Simple => 191,
        Border::Double => 187,
        Border::Thick => 219,
        Border::Custom { corners, .. } => corners,
        Border::FullCustom { ne, .. } => ne,
    }
}

/// The glyph a style puts in the bottom-left corner.
pub open spec fn glyph_so(style: Border) -> u8 {
    match style {
        Border::Simple => 192,
        Border::Double => 200,
        Border::Thick => 219,
        Border::Custom { corners, .. } => corners,
        Border::FullCustom { so, .. } => so,
    }
}

/// The glyph a style puts in the bottom-right corner.
pub open spec fn glyph_se(style: Border) -> u8 {
    match style {
        Border::Simple => 217,
        Border::Double => 188,
        Border::Thick => 219,
        Border::Custom { corners, .. } => corners,
        Border::FullCustom { se, .. } => se,
    }
}

/// The glyph a style puts on the top edge.
pub open spec fn glyph_n(style: Border) -> u8 {
    match style {
        Border::Simple => 196,
        Border::Double => 205,
        Border::Thick => 223,
        Border::Custom { h, .. } => h,
        Border::FullCustom { n, .. } => n,
    }
}

/// The glyph a style puts on the bottom edge.
pub open spec fn glyph_s(style: Border) -> u8 {
    match style {
        Border::Simple => 196,
        Border::Double => 205,
        Border::Thick => 220,
        Border::Custom { h, .. } => h,
        Border::FullCustom { s, .. } => s,
    }
}

/// The glyph a style puts on the left edge.
pub open spec fn glyph_o(style: Border) -> u8 {
    match style {
        Border::Simple => 179,
        Border::Double => 186,
        Border::Thick => 219,
        Border::Custom { v, .. } => v,
        Border::FullCustom { o, .. } => o,
    }
}

/// The glyph a style puts on the right edge.
pub open spec fn glyph_e(style: Border) -> u8 {
    match style {
        Border::Simple => 179,
        Border::Double => 186,
        Border::Thick => 219,
        Border::Custom { v, .. } => v,
        Border::FullCustom { e, .. } => e,
    }
}

/// Whether cell `(r, c)` lies on the frame of a `w` by `h` screen.
pub open spec fn on_border(w: int, h: int, r: int, c: int) -> bool {
    0 <= r < h && 0 <= c < w && (r == 0 || r == h - 1 || c == 0 || c == w - 1)
}

/// The glyph `style` puts at frame cell `(r, c)` of a `w` by `h` screen.
pub open spec fn border_cell(style: Border, w: int, h: int, r: int, c: int) -> u8 {
    if r == 0 && c == 0 {
        glyph_no(style)
    } else if r == 0 && c == w - 1 {
        glyph_ne(style)
    } else if r == h - 1 && c == 0 {
        glyph_so(style)
    } else if r == h - 1 && c == w - 1 {
        glyph_se(style)
    } else if r == 0 {
        glyph_n(style)
    } else if r == h - 1 {
        glyph_s(style)
    } else if c == 0 {
        glyph_o(style)
    } else {
        glyph_e(style)
    }
}

/// The color byte of a cell: foreground in the low nibble, background in the
/// high nibble.
pub open spec fn spec_entry_color(fg: Color, bg: Color) -> u8 {
    fg.spec_value() | bg.spec_value() << 4
}

/// One cell: the character byte in the low half, the color byte in the high
/// half.
pub open spec fn spec_entry(byte: u8, color: u8) -> u16 {
    byte as u16 | (color as u16) << 8
}

fn entry_color(fg: Color, bg: Color) -> (r: u8)
    ensures
        r == spec_entry_color(fg, bg),
{
    fg.value() | bg.value() << 4
}

fn entry(byte: u8, color: u8) -> (r: u16)
    ensures
        r == spec_entry(byte, color),
{
    byte as u16 | (color as u16) << 8
}

/// The geometry of the character framebuffer: `width` by `height` visible
/// cells, rows `pitch` cells apart, starting at linear address `addr`.
#[derive(Clone, Copy, Debug, PartialEq, Eq, Structural)]
pub struct FrameBuffer {
    pub width: usize,
    pub height: usize,
    pub pitch: usize,
    pub addr: u32,
}

impl FrameBuffer {
    pub fn new(width: usize, height: usize, pitch: usize, addr: u32) -> (r: Self)
        ensures
            r == (FrameBuffer { width, height, pitch, addr }),
    {
        FrameBuffer { width, height, pitch, addr }
    }

    /// Geometry under which every cell write lands inside the buffer.
    pub open spec fn wf(self) -> bool {
        0 < self.width <= self.pitch && 0 < self.height && self.pitch * self.height <= usize::MAX
    }
}

/// The four transactions that move the hardware cursor to cell index `pos`:
/// the low byte through CRT register 15, the high byte through register 14.
pub open spec fn cursor_trace(pos: usize) -> Seq<IoOp> {
    seq![
        IoOp::Out { port: CRTC_INDEX, value: 0x0F },
        IoOp::Out { port: CRTC_DATA, value: (pos & 0xFF) as u8 },
        IoOp::Out { port: CRTC_INDEX, value: 0x0E },
        IoOp::Out { port: CRTC_DATA, value: ((pos >> 8) & 0xFF) as u8 },
    ]
}

/// The console over a framebuffer: the cell contents written so far (its
/// view), the cursor position, the current color byte, and the geometry of
/// the root surface the cursor is reported against.
pub struct Console {
    pub buffer: FrameBuffer,
    pub cells: Vec<u16>,
    pub x: usize,
    pub y: usize,
    pub color: u8,
    pub root_width: usize,
    pub root_offset: usize,
}

impl View for Console {
    type V = Seq<u16>;

    open spec fn view(&self) -> Seq<u16> {
        self.cells@
    }
}

/// The column the cursor rests in after writing `byte`: the next column, or
/// column 0 after a line break or once the line is full.
pub open spec fn next_col(c: Console, byte: u8) -> int {
    if byte == 10 {
        0
    } else if c.x + 1 < c.buffer.width {
        c.x + 1
    } else {
        0
    }
}

/// The row the cursor rests in after writing `byte`: the next row — wrapping
/// from the bottom back to the top, without scrolling — after a line break
/// or a full line, the same row otherwise.
pub open spec fn next_row(c: Console, byte: u8) -> int {
    if byte == 10 || c.x + 1 >= c.buffer.width {
        if c.y + 1 < c.buffer.height {
            c.y + 1
        } else {
            0
        }
    } else {
        c.y as int
    }
}

/// The bottom-right cursor slot of a `w` by `h` surface lies inside its own
/// cell count.
proof fn lemma_root_bound_from_geometry(w: int, h: int, p: int)
    by (nonlinear_arith)
    requires
        0 < w <= p,
        0 < h,
    ensures
        (h - 1) * w + w <= p * h,
{
}

/// The cursor's root index stays below the root-surface bound.
proof fn lemma_cursor_bound(rw: int, ro: int, w: int, h: int, y: int, x: int)
    by (nonlinear_arith)
    requires
        0 <= rw,
        0 <= ro,
        0 <= y < h,
        0 <= x < w,
    ensures
        y * rw + x + ro <= ro + (h - 1) * rw + w,
{
}

/// A sub-surface inside the visible region inherits its parent's
/// root-surface bound.
proof fn lemma_sub_root_bound(rw: int, ro: int, w: int, h: int, x: int, y: int, ws: int, hs: int)
    by (nonlinear_arith)
    requires
        0 <= rw,
        0 <= ro,
        0 <= x,
        0 <= y,
        0 < ws,
        0 < hs,
        x + ws <= w,
        y + hs <= h,
        ro + (h - 1) * rw + w <= usize::MAX,
    ensures
        (y * rw + x + ro) + (hs - 1) * rw + ws <= usize::MAX,
        y * rw + x + ro <= usize::MAX,
{
}

/// The extent of a sub-surface along one axis: a positive request is taken
/// as is; zero or a negative request means "up to the far edge, inset by
/// that much".
pub open spec fn sub_extent(request: isize, start: usize, full: usize) -> int {
    if request > 0 {
        request as int
    } else {
        full - start - (-(request as int))
    }
}

/// Shrinking a surface's height shrinks its cell count.
proof fn lemma_sub_cells_bound(p: int, h: int, hs: int)
    by (nonlinear_arith)
    requires
        0 < p,
        0 < hs <= h,
    ensures
        p * hs <= p * h,
{
}

impl Console {
    /// A console is well formed when its geometry is, its cell buffer covers
    /// the geometry, the cursor is on a visible cell, and the cursor slot
    /// farthest from the root surface's origin still has an index a `usize`
    /// can hold.
    pub open spec fn wf(self) -> bool {
        &&& self.buffer.wf()
        &&& self@.len() == self.buffer.pitch * self.buffer.height
        &&& self.x < self.buffer.width
        &&& self.y < self.buffer.height
        &&& self.root_offset + (self.buffer.height - 1) * self.root_width + self.buffer.width
            <= usize::MAX
    }

    /// A console over `buffer` with the cursor at the top left, all cells
    /// zero, and the given colors.
    pub fn new(buffer: FrameBuffer, fg: Color, bg: Color) -> (r: Self)
        requires
            buffer.wf(),
        ensures
            r.wf(),
            r.buffer == buffer,
            r.x == 0,
            r.y == 0,
            r.color == spec_entry_color(fg, bg),
            r.root_width == buffer.width,
            r.root_offset == 0,
            forall|i: int| 0 <= i < r@.len() ==> r@[i] == 0,
    {
        proof {
            lemma_root_bound_from_geometry(
                buffer.width as int,
                buffer.height as int,
                buffer.pitch as int,
            );
        }
        let n = buffer.pitch * buffer.height;
        let mut cells: Vec<u16> = Vec::new();
        while cells.len() < n
            invariant
                cells@.len() <= n,
                forall|i: int| 0 <= i < cells@.len() ==> cells@[i] == 0,
            decreases n - cells@.len(),
        {
            cells.push(0);
        }
        Console {
            x: 0,
            y: 0,
            color: entry_color(fg, bg),
            root_width: buffer.width,
            root_offset: 0,
            buffer,
            cells,
        }
    }

    /// Shows the hardware cursor as a block between scanlines `start` and
    /// `end`. The CRT registers holding the scanline pair are read first and
    /// only their cursor bits replaced; `scan_start_reg` and `scan_end_reg`
    /// are the bytes those reads return.
    pub fn enable_cursor(&mut self, log: &mut IoLog, start: u8, end: u8, scan_start_reg: u8, scan_end_reg: u8)
        ensures
            *final(self) == *old(self),
            final(log)@ == old(log)@ + seq![
                IoOp::Out { port: CRTC_INDEX, value: 0x0A },
                IoOp::In { port: CRTC_DATA, value: scan_start_reg },
                IoOp::Out { port: CRTC_DATA, value: (scan_start_reg & 0xC0) | start },
                IoOp::Out { port: CRTC_INDEX, value: 0x0B },
                IoOp::In { port: CRTC_DATA, value: scan_end_reg },
                IoOp::Out { port: CRTC_DATA, value: (scan_end_reg & 0xE0) | end },
            ],
    {
        let index = Port::new(CRTC_INDEX);
        let data = Port::new(CRTC_DATA);
        index.out_u8(log, 0x0A);
        let s = data.in_u8(log, scan_start_reg);
        data.out_u8(log, (s & 0xC0) | start);
        index.out_u8(log, 0x0B);
        let e = data.in_u8(log, scan_end_reg);
        data.out_u8(log, (e & 0xE0) | end);
        proof {
            assert(log@ =~= old(log)@ + seq![
                IoOp::Out { port: CRTC_INDEX, value: 0x0A },
                IoOp::In { port: CRTC_DATA, value: scan_start_reg },
                IoOp::Out { port: CRTC_DATA, value: (scan_start_reg & 0xC0) | start },
                IoOp::Out { port: CRTC_INDEX, value: 0x0B },
                IoOp::In { port: CRTC_DATA, value: scan_end_reg },
                IoOp::Out { port: CRTC_DATA, value: (scan_end_reg & 0xE0) | end },
            ]);
        }
    }

    /// Hides the hardware cursor: sets the cursor-disable bit in CRT
    /// register 10.
    pub fn disable_cursor(&mut self, log: &mut IoLog)
        ensures
            *final(self) == *old(self),
            final(log)@ == old(log)@ + seq![
                IoOp::Out { port: CRTC_INDEX, value: 0x0A },
                IoOp::Out { port: CRTC_DATA, value: 0x20 },
            ],
    {
        let index = Port::new(CRTC_INDEX);
        let data = Port::new(CRTC_DATA);
        index.out_u8(log, 0x0A);
        data.out_u8(log, 0x20);
        proof {
            assert(log@ =~= old(log)@ + seq![
                IoOp::Out { port: CRTC_INDEX, value: 0x0A },
                IoOp::Out { port: CRTC_DATA, value: 0x20 },
            ]);
        }
    }

    /// The cursor's cell index on the root surface.
    pub fn get_cursor(&self) -> (r: usize)
        requires
            self.wf(),
        ensures
            r == self.y * self.root_width + self.x + self.root_offset,
    {
        proof {
            lemma_cursor_bound(
                self.root_width as int,
                self.root_offset as int,
                self.buffer.width as int,
                self.buffer.height as int,
                self.y as int,
                self.x as int,
            );
        }
        self.y * self.root_width + self.x + self.root_offset
    }

    /// Moves the hardware cursor to cell index `pos`.
    pub fn set_cursor(&mut self, log: &mut IoLog, pos: usize)
        ensures
            *final(self) == *old(self),
            final(log)@ == old(log)@ + cursor_trace(pos),
    {
        let index = Port::new(CRTC_INDEX);
        let data = Port::new(CRTC_DATA);
        index.out_u8(log, 0x0F);
        data.out_u8(log, (pos & 0xFF) as u8);
        index.out_u8(log, 0x0E);
        data.out_u8(log, ((pos >> 8) & 0xFF) as u8);
        proof {
            assert(log@ =~= old(log)@ + cursor_trace(pos));
        }
    }

    /// Moves the hardware cursor to the console's cursor cell.
    pub fn update_cursor(&mut self, log: &mut IoLog)
        requires
            old(self).wf(),
        ensures
            *final(self) == *old(self),
            final(log)@ == old(log)@ + cursor_trace(
                (old(self).y * old(self).root_width + old(self).x
                    + old(self).root_offset) as usize,
            ),
    {
        let pos = self.get_cursor();
        self.set_cursor(log, pos);
    }

    /// Changes the color byte used by later writes; nothing else moves.
    pub fn set_color(&mut self, fg: Color, bg: Color)
        ensures
            final(self).color == spec_entry_color(fg, bg),
            final(self)@ == old(self)@,
            final(self).buffer == old(self).buffer,
            final(self).x == old(self).x,
            final(self).y == old(self).y,
            final(self).root_width == old(self).root_width,
            final(self).root_offset == old(self).root_offset,
    {
        self.color = entry_color(fg, bg);
    }

    /// Writes one cell at raw index `idx`.
    pub fn write_at(&mut self, idx: usize, byte: u8, color: u8)
        requires
            idx < old(self)@.len(),
        ensures
            final(self)@ == old(self)@.update(idx as int, spec_entry(byte, color)),
            final(self).buffer == old(self).buffer,
            final(self).color == old(self).color,
            final(self).x == old(self).x,
            final(self).y == old(self).y,
            final(self).root_width == old(self).root_width,
            final(self).root_offset == old(self).root_offset,
    {
        self.cells[idx] = entry(byte, color);
    }

    /// Writes one character at the cursor, advances the cursor — wrapping at
    /// the line end and from the bottom row back to the top — and moves the
    /// hardware cursor after it. A line break only moves the cursor.
    pub fn write_byte(&mut self, log: &mut IoLog, byte: u8)
        requires
            old(self).wf(),
        ensures
            final(self).wf(),
            final(self).buffer == old(self).buffer,
            final(self).color == old(self).color,
            final(self).root_width == old(self).root_width,
            final(self).root_offset == old(self).root_offset,
            final(self).x == next_col(*old(self), byte),
            final(self).y == next_row(*old(self), byte),
            byte == 10 ==> final(self)@ == old(self)@,
            byte != 10 ==> final(self)@ == old(self)@.update(
                old(self).buffer.pitch * old(self).y + old(self).x,
                spec_entry(byte, old(self).color),
            ),
            final(log)@ == old(log)@ + cursor_trace(
                (next_row(*old(self), byte) * old(self).root_width + next_col(*old(self), byte)
                    + old(self).root_offset) as usize,
            ),
    {
        if byte == 10 {
            self.x = 0;
            self.y = self.y + 1;
        } else {
            proof {
                lemma_cell_index(self.buffer.pitch as int, self.y as int, self.x as int);
                lemma_row_index_bound(
                    self.buffer.pitch as int,
                    self.buffer.height as int,
                    self.y as int,
                    self.x as int,
                );
            }
            let idx = self.buffer.pitch * self.y + self.x;
            let e = entry(byte, self.color);
            self.cells[idx] = e;
            self.x = self.x + 1;
            if self.x >= self.buffer.width {
                self.x = 0;
                self.y = self.y + 1;
            }
        }
        if self.y >= self.buffer.height {
            self.y = 0;
        }
        self.update_cursor(log);
    }

    /// Fills every visible cell with a blank in the current color; cells
    /// beyond the visible width of a row keep their contents, and the cursor
    /// does not move.
    pub fn clear(&mut self)
        requires
            old(self).wf(),
        ensures
            final(self).wf(),
            final(self).buffer == old(self).buffer,
            final(self).color == old(self).color,
            final(self).x == old(self).x,
            final(self).y == old(self).y,
            final(self)@.len() == old(self)@.len(),
            forall|i: int|
                0 <= i < final(self)@.len() ==> final(self)@[i] == (if i % (
                old(self).buffer.pitch as int) < old(self).buffer.width && i / (
                old(self).buffer.pitch as int) < old(self).buffer.height {
                    spec_entry(0x20, old(self).color)
                } else {
                    old(self)@[i]
                }),
    {
        let color = self.color;
        self.fill(0x20, color);
    }

    /// Fills every visible cell with `byte` in `color`.
    fn fill(&mut self, byte: u8, color: u8)
        requires
            old(self).wf(),
        ensures
            final(self).wf(),
            final(self).buffer == old(self).buffer,
            final(self).color == old(self).color,
            final(self).x == old(self).x,
            final(self).y == old(self).y,
            final(self)@.len() == old(self)@.len(),
            forall|i: int|
                0 <= i < final(self)@.len() ==> final(self)@[i] == (if i % (
                old(self).buffer.pitch as int) < old(self).buffer.width && i / (
                old(self).buffer.pitch as int) < old(self).buffer.height {
                    spec_entry(byte, color)
                } else {
                    old(self)@[i]
                }),
    {
        let width = self.buffer.width;
        let height = self.buffer.height;
        let pitch = self.buffer.pitch;
        let ghost orig = *old(self);
        let mut y: usize = 0;
        while y < height
            invariant
                self.wf(),
                orig.wf(),
                self.buffer == orig.buffer,
                self.color == orig.color,
                self.x == orig.x,
                self.y == orig.y,
                self.root_width == orig.root_width,
                self.root_offset == orig.root_offset,
                self@.len() == orig@.len(),
                width == orig.buffer.width,
                height == orig.buffer.height,
                pitch == orig.buffer.pitch,
                y <= height,
                forall|i: int|
                    0 <= i < self@.len() ==> self@[i] == (if i % (pitch as int) < width && i / (
                    pitch as int) < y {
                        spec_entry(byte, color)
                    } else {
                        orig@[i]
                    }),
            decreases height - y,
        {
            let mut x: usize = 0;
            while x < width
                invariant
                    self.wf(),
                    orig.wf(),
                    self.buffer == orig.buffer,
                    self.color == orig.color,
                    self.x == orig.x,
                    self.y == orig.y,
                    self.root_width == orig.root_width,
                    self.root_offset == orig.root_offset,
                    self@.len() == orig@.len(),
                    width == orig.buffer.width,
                    height == orig.buffer.height,
                    pitch == orig.buffer.pitch,
                    y < height,
                    x <= width,
                    forall|i: int|
                        0 <= i < self@.len() ==> self@[i] == (if i % (pitch as int) < width && (i / (
                        pitch as int) < y || (i / (pitch as int) == y && i % (pitch as int)
                            < x)) {
                            spec_entry(byte, color)
                        } else {
                            orig@[i]
                        }),
                decreases width - x,
            {
                proof {
                    lemma_cell_index(pitch as int, y as int, x as int);
                    lemma_row_index_bound(pitch as int, height as int, y as int, x as int);
                }
                let idx = y * pitch + x;
                self.write_at(idx, byte, color);
                proof {
                    assert forall|i: int| 0 <= i < self@.len() implies self@[i] == (if i % (
                    pitch as int) < width && (i / (pitch as int) < y || (i / (pitch as int) == y
                        && i % (pitch as int) < x + 1)) {
                        spec_entry(byte, color)
                    } else {
                        orig@[i]
                    }) by {
                        lemma_index_decompose(pitch as int, i);
                    }
                }
                x = x + 1;
            }
            y = y + 1;
        }
    }

    /// Draws a frame in `style` along the edge of the visible region;
    /// interior cells, cells beyond the visible width, and the cursor stay
    /// put. A screen without room for a frame (fewer than two rows or two
    /// columns) is left untouched.
    pub fn border(&mut self, style: Border)
        requires
            old(self).wf(),
        ensures
            final(self).wf(),
            final(self).buffer == old(self).buffer,
            final(self).color == old(self).color,
            final(self).x == old(self).x,
            final(self).y == old(self).y,
            final(self)@.len() == old(self)@.len(),
            old(self).buffer.width < 2 || old(self).buffer.height < 2 ==> final(self)@ == old(
                self,
            )@,
            old(self).buffer.width >= 2 && old(self).buffer.height >= 2 ==> forall|i: int|
                0 <= i < final(self)@.len() ==> final(self)@[i] == (if on_border(
                    old(self).buffer.width as int,
                    old(self).buffer.height as int,
                    i / (old(self).buffer.pitch as int),
                    i % (old(self).buffer.pitch as int),
                ) {
                    spec_entry(
                        border_cell(
                            style,
                            old(self).buffer.width as int,
                            old(self).buffer.height as int,
                            i / (old(self).buffer.pitch as int),
                            i % (old(self).buffer.pitch as int),
                        ),
                        old(self).color,
                    )
                } else {
                    old(self)@[i]
                }),
    {
        let width = self.buffer.width;
        let height = self.buffer.height;
        let pitch = self.buffer.pitch;
        if width < 2 || height < 2 {
            return ;
        }
        let (no, ne, so, se, n, s, o, e) = match style {
            Border::Simple => (218, 191, 192, 217, 196, 196, 179, 179),
            Border::Double => (201, 187, 200, 188, 205, 205, 186, 186),
            Border::Thick => (219, 219, 219, 219, 223, 220, 219, 219),
            Border::Custom { corners: c, v, h } => (c, c, c, c, h, h, v, v),
            Border::FullCustom { no, ne, so, se, n, s, o, e } => (no, ne, so, se, n, s, o, e),
        };
        proof {
            assert(no == glyph_no(style) && ne == glyph_ne(style) && so == glyph_so(style) && se
                == glyph_se(style) && n == glyph_n(style) && s == glyph_s(style) && o == glyph_o(
                style,
            ) && e == glyph_e(style));
        }
        let color = self.color;
        let ghost orig = *old(self);
        let mut i: usize = 1;
        while i < width - 1
            invariant
                self.wf(),
                orig.wf(),
                self.buffer == orig.buffer,
                self.color == orig.color,
                self.x == orig.x,
                self.y == orig.y,
                self.root_width == orig.root_width,
                self.root_offset == orig.root_offset,
                self@.len() == orig@.len(),
                color == orig.color,
                width == orig.buffer.width,
                height == orig.buffer.height,
                pitch == orig.buffer.pitch,
                2 <= width,
                2 <= height,
                1 <= i <= width - 1,
                forall|k: int|
                    0 <= k < self@.len() ==> self@[k] == (if k % (pitch as int) < i && 1 <= k % (
                    pitch as int) && (k / (pitch as int) == 0 || k / (pitch as int) == height
                        - 1) {
                        spec_entry(
                            if k / (pitch as int) == 0 {
                                n
                            } else {
                                s
                            },
                            color,
                        )
                    } else {
                        orig@[k]
                    }),
            decreases width - 1 - i,
        {
            proof {
                lemma_cell_index(pitch as int, 0, i as int);
                lemma_cell_index(pitch as int, height as int - 1, i as int);
                lemma_row_index_bound(pitch as int, height as int, 0, i as int);
                lemma_row_index_bound(pitch as int, height as int, height as int - 1, i as int);
            }
            self.write_at(i, n, color);
            let low = i + (height - 1) * pitch;
            self.write_at(low, s, color);
            proof {
                assert forall|k: int| 0 <= k < self@.len() implies self@[k] == (if k % (
                pitch as int) < i + 1 && 1 <= k % (pitch as int) && (k / (pitch as int) == 0 || k
                    / (pitch as int) == height - 1) {
                    spec_entry(
                        if k / (pitch as int) == 0 {
                            n
                        } else {
                            s
                        },
                        color,
                    )
                } else {
                    orig@[k]
                }) by {
                    lemma_index_decompose(pitch as int, k);
                }
            }
            i = i + 1;
        }
        let mut j: usize = 1;
        while j < height - 1
            invariant
                self.wf(),
                orig.wf(),
                self.buffer == orig.buffer,
                self.color == orig.color,
                self.x == orig.x,
                self.y == orig.y,
                self.root_width == orig.root_width,
                self.root_offset == orig.root_offset,
                self@.len() == orig@.len(),
                color == orig.color,
                width == orig.buffer.width,
                height == orig.buffer.height,
                pitch == orig.buffer.pitch,
                2 <= width,
                2 <= height,
                1 <= j <= height - 1,
                forall|k: int|
                    0 <= k < self@.len() ==> self@[k] == (if 1 <= k % (pitch as int) < width - 1
                        && (k / (pitch as int) == 0 || k / (pitch as int) == height - 1) {
                        spec_entry(
                            if k / (pitch as int) == 0 {
                                n
                            } else {
                                s
                            },
                            color,
                        )
                    } else if (k % (pitch as int) == 0 || k % (pitch as int) == width - 1) && 1
                        <= k / (pitch as int) < j {
                        spec_entry(
                            if k % (pitch as int) == 0 {
                                o
                            } else {
                                e
                            },
                            color,
                        )
                    } else {
                        orig@[k]
                    }),
            decreases height - 1 - j,
        {
            proof {
                lemma_cell_index(pitch as int, j as int, 0);
                lemma_cell_index(pitch as int, j as int, width as int - 1);
                lemma_row_index_bound(pitch as int, height as int, j as int, 0);
                lemma_row_index_bound(pitch as int, height as int, j as int, width as int - 1);
            }
            let left = j * pitch;
            self.write_at(left, o, color);
            let right = j * pitch + width - 1;
            self.write_at(right, e, color);
            proof {
                assert forall|k: int| 0 <= k < self@.len() implies self@[k] == (if 1 <= k % (
                pitch as int) < width - 1 && (k / (pitch as int) == 0 || k / (pitch as int)
                    == height - 1) {
                    spec_entry(
                        if k / (pitch as int) == 0 {
                            n
                        } else {
                            s
                        },
                        color,
                    )
                } else if (k % (pitch as int) == 0 || k % (pitch as int) == width - 1) && 1 <= k
                    / (pitch as int) < j + 1 {
                    spec_entry(
                        if k % (pitch as int) == 0 {
                            o
                        } else {
                            e
                        },
                        color,
                    )
                } else {
                    orig@[k]
                }) by {
                    lemma_index_decompose(pitch as int, k);
                }
            }
            j = j + 1;
        }
        proof {
            lemma_cell_index(pitch as int, 0, 0);
            lemma_cell_index(pitch as int, 0, width as int - 1);
            lemma_cell_index(pitch as int, height as int - 1, 0);
            lemma_cell_index(pitch as int, height as int - 1, width as int - 1);
            lemma_row_index_bound(pitch as int, height as int, height as int - 1, 0);
            lemma_row_index_bound(
                pitch as int,
                height as int,
                height as int - 1,
                width as int - 1,
            );
        }
        self.write_at(0, no, color);
        self.write_at(width - 1, ne, color);
        let bottom_left = (height - 1) * pitch;
        self.write_at(bottom_left, so, color);
        let bottom_right = (height - 1) * pitch + width - 1;
        self.write_at(bottom_right, se, color);
        proof {
            assert forall|k: int| 0 <= k < self@.len() implies self@[k] == (if on_border(
                width as int,
                height as int,
                k / (pitch as int),
                k % (pitch as int),
            ) {
                spec_entry(
                    border_cell(style, width as int, height as int, k / (pitch as int), k % (
                    pitch as int)),
                    color,
                )
            } else {
                orig@[k]
            }) by {
                lemma_index_decompose(pitch as int, k);
            }
        }
    }

    /// Paints the visible region with a full-screen image: cell `(x, y)`
    /// gets a blank in the color `img[y * width + x]`. An image smaller than
    /// the screen leaves the console untouched.
    pub fn wallpaper(&mut self, img: &[u8])
        requires
            old(self).wf(),
        ensures
            final(self).wf(),
            final(self).buffer == old(self).buffer,
            final(self).color == old(self).color,
            final(self).x == old(self).x,
            final(self).y == old(self).y,
            final(self)@.len() == old(self)@.len(),
            img@.len() < old(self).buffer.width * old(self).buffer.height ==> final(self)@ == old(
                self,
            )@,
            img@.len() >= old(self).buffer.width * old(self).buffer.height ==> forall|i: int|
                0 <= i < final(self)@.len() ==> final(self)@[i] == (if i % (
                old(self).buffer.pitch as int) < old(self).buffer.width && i / (
                old(self).buffer.pitch as int) < old(self).buffer.height {
                    spec_entry(
                        0x20,
                        img@[i / (old(self).buffer.pitch as int) * (old(self).buffer.width as int)
                            + i % (old(self).buffer.pitch as int)],
                    )
                } else {
                    old(self)@[i]
                }),
    {
        let width = self.buffer.width;
        let height = self.buffer.height;
        let pitch = self.buffer.pitch;
        proof {
            vstd::arithmetic::mul::lemma_mul_inequality(
                width as int,
                pitch as int,
                height as int,
            );
            vstd::arithmetic::mul::lemma_mul_is_commutative(width as int, height as int);
            vstd::arithmetic::mul::lemma_mul_is_commutative(pitch as int, height as int);
        }
        let len = width * height;
        if img.len() < len {
            return ;
        }
        let ghost orig = *old(self);
        let mut y: usize = 0;
        while y < height
            invariant
                self.wf(),
                orig.wf(),
                self.buffer == orig.buffer,
                self.color == orig.color,
                self.x == orig.x,
                self.y == orig.y,
                self.root_width == orig.root_width,
                self.root_offset == orig.root_offset,
                self@.len() == orig@.len(),
                width == orig.buffer.width,
                height == orig.buffer.height,
                pitch == orig.buffer.pitch,
                len == width * height,
                img@.len() >= len,
                y <= height,
                forall|i: int|
                    0 <= i < self@.len() ==> self@[i] == (if i % (pitch as int) < width && i / (
                    pitch as int) < y {
                        spec_entry(0x20, img@[i / (pitch as int) * (width as int) + i % (pitch as int)])
                    } else {
                        orig@[i]
                    }),
            decreases height - y,
        {
            let mut x: usize = 0;
            while x < width
                invariant
                    self.wf(),
                    orig.wf(),
                    self.buffer == orig.buffer,
                    self.color == orig.color,
                    self.x == orig.x,
                    self.y == orig.y,
                    self.root_width == orig.root_width,
                    self.root_offset == orig.root_offset,
                    self@.len() == orig@.len(),
                    width == orig.buffer.width,
                    height == orig.buffer.height,
                    pitch == orig.buffer.pitch,
                    len == width * height,
                    img@.len() >= len,
                    y < height,
                    x <= width,
                    forall|i: int|
                        0 <= i < self@.len() ==> self@[i] == (if i % (pitch as int) < width && (i / (
                        pitch as int) < y || (i / (pitch as int) == y && i % (pitch as int)
                            < x)) {
                            spec_entry(
                                0x20,
                                img@[i / (pitch as int) * (width as int) + i % (pitch as int)],
                            )
                        } else {
                            orig@[i]
                        }),
                decreases width - x,
            {
                proof {
                    lemma_cell_index(pitch as int, y as int, x as int);
                    lemma_row_index_bound(pitch as int, height as int, y as int, x as int);
                    lemma_row_index_bound(width as int, height as int, y as int, x as int);
                }
                let idx = y * pitch + x;
                let color = img[y * width + x];
                self.write_at(idx, 0x20, color);
                proof {
                    assert forall|i: int| 0 <= i < self@.len() implies self@[i] == (if i % (
                    pitch as int) < width && (i / (pitch as int) < y || (i / (pitch as int) == y
                        && i % (pitch as int) < x + 1)) {
                        spec_entry(0x20, img@[i / (pitch as int) * (width as int) + i % (pitch as int)])
                    } else {
                        orig@[i]
                    }) by {
                        lemma_index_decompose(pitch as int, i);
                    }
                }
                x = x + 1;
            }
            y = y + 1;
        }
    }

    /// A console over a sub-rectangle of this one's visible region, starting
    /// `x` columns and `y` rows in, with extents as [`sub_extent`] reads
    /// `width` and `height`. The new console starts at its own top left with
    /// the parent's color, carries the parent's cells under its window (and
    /// blank cells where its last row runs past them), and reports cursor
    /// positions against the same root surface, offset to the window's
    /// origin.
    pub fn sub_surface(&self, x: usize, y: usize, width: isize, height: isize) -> (r: Console)
        requires
            self.wf(),
            isize::MIN < width,
            isize::MIN < height,
            0 < sub_extent(width, x, self.buffer.width),
            x + sub_extent(width, x, self.buffer.width) <= self.buffer.width,
            0 < sub_extent(height, y, self.buffer.height),
            y + sub_extent(height, y, self.buffer.height) <= self.buffer.height,
            self.buffer.addr + 2 * (y * self.buffer.pitch + x) <= u32::MAX,
        ensures
            r.wf(),
            r.buffer.width == sub_extent(width, x, self.buffer.width),
            r.buffer.height == sub_extent(height, y, self.buffer.height),
            r.buffer.pitch == self.buffer.pitch,
            r.buffer.addr == self.buffer.addr + 2 * (y * self.buffer.pitch + x),
            r.x == 0,
            r.y == 0,
            r.color == self.color,
            r.root_width == self.root_width,
            r.root_offset == y * self.root_width + x + self.root_offset,
            forall|i: int|
                0 <= i < r@.len() ==> r@[i] == (if y * self.buffer.pitch + x + i
                    < self@.len() {
                    self@[y * self.buffer.pitch + x + i]
                } else {
                    0
                }),
    {
        let new_width = if width > 0 {
            width as usize
        } else {
            self.buffer.width - x - ((-width) as usize)
        };
        let new_height = if height > 0 {
            height as usize
        } else {
            self.buffer.height - y - ((-height) as usize)
        };
        proof {
            lemma_row_index_bound(
                self.buffer.pitch as int,
                self.buffer.height as int,
                y as int,
                x as int,
            );
            lemma_sub_cells_bound(
                self.buffer.pitch as int,
                self.buffer.height as int,
                new_height as int,
            );
            lemma_sub_root_bound(
                self.root_width as int,
                self.root_offset as int,
                self.buffer.width as int,
                self.buffer.height as int,
                x as int,
                y as int,
                new_width as int,
                new_height as int,
            );
        }
        let base = y * self.buffer.pitch + x;
        let new_addr = self.buffer.addr + 2 * (base as u32);
        let n = self.buffer.pitch * new_height;
        let mut cells: Vec<u16> = Vec::new();
        while cells.len() < n
            invariant
                self.wf(),
                base == y * self.buffer.pitch + x,
                base < self@.len(),
                cells@.len() <= n,
                forall|i: int|
                    0 <= i < cells@.len() ==> cells@[i] == (if base + i < self@.len() {
                        self@[base + i]
                    } else {
                        0
                    }),
            decreases n - cells@.len(),
        {
            let i = cells.len();
            if self.cells.len() - base > i {
                let c = self.cells[base + i];
                cells.push(c);
            } else {
                cells.push(0);
            }
        }
        Console {
            buffer: FrameBuffer {
                width: new_width,
                height: new_height,
                pitch: self.buffer.pitch,
                addr: new_addr,
            },
            cells,
            x: 0,
            y: 0,
            color: self.color,
            root_width: self.root_width,
            root_offset: y * self.root_width + x + self.root_offset,
        }
    }
}

} // verus!
