//! The text-mode diagnostic writer's state: a fixed-size cell buffer with a
//! cursor, one ASCII byte and one attribute byte per character cell.
//!
//! The buffer is owned and every write is bounds-checked indexing; the
//! cursor wraps by clamping the column and row back to zero rather than
//! scrolling. The caller that fronts real video memory copies these cells
//! out and owns the single, lock-protected global instance.

use vstd::prelude::*;
use vstd::string::StringSliceAdditionalSpecFns;

verus! {

/// The sixteen hardware text-mode colors, in their CPU-defined order.
#[derive(Clone, Copy, Debug, PartialEq, Eq)]
pub enum Color {
    Black,
    Blue,
    Green,
    Cyan,
    Red,
    Magenta,
    Brown,
    LightGray,
    DarkGray,
    LightBlue,
    LightGreen,
    LightCyan,
    LightRed,
    LightMagenta,
    Yellow,
    White,
}

/// The CPU-defined nibble of each color.
pub open spec fn color_bits(c: Color) -> u8 {
    match c {
        Color::Black => 0x0,
        Color::Blue => 0x1,
        Color::Green => 0x2,
        Color::Cyan => 0x3,
        Color::Red => 0x4,
        Color::Magenta => 0x5,
        Color::Brown => 0x6,
        Color::LightGray => 0x7,
        Color::DarkGray => 0x8,
        Color::LightBlue => 0x9,
        Color::LightGreen => 0xA,
        Color::LightCyan => 0xB,
        Color::LightRed => 0xC,
        Color::LightMagenta => 0xD,
        Color::Yellow => 0xE,
        Color::White => 0xF,
    }
}

impl Color {
    /// The color's nibble value.
    pub fn code(&self) -> (r: u8)
        ensures
            r == color_bits(*self),
    {
        match self {
            Color::Black => 0x0,
            Color::Blue => 0x1,
            Color::Green => 0x2,
            Color::Cyan => 0x3,
            Color::Red => 0x4,
            Color::Magenta => 0x5,
            Color::Brown => 0x6,
            Color::LightGray => 0x7,
            Color::DarkGray => 0x8,
            Color::LightBlue => 0x9,
            Color::LightGreen => 0xA,
            Color::LightCyan => 0xB,
            Color::LightRed => 0xC,
            Color::LightMagenta => 0xD,
            Color::Yellow => 0xE,
            Color::White => 0xF,
        }
    }
}

/// One attribute byte: background color in the high nibble, foreground in
/// the low one.
#[derive(Clone, Copy, Debug, PartialEq, Eq)]
pub struct VGAColor(pub u8);

impl VGAColor {
    pub fn new(foreground: Color, background: Color) -> (r: VGAColor)
        ensures
            r.0 == (color_bits(background) << 4) | color_bits(foreground),
    {
        VGAColor((background.code() << 4) | foreground.code())
    }
}

/// One character cell: an ASCII byte and its attribute byte.
#[derive(Clone, Copy, Debug, PartialEq, Eq)]
pub struct VGAChar {
    pub ascii_char: u8,
    pub color: VGAColor,
}

/// The abstract state of the screen: its cells in row-major order, its
/// dimensions, the cursor, and the color the next write uses.
pub struct ScreenState {
    pub cells: Seq<VGAChar>,
    pub width: nat,
    pub height: nat,
    pub x: nat,
    pub y: nat,
    pub color: VGAColor,
}

impl ScreenState {
    /// A well-formed screen: non-degenerate dimensions small enough for the
    /// cursor arithmetic, one cell per position, and the cursor at most one
    /// step past the clamping bounds.
    pub open spec fn wf(self) -> bool {
        &&& 1 <= self.width <= 0xFFFF
        &&& 1 <= self.height <= 0xFFFF
        &&& self.cells.len() == self.width * self.height
        &&& self.x <= self.width
        &&& self.y <= self.height
    }

    /// The row the cursor moves to on a byte before clamping: a newline
    /// advances one row, a tab four.
    pub open spec fn row_after_control(self, c: u8) -> int {
        if c == 10 {
            self.y as int + 1
        } else if c == 9 {
            self.y as int + 4
        } else {
            self.y as int
        }
    }

    /// The column the cursor moves to on a byte before clamping: a newline
    /// returns to the row start.
    pub open spec fn col_after_control(self, c: u8) -> int {
        if c == 10 {
            0
        } else {
            self.x as int
        }
    }

    /// The row a byte is written in: past the bottom the cursor wraps by
    /// clamping back to the top, not by scrolling.
    pub open spec fn write_row(self, c: u8) -> int {
        if self.row_after_control(c) >= self.height {
            0
        } else {
            self.row_after_control(c)
        }
    }

    /// The column a byte is written in: past the right edge the cursor wraps
    /// by clamping back to the row start.
    pub open spec fn write_col(self, c: u8) -> int {
        if self.col_after_control(c) >= self.width {
            0
        } else {
            self.col_after_control(c)
        }
    }

    /// The cell index a byte lands in, row-major.
    pub open spec fn write_index(self, c: u8) -> int {
        self.write_row(c) * self.width + self.write_col(c)
    }

    /// The screen after writing one byte: the byte placed at the write
    /// index in the current color, the cursor one column further.
    pub open spec fn write_char_spec(self, c: u8) -> ScreenState {
        ScreenState {
            cells: self.cells.update(
                self.write_index(c),
                VGAChar { ascii_char: c, color: self.color },
            ),
            width: self.width,
            height: self.height,
            x: (self.write_col(c) + 1) as nat,
            y: self.write_row(c) as nat,
            color: self.color,
        }
    }

    /// The screen after writing a run of bytes, front to back.
    pub open spec fn write_bytes_spec(self, bs: Seq<u8>) -> ScreenState
        decreases bs.len(),
    {
        if bs.len() == 0 {
            self
        } else {
            self.write_char_spec(bs.first()).write_bytes_spec(bs.drop_first())
        }
    }
}

/// Writing byte by byte is the same as writing the run at once: appending
/// one byte to a run appends one write.
pub proof fn lemma_write_bytes_snoc(s: ScreenState, bs: Seq<u8>, c: u8)
    ensures
        s.write_bytes_spec(bs.push(c)) == s.write_bytes_spec(bs).write_char_spec(c),
    decreases bs.len(),
{
    reveal_with_fuel(ScreenState::write_bytes_spec, 2);
    if bs.len() == 0 {
        assert(bs.push(c).first() == c);
        assert(bs.push(c).drop_first() =~= Seq::<u8>::empty());
    } else {
        assert(bs.push(c).first() == bs.first());
        assert(bs.push(c).drop_first() =~= bs.drop_first().push(c));
        lemma_write_bytes_snoc(s.write_char_spec(bs.first()), bs.drop_first(), c);
    }
}

/// The diagnostic writer: an owned cell buffer, the cursor position, and
/// the color the next write uses.
pub struct VGABuf {
    pub cells: Vec<VGAChar>,
    pub width: usize,
    pub height: usize,
    pub x: usize,
    pub y: usize,
    pub color: VGAColor,
}

impl View for VGABuf {
    type V = ScreenState;

    open spec fn view(&self) -> ScreenState {
        ScreenState {
            cells: self.cells@,
            width: self.width as nat,
            height: self.height as nat,
            x: self.x as nat,
            y: self.y as nat,
            color: self.color,
        }
    }
}

impl VGABuf {
    /// A fresh screen of the given dimensions, every cell blank in the
    /// given color, the cursor where the caller puts it.
    pub fn new(width: usize, height: usize, x: usize, y: usize, color: VGAColor) -> (r: Self)
        requires
            1 <= width <= 0xFFFF,
            1 <= height <= 0xFFFF,
            x <= width,
            y <= height,
        ensures
            r@.wf(),
            r@.width == width,
            r@.height == height,
            r@.x == x,
            r@.y == y,
            r@.color == color,
            forall|i: int|
                0 <= i < r@.cells.len() ==> r@.cells[i] == (VGAChar { ascii_char: 32, color }),
    {
        proof {
            assert(width * height <= 0xFFFF * 0xFFFF) by (nonlinear_arith)
                requires
                    width <= 0xFFFF,
                    height <= 0xFFFF,
            ;
        }
        let total = width * height;
        let mut cells: Vec<VGAChar> = Vec::new();
        let mut i: usize = 0;
        while i < total
            invariant
                i <= total,
                cells@.len() == i,
                forall|j: int|
                    0 <= j < i ==> cells@[j] == (VGAChar { ascii_char: 32, color }),
            decreases total - i,
        {
            cells.push(VGAChar { ascii_char: 32, color });
            i += 1;
        }
        VGABuf { cells, width, height, x, y, color }
    }

    /// Change the color later writes use; nothing else moves.
    pub fn set_color(&mut self, color: VGAColor)
        ensures
            final(self).color == color,
            final(self).cells == old(self).cells,
            final(self).width == old(self).width,
            final(self).height == old(self).height,
            final(self).x == old(self).x,
            final(self).y == old(self).y,
    {
        self.color = color
    }

    /// Write one byte at the cursor: newline and tab move the cursor, an
    /// overflowing column or row clamps back to zero, then the byte lands
    /// at the cursor cell and the cursor advances one column.
    fn write_char(&mut self, c: u8)
        requires
            old(self)@.wf(),
        ensures
            final(self)@ == old(self)@.write_char_spec(c),
            final(self)@.wf(),
    {
        if c == 10 {
            self.y = self.y + 1;
            self.x = 0;
        }
        if c == 9 {
            self.y = self.y + 4;
        }
        if self.x >= self.width {
            self.x = 0;
        }
        if self.y >= self.height {
            self.y = 0;
        }
        let len = self.cells.len();
        proof {
            assert(self.y * self.width + self.x < self.width * self.height) by (nonlinear_arith)
                requires
                    self.y < self.height,
                    self.x < self.width,
            ;
        }
        let index = self.y * self.width + self.x;
        self.cells.set(index, VGAChar { ascii_char: c, color: self.color });
        self.x = self.x + 1;
    }

    /// Write a string's UTF-8 bytes, front to back.
    pub fn write(&mut self, s: &str)
        requires
            old(self)@.wf(),
        ensures
            final(self)@ == old(self)@.write_bytes_spec(s.spec_bytes()),
            final(self)@.wf(),
    {
        let ghost s0 = self@;
        let bytes = s.as_bytes();
        let n = bytes.len();
        let mut i: usize = 0;
        while i < n
            invariant
                i <= n,
                n == bytes@.len(),
                self@.wf(),
                self@ == s0.write_bytes_spec(bytes@.take(i as int)),
            decreases n - i,
        {
            let c = bytes[i];
            proof {
                assert(bytes@.take(i + 1) =~= bytes@.take(i as int).push(bytes@[i as int]));
                lemma_write_bytes_snoc(s0, bytes@.take(i as int), bytes@[i as int]);
            }
            self.write_char(c);
            i += 1;
        }
        proof {
            assert(bytes@.take(n as int) =~= bytes@);
        }
    }

    /// Clear the screen: every cell becomes a blank in black on black, and
    /// the cursor returns to the top left.
    pub fn clear_scr(&mut self)
        requires
            old(self)@.wf(),
        ensures
            final(self)@.wf(),
            final(self)@.width == old(self)@.width,
            final(self)@.height == old(self)@.height,
            final(self)@.x == 0,
            final(self)@.y == 0,
            final(self)@.color.0 == (color_bits(Color::Black) << 4) | color_bits(Color::Black),
            final(self)@.cells.len() == old(self)@.cells.len(),
            forall|i: int|
                0 <= i < final(self)@.cells.len() ==> final(self)@.cells[i] == (VGAChar {
                    ascii_char: 32,
                    color: final(self)@.color,
                }),
    {
        self.color = VGAColor::new(Color::Black, Color::Black);
        self.x = 0;
        self.y = 0;
        let total = self.cells.len();
        let mut i: usize = 0;
        while i < total
            invariant
                i <= total,
                total == self.cells@.len(),
                self.width == old(self).width,
                self.height == old(self).height,
                self.x == 0,
                self.y == 0,
                self.color.0 == (color_bits(Color::Black) << 4) | color_bits(Color::Black),
                forall|j: int|
                    0 <= j < i ==> self.cells@[j] == (VGAChar {
                        ascii_char: 32,
                        color: self.color,
                    }),
            decreases total - i,
        {
            let blank = VGAChar { ascii_char: 32, color: self.color };
            self.cells.set(i, blank);
            i += 1;
        }
    }
}

} // verus!
