//! The 80 by 25 text screen: colours, the attribute byte of a character
//! cell, and a writer that keeps a cursor over the cells.

use vstd::prelude::*;

verus! {

/// Cells in a line.
pub const WIDTH: usize = 80;

/// Lines on the screen.
pub const HEIGHT: usize = 25;

/// Cells on the screen.
pub const CELLS: usize = 2000;

/// The character written in place of one that has no single-byte code.
pub const REPLACEMENT: u8 = 0x7E;

/// The sixteen colours of the text screen.
#[derive(Clone, Copy, Debug, PartialEq, Eq, Structural)]
pub enum Color {
    Black,
    Blue,
    Green,
    Cyan,
    Red,
    Magenta,
    Brown,
    LightGray,
    DarkGray,
    LightBlue,
    LightGreen,
    LightCyan,
    LightRed,
    Pink,
    Yellow,
    White,
}

impl Color {
    pub open spec fn spec_into_bits(self) -> u8 {
        match self {
            Color::Black => 0,
            Color::Blue => 1,
            Color::Green => 2,
            Color::Cyan => 3,
            Color::Red => 4,
            Color::Magenta => 5,
            Color::Brown => 6,
            Color::LightGray => 7,
            Color::DarkGray => 8,
            Color::LightBlue => 9,
            Color::LightGreen => 10,
            Color::LightCyan => 11,
            Color::LightRed => 12,
            Color::Pink => 13,
            Color::Yellow => 14,
            Color::White => 15,
        }
    }

    /// The colour of a four-bit code; a larger value reads as black.
    pub open spec fn spec_from_bits(bits: u8) -> Color {
        if bits == 0 {
            Color::Black
        } else if bits == 1 {
            Color::Blue
        } else if bits == 2 {
            Color::Green
        } else if bits == 3 {
            Color::Cyan
        } else if bits == 4 {
            Color::Red
        } else if bits == 5 {
            Color::Magenta
        } else if bits == 6 {
            Color::Brown
        } else if bits == 7 {
            Color::LightGray
        } else if bits == 8 {
            Color::DarkGray
        } else if bits == 9 {
            Color::LightBlue
        } else if bits == 10 {
            Color::LightGreen
        } else if bits == 11 {
            Color::LightCyan
        } else if bits == 12 {
            Color::LightRed
        } else if bits == 13 {
            Color::Pink
        } else if bits == 14 {
            Color::Yellow
        } else if bits == 15 {
            Color::White
        } else {
            Color::Black
        }
    }

    /// The four-bit code of the colour.
    pub fn into_bits(self) -> (bits: u8)
        ensures
            bits == self.spec_into_bits(),
            bits <= 15,
            Self::spec_from_bits(bits) == self,
    {
        match self {
            Color::Black => 0,
            Color::Blue => 1,
            Color::Green => 2,
            Color::Cyan => 3,
            Color::Red => 4,
            Color::Magenta => 5,
            Color::Brown => 6,
            Color::LightGray => 7,
            Color::DarkGray => 8,
            Color::LightBlue => 9,
            Color::LightGreen => 10,
            Color::LightCyan => 11,
            Color::LightRed => 12,
            Color::Pink => 13,
            Color::Yellow => 14,
            Color::White => 15,
        }
    }

    /// The colour of a four-bit code; a larger value reads as black.
    pub fn from_bits(bits: u8) -> (color: Self)
        ensures
            color == Self::spec_from_bits(bits),
            bits <= 15 ==> color.spec_into_bits() == bits,
    {
        match bits {
            0 => Color::Black,
            1 => Color::Blue,
            2 => Color::Green,
            3 => Color::Cyan,
            4 => Color::Red,
            5 => Color::Magenta,
            6 => Color::Brown,
            7 => Color::LightGray,
            8 => Color::DarkGray,
            9 => Color::LightBlue,
            10 => Color::LightGreen,
            11 => Color::LightCyan,
            12 => Color::LightRed,
            13 => Color::Pink,
            14 => Color::Yellow,
            15 => Color::White,
            _ => Color::Black,
        }
    }
}

/// The attribute byte of a cell: foreground colour in bits 0..=3,
/// background colour in bits 4..=6, blink in bit 7.
#[derive(Clone, Copy, Debug, PartialEq, Eq, Structural)]
pub struct CharData(pub u8);

impl CharData {
    pub open spec fn spec_fg_color(self) -> Color {
        Color::spec_from_bits(self.0 & 0x0F)
    }

    pub open spec fn spec_bg_color(self) -> Color {
        Color::spec_from_bits((self.0 >> 4) & 0x07)
    }

    pub open spec fn spec_blink(self) -> bool {
        self.0 & 0x80 != 0
    }

    /// White on black, not blinking.
    pub fn new() -> (data: Self)
        ensures
            data.0 == 0x0F,
            data.spec_fg_color() == Color::White,
            data.spec_bg_color() == Color::Black,
            !data.spec_blink(),
    {
        assert(0x0Fu8 & 0x0F == 15 && (0x0Fu8 >> 4) & 0x07 == 0 && 0x0Fu8 & 0x80 == 0)
            by (bit_vector);
        CharData(0x0F)
    }

    pub fn fg_color(&self) -> (color: Color)
        ensures
            color == self.spec_fg_color(),
    {
        Color::from_bits(self.0 & 0x0F)
    }

    pub fn bg_color(&self) -> (color: Color)
        ensures
            color == self.spec_bg_color(),
    {
        Color::from_bits((self.0 >> 4) & 0x07)
    }

    pub fn blink(&self) -> (on: bool)
        ensures
            on == self.spec_blink(),
    {
        self.0 & 0x80 != 0
    }

    /// Sets the foreground colour and leaves the rest as it is.
    pub fn set_fg_color(&mut self, color: Color)
        ensures
            final(self).spec_fg_color() == color,
            final(self).spec_bg_color() == old(self).spec_bg_color(),
            final(self).spec_blink() == old(self).spec_blink(),
    {
        let bits: u8 = color.into_bits();
        let before: u8 = self.0;
        assert((((before & 0xF0) | bits) & 0x0F == bits) && ((((before & 0xF0) | bits) >> 4) & 0x07
            == (before >> 4) & 0x07) && (((before & 0xF0) | bits) & 0x80 == before & 0x80))
            by (bit_vector)
            requires
                bits <= 15,
        ;
        self.0 = (before & 0xF0) | bits;
    }

    /// Sets the background colour, one of the first eight, and leaves the
    /// rest as it is.
    pub fn set_bg_color(&mut self, color: Color)
        requires
            color.spec_into_bits() < 8,
        ensures
            final(self).spec_bg_color() == color,
            final(self).spec_fg_color() == old(self).spec_fg_color(),
            final(self).spec_blink() == old(self).spec_blink(),
    {
        let bits: u8 = color.into_bits();
        let before: u8 = self.0;
        assert((((before & 0x8F) | (bits << 4)) & 0x0F == before & 0x0F) && ((((before & 0x8F) | (
        bits << 4)) >> 4) & 0x07 == bits) && (((before & 0x8F) | (bits << 4)) & 0x80 == before
            & 0x80)) by (bit_vector)
            requires
                bits < 8,
        ;
        self.0 = (before & 0x8F) | (bits << 4);
    }

    /// Sets or clears blinking and leaves the colours as they are.
    pub fn set_blink(&mut self, on: bool)
        ensures
            final(self).spec_blink() == on,
            final(self).spec_fg_color() == old(self).spec_fg_color(),
            final(self).spec_bg_color() == old(self).spec_bg_color(),
    {
        let before: u8 = self.0;
        assert(((before | 0x80) & 0x80 != 0) && ((before | 0x80) & 0x0F == before & 0x0F) && (((
        before | 0x80) >> 4) & 0x07 == (before >> 4) & 0x07) && ((before & 0x7F) & 0x80 == 0) && ((
        before & 0x7F) & 0x0F == before & 0x0F) && (((before & 0x7F) >> 4) & 0x07 == (before >> 4)
            & 0x07)) by (bit_vector);
        if on {
            self.0 = before | 0x80;
        } else {
            self.0 = before & 0x7F;
        }
    }
}

/// One cell of the screen: a character code and its attribute byte.
#[derive(Clone, Copy, Debug, PartialEq, Eq, Structural)]
pub struct CharEntry {
    pub chr: u8,
    pub data: CharData,
}

/// A position on the screen. `row` counts the cells within a line and
/// `col` counts the lines.
#[derive(Clone, Copy, Debug, PartialEq, Eq, Structural)]
pub struct Cursor {
    pub row: usize,
    pub col: usize,
}

impl Cursor {
    /// The position at which a new line starts after this one: the first
    /// cell of the next line, and of the first line after the last.
    pub open spec fn spec_new_line(self) -> Cursor {
        Cursor {
            row: 0,
            col: if self.col + 1 >= HEIGHT {
                0
            } else {
                (self.col + 1) as usize
            },
        }
    }

    /// The position after one cell has been written: the next cell of the
    /// line, or a new line after the last cell.
    pub open spec fn spec_advance(self) -> Cursor {
        if self.row + 1 >= WIDTH {
            self.spec_new_line()
        } else {
            Cursor { row: (self.row + 1) as usize, col: self.col }
        }
    }

    /// The number of the cell at this position, line after line.
    pub open spec fn spec_cell(self) -> int {
        self.col * WIDTH + self.row
    }
}

/// The code that is written for a character: its own where it is below
/// 255, the replacement character otherwise.
pub open spec fn spec_code_of(c: char) -> u8 {
    if c as u32 >= 255 {
        REPLACEMENT
    } else {
        c as u8
    }
}

/// The code that is written for a character.
pub fn code_of(c: char) -> (code: u8)
    ensures
        code == spec_code_of(c),
{
    let point: u32 = c as u32;
    if point >= 255 {
        REPLACEMENT
    } else {
        point as u8
    }
}

/// The cells of the screen, line after line, and the cursor.
pub struct Writer {
    pub buffer: Vec<CharEntry>,
    pub cursor_pos: Cursor,
}

/// The screen and cursor after one character: a line feed starts a new
/// line and writes nothing; any other character is written white on black
/// at the cursor, which then advances.
pub open spec fn spec_write_char(cells: Seq<CharEntry>, cursor: Cursor, c: char) -> (
    Seq<CharEntry>,
    Cursor,
) {
    if c == '\n' {
        (cells, cursor.spec_new_line())
    } else {
        (
            cells.update(
                cursor.spec_cell(),
                CharEntry { chr: spec_code_of(c), data: CharData(0x0F) },
            ),
            cursor.spec_advance(),
        )
    }
}

/// The screen and cursor after the first `count` characters of a text.
pub open spec fn spec_write_chars(
    cells: Seq<CharEntry>,
    cursor: Cursor,
    text: Seq<char>,
    count: int,
) -> (Seq<CharEntry>, Cursor)
    decreases count,
{
    if count <= 0 {
        (cells, cursor)
    } else {
        let before = spec_write_chars(cells, cursor, text, count - 1);
        spec_write_char(before.0, before.1, text[count - 1])
    }
}

impl Writer {
    /// The buffer holds every cell of the screen and the cursor lies on it.
    pub open spec fn wf(&self) -> bool {
        &&& self.buffer@.len() == CELLS
        &&& self.cursor_pos.row < WIDTH
        &&& self.cursor_pos.col < HEIGHT
    }

    /// A blank screen with the cursor at the first cell.
    pub fn new() -> (writer: Self)
        ensures
            writer.wf(),
            writer.cursor_pos == (Cursor { row: 0, col: 0 }),
            forall|i: int|
                0 <= i < CELLS ==> #[trigger] writer.buffer@[i] == (CharEntry {
                    chr: 0,
                    data: CharData(0x0F),
                }),
    {
        let blank = CharEntry { chr: 0, data: CharData::new() };
        let mut buffer: Vec<CharEntry> = Vec::with_capacity(CELLS);
        let mut i: usize = 0;
        while i < CELLS
            invariant
                i <= CELLS,
                buffer@.len() == i,
                blank == (CharEntry { chr: 0, data: CharData(0x0F) }),
                forall|j: int| 0 <= j < i ==> #[trigger] buffer@[j] == blank,
            decreases CELLS - i,
        {
            buffer.push(blank);
            i = i + 1;
        }
        Writer { buffer, cursor_pos: Cursor { row: 0, col: 0 } }
    }

    /// Moves the cursor to the first cell of the next line, and from the
    /// last line back to the first.
    pub fn new_line(&mut self)
        requires
            old(self).cursor_pos.col < HEIGHT,
        ensures
            final(self).cursor_pos == old(self).cursor_pos.spec_new_line(),
            final(self).buffer@ == old(self).buffer@,
            old(self).buffer@.len() == CELLS ==> final(self).wf(),
    {
        self.cursor_pos.row = 0;
        self.cursor_pos.col = self.cursor_pos.col + 1;
        if self.cursor_pos.col >= HEIGHT {
            self.cursor_pos.col = 0;
        }
    }

    /// Moves the cursor one cell on, and past the last cell of a line to a
    /// new line.
    pub fn advance_cursor(&mut self)
        requires
            old(self).wf(),
        ensures
            final(self).wf(),
            final(self).cursor_pos == old(self).cursor_pos.spec_advance(),
            final(self).buffer@ == old(self).buffer@,
    {
        self.cursor_pos.row = self.cursor_pos.row + 1;
        if self.cursor_pos.row >= WIDTH {
            self.new_line();
        }
    }

    /// Writes one character at the cursor. A line feed starts a new line
    /// and writes nothing.
    pub fn write_char(&mut self, c: char)
        requires
            old(self).wf(),
        ensures
            final(self).wf(),
            (final(self).buffer@, final(self).cursor_pos) == spec_write_char(
                old(self).buffer@,
                old(self).cursor_pos,
                c,
            ),
    {
        if c == '\n' {
            self.new_line();
            return ;
        }
        let cell: usize = self.cursor_pos.col * WIDTH + self.cursor_pos.row;
        self.buffer.set(cell, CharEntry { chr: code_of(c), data: CharData::new() });
        self.advance_cursor();
    }

    /// Writes a text, character by character.
    pub fn write_str(&mut self, s: &str)
        requires
            old(self).wf(),
        ensures
            final(self).wf(),
            (final(self).buffer@, final(self).cursor_pos) == spec_write_chars(
                old(self).buffer@,
                old(self).cursor_pos,
                s@,
                s@.len() as int,
            ),
    {
        let count: usize = s.unicode_len();
        let ghost cells = self.buffer@;
        let ghost cursor = self.cursor_pos;
        let mut i: usize = 0;
        while i < count
            invariant
                self.wf(),
                i <= count,
                count == s@.len(),
                (self.buffer@, self.cursor_pos) == spec_write_chars(cells, cursor, s@, i as int),
            decreases count - i,
        {
            let c: char = s.get_char(i);
            self.write_char(c);
            i = i + 1;
        }
    }
}

} // verus!
