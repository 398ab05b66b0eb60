//! The text log on the frame buffer: a grid of characters that scrolls up
//! when it is full, and the pixels behind it.
//!
//! The log decides which cell shows which character; it returns the cells
//! to repaint, and the caller renders them with its font.

use vstd::prelude::*;
use crate::geometry::lemma_flat_bound;

verus! {

pub const PREFERRED_WIDTH: usize = 640;

pub const PREFERRED_HEIGHT: usize = 480;

/// Width of a character cell in pixels.
pub const MONO_TEXT_WIDTH: u32 = 6;

/// Height of a character cell in pixels.
pub const MONO_TEXT_HEIGHT: u32 = 10;

/// Characters that fit the preferred display: 106 columns by 48 lines.
pub const TEXT_BUFFER_LEN: usize = 5088;

/// The code of the line feed.
pub const LINE_FEED: u8 = 10;

/// A position on the display, in pixels: column, then line.
#[derive(Clone, Copy, Debug, PartialEq, Eq, Structural)]
pub struct ScreenPos(pub u32, pub u32);

/// A position in the text log, in characters: column, then line.
#[derive(Clone, Copy, Debug, PartialEq, Eq, Structural)]
pub struct TextPos(pub u32, pub u32);

/// One pixel: red, green, blue.
#[derive(Clone, Copy, Debug, PartialEq, Eq)]
pub struct FBPixel(pub [u8; 3]);

/// A character of the log: an ASCII code other than zero, or nothing.
#[derive(Clone, Copy, Debug, PartialEq, Eq)]
pub struct AsciiChar(pub Option<u8>);

impl AsciiChar {
    /// The character for `c`: its code where `c` is ASCII and not the null
    /// character, nothing otherwise.
    pub open spec fn spec_from_char(c: char) -> AsciiChar {
        if c as u32 >= 128 || c as u32 == 0 {
            AsciiChar(None)
        } else {
            AsciiChar(Some(c as u8))
        }
    }

    pub open spec fn spec_is_line_feed(self) -> bool {
        self.0 == Some(LINE_FEED)
    }

    /// What is drawn for the character: its code where it is printable,
    /// from the space to the tilde, and nothing otherwise.
    pub open spec fn spec_glyph(self) -> Option<u8> {
        match self.0 {
            Some(code) => if 0x20 <= code <= 0x7E {
                Some(code)
            } else {
                None
            },
            None => None,
        }
    }

    pub fn from_char(c: char) -> (r: Self)
        ensures
            r == Self::spec_from_char(c),
    {
        let point: u32 = c as u32;
        if point >= 128 || point == 0 {
            AsciiChar(None)
        } else {
            AsciiChar(Some(point as u8))
        }
    }

    pub fn is_line_feed(&self) -> (r: bool)
        ensures
            r == self.spec_is_line_feed(),
    {
        match self.0 {
            Some(code) => code == LINE_FEED,
            None => false,
        }
    }

    /// What is drawn for the character.
    pub fn glyph(&self) -> (g: Option<u8>)
        ensures
            g == self.spec_glyph(),
    {
        match self.0 {
            Some(code) => if ascii_printable(code) {
                Some(code)
            } else {
                None
            },
            None => None,
        }
    }
}

impl From<char> for AsciiChar {
    fn from(val: char) -> (r: Self) {
        AsciiChar::from_char(val)
    }
}

impl vstd::std_specs::convert::FromSpecImpl<char> for AsciiChar {
    open spec fn obeys_from_spec() -> bool {
        true
    }

    open spec fn from_spec(val: char) -> Self {
        Self::spec_from_char(val)
    }
}

/// `ascii::AsciiChar::from_ascii` followed by
/// `ascii::AsciiChar::is_ascii_printable`: a byte is an ASCII character
/// below 128, and such a character is printable from the space (0x20) to
/// the tilde (0x7E).
#[verifier::external_body]
fn ascii_printable(code: u8) -> (r: bool)
    ensures
        r == (0x20 <= code <= 0x7E),
{
    match ascii::AsciiChar::from_ascii(code) {
        Ok(character) => character.is_ascii_printable(),
        Err(_) => false,
    }
}

/// The pixels of the display, line after line.
pub struct BufferData {
    pub pixels: Vec<FBPixel>,
    pub width: u32,
    pub height: u32,
}

impl BufferData {
    /// There is one pixel for every position of the display.
    pub open spec fn wf(&self) -> bool {
        self.pixels@.len() == self.width * self.height
    }

    pub open spec fn spec_contains(&self, pos: ScreenPos) -> bool {
        pos.0 < self.width && pos.1 < self.height
    }

    pub open spec fn spec_pos_to_idx(&self, pos: ScreenPos) -> int {
        pos.0 + pos.1 * self.width
    }

    /// The pixels after one pixel has been drawn: the pixel at the
    /// position replaced where the position lies on the display, and
    /// nothing changed where it does not.
    pub open spec fn spec_draw(
        pixels: Seq<FBPixel>,
        width: u32,
        height: u32,
        x: i32,
        y: i32,
        color: FBPixel,
    ) -> Seq<FBPixel> {
        if 0 <= x < width && 0 <= y < height {
            pixels.update(x + y * width, color)
        } else {
            pixels
        }
    }

    /// A display of the given size with every pixel black; nothing where
    /// the pixels cannot be counted in a `usize`.
    pub fn new(width: u32, height: u32) -> (r: Option<Self>)
        ensures
            r is Some <==> width * height <= usize::MAX,
            r is Some ==> r.unwrap().wf() && r.unwrap().width == width && r.unwrap().height
                == height,
    {
        assert(width * height <= 0xFFFF_FFFF * 0xFFFF_FFFF) by (nonlinear_arith)
            requires
                0 <= width <= 0xFFFF_FFFF,
                0 <= height <= 0xFFFF_FFFF,
        ;
        let count: u64 = width as u64 * height as u64;
        if count > usize::MAX as u64 {
            return None;
        }
        let mut pixels: Vec<FBPixel> = Vec::new();
        let mut i: u64 = 0;
        while i < count
            invariant
                i <= count,
                pixels@.len() == i,
            decreases count - i,
        {
            pixels.push(FBPixel([0, 0, 0]));
            i = i + 1;
        }
        Some(BufferData { pixels, width, height })
    }

    /// Whether a position lies on the display.
    pub fn contains(&self, pos: ScreenPos) -> (r: bool)
        ensures
            r == self.spec_contains(pos),
    {
        pos.0 < self.width && pos.1 < self.height
    }

    /// The place of a position in the run of pixels.
    pub fn pos_to_idx(&self, pos: ScreenPos) -> (idx: usize)
        requires
            self.wf(),
            self.spec_contains(pos),
        ensures
            idx == self.spec_pos_to_idx(pos),
            idx < self.pixels@.len(),
    {
        proof {
            lemma_flat_bound(pos.1 as int, self.height as int, pos.0 as int, self.width as int);
            assert(pos.1 * self.width + pos.0 < self.height * self.width);
            assert(self.height * self.width == self.width * self.height) by (nonlinear_arith);
        }
        let total: usize = self.pixels.len();
        assert(pos.1 * self.width + pos.0 < total);
        pos.0 as usize + pos.1 as usize * self.width as usize
    }

    /// The size of the display: width, then height.
    pub fn size(&self) -> (r: (u32, u32))
        ensures
            r == (self.width, self.height),
    {
        (self.width, self.height)
    }

    /// The pixel at a position of the display.
    pub fn index(&self, pos: ScreenPos) -> (pixel: FBPixel)
        requires
            self.wf(),
            self.spec_contains(pos),
        ensures
            pixel == self.pixels@[self.spec_pos_to_idx(pos)],
    {
        self.pixels[self.pos_to_idx(pos)]
    }

    /// Draws one pixel. A position beside the display is passed over.
    pub fn draw_pixel(&mut self, x: i32, y: i32, color: FBPixel)
        requires
            old(self).wf(),
        ensures
            final(self).wf(),
            final(self).width == old(self).width,
            final(self).height == old(self).height,
            final(self).pixels@ == Self::spec_draw(
                old(self).pixels@,
                old(self).width,
                old(self).height,
                x,
                y,
                color,
            ),
    {
        if x < 0 || y < 0 {
            return ;
        }
        let pos = ScreenPos(x as u32, y as u32);
        if self.contains(pos) {
            let idx: usize = self.pos_to_idx(pos);
            self.pixels.set(idx, color);
        }
    }

    /// The pixel at a position of the display, to be changed in place.
    pub fn index_mut(&mut self, pos: ScreenPos) -> (pixel: &mut FBPixel)
        requires
            old(self).wf(),
            old(self).spec_contains(pos),
        ensures
            *pixel == old(self).pixels@[old(self).spec_pos_to_idx(pos)],
            final(self).width == old(self).width,
            final(self).height == old(self).height,
            final(self).pixels@ == old(self).pixels@.update(
                old(self).spec_pos_to_idx(pos),
                *final(pixel),
            ),
    {
        let idx: usize = self.pos_to_idx(pos);
        &mut self.pixels[idx]
    }

    /// Draws pixels one after the other. Positions beside the display are
    /// passed over.
    pub fn draw_iter(&mut self, pixels: &Vec<(i32, i32, FBPixel)>)
        requires
            old(self).wf(),
        ensures
            final(self).wf(),
            final(self).width == old(self).width,
            final(self).height == old(self).height,
            final(self).pixels@ == spec_draw_all(
                old(self).pixels@,
                old(self).width,
                old(self).height,
                pixels@,
                pixels@.len() as int,
            ),
    {
        let ghost before = self.pixels@;
        let ghost width = self.width;
        let ghost height = self.height;
        let mut i: usize = 0;
        while i < pixels.len()
            invariant
                self.wf(),
                self.width == width,
                self.height == height,
                i <= pixels@.len(),
                self.pixels@ == spec_draw_all(before, width, height, pixels@, i as int),
            decreases pixels@.len() - i,
        {
            let pixel = pixels[i];
            self.draw_pixel(pixel.0, pixel.1, pixel.2);
            i = i + 1;
        }
    }
}

/// The pixels after the first `count` of a run of pixels have been drawn,
/// one after the other.
pub open spec fn spec_draw_all(
    pixels: Seq<FBPixel>,
    width: u32,
    height: u32,
    drawn: Seq<(i32, i32, FBPixel)>,
    count: int,
) -> Seq<FBPixel>
    decreases count,
{
    if count <= 0 {
        pixels
    } else {
        BufferData::spec_draw(
            spec_draw_all(pixels, width, height, drawn, count - 1),
            width,
            height,
            drawn[count - 1].0,
            drawn[count - 1].1,
            drawn[count - 1].2,
        )
    }
}

/// One cell to repaint: the cell at `pos` is cleared, and `glyph` is drawn
/// into it where there is one.
#[derive(Clone, Copy, Debug, PartialEq, Eq)]
pub struct PaintOp {
    pub glyph: Option<u8>,
    pub pos: ScreenPos,
}

/// The place on the display of a position in the text.
pub open spec fn spec_screen_pos(pos: TextPos) -> ScreenPos {
    ScreenPos((pos.0 * MONO_TEXT_WIDTH) as u32, (pos.1 * MONO_TEXT_HEIGHT) as u32)
}

/// The text after the first line has scrolled out: every line moves up by
/// one, and the last line is empty.
pub open spec fn spec_shifted(text: Seq<AsciiChar>, chars_width: int) -> Seq<AsciiChar> {
    text.subrange(chars_width, text.len() as int) + Seq::new(
        chars_width as nat,
        |i: int| AsciiChar(None),
    )
}

/// Whether a line feed stands in the text from `from` up to and including
/// `to`.
pub open spec fn line_feed_within(text: Seq<AsciiChar>, from: int, to: int) -> bool {
    exists|j: int| from <= j <= to && (#[trigger] text[j]).spec_is_line_feed()
}

/// What a full repaint draws into cell `k`, counted line after line:
/// nothing from a line feed to the end of its line, otherwise the glyph of
/// the character at that place.
pub open spec fn spec_redraw_op(text: Seq<AsciiChar>, chars_width: int, k: int) -> PaintOp {
    let x = k % chars_width;
    let y = k / chars_width;
    PaintOp {
        glyph: if line_feed_within(text, y * chars_width, k) {
            None
        } else {
            text[k].spec_glyph()
        },
        pos: spec_screen_pos(TextPos(x as u32, y as u32)),
    }
}

/// What a full repaint draws: every cell, line after line.
pub open spec fn spec_redraw(text: Seq<AsciiChar>, chars_width: int, chars_height: int) -> Seq<
    PaintOp,
> {
    Seq::new(
        (chars_width * chars_height) as nat,
        |k: int| spec_redraw_op(text, chars_width, k),
    )
}

/// The cursor after a character other than a line feed, on a display of
/// `w` by `h` characters: one place on, and onto the next line from the end
/// of a line that has one below.
pub open spec fn spec_advance(cursor: TextPos, w: int, h: int) -> TextPos {
    let x = if cursor.0 < w {
        (cursor.0 + 1) as u32
    } else {
        cursor.0
    };
    if x >= w && cursor.1 + 1 < h {
        TextPos(0, (cursor.1 + 1) as u32)
    } else {
        TextPos(x, cursor.1)
    }
}

/// The text, the cursor and the cells to repaint after one character has
/// been written to a log of `w` by `h` characters.
///
/// Where the cursor stands past the end of the last line, the text scrolls
/// first and the display is repainted. The character is stored at the
/// cursor and painted. A line feed then starts a new line, which on the
/// last line scrolls the text and repaints the display once more; any
/// other character moves the cursor on.
pub open spec fn spec_write_char(
    w: int,
    h: int,
    text: Seq<AsciiChar>,
    cursor: TextPos,
    c: AsciiChar,
) -> (Seq<AsciiChar>, TextPos, Seq<PaintOp>) {
    let scrolled = cursor.0 == w && cursor.1 == h - 1;
    let text1 = if scrolled {
        spec_shifted(text, w)
    } else {
        text
    };
    let cursor1 = if scrolled {
        TextPos(0, cursor.1)
    } else {
        cursor
    };
    let ops1 = if scrolled {
        spec_redraw(text1, w, h)
    } else {
        Seq::<PaintOp>::empty()
    };
    let text2 = text1.update(cursor1.0 + cursor1.1 * w, c);
    let op = PaintOp { glyph: c.spec_glyph(), pos: spec_screen_pos(cursor1) };
    if c.spec_is_line_feed() {
        if cursor1.1 + 1 < h {
            (text2, TextPos(0, (cursor1.1 + 1) as u32), ops1.push(op))
        } else {
            (
                spec_shifted(text2, w),
                TextPos(0, cursor1.1),
                ops1.push(op) + spec_redraw(spec_shifted(text2, w), w, h),
            )
        }
    } else {
        (text2, spec_advance(cursor1, w, h), ops1.push(op))
    }
}

/// The text, the cursor and the cells to repaint after the first `count`
/// characters of `chars` have been written, one after the other.
pub open spec fn spec_write_chars(
    w: int,
    h: int,
    text: Seq<AsciiChar>,
    cursor: TextPos,
    chars: Seq<char>,
    count: int,
) -> (Seq<AsciiChar>, TextPos, Seq<PaintOp>)
    decreases count,
{
    if count <= 0 {
        (text, cursor, Seq::<PaintOp>::empty())
    } else {
        let before = spec_write_chars(w, h, text, cursor, chars, count - 1);
        let after = spec_write_char(
            w,
            h,
            before.0,
            before.1,
            AsciiChar::spec_from_char(chars[count - 1]),
        );
        (after.0, after.1, before.2 + after.2)
    }
}

/// The text log: the characters shown, line after line, and the cursor.
pub struct TextLogData {
    /// Size of the display in pixels.
    pub width: u32,
    pub height: u32,
    pub text: Vec<AsciiChar>,
    /// The cursor may stand past the end of a line.
    pub cursor: TextPos,
}

impl TextLogData {
    /// Characters that fit a line.
    pub open spec fn spec_chars_width(&self) -> u32 {
        self.width / MONO_TEXT_WIDTH
    }

    /// Lines that fit the display.
    pub open spec fn spec_chars_height(&self) -> u32 {
        self.height / MONO_TEXT_HEIGHT
    }

    /// The display shows at least one character, the text holds every
    /// character that the display shows, and the cursor stands on a line
    /// of the display, at most one place past its end.
    pub open spec fn wf(&self) -> bool {
        &&& self.spec_chars_width() >= 1
        &&& self.spec_chars_height() >= 1
        &&& self.spec_chars_width() * self.spec_chars_height() <= self.text@.len()
        &&& self.cursor.0 <= self.spec_chars_width()
        &&& self.cursor.1 < self.spec_chars_height()
    }

    pub open spec fn spec_pos_to_idx(&self, pos: TextPos) -> int {
        pos.0 + pos.1 * self.spec_chars_width()
    }

    /// Whether the cursor stands past the end of the last line.
    pub open spec fn spec_text_shift_required(&self) -> bool {
        self.cursor.0 == self.spec_chars_width() && self.cursor.1 == self.spec_chars_height() - 1
    }

    /// The cursor after a character other than a line feed: one place on,
    /// and onto the next line from the end of a line that has one below.
    pub open spec fn spec_advanced(&self) -> TextPos {
        spec_advance(
            self.cursor,
            self.spec_chars_width() as int,
            self.spec_chars_height() as int,
        )
    }

    /// An empty log of `TEXT_BUFFER_LEN` characters for a display of the
    /// given size; nothing where the display shows no character or more
    /// than the log holds.
    pub fn new(width: u32, height: u32) -> (r: Option<Self>)
        ensures
            r is Some <==> (width / MONO_TEXT_WIDTH >= 1 && height / MONO_TEXT_HEIGHT >= 1 && (width
                / MONO_TEXT_WIDTH) * (height / MONO_TEXT_HEIGHT) <= TEXT_BUFFER_LEN),
            r is Some ==> {
                let log = r.unwrap();
                &&& log.wf()
                &&& log.width == width
                &&& log.height == height
                &&& log.cursor == TextPos(0, 0)
                &&& log.text@.len() == TEXT_BUFFER_LEN
                &&& forall|i: int| 0 <= i < TEXT_BUFFER_LEN ==> #[trigger] log.text@[i] == AsciiChar(None)
            },
    {
        let cw: u64 = (width / MONO_TEXT_WIDTH) as u64;
        let ch: u64 = (height / MONO_TEXT_HEIGHT) as u64;
        assert(cw * ch <= 0xFFFF_FFFF * 0xFFFF_FFFF) by (nonlinear_arith)
            requires
                0 <= cw <= 0xFFFF_FFFF,
                0 <= ch <= 0xFFFF_FFFF,
        ;
        if cw < 1 || ch < 1 || cw * ch > TEXT_BUFFER_LEN as u64 {
            return None;
        }
        let mut text: Vec<AsciiChar> = Vec::new();
        let mut i: usize = 0;
        while i < TEXT_BUFFER_LEN
            invariant
                i <= TEXT_BUFFER_LEN,
                text@.len() == i,
                forall|j: int| 0 <= j < i ==> #[trigger] text@[j] == AsciiChar(None),
            decreases TEXT_BUFFER_LEN - i,
        {
            text.push(AsciiChar(None));
            i = i + 1;
        }
        Some(TextLogData { width, height, text, cursor: TextPos(0, 0) })
    }

    /// How many characters can be rendered per line.
    pub fn chars_width(&self) -> (w: u32)
        ensures
            w == self.spec_chars_width(),
    {
        self.width / MONO_TEXT_WIDTH
    }

    /// How many lines of text can fit.
    pub fn chars_height(&self) -> (h: u32)
        ensures
            h == self.spec_chars_height(),
    {
        self.height / MONO_TEXT_HEIGHT
    }

    /// Whether the text has to scroll before the next character.
    pub fn text_shift_required(&self) -> (r: bool)
        requires
            self.wf(),
        ensures
            r == self.spec_text_shift_required(),
    {
        self.cursor.0 == self.chars_width() && self.cursor.1 == self.chars_height() - 1
    }

    /// The place of a text position in the run of characters.
    pub fn pos_to_idx(&self, pos: TextPos) -> (idx: usize)
        requires
            self.wf(),
            pos.0 <= self.spec_chars_width(),
            pos.1 < self.spec_chars_height(),
        ensures
            idx == self.spec_pos_to_idx(pos),
            idx <= self.spec_chars_width() * self.spec_chars_height(),
            pos.0 < self.spec_chars_width() || pos.1 + 1 < self.spec_chars_height() ==> idx
                < self.spec_chars_width() * self.spec_chars_height(),
    {
        let cw: u32 = self.chars_width();
        proof {
            let w = cw as int;
            let h = self.spec_chars_height() as int;
            let y = pos.1 as int;
            assert(0 <= y * w && y * w + w == (y + 1) * w && (y + 1) * w <= h * w && w * h == h * w
                && (y + 1 < h ==> (y + 2) * w <= h * w) && (y + 2) * w == (y + 1) * w + w)
                by (nonlinear_arith)
                requires
                    0 <= y < h,
                    0 < w,
            ;
        }
        let total: usize = self.text.len();
        assert(pos.1 * cw + pos.0 <= total);
        pos.0 as usize + pos.1 as usize * cw as usize
    }

    /// The place on the display of a position in the text.
    pub fn text_pos_to_screen_pos(pos: TextPos) -> (screen: ScreenPos)
        requires
            pos.0 * MONO_TEXT_WIDTH <= u32::MAX,
            pos.1 * MONO_TEXT_HEIGHT <= u32::MAX,
        ensures
            screen == spec_screen_pos(pos),
    {
        ScreenPos(pos.0 * MONO_TEXT_WIDTH, pos.1 * MONO_TEXT_HEIGHT)
    }

    /// What to paint for a character at a place on the display.
    pub fn paint_char(c: AsciiChar, screen_pos: ScreenPos) -> (op: PaintOp)
        ensures
            op == (PaintOp { glyph: c.spec_glyph(), pos: screen_pos }),
    {
        PaintOp { glyph: c.glyph(), pos: screen_pos }
    }

    /// Repaints the whole display from the text: every cell line after
    /// line, with nothing drawn from a line feed to the end of its line.
    pub fn redraw_text(&self) -> (ops: Vec<PaintOp>)
        requires
            self.wf(),
        ensures
            ops@ == spec_redraw(
                self.text@,
                self.spec_chars_width() as int,
                self.spec_chars_height() as int,
            ),
    {
        let cw: u32 = self.chars_width();
        let ch: u32 = self.chars_height();
        let mut ops: Vec<PaintOp> = Vec::new();
        let mut y: u32 = 0;
        while y < ch
            invariant
                self.wf(),
                cw == self.spec_chars_width(),
                ch == self.spec_chars_height(),
                y <= ch,
                ops@.len() == y * cw,
                forall|k: int|
                    0 <= k < ops@.len() ==> #[trigger] ops@[k] == spec_redraw_op(
                        self.text@,
                        cw as int,
                        k,
                    ),
            decreases ch - y,
        {
            let mut erase_rest: bool = false;
            let mut x: u32 = 0;
            while x < cw
                invariant
                    self.wf(),
                    cw == self.spec_chars_width(),
                    ch == self.spec_chars_height(),
                    y < ch,
                    x <= cw,
                    ops@.len() == y * cw + x,
                    erase_rest == line_feed_within(self.text@, y * cw, y * cw + x - 1),
                    forall|k: int|
                        0 <= k < ops@.len() ==> #[trigger] ops@[k] == spec_redraw_op(
                            self.text@,
                            cw as int,
                            k,
                        ),
                decreases cw - x,
            {
                proof {
                    lemma_flat_bound(y as int, ch as int, x as int, cw as int);
                    assert(ch * cw == cw * ch) by (nonlinear_arith);
                    assert(x * 6 <= self.width && y * 10 <= self.height);
                }
                let text_pos: usize = self.pos_to_idx(TextPos(x, y));
                let screen_pos = Self::text_pos_to_screen_pos(TextPos(x, y));
                let mut c: AsciiChar = self.text[text_pos];
                let ghost before = erase_rest;
                if c.is_line_feed() {
                    erase_rest = true;
                }
                if erase_rest {
                    c = AsciiChar(None);
                }
                proof {
                    let k = y * cw + x;
                    if before {
                        let j = choose|j: int|
                            y * cw <= j <= k - 1 && (#[trigger] self.text@[j]).spec_is_line_feed();
                        assert(y * cw <= j <= k && self.text@[j].spec_is_line_feed());
                    }
                    if self.text@[k].spec_is_line_feed() {
                        assert(y * cw <= k <= k && self.text@[k].spec_is_line_feed());
                    }
                    assert(erase_rest == line_feed_within(self.text@, y * cw, k));
                }
                ops.push(Self::paint_char(c, screen_pos));
                x = x + 1;
            }
            proof {
                lemma_flat_bound(y as int, ch as int, 0, cw as int);
            }
            y = y + 1;
        }
        proof {
            assert(ch * cw == cw * ch) by (nonlinear_arith);
        }
        assert(ops@ =~= spec_redraw(self.text@, cw as int, ch as int));
        ops
    }

    /// Scrolls the text up by one line: the first line leaves, the last
    /// line is empty, the cursor returns to the start of its line, and
    /// the whole display is repainted.
    pub fn shift_text(&mut self) -> (ops: Vec<PaintOp>)
        requires
            old(self).wf(),
        ensures
            final(self).wf(),
            final(self).width == old(self).width,
            final(self).height == old(self).height,
            final(self).cursor == TextPos(0, old(self).cursor.1),
            final(self).text@ == spec_shifted(old(self).text@, old(self).spec_chars_width() as int),
            ops@ == spec_redraw(
                final(self).text@,
                old(self).spec_chars_width() as int,
                old(self).spec_chars_height() as int,
            ),
    {
        let cw: usize = self.chars_width() as usize;
        let len: usize = self.text.len();
        proof {
            let w = self.spec_chars_width() as int;
            let h = self.spec_chars_height() as int;
            assert(w <= w * h) by (nonlinear_arith)
                requires
                    w >= 1,
                    h >= 1,
            ;
        }
        let ghost before = self.text@;
        let mut shifted: Vec<AsciiChar> = Vec::new();
        let mut i: usize = cw;
        while i < len
            invariant
                cw <= i <= len,
                len == self.text@.len(),
                self.text@ == before,
                shifted@ == before.subrange(cw as int, i as int),
            decreases len - i,
        {
            shifted.push(self.text[i]);
            assert(shifted@ =~= before.subrange(cw as int, i + 1));
            i = i + 1;
        }
        let mut j: usize = 0;
        while j < cw
            invariant
                j <= cw <= len,
                len == before.len(),
                shifted@ == before.subrange(cw as int, len as int) + Seq::new(
                    j as nat,
                    |i: int| AsciiChar(None),
                ),
            decreases cw - j,
        {
            shifted.push(AsciiChar(None));
            assert(shifted@ =~= before.subrange(cw as int, len as int) + Seq::new(
                (j + 1) as nat,
                |i: int| AsciiChar(None),
            ));
            j = j + 1;
        }
        self.cursor = TextPos(0, self.cursor.1);
        self.text = shifted;
        self.redraw_text()
    }

    /// Advance the cursor to the next valid position.
    pub fn advance_cursor(&mut self)
        requires
            old(self).wf(),
        ensures
            final(self).wf(),
            final(self).width == old(self).width,
            final(self).height == old(self).height,
            final(self).text@ == old(self).text@,
            final(self).cursor == old(self).spec_advanced(),
    {
        let cw: u32 = self.chars_width();
        let ch: u32 = self.chars_height();
        if self.cursor.0 < cw {
            self.cursor = TextPos(self.cursor.0 + 1, self.cursor.1);
        }
        if self.cursor.0 >= cw {
            if self.cursor.1 + 1 < ch {
                self.cursor = TextPos(0, self.cursor.1 + 1);
            }
        }
    }

    /// Moves the cursor to the start of the next line; on the last line
    /// the text scrolls instead and the display is repainted.
    pub fn advance_cursor_newline(&mut self) -> (ops: Vec<PaintOp>)
        requires
            old(self).wf(),
        ensures
            final(self).wf(),
            final(self).width == old(self).width,
            final(self).height == old(self).height,
            old(self).cursor.1 + 1 < old(self).spec_chars_height() ==> final(self).text@ == old(self).text@ && final(self).cursor == TextPos(0, (old(self).cursor.1 + 1) as u32) && ops@
                == Seq::<PaintOp>::empty(),
            old(self).cursor.1 + 1 >= old(self).spec_chars_height() ==> final(self).text@
                == spec_shifted(old(self).text@, old(self).spec_chars_width() as int) && final(self).cursor == TextPos(0, old(self).cursor.1) && ops@ == spec_redraw(
                final(self).text@,
                old(self).spec_chars_width() as int,
                old(self).spec_chars_height() as int,
            ),
    {
        if self.cursor.1 + 1 < self.chars_height() {
            self.cursor = TextPos(0, self.cursor.1 + 1);
            Vec::new()
        } else {
            self.shift_text()
        }
    }

    /// Puts a character at a place of the text and says what to paint.
    pub fn write_char_to_pos(&mut self, c: AsciiChar, text_pos: TextPos) -> (op: PaintOp)
        requires
            old(self).wf(),
            text_pos.0 <= old(self).spec_chars_width(),
            text_pos.1 < old(self).spec_chars_height(),
            text_pos.0 < old(self).spec_chars_width() || text_pos.1 + 1 < old(self).spec_chars_height(),
        ensures
            final(self).wf(),
            final(self).width == old(self).width,
            final(self).height == old(self).height,
            final(self).cursor == old(self).cursor,
            final(self).text@ == old(self).text@.update(old(self).spec_pos_to_idx(text_pos), c),
            op == (PaintOp { glyph: c.spec_glyph(), pos: spec_screen_pos(text_pos) }),
    {
        let idx: usize = self.pos_to_idx(text_pos);
        self.text.set(idx, c);
        let screen_pos = Self::text_pos_to_screen_pos(text_pos);
        Self::paint_char(c, screen_pos)
    }

    /// Writes a character at the cursor and moves the cursor on.
    ///
    /// Where the cursor stands past the end of the last line, the text
    /// scrolls first. A line feed is stored like any character and then
    /// starts a new line, which scrolls the text again on the last line.
    /// The result lists every cell to repaint, in order.
    pub fn write_char(&mut self, c: AsciiChar) -> (ops: Vec<PaintOp>)
        requires
            old(self).wf(),
        ensures
            final(self).wf(),
            final(self).width == old(self).width,
            final(self).height == old(self).height,
            (final(self).text@, final(self).cursor, ops@) == spec_write_char(
                old(self).spec_chars_width() as int,
                old(self).spec_chars_height() as int,
                old(self).text@,
                old(self).cursor,
                c,
            ),
    {
        let mut ops: Vec<PaintOp> = if self.text_shift_required() {
            self.shift_text()
        } else {
            Vec::new()
        };
        let cursor = self.cursor;
        let op = self.write_char_to_pos(c, cursor);
        ops.push(op);
        if c.is_line_feed() {
            let mut more = self.advance_cursor_newline();
            let ghost first = ops@;
            let ghost second = more@;
            ops.append(&mut more);
            assert(ops@ =~= first + second);
            assert(first + Seq::<PaintOp>::empty() =~= first);
        } else {
            self.advance_cursor();
        }
        ops
    }

    /// Writes a text, character by character, and lists every cell to
    /// repaint, in order.
    pub fn write_str(&mut self, s: &str) -> (ops: Vec<PaintOp>)
        requires
            old(self).wf(),
        ensures
            final(self).wf(),
            final(self).width == old(self).width,
            final(self).height == old(self).height,
            (final(self).text@, final(self).cursor, ops@) == spec_write_chars(
                old(self).spec_chars_width() as int,
                old(self).spec_chars_height() as int,
                old(self).text@,
                old(self).cursor,
                s@,
                s@.len() as int,
            ),
    {
        let count: usize = s.unicode_len();
        let ghost w = self.spec_chars_width() as int;
        let ghost h = self.spec_chars_height() as int;
        let ghost text = self.text@;
        let ghost cursor = self.cursor;
        let ghost width = self.width;
        let ghost height = self.height;
        let mut ops: Vec<PaintOp> = Vec::new();
        let mut i: usize = 0;
        while i < count
            invariant
                self.wf(),
                self.width == width,
                self.height == height,
                self.spec_chars_width() == w,
                self.spec_chars_height() == h,
                i <= count,
                count == s@.len(),
                (self.text@, self.cursor, ops@) == spec_write_chars(w, h, text, cursor, s@, i as int),
            decreases count - i,
        {
            let c: char = s.get_char(i);
            let mut more = self.write_char(AsciiChar::from_char(c));
            let ghost first = ops@;
            let ghost second = more@;
            ops.append(&mut more);
            assert(ops@ =~= first + second);
            i = i + 1;
        }
        ops
    }
}

/// What the frame buffer shows.
pub enum DisplayMode {
    /// Text is appended to the display; the oldest text leaves when the
    /// display is full. Nothing is deferred.
    TextLog(TextLogData),
    Graphical,
}

/// The frame buffer: its pixels and what it shows.
pub struct FrameBuffer {
    pub mode: DisplayMode,
    pub data: BufferData,
}

/// Writing text to a frame buffer that does not show text.
#[derive(Clone, Copy, Debug, PartialEq, Eq, Structural)]
pub struct NotTextMode;

impl FrameBuffer {
    /// The pixels are complete, and so is the text log where there is one.
    pub open spec fn wf(&self) -> bool {
        &&& self.data.wf()
        &&& match self.mode {
            DisplayMode::TextLog(log) => log.wf(),
            DisplayMode::Graphical => true,
        }
    }

    /// A frame buffer that shows a text log on a black display; nothing
    /// where the display cannot be had in that size.
    pub fn text_log(width: u32, height: u32) -> (r: Option<Self>)
        ensures
            r is Some ==> r.unwrap().wf() && r.unwrap().mode is TextLog && r.unwrap().data.width
                == width && r.unwrap().data.height == height,
            r is Some <==> (width * height <= usize::MAX && width / MONO_TEXT_WIDTH >= 1 && height
                / MONO_TEXT_HEIGHT >= 1 && (width / MONO_TEXT_WIDTH) * (height / MONO_TEXT_HEIGHT)
                <= TEXT_BUFFER_LEN),
    {
        match BufferData::new(width, height) {
            Some(data) => match TextLogData::new(width, height) {
                Some(log) => Some(FrameBuffer { mode: DisplayMode::TextLog(log), data }),
                None => None,
            },
            None => None,
        }
    }

    pub fn buff_data(&self) -> (data: &BufferData)
        ensures
            *data == self.data,
    {
        &self.data
    }

    pub fn buff_data_mut(&mut self) -> (data: &mut BufferData)
        ensures
            *data == old(self).data,
            final(self).data == *final(data),
            final(self).mode == old(self).mode,
    {
        &mut self.data
    }

    /// Writes one character to the text log and lists the cells to
    /// repaint; fails where the frame buffer does not show text.
    pub fn write_char(&mut self, c: char) -> (r: Result<Vec<PaintOp>, NotTextMode>)
        requires
            old(self).wf(),
        ensures
            final(self).wf(),
            final(self).data == old(self).data,
            match old(self).mode {
                DisplayMode::Graphical => r is Err && final(self).mode is Graphical,
                DisplayMode::TextLog(before) => r is Ok && final(self).mode is TextLog && ({
                    let after = final(self).mode->TextLog_0;
                    &&& after.width == before.width
                    &&& after.height == before.height
                    &&& (after.text@, after.cursor, r.unwrap()@) == spec_write_char(
                        before.spec_chars_width() as int,
                        before.spec_chars_height() as int,
                        before.text@,
                        before.cursor,
                        AsciiChar::spec_from_char(c),
                    )
                }),
            },
    {
        match &mut self.mode {
            DisplayMode::TextLog(log) => Ok(log.write_char(AsciiChar::from_char(c))),
            DisplayMode::Graphical => Err(NotTextMode),
        }
    }

    /// Writes a text to the text log and lists the cells to repaint;
    /// fails where the frame buffer does not show text.
    pub fn write_str(&mut self, s: &str) -> (r: Result<Vec<PaintOp>, NotTextMode>)
        requires
            old(self).wf(),
        ensures
            final(self).wf(),
            final(self).data == old(self).data,
            match old(self).mode {
                DisplayMode::Graphical => r is Err && final(self).mode is Graphical,
                DisplayMode::TextLog(before) => r is Ok && final(self).mode is TextLog && ({
                    let after = final(self).mode->TextLog_0;
                    &&& after.width == before.width
                    &&& after.height == before.height
                    &&& (after.text@, after.cursor, r.unwrap()@) == spec_write_chars(
                        before.spec_chars_width() as int,
                        before.spec_chars_height() as int,
                        before.text@,
                        before.cursor,
                        s@,
                        s@.len() as int,
                    )
                }),
            },
    {
        match &mut self.mode {
            DisplayMode::TextLog(log) => Ok(log.write_str(s)),
            DisplayMode::Graphical => Err(NotTextMode),
        }
    }
}

} // verus!
