//! The writer: a cursor on the bottom row of the screen. Text goes in at the
//! cursor; a full row or a newline scrolls everything up by one line.

use vstd::prelude::*;
use vstd::string::*;
use super::buffer::{grid_wf, Buffer, ScreenChar, BUFFER_HEIGHT, BUFFER_WIDTH};
use super::color::{Color, ColorCode};
use super::screen::{is_printable, spec_sanitize, Screen, INVALID_GLYPH, NEWLINE};

verus! {

/// The byte that is written for `byte`: itself if it is printable, the
/// invalid-character glyph if it is not.
pub fn sanitize(byte: u8) -> (out: u8)
    ensures
        out == spec_sanitize(byte),
        is_printable(byte) ==> out == byte,
        !is_printable(byte) ==> out == INVALID_GLYPH,
{
    match byte {
        0x20..=0x7e | NEWLINE => byte,
        _ => INVALID_GLYPH,
    }
}

/// Writes text to the screen, keeping track of where the next character goes.
pub struct Writer {
    column_position: usize,
    color_code: ColorCode,
    buffer: Buffer,
}

impl View for Writer {
    type V = Screen;

    closed spec fn view(&self) -> Screen {
        Screen {
            rows: self.buffer@,
            column: self.column_position as nat,
            color: self.color_code,
        }
    }
}

impl Writer {
    #[verifier::type_invariant]
    spec fn cursor_in_range(self) -> bool {
        self.column_position <= BUFFER_WIDTH
    }

    /// The colours a writer draws in unless told otherwise: cyan on black.
    pub open spec fn default_color() -> ColorCode {
        ColorCode::spec_new(Color::Cyan, Color::Black)
    }

    /// A writer on `buffer` that draws in cyan on black, with the cursor at the
    /// left edge. What the buffer shows is left as it is.
    pub fn new(buffer: Buffer) -> (writer: Writer)
        ensures
            writer@ == (Screen { rows: buffer@, column: 0, color: Writer::default_color() }),
            writer@.wf(),
    {
        Writer::with_color(ColorCode::new(Color::Cyan, Color::Black), buffer)
    }

    /// A writer on `buffer` that draws in `color_code`, with the cursor at the
    /// left edge. What the buffer shows is left as it is.
    pub fn with_color(color_code: ColorCode, buffer: Buffer) -> (writer: Writer)
        ensures
            writer@ == (Screen { rows: buffer@, column: 0, color: color_code }),
            writer@.wf(),
    {
        proof {
            buffer.lemma_wf();
        }
        Writer { column_position: 0, color_code, buffer }
    }

    /// The column of the bottom row that the next character goes to. It is never
    /// past the right edge: it equals `BUFFER_WIDTH` when the row is full and the
    /// next character will scroll.
    pub fn column_position(&self) -> (column: usize)
        ensures
            column == self@.column,
            column <= BUFFER_WIDTH,
            self@.wf(),
    {
        proof {
            use_type_invariant(self);
            self.buffer.lemma_wf();
        }
        self.column_position
    }

    /// The colours this writer draws in.
    pub fn color_code(&self) -> (color_code: ColorCode)
        ensures
            color_code == self@.color,
    {
        self.color_code
    }

    /// The screen memory, for reading what is shown.
    pub fn buffer(&self) -> (buffer: &Buffer)
        ensures
            buffer@ == self@.rows,
    {
        &self.buffer
    }

    /// The cell shown at (`row`, `col`).
    pub fn read(&self, row: usize, col: usize) -> (cell: ScreenChar)
        requires
            row < BUFFER_HEIGHT,
            col < BUFFER_WIDTH,
        ensures
            cell == self@.rows[row as int][col as int],
    {
        self.buffer.read(row, col)
    }

    /// Writes `s` byte by byte. A byte that is neither printable ASCII nor a
    /// newline is shown as the invalid-character glyph, so a character that takes
    /// several bytes in UTF-8 shows as several glyphs.
    pub fn write_string(&mut self, s: &str)
        ensures
            final(self)@ == old(self)@.write_bytes(s.spec_bytes()),
            final(self)@.wf(),
    {
        let bytes = s.as_bytes();
        let len = bytes.len();
        let mut i: usize = 0;
        proof {
            use_type_invariant(&*self);
            self.buffer.lemma_wf();
        }
        while i < len
            invariant
                i <= len,
                len == bytes@.len(),
                self@ == old(self)@.write_bytes(bytes@.take(i as int)),
                self@.wf(),
            decreases len - i,
        {
            let byte = bytes[i];
            proof {
                assert(bytes@.take(i + 1).drop_last() =~= bytes@.take(i as int));
                assert(bytes@.take(i + 1).last() == byte);
            }
            self.write_byte(sanitize(byte));
            i += 1;
        }
        assert(bytes@.take(len as int) =~= bytes@);
    }

    /// Writes one byte as it is, without sanitizing it. A newline scrolls. Any
    /// other byte is drawn at the cursor; if the bottom row is full the screen
    /// scrolls first.
    pub fn write_byte(&mut self, byte: u8)
        ensures
            final(self)@ == old(self)@.write_byte(byte),
            final(self)@.wf(),
    {
        proof {
            use_type_invariant(&*self);
            self.buffer.lemma_wf();
        }
        match byte {
            NEWLINE => self.new_line(),
            byte => {
                if self.column_position >= BUFFER_WIDTH {
                    self.new_line();
                }
                let row = BUFFER_HEIGHT - 1;
                let col = self.column_position;

                self.buffer.write(
                    row,
                    col,
                    ScreenChar { ascii_character: byte, color_code: self.color_code },
                );

                self.column_position += 1;
            },
        }
    }

    /// Scrolls by one line: every row but the top one moves up, the bottom row
    /// is blanked and the cursor returns to the left edge.
    pub fn new_line(&mut self)
        ensures
            final(self)@ == old(self)@.new_line(),
            final(self)@.wf(),
    {
        proof {
            use_type_invariant(&*self);
            self.buffer.lemma_wf();
        }
        for row in 1..BUFFER_HEIGHT
            invariant
                self.color_code == old(self).color_code,
                self.column_position == old(self).column_position,
                self.column_position <= BUFFER_WIDTH,
                grid_wf(self.buffer@),
                grid_wf(old(self).buffer@),
                forall|r: int| 0 <= r < row - 1 ==> self.buffer@[r] == old(self).buffer@[r + 1],
                forall|r: int|
                    row - 1 <= r < BUFFER_HEIGHT ==> self.buffer@[r] == old(self).buffer@[r],
        {
            let above = row - 1;
            for col in 0..BUFFER_WIDTH
                invariant
                    1 <= row < BUFFER_HEIGHT,
                    above == row - 1,
                    self.color_code == old(self).color_code,
                    self.column_position == old(self).column_position,
                    self.column_position <= BUFFER_WIDTH,
                    grid_wf(self.buffer@),
                    grid_wf(old(self).buffer@),
                    forall|r: int| 0 <= r < above ==> self.buffer@[r] == old(self).buffer@[r + 1],
                    forall|r: int|
                        row <= r < BUFFER_HEIGHT ==> self.buffer@[r] == old(self).buffer@[r],
                    forall|c: int|
                        0 <= c < col ==> self.buffer@[above as int][c] == old(
                            self,
                        ).buffer@[row as int][c],
                    forall|c: int|
                        col <= c < BUFFER_WIDTH ==> self.buffer@[above as int][c] == old(
                            self,
                        ).buffer@[above as int][c],
            {
                let character = self.buffer.read(row, col);
                self.buffer.write(above, col, character);
            }
            assert(self.buffer@[above as int] =~= old(self).buffer@[row as int]);
        }
        self.column_position = 0;
        self.clear_line(BUFFER_HEIGHT - 1);
        assert(self@.rows =~= old(self)@.new_line().rows);
    }

    /// Blanks every row and returns the cursor to the left edge.
    pub fn clear_screen(&mut self)
        ensures
            final(self)@ == old(self)@.clear_screen(),
            final(self)@.wf(),
    {
        proof {
            use_type_invariant(&*self);
            self.buffer.lemma_wf();
        }
        for row in 0..BUFFER_HEIGHT
            invariant
                self.color_code == old(self).color_code,
                self.column_position <= BUFFER_WIDTH,
                grid_wf(self.buffer@),
                forall|r: int| 0 <= r < row ==> self.buffer@[r] == old(self)@.blank_row(),
        {
            self.clear_line(row);
        }
        self.column_position = 0;
        assert(self@.rows =~= old(self)@.clear_screen().rows);
    }

    /// Blanks row `row`: a space in the current colours in every cell. The
    /// cursor stays where it is.
    pub fn clear_line(&mut self, row: usize)
        requires
            row < BUFFER_HEIGHT,
        ensures
            final(self)@ == old(self)@.clear_line(row as int),
            final(self)@.wf(),
    {
        proof {
            use_type_invariant(&*self);
            self.buffer.lemma_wf();
        }
        let blank = ScreenChar::blank(self.color_code);

        for col in 0..BUFFER_WIDTH
            invariant
                row < BUFFER_HEIGHT,
                blank == ScreenChar::spec_blank(self.color_code),
                self.color_code == old(self).color_code,
                self.column_position == old(self).column_position,
                self.column_position <= BUFFER_WIDTH,
                grid_wf(self.buffer@),
                grid_wf(old(self).buffer@),
                forall|r: int|
                    0 <= r < BUFFER_HEIGHT && r != row ==> self.buffer@[r] == old(self).buffer@[r],
                forall|c: int| 0 <= c < col ==> self.buffer@[row as int][c] == blank,
        {
            self.buffer.write(row, col, blank);
        }
        assert(self.buffer@[row as int] =~= old(self)@.blank_row());
        assert(self@.rows =~= old(self)@.clear_line(row as int).rows);
    }
}

/// `core::fmt::Error`: the error of the formatting machinery. It carries no
/// information, and a writer never raises it.
#[verifier::external_type_specification]
#[verifier::external_body]
pub struct ExFmtError(core::fmt::Error);

/// Lets formatted text be written straight to the screen, piece by piece,
/// without building the text first.
impl core::fmt::Write for Writer {
    /// Writes `s` as `write_string` does. This cannot fail.
    fn write_str(&mut self, s: &str) -> (result: core::fmt::Result)
        ensures
            result is Ok,
            final(self)@ == old(self)@.write_bytes(s.spec_bytes()),
            final(self)@.wf(),
    {
        self.write_string(s);
        Ok(())
    }
}

} // verus!
