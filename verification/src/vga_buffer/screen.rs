//! What the screen shows, as mathematics: a grid of cells, a cursor column and
//! the current colours, with the operations of the writer as functions from
//! screen to screen.

use vstd::prelude::*;
use super::buffer::{grid_put, grid_wf, ScreenChar, BUFFER_HEIGHT, BUFFER_WIDTH};
use super::color::ColorCode;

verus! {

/// The byte that ends a line.
pub const NEWLINE: u8 = 0x0a;

/// The character code shown in place of a byte that cannot be displayed.
pub const INVALID_GLYPH: u8 = 0xfe;

/// Whether `byte` goes to the screen as it is: a visible ASCII character, a
/// space, or a newline.
pub open spec fn is_printable(byte: u8) -> bool {
    0x20 <= byte <= 0x7e || byte == NEWLINE
}

/// The byte that is written for `byte`: itself if it is printable, the
/// invalid-character glyph if it is not.
pub open spec fn spec_sanitize(byte: u8) -> u8 {
    if is_printable(byte) {
        byte
    } else {
        INVALID_GLYPH
    }
}

/// The state of a writer: the cells on the screen, the column of the bottom row
/// that the next character goes to, and the colours it is drawn in.
pub struct Screen {
    pub rows: Seq<Seq<ScreenChar>>,
    pub column: nat,
    pub color: ColorCode,
}

impl Screen {
    /// The grid has the shape of the screen and the cursor is on the bottom
    /// row or just past its last cell.
    pub open spec fn wf(self) -> bool {
        &&& grid_wf(self.rows)
        &&& self.column <= BUFFER_WIDTH
    }

    /// A row of spaces in the current colours.
    pub open spec fn blank_row(self) -> Seq<ScreenChar> {
        Seq::new(BUFFER_WIDTH as nat, |col: int| ScreenChar::spec_blank(self.color))
    }

    /// The screen with row `row` blanked. The cursor stays.
    pub open spec fn clear_line(self, row: int) -> Screen {
        Screen { rows: self.rows.update(row, self.blank_row()), ..self }
    }

    /// The screen with every row blanked and the cursor at the left edge.
    pub open spec fn clear_screen(self) -> Screen {
        Screen {
            rows: Seq::new(BUFFER_HEIGHT as nat, |row: int| self.blank_row()),
            column: 0,
            color: self.color,
        }
    }

    /// The screen scrolled by one line: the top row is gone, every other row has
    /// moved up by one, the bottom row is blank and the cursor is at its left edge.
    pub open spec fn new_line(self) -> Screen {
        Screen {
            rows: self.rows.subrange(1, BUFFER_HEIGHT as int).push(self.blank_row()),
            column: 0,
            color: self.color,
        }
    }

    /// The screen scrolled by `count` lines.
    pub open spec fn new_lines(self, count: nat) -> Screen
        decreases count,
    {
        if count == 0 {
            self
        } else {
            self.new_lines((count - 1) as nat).new_line()
        }
    }

    /// The screen with `byte` drawn at the cursor, in the current colours, and the
    /// cursor moved one cell to the right.
    pub open spec fn put(self, byte: u8) -> Screen {
        Screen {
            rows: grid_put(
                self.rows,
                BUFFER_HEIGHT - 1,
                self.column as int,
                ScreenChar { ascii_character: byte, color_code: self.color },
            ),
            column: self.column + 1,
            color: self.color,
        }
    }

    /// The screen after one byte is written. A newline scrolls. Any other byte is
    /// drawn at the cursor; if the bottom row is full, the screen scrolls first, so
    /// that the byte lands at the left edge of a fresh row.
    pub open spec fn write_byte(self, byte: u8) -> Screen {
        if byte == NEWLINE {
            self.new_line()
        } else if self.column >= BUFFER_WIDTH {
            self.new_line().put(byte)
        } else {
            self.put(byte)
        }
    }

    /// The screen after `bytes` are written in order, each one sanitized first.
    pub open spec fn write_bytes(self, bytes: Seq<u8>) -> Screen
        decreases bytes.len(),
    {
        if bytes.len() == 0 {
            self
        } else {
            self.write_bytes(bytes.drop_last()).write_byte(spec_sanitize(bytes.last()))
        }
    }
}

/// Writing a byte keeps the screen well formed: the cursor never passes the
/// right edge, and the cell that is drawn lies inside the grid.
pub proof fn lemma_write_byte_wf(screen: Screen, byte: u8)
    requires
        screen.wf(),
    ensures
        screen.write_byte(byte).wf(),
        byte != NEWLINE ==> 1 <= screen.write_byte(byte).column <= BUFFER_WIDTH,
        byte != NEWLINE ==> screen.write_byte(byte).rows[BUFFER_HEIGHT - 1][
            screen.write_byte(byte).column - 1
        ] == (ScreenChar { ascii_character: byte, color_code: screen.color }),
        screen.write_byte(byte).color == screen.color,
{
}

/// Writing any sequence of bytes keeps the screen well formed and the colours
/// unchanged.
pub proof fn lemma_write_bytes_wf(screen: Screen, bytes: Seq<u8>)
    requires
        screen.wf(),
    ensures
        screen.write_bytes(bytes).wf(),
        screen.write_bytes(bytes).color == screen.color,
    decreases bytes.len(),
{
    if bytes.len() > 0 {
        lemma_write_bytes_wf(screen, bytes.drop_last());
        lemma_write_byte_wf(screen.write_bytes(bytes.drop_last()), spec_sanitize(bytes.last()));
    }
}

/// Writing one text and then another shows what writing the two texts joined
/// would show: nothing of the second gets in between the bytes of the first.
pub proof fn lemma_write_bytes_concat(screen: Screen, first: Seq<u8>, second: Seq<u8>)
    ensures
        screen.write_bytes(first).write_bytes(second) == screen.write_bytes(first + second),
    decreases second.len(),
{
    if second.len() == 0 {
        assert(first + second =~= first);
    } else {
        lemma_write_bytes_concat(screen, first, second.drop_last());
        assert((first + second).drop_last() =~= first + second.drop_last());
        assert((first + second).last() == second.last());
    }
}

/// Writing a single byte is writing its sanitized form.
pub proof fn lemma_write_bytes_one(screen: Screen, byte: u8)
    ensures
        screen.write_bytes(seq![byte]) == screen.write_byte(spec_sanitize(byte)),
{
    let bytes = seq![byte];
    assert(bytes.drop_last() =~= Seq::<u8>::empty());
    assert(screen.write_bytes(bytes.drop_last()) == screen);
}

} // verus!
