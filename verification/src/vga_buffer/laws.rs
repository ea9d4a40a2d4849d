//! Laws of the screen: what scrolling keeps and what it loses, how a long line
//! wraps, what a byte that cannot be shown turns into, and what a cleared row
//! holds.

use vstd::prelude::*;
use vstd::utf8::{encode_scalar, encode_utf8};
use super::buffer::{ScreenChar, BUFFER_HEIGHT, BUFFER_WIDTH};
use super::color::ColorCode;
use super::screen::{
    is_printable, lemma_write_byte_wf, lemma_write_bytes_concat, lemma_write_bytes_one,
    lemma_write_bytes_wf, spec_sanitize, Screen, INVALID_GLYPH, NEWLINE,
};

verus! {

/// No byte of `bytes` is a newline.
pub open spec fn no_newline(bytes: Seq<u8>) -> bool {
    forall|i: int| 0 <= i < bytes.len() ==> bytes[i] != NEWLINE
}

/// The cells that `bytes` are drawn as in the colours `color`: one cell for each
/// byte, in order, holding the byte's sanitized form.
pub open spec fn drawn(bytes: Seq<u8>, color: ColorCode) -> Seq<ScreenChar> {
    Seq::new(
        bytes.len(),
        |i: int| ScreenChar { ascii_character: spec_sanitize(bytes[i]), color_code: color },
    )
}

/// `row` with `cells` laid over it from column `at` on.
pub open spec fn overlay(row: Seq<ScreenChar>, at: int, cells: Seq<ScreenChar>) -> Seq<
    ScreenChar,
> {
    Seq::new(
        row.len(),
        |col: int|
            if at <= col < at + cells.len() {
                cells[col - at]
            } else {
                row[col]
            },
    )
}

/// Bytes that fit in what is left of the bottom row go there, one cell each
/// from the cursor on, and nothing else on the screen changes.
pub proof fn lemma_write_within_row(screen: Screen, bytes: Seq<u8>)
    requires
        screen.wf(),
        no_newline(bytes),
        screen.column + bytes.len() <= BUFFER_WIDTH,
    ensures
        screen.write_bytes(bytes) == (Screen {
            rows: screen.rows.update(
                BUFFER_HEIGHT - 1,
                overlay(
                    screen.rows[BUFFER_HEIGHT - 1],
                    screen.column as int,
                    drawn(bytes, screen.color),
                ),
            ),
            column: screen.column + bytes.len(),
            color: screen.color,
        }),
    decreases bytes.len(),
{
    let bottom = BUFFER_HEIGHT - 1;
    let target = Screen {
        rows: screen.rows.update(
            bottom,
            overlay(screen.rows[bottom], screen.column as int, drawn(bytes, screen.color)),
        ),
        column: screen.column + bytes.len(),
        color: screen.color,
    };
    if bytes.len() == 0 {
        assert(target.rows[bottom] =~= screen.rows[bottom]);
        assert(target.rows =~= screen.rows);
    } else {
        let init = bytes.drop_last();
        lemma_write_within_row(screen, init);
        let mid = screen.write_bytes(init);
        let after = mid.write_byte(spec_sanitize(bytes.last()));
        assert(after == mid.put(spec_sanitize(bytes.last())));
        assert(after.rows[bottom] =~= target.rows[bottom]);
        assert(after.rows =~= target.rows);
    }
}

/// On a full bottom row, text that does not begin with a newline is written as
/// it would be after a scroll: the first byte scrolls the screen before it is
/// drawn.
pub proof fn lemma_full_row_wraps(screen: Screen, bytes: Seq<u8>)
    requires
        screen.wf(),
        screen.column == BUFFER_WIDTH,
        bytes.len() > 0,
        bytes[0] != NEWLINE,
    ensures
        screen.write_bytes(bytes) == screen.new_line().write_bytes(bytes),
    decreases bytes.len(),
{
    if bytes.len() == 1 {
        assert(bytes =~= seq![bytes[0]]);
        lemma_write_bytes_one(screen, bytes[0]);
        lemma_write_bytes_one(screen.new_line(), bytes[0]);
    } else {
        lemma_full_row_wraps(screen, bytes.drop_last());
    }
}

/// A line that is longer than the screen is wide, written from the left edge of
/// the bottom row or onto a full bottom row, wraps once: its first
/// `BUFFER_WIDTH` bytes fill the row above the bottom one, in order, and the
/// rest begins a fresh bottom row at its left edge.
pub proof fn lemma_long_line_wraps(screen: Screen, bytes: Seq<u8>)
    requires
        screen.wf(),
        screen.column == 0 || screen.column == BUFFER_WIDTH,
        no_newline(bytes),
        BUFFER_WIDTH < bytes.len() <= 2 * BUFFER_WIDTH,
    ensures
        screen.write_bytes(bytes).wf(),
        screen.write_bytes(bytes).column == bytes.len() - BUFFER_WIDTH,
        screen.write_bytes(bytes).rows[BUFFER_HEIGHT - 2] == drawn(
            bytes.take(BUFFER_WIDTH as int),
            screen.color,
        ),
        screen.write_bytes(bytes).rows[BUFFER_HEIGHT - 1] == overlay(
            screen.blank_row(),
            0,
            drawn(bytes.skip(BUFFER_WIDTH as int), screen.color),
        ),
{
    let width = BUFFER_WIDTH as int;
    let bottom = BUFFER_HEIGHT - 1;
    let start = if screen.column == 0 {
        screen
    } else {
        screen.new_line()
    };
    if screen.column != 0 {
        lemma_full_row_wraps(screen, bytes);
    }
    assert(screen.write_bytes(bytes) == start.write_bytes(bytes));
    let head = bytes.take(width);
    let tail = bytes.skip(width);
    assert(head + tail =~= bytes);
    lemma_write_bytes_concat(start, head, tail);
    lemma_write_within_row(start, head);
    let full = start.write_bytes(head);
    assert(full.rows[bottom] =~= drawn(head, screen.color));
    lemma_write_bytes_wf(start, head);
    lemma_full_row_wraps(full, tail);
    let fresh = full.new_line();
    lemma_write_within_row(fresh, tail);
    let after = fresh.write_bytes(tail);
    assert(after.rows[bottom] =~= overlay(screen.blank_row(), 0, drawn(tail, screen.color)));
    lemma_write_bytes_wf(screen, bytes);
}

/// Writing exactly one byte more than a row holds, with no newline among them,
/// from the left edge of the bottom row or onto a full bottom row: the first
/// `BUFFER_WIDTH` bytes are on the row above the bottom one, in order, and the
/// last byte is alone at the left edge of a fresh bottom row.
pub proof fn lemma_one_past_the_edge(screen: Screen, bytes: Seq<u8>)
    requires
        screen.wf(),
        screen.column == 0 || screen.column == BUFFER_WIDTH,
        no_newline(bytes),
        bytes.len() == BUFFER_WIDTH + 1,
    ensures
        screen.write_bytes(bytes).column == 1,
        forall|col: int|
            0 <= col < BUFFER_WIDTH ==> #[trigger] screen.write_bytes(bytes).rows[BUFFER_HEIGHT
                - 2][col] == (ScreenChar {
                ascii_character: spec_sanitize(bytes[col]),
                color_code: screen.color,
            }),
        screen.write_bytes(bytes).rows[BUFFER_HEIGHT - 1][0] == (ScreenChar {
            ascii_character: spec_sanitize(bytes[BUFFER_WIDTH as int]),
            color_code: screen.color,
        }),
        forall|col: int|
            1 <= col < BUFFER_WIDTH ==> #[trigger] screen.write_bytes(bytes).rows[BUFFER_HEIGHT
                - 1][col] == ScreenChar::spec_blank(screen.color),
{
    lemma_long_line_wraps(screen, bytes);
}

/// One scroll moves every row but the top one up by one and leaves the bottom
/// row blank, with the cursor at its left edge.
pub proof fn lemma_new_line_scrolls(screen: Screen)
    requires
        screen.wf(),
    ensures
        screen.new_line().wf(),
        screen.new_line().column == 0,
        screen.new_line().color == screen.color,
        forall|row: int|
            1 <= row < BUFFER_HEIGHT ==> #[trigger] screen.new_line().rows[row - 1]
                == screen.rows[row],
        screen.new_line().rows[BUFFER_HEIGHT - 1] == screen.blank_row(),
{
}

/// What the top row held is lost in a scroll: two screens that differ in the top
/// row alone are the same screen afterwards.
pub proof fn lemma_new_line_forgets_top_row(screen: Screen, other: Screen)
    requires
        screen.wf(),
        other.wf(),
        screen.color == other.color,
        forall|row: int| 1 <= row < BUFFER_HEIGHT ==> screen.rows[row] == other.rows[row],
    ensures
        screen.new_line() == other.new_line(),
{
    assert(screen.new_line().rows =~= other.new_line().rows);
}

/// `count` scrolls move each row up by `count`; the rows that were among the top
/// `count` are gone, and the bottom `count` rows are blank.
pub proof fn lemma_new_lines_scroll(screen: Screen, count: nat)
    requires
        screen.wf(),
    ensures
        screen.new_lines(count).wf(),
        screen.new_lines(count).color == screen.color,
        count > 0 ==> screen.new_lines(count).column == 0,
        forall|row: int|
            0 <= row < BUFFER_HEIGHT - count ==> #[trigger] screen.new_lines(count).rows[row]
                == screen.rows[row + count],
        forall|row: int|
            0 <= row < BUFFER_HEIGHT && BUFFER_HEIGHT - count <= row
                ==> #[trigger] screen.new_lines(count).rows[row] == screen.blank_row(),
    decreases count,
{
    if count > 0 {
        let before = screen.new_lines((count - 1) as nat);
        lemma_new_lines_scroll(screen, (count - 1) as nat);
        lemma_new_line_scrolls(before);
        let after = before.new_line();
        assert(before.blank_row() =~= screen.blank_row());
        assert forall|row: int| 0 <= row < BUFFER_HEIGHT - count implies #[trigger] after.rows[row]
            == screen.rows[row + count] by {
            assert(after.rows[row + 1 - 1] == before.rows[row + 1]);
        }
        assert forall|row: int|
            0 <= row < BUFFER_HEIGHT && BUFFER_HEIGHT - count <= row implies #[trigger] after.rows[
                row
            ] == screen.blank_row() by {
            if row < BUFFER_HEIGHT - 1 {
                assert(after.rows[row + 1 - 1] == before.rows[row + 1]);
            }
        }
    }
}

/// Writing `count` newlines scrolls `count` times.
pub proof fn lemma_write_newlines(screen: Screen, count: nat)
    ensures
        screen.write_bytes(Seq::new(count, |i: int| NEWLINE)) == screen.new_lines(count),
    decreases count,
{
    let newlines = Seq::new(count, |i: int| NEWLINE);
    if count > 0 {
        lemma_write_newlines(screen, (count - 1) as nat);
        assert(newlines.drop_last() =~= Seq::new((count - 1) as nat, |i: int| NEWLINE));
    }
}

/// Text followed by a newline shows as the text, scrolled up by one line, above
/// a blank bottom row.
pub proof fn lemma_write_line(screen: Screen, bytes: Seq<u8>)
    ensures
        screen.write_bytes(bytes.push(NEWLINE)) == screen.write_bytes(bytes).new_line(),
{
    assert(bytes.push(NEWLINE).drop_last() =~= bytes);
}

/// A byte that is neither printable ASCII nor a newline is drawn as the
/// invalid-character glyph, in the cell where the byte itself would have gone.
pub proof fn lemma_unprintable_byte_shows_glyph(screen: Screen, byte: u8)
    requires
        screen.wf(),
        !is_printable(byte),
    ensures
        spec_sanitize(byte) == INVALID_GLYPH,
        screen.write_bytes(seq![byte]) == screen.write_byte(INVALID_GLYPH),
        screen.write_bytes(seq![byte]).rows[BUFFER_HEIGHT - 1][screen.write_bytes(
            seq![byte],
        ).column - 1] == (ScreenChar { ascii_character: INVALID_GLYPH, color_code: screen.color }),
{
    lemma_write_bytes_one(screen, byte);
    lemma_write_byte_wf(screen, INVALID_GLYPH);
}

/// Bytes that cannot be shown are written as so many invalid-character glyphs.
pub proof fn lemma_unprintable_bytes_show_glyphs(screen: Screen, bytes: Seq<u8>)
    requires
        forall|i: int| 0 <= i < bytes.len() ==> !is_printable(#[trigger] bytes[i]),
    ensures
        screen.write_bytes(bytes) == screen.write_bytes(
            Seq::new(bytes.len(), |i: int| INVALID_GLYPH),
        ),
    decreases bytes.len(),
{
    let glyphs = Seq::new(bytes.len(), |i: int| INVALID_GLYPH);
    if bytes.len() > 0 {
        lemma_unprintable_bytes_show_glyphs(screen, bytes.drop_last());
        assert(glyphs.drop_last() =~= Seq::new(bytes.drop_last().len(), |i: int| INVALID_GLYPH));
        assert(!is_printable(bytes[bytes.len() - 1]));
    }
}

/// A character outside ASCII takes two to four bytes in UTF-8, and none of them
/// can be shown: each is drawn as an invalid-character glyph of its own.
pub proof fn lemma_non_ascii_char_shows_glyphs(screen: Screen, c: char)
    requires
        c as u32 >= 0x80,
    ensures
        2 <= encode_utf8(seq![c]).len() <= 4,
        forall|i: int|
            0 <= i < encode_utf8(seq![c]).len() ==> !is_printable(
                #[trigger] encode_utf8(seq![c])[i],
            ),
        screen.write_bytes(encode_utf8(seq![c])) == screen.write_bytes(
            Seq::new(encode_utf8(seq![c]).len(), |i: int| INVALID_GLYPH),
        ),
{
    let scalar = c as u32;
    let chars = seq![c];
    assert(chars.drop_first() =~= Seq::<char>::empty());
    assert(encode_utf8(chars.drop_first()) =~= Seq::<u8>::empty());
    assert(encode_utf8(chars) =~= encode_scalar(scalar));
    assert(0x80u8 | (scalar & 0x3F) as u8 >= 0x80) by (bit_vector);
    assert(0x80u8 | ((scalar >> 6) & 0x3F) as u8 >= 0x80) by (bit_vector);
    assert(0x80u8 | ((scalar >> 12) & 0x3F) as u8 >= 0x80) by (bit_vector);
    assert(0xC0u8 | ((scalar >> 6) & 0x1F) as u8 >= 0x80) by (bit_vector);
    assert(0xE0u8 | ((scalar >> 12) & 0x0F) as u8 >= 0x80) by (bit_vector);
    assert(0xF0u8 | ((scalar >> 18) & 0x7) as u8 >= 0x80) by (bit_vector);
    lemma_unprintable_bytes_show_glyphs(screen, encode_utf8(chars));
}

/// A printable byte other than the newline is drawn as itself.
pub proof fn lemma_printable_byte_shows_itself(screen: Screen, byte: u8)
    requires
        screen.wf(),
        is_printable(byte),
        byte != NEWLINE,
    ensures
        screen.write_bytes(seq![byte]) == screen.write_byte(byte),
        screen.write_bytes(seq![byte]).rows[BUFFER_HEIGHT - 1][screen.write_bytes(
            seq![byte],
        ).column - 1] == (ScreenChar { ascii_character: byte, color_code: screen.color }),
{
    lemma_write_bytes_one(screen, byte);
    lemma_write_byte_wf(screen, byte);
}

/// A cleared row holds a space in the current colours in every cell; the other
/// rows and the cursor are as before, and clearing the row again changes
/// nothing.
pub proof fn lemma_clear_line_blanks(screen: Screen, row: int)
    requires
        screen.wf(),
        0 <= row < BUFFER_HEIGHT,
    ensures
        screen.clear_line(row).wf(),
        forall|col: int|
            0 <= col < BUFFER_WIDTH ==> #[trigger] screen.clear_line(row).rows[row][col]
                == ScreenChar::spec_blank(screen.color),
        forall|other: int|
            0 <= other < BUFFER_HEIGHT && other != row ==> #[trigger] screen.clear_line(
                row,
            ).rows[other] == screen.rows[other],
        screen.clear_line(row).column == screen.column,
        screen.clear_line(row).clear_line(row) == screen.clear_line(row),
{
    assert(screen.clear_line(row).clear_line(row).rows =~= screen.clear_line(row).rows);
}

/// A cleared screen is blank in every cell.
pub proof fn lemma_clear_screen_blanks(screen: Screen)
    ensures
        screen.clear_screen().wf(),
        screen.clear_screen().column == 0,
        forall|row: int, col: int|
            0 <= row < BUFFER_HEIGHT && 0 <= col < BUFFER_WIDTH
                ==> #[trigger] screen.clear_screen().rows[row][col] == ScreenChar::spec_blank(
                screen.color,
            ),
{
}

} // verus!
