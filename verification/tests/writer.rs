use alice_os::vga_buffer::{
    sanitize, Buffer, Cells, Color, ColorCode, ScreenChar, Writer, BUFFER_HEIGHT, BUFFER_WIDTH,
};
use volatile::Volatile;

const CYAN_ON_BLACK: ColorCode = ColorCode(0x03);

fn ramp_cell(row: usize, col: usize) -> ScreenChar {
    ScreenChar {
        ascii_character: (row * 7 + col) as u8,
        color_code: ColorCode((row * 3 + col * 5) as u8),
    }
}

/// Screen memory in which every cell differs from its neighbours.
fn ramp_memory() -> &'static mut Cells {
    Box::leak(Box::new(core::array::from_fn(|row| {
        core::array::from_fn(|col| Volatile::new(ramp_cell(row, col).to_bytes()))
    })))
}

fn ramp_writer() -> Writer {
    Writer::new(Buffer::new(ramp_memory()))
}

fn cleared_writer() -> Writer {
    let mut writer = ramp_writer();
    writer.clear_screen();
    writer
}

fn snapshot(writer: &Writer) -> Vec<Vec<ScreenChar>> {
    (0..BUFFER_HEIGHT)
        .map(|row| (0..BUFFER_WIDTH).map(|col| writer.read(row, col)).collect())
        .collect()
}

fn shown(byte: u8) -> ScreenChar {
    ScreenChar { ascii_character: byte, color_code: CYAN_ON_BLACK }
}

fn blank() -> ScreenChar {
    shown(b' ')
}

fn row_text(writer: &Writer, row: usize) -> Vec<u8> {
    (0..BUFFER_WIDTH).map(|col| writer.read(row, col).ascii_character).collect()
}

#[test]
fn a_new_writer_is_cyan_on_black_at_the_left_edge() {
    let writer = ramp_writer();
    assert_eq!(writer.column_position(), 0);
    assert_eq!(writer.color_code(), ColorCode::new(Color::Cyan, Color::Black));
    assert_eq!(writer.color_code().0, 0x03);
}

#[test]
fn a_new_writer_leaves_the_screen_as_it_found_it() {
    let writer = ramp_writer();
    for row in 0..BUFFER_HEIGHT {
        for col in 0..BUFFER_WIDTH {
            assert_eq!(writer.read(row, col), ramp_cell(row, col));
            assert_eq!(writer.buffer().read(row, col), ramp_cell(row, col));
        }
    }
}

#[test]
fn a_writer_can_be_given_other_colors() {
    let colors = ColorCode::new(Color::Yellow, Color::Blue);
    let mut writer = Writer::with_color(colors, Buffer::new(ramp_memory()));
    assert_eq!(writer.column_position(), 0);
    assert_eq!(writer.color_code(), colors);
    writer.write_byte(b'z');
    assert_eq!(
        writer.read(BUFFER_HEIGHT - 1, 0),
        ScreenChar { ascii_character: b'z', color_code: ColorCode(0x1e) }
    );
    writer.clear_line(0);
    assert_eq!(
        writer.read(0, 17),
        ScreenChar { ascii_character: b' ', color_code: ColorCode(0x1e) }
    );
}

#[test]
fn hello_lands_on_the_bottom_row_in_the_current_colors() {
    let mut writer = ramp_writer();
    writer.write_string("HELLO");
    let expected = [b'H', b'E', b'L', b'L', b'O'];
    for (col, byte) in expected.into_iter().enumerate() {
        let cell = writer.read(BUFFER_HEIGHT - 1, col);
        assert_eq!(cell.ascii_character, byte);
        assert_eq!(cell.color_code, writer.color_code());
    }
    assert_eq!(writer.column_position(), 5);
}

#[test]
fn text_within_the_row_touches_nothing_else() {
    let mut writer = ramp_writer();
    let before = snapshot(&writer);
    writer.write_string("HELLO");
    let after = snapshot(&writer);
    for row in 0..BUFFER_HEIGHT {
        for col in 0..BUFFER_WIDTH {
            if row == BUFFER_HEIGHT - 1 && col < 5 {
                assert_eq!(after[row][col], shown(b"HELLO"[col]));
            } else {
                assert_eq!(after[row][col], before[row][col]);
            }
        }
    }
}

#[test]
fn write_byte_draws_at_the_cursor_and_advances() {
    let mut writer = ramp_writer();
    writer.write_byte(b'a');
    assert_eq!(writer.column_position(), 1);
    writer.write_byte(b'b');
    assert_eq!(writer.column_position(), 2);
    assert_eq!(writer.read(BUFFER_HEIGHT - 1, 0), shown(b'a'));
    assert_eq!(writer.read(BUFFER_HEIGHT - 1, 1), shown(b'b'));
    assert_eq!(writer.read(BUFFER_HEIGHT - 1, 2), ramp_cell(BUFFER_HEIGHT - 1, 2));
}

#[test]
fn write_byte_does_not_sanitize() {
    let mut writer = ramp_writer();
    writer.write_byte(0x01);
    writer.write_byte(0x80);
    writer.write_byte(0xff);
    assert_eq!(writer.read(BUFFER_HEIGHT - 1, 0), shown(0x01));
    assert_eq!(writer.read(BUFFER_HEIGHT - 1, 1), shown(0x80));
    assert_eq!(writer.read(BUFFER_HEIGHT - 1, 2), shown(0xff));
    assert_eq!(writer.column_position(), 3);
}

#[test]
fn a_newline_byte_scrolls() {
    let mut writer = ramp_writer();
    writer.write_string("abc");
    let before = snapshot(&writer);
    writer.write_byte(b'\n');
    assert_eq!(writer.column_position(), 0);
    for row in 1..BUFFER_HEIGHT {
        for col in 0..BUFFER_WIDTH {
            assert_eq!(writer.read(row - 1, col), before[row][col]);
        }
    }
    for col in 0..BUFFER_WIDTH {
        assert_eq!(writer.read(BUFFER_HEIGHT - 1, col), blank());
    }
}

#[test]
fn the_cursor_never_passes_the_right_edge() {
    let mut writer = cleared_writer();
    for i in 0..1000usize {
        let byte = if i % 97 == 96 { b'\n' } else { b'!' + (i % 90) as u8 };
        writer.write_byte(byte);
        assert!(writer.column_position() <= BUFFER_WIDTH);
    }
}

#[test]
fn a_full_row_scrolls_only_when_the_next_byte_comes() {
    let mut writer = ramp_writer();
    let before = snapshot(&writer);
    for _ in 0..BUFFER_WIDTH {
        writer.write_byte(b'x');
    }
    assert_eq!(writer.column_position(), BUFFER_WIDTH);
    for col in 0..BUFFER_WIDTH {
        assert_eq!(writer.read(BUFFER_HEIGHT - 1, col), shown(b'x'));
        assert_eq!(writer.read(BUFFER_HEIGHT - 2, col), before[BUFFER_HEIGHT - 2][col]);
        assert_eq!(writer.read(0, col), before[0][col]);
    }
    writer.write_byte(b'y');
    assert_eq!(writer.column_position(), 1);
    for col in 0..BUFFER_WIDTH {
        assert_eq!(writer.read(BUFFER_HEIGHT - 2, col), shown(b'x'));
        assert_eq!(writer.read(0, col), before[1][col]);
    }
    assert_eq!(writer.read(BUFFER_HEIGHT - 1, 0), shown(b'y'));
    for col in 1..BUFFER_WIDTH {
        assert_eq!(writer.read(BUFFER_HEIGHT - 1, col), blank());
    }
}

#[test]
fn one_byte_past_the_edge_starts_a_fresh_row() {
    let mut writer = cleared_writer();
    let text: String = (0..BUFFER_WIDTH + 1).map(|i| (b'!' + (i % 90) as u8) as char).collect();
    assert_eq!(text.len(), BUFFER_WIDTH + 1);
    writer.write_string(&text);
    for (col, byte) in text.bytes().take(BUFFER_WIDTH).enumerate() {
        assert_eq!(writer.read(BUFFER_HEIGHT - 2, col), shown(byte));
    }
    assert_eq!(writer.read(BUFFER_HEIGHT - 1, 0), shown(text.as_bytes()[BUFFER_WIDTH]));
    for col in 1..BUFFER_WIDTH {
        assert_eq!(writer.read(BUFFER_HEIGHT - 1, col), blank());
    }
    assert_eq!(writer.column_position(), 1);
}

#[test]
fn one_byte_past_the_edge_after_a_full_row_wraps_twice() {
    let mut writer = cleared_writer();
    for _ in 0..BUFFER_WIDTH {
        writer.write_byte(b'#');
    }
    assert_eq!(writer.column_position(), BUFFER_WIDTH);
    let text: String = (0..BUFFER_WIDTH + 1).map(|i| (b'!' + (i % 90) as u8) as char).collect();
    writer.write_string(&text);
    for col in 0..BUFFER_WIDTH {
        assert_eq!(writer.read(BUFFER_HEIGHT - 3, col), shown(b'#'));
    }
    for (col, byte) in text.bytes().take(BUFFER_WIDTH).enumerate() {
        assert_eq!(writer.read(BUFFER_HEIGHT - 2, col), shown(byte));
    }
    assert_eq!(writer.read(BUFFER_HEIGHT - 1, 0), shown(text.as_bytes()[BUFFER_WIDTH]));
    for col in 1..BUFFER_WIDTH {
        assert_eq!(writer.read(BUFFER_HEIGHT - 1, col), blank());
    }
    assert_eq!(writer.column_position(), 1);
}

#[test]
fn a_long_line_breaks_after_eighty_characters() {
    let mut writer = cleared_writer();
    let text: String = (0..BUFFER_WIDTH + 35).map(|i| (b'A' + (i % 26) as u8) as char).collect();
    writer.write_string(&text);
    for (col, byte) in text.bytes().take(BUFFER_WIDTH).enumerate() {
        assert_eq!(writer.read(BUFFER_HEIGHT - 2, col), shown(byte));
    }
    for (col, byte) in text.bytes().skip(BUFFER_WIDTH).enumerate() {
        assert_eq!(writer.read(BUFFER_HEIGHT - 1, col), shown(byte));
    }
    for col in 35..BUFFER_WIDTH {
        assert_eq!(writer.read(BUFFER_HEIGHT - 1, col), blank());
    }
    for row in 0..BUFFER_HEIGHT - 2 {
        for col in 0..BUFFER_WIDTH {
            assert_eq!(writer.read(row, col), blank());
        }
    }
    assert_eq!(writer.column_position(), 35);
}

#[test]
fn two_lines_end_up_one_above_the_other() {
    let mut writer = cleared_writer();
    writer.write_string("first line\nsecond line");
    let mut upper = vec![b' '; BUFFER_WIDTH];
    upper[..10].copy_from_slice(b"first line");
    let mut lower = vec![b' '; BUFFER_WIDTH];
    lower[..11].copy_from_slice(b"second line");
    assert_eq!(row_text(&writer, BUFFER_HEIGHT - 2), upper);
    assert_eq!(row_text(&writer, BUFFER_HEIGHT - 1), lower);
    assert_eq!(writer.column_position(), 11);
}

#[test]
fn new_line_moves_every_row_up_and_blanks_the_last() {
    let mut writer = ramp_writer();
    writer.new_line();
    assert_eq!(writer.column_position(), 0);
    for row in 1..BUFFER_HEIGHT {
        for col in 0..BUFFER_WIDTH {
            assert_eq!(writer.read(row - 1, col), ramp_cell(row, col));
        }
    }
    for col in 0..BUFFER_WIDTH {
        assert_eq!(writer.read(BUFFER_HEIGHT - 1, col), blank());
    }
}

#[test]
fn repeated_new_lines_shift_by_their_count() {
    for count in [0usize, 1, 2, 3, 12, 24, 25, 26, 60] {
        let mut writer = ramp_writer();
        for _ in 0..count {
            writer.new_line();
        }
        for row in 0..BUFFER_HEIGHT {
            for col in 0..BUFFER_WIDTH {
                let expected = if row + count < BUFFER_HEIGHT {
                    ramp_cell(row + count, col)
                } else {
                    blank()
                };
                assert_eq!(writer.read(row, col), expected, "count {count}, row {row}, col {col}");
            }
        }
    }
}

#[test]
fn the_top_row_is_lost_in_a_scroll() {
    let mut first = ramp_writer();
    let mut second = ramp_writer();
    second.clear_line(0);
    for col in 0..BUFFER_WIDTH {
        assert_ne!(first.read(0, col), second.read(0, col));
    }
    first.new_line();
    second.new_line();
    assert_eq!(snapshot(&first), snapshot(&second));
    let top_row_before: Vec<ScreenChar> = (0..BUFFER_WIDTH).map(|col| ramp_cell(0, col)).collect();
    for row in snapshot(&first) {
        assert_ne!(row, top_row_before);
    }
}

#[test]
fn newlines_in_a_string_scroll_like_new_line() {
    let mut by_string = ramp_writer();
    let mut by_call = ramp_writer();
    by_string.write_string("\n\n\n");
    for _ in 0..3 {
        by_call.new_line();
    }
    assert_eq!(snapshot(&by_string), snapshot(&by_call));
    assert_eq!(by_string.column_position(), 0);
}

#[test]
fn sanitize_keeps_printable_ascii_and_newline() {
    for byte in 0..=0xffu8 {
        let expected = if (0x20..=0x7e).contains(&byte) || byte == b'\n' { byte } else { 0xfe };
        assert_eq!(sanitize(byte), expected, "byte {byte:#04x}");
    }
}

#[test]
fn control_characters_show_as_the_invalid_glyph() {
    let mut writer = cleared_writer();
    writer.write_string("a\tb\rc\0d\u{7f}e\u{1b}");
    let expected = [b'a', 0xfe, b'b', 0xfe, b'c', 0xfe, b'd', 0xfe, b'e', 0xfe];
    for (col, byte) in expected.into_iter().enumerate() {
        assert_eq!(writer.read(BUFFER_HEIGHT - 1, col), shown(byte));
    }
    assert_eq!(writer.column_position(), 10);
}

#[test]
fn the_edges_of_the_printable_range_show_as_themselves() {
    let mut writer = cleared_writer();
    writer.write_string(" ~\u{1f}");
    assert_eq!(writer.read(BUFFER_HEIGHT - 1, 0), shown(0x20));
    assert_eq!(writer.read(BUFFER_HEIGHT - 1, 1), shown(0x7e));
    assert_eq!(writer.read(BUFFER_HEIGHT - 1, 2), shown(0xfe));
}

#[test]
fn each_byte_of_a_two_byte_character_shows_as_a_glyph() {
    let mut writer = cleared_writer();
    let text = "áçãó";
    assert_eq!(text.len(), 8);
    writer.write_string(text);
    for col in 0..8 {
        assert_eq!(writer.read(BUFFER_HEIGHT - 1, col), shown(0xfe));
    }
    for col in 8..BUFFER_WIDTH {
        assert_eq!(writer.read(BUFFER_HEIGHT - 1, col), blank());
    }
    assert_eq!(writer.column_position(), 8);
}

#[test]
fn three_and_four_byte_characters_show_as_three_and_four_glyphs() {
    let mut writer = cleared_writer();
    writer.write_string("€x😀y");
    let expected = [0xfe, 0xfe, 0xfe, b'x', 0xfe, 0xfe, 0xfe, 0xfe, b'y'];
    for (col, byte) in expected.into_iter().enumerate() {
        assert_eq!(writer.read(BUFFER_HEIGHT - 1, col), shown(byte));
    }
    assert_eq!(writer.column_position(), 9);
}

#[test]
fn a_cleared_row_reads_back_blank() {
    let mut writer = ramp_writer();
    writer.write_string("abc");
    let before = snapshot(&writer);
    writer.clear_line(7);
    for col in 0..BUFFER_WIDTH {
        let cell = writer.read(7, col);
        assert_eq!(cell.ascii_character, b' ');
        assert_eq!(cell.color_code, writer.color_code());
    }
    for row in (0..BUFFER_HEIGHT).filter(|&row| row != 7) {
        for col in 0..BUFFER_WIDTH {
            assert_eq!(writer.read(row, col), before[row][col]);
        }
    }
    assert_eq!(writer.column_position(), 3);
}

#[test]
fn clearing_a_row_twice_is_clearing_it_once() {
    let mut writer = ramp_writer();
    writer.clear_line(0);
    let once = snapshot(&writer);
    writer.clear_line(0);
    assert_eq!(snapshot(&writer), once);
}

#[test]
fn every_row_can_be_cleared() {
    for row in 0..BUFFER_HEIGHT {
        let mut writer = ramp_writer();
        writer.clear_line(row);
        for other in 0..BUFFER_HEIGHT {
            for col in 0..BUFFER_WIDTH {
                let expected = if other == row { blank() } else { ramp_cell(other, col) };
                assert_eq!(writer.read(other, col), expected);
            }
        }
    }
}

#[test]
fn a_cleared_screen_is_blank_everywhere() {
    let mut writer = ramp_writer();
    writer.write_string("some text");
    assert_eq!(writer.column_position(), 9);
    writer.clear_screen();
    assert_eq!(writer.column_position(), 0);
    for row in 0..BUFFER_HEIGHT {
        for col in 0..BUFFER_WIDTH {
            assert_eq!(writer.read(row, col), blank());
        }
    }
}

#[test]
fn two_writes_show_what_one_write_of_both_texts_shows() {
    let first = "the quick brown fox\njumps over ";
    let second = "the lazy dog, again and again and again and again and again and again and again\n!";
    let mut in_two = ramp_writer();
    in_two.write_string(first);
    in_two.write_string(second);
    let mut in_one = ramp_writer();
    in_one.write_string(&format!("{first}{second}"));
    assert_eq!(snapshot(&in_two), snapshot(&in_one));
    assert_eq!(in_two.column_position(), in_one.column_position());
}

#[test]
fn write_str_writes_like_write_string_and_never_fails() {
    let text = "formatted: é\nnext line";
    let mut by_trait = ramp_writer();
    assert_eq!(std::fmt::Write::write_str(&mut by_trait, text), Ok(()));
    let mut by_method = ramp_writer();
    by_method.write_string(text);
    assert_eq!(snapshot(&by_trait), snapshot(&by_method));
    assert_eq!(by_trait.column_position(), by_method.column_position());
}

#[test]
fn write_char_goes_through_write_str() {
    let mut writer = cleared_writer();
    assert_eq!(std::fmt::Write::write_char(&mut writer, 'x'), Ok(()));
    assert_eq!(std::fmt::Write::write_char(&mut writer, 'é'), Ok(()));
    assert_eq!(writer.read(BUFFER_HEIGHT - 1, 0), shown(b'x'));
    assert_eq!(writer.read(BUFFER_HEIGHT - 1, 1), shown(0xfe));
    assert_eq!(writer.read(BUFFER_HEIGHT - 1, 2), shown(0xfe));
    assert_eq!(writer.column_position(), 3);
}

#[test]
fn an_empty_string_changes_nothing() {
    let mut writer = ramp_writer();
    writer.write_string("ab");
    let before = snapshot(&writer);
    writer.write_string("");
    assert_eq!(snapshot(&writer), before);
    assert_eq!(writer.column_position(), 2);
}

#[test]
fn write_string_is_write_byte_of_each_sanitized_byte() {
    let text = "mixed: é\tline one\nline two is longer than the first line, and it runs past the edge of the row";
    let mut by_string = ramp_writer();
    by_string.write_string(text);
    let mut by_byte = ramp_writer();
    for byte in text.bytes() {
        by_byte.write_byte(sanitize(byte));
    }
    assert_eq!(snapshot(&by_string), snapshot(&by_byte));
    assert_eq!(by_string.column_position(), by_byte.column_position());
}
