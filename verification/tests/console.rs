use operating_system::vga_buffer::{
    Buffer, Colour, ColourCode, ScreenChar, Writer, BUFFER_HEIGHT, BUFFER_WIDTH, REPLACEMENT_GLYPH,
};

const RED_ON_BLACK: ColourCode = ColourCode(0x04);
const LAST: usize = BUFFER_HEIGHT - 1;

fn shown(byte: u8) -> ScreenChar {
    ScreenChar { ascii_character: byte, colour_code: RED_ON_BLACK }
}

fn row_text(writer: &Writer, row: usize) -> String {
    let mut text = String::new();
    for col in 0..BUFFER_WIDTH {
        text.push(writer.cell(row, col).ascii_character as char);
    }
    text.trim_end().to_string()
}

fn assert_row_blank(writer: &Writer, row: usize) {
    for col in 0..BUFFER_WIDTH {
        assert_eq!(writer.cell(row, col), shown(b' '), "row {row}, column {col}");
    }
}

#[test]
fn colour_codes_follow_the_hardware_numbering() {
    assert_eq!(Colour::Black.code(), 0);
    assert_eq!(Colour::Blue.code(), 1);
    assert_eq!(Colour::Green.code(), 2);
    assert_eq!(Colour::Cyan.code(), 3);
    assert_eq!(Colour::Red.code(), 4);
    assert_eq!(Colour::Magenta.code(), 5);
    assert_eq!(Colour::Brown.code(), 6);
    assert_eq!(Colour::LightGray.code(), 7);
    assert_eq!(Colour::DarkGray.code(), 8);
    assert_eq!(Colour::LightBlue.code(), 9);
    assert_eq!(Colour::LightGreen.code(), 10);
    assert_eq!(Colour::LightCyan.code(), 11);
    assert_eq!(Colour::LightRed.code(), 12);
    assert_eq!(Colour::Pink.code(), 13);
    assert_eq!(Colour::Yellow.code(), 14);
    assert_eq!(Colour::White.code(), 15);
}

#[test]
fn colour_code_packs_background_above_foreground() {
    assert_eq!(ColourCode::new(Colour::Red, Colour::Black), ColourCode(0x04));
    assert_eq!(ColourCode::new(Colour::Yellow, Colour::Blue), ColourCode(0x1e));
    assert_eq!(ColourCode::new(Colour::Black, Colour::White), ColourCode(0xf0));
    assert_eq!(ColourCode::new(Colour::White, Colour::White), ColourCode(0xff));
}

#[test]
fn screen_char_packs_character_below_attribute() {
    let cell = ScreenChar { ascii_character: b'A', colour_code: ColourCode(0x1e) };
    assert_eq!(cell.pack(), 0x1e41);
    assert_eq!(ScreenChar::unpack(0x1e41), cell);
    assert_eq!(ScreenChar::unpack(0x0420), shown(b' '));
}

#[test]
fn screen_char_round_trips_through_every_word() {
    for word in 0..=u16::MAX {
        assert_eq!(ScreenChar::unpack(word).pack(), word);
    }
}

#[test]
fn buffer_keeps_what_was_written_and_nothing_else() {
    let mut buffer = Buffer::filled(shown(b' '));
    buffer.write(3, 7, shown(b'x'));
    buffer.write(24, 79, shown(b'y'));
    for row in 0..BUFFER_HEIGHT {
        for col in 0..BUFFER_WIDTH {
            let expected = match (row, col) {
                (3, 7) => shown(b'x'),
                (24, 79) => shown(b'y'),
                _ => shown(b' '),
            };
            assert_eq!(buffer.read(row, col), expected);
        }
    }
}

#[test]
fn new_writer_is_blank_in_red_on_black() {
    let writer = Writer::new();
    assert_eq!(writer.column(), 0);
    assert_eq!(writer.colour_code(), RED_ON_BLACK);
    for row in 0..BUFFER_HEIGHT {
        assert_row_blank(&writer, row);
    }
}

#[test]
fn default_writer_is_a_new_writer() {
    let writer = Writer::default();
    assert_eq!(writer.column(), 0);
    assert_eq!(writer.colour_code(), RED_ON_BLACK);
    for row in 0..BUFFER_HEIGHT {
        assert_row_blank(&writer, row);
    }
}

#[test]
fn printable_bytes_fill_the_start_of_the_last_row() {
    let mut writer = Writer::new();
    writer.write_str("Hello, World!");
    assert_eq!(writer.column(), 13);
    for (col, byte) in "Hello, World!".bytes().enumerate() {
        assert_eq!(writer.cell(LAST, col), shown(byte));
    }
    for col in 13..BUFFER_WIDTH {
        assert_eq!(writer.cell(LAST, col), shown(b' '));
    }
    for row in 0..LAST {
        assert_row_blank(&writer, row);
    }
}

#[test]
fn every_printable_byte_is_shown_as_it_is() {
    for byte in 0x20..=0x7eu8 {
        let mut writer = Writer::new();
        writer.write_byte(byte);
        assert_eq!(writer.cell(LAST, 0), shown(byte));
        assert_eq!(writer.column(), 1);
    }
}

#[test]
fn a_full_row_does_not_scroll_until_the_next_byte() {
    let mut writer = Writer::new();
    for _ in 0..BUFFER_WIDTH {
        writer.write_byte(b'a');
    }
    assert_eq!(writer.column(), BUFFER_WIDTH);
    for col in 0..BUFFER_WIDTH {
        assert_eq!(writer.cell(LAST, col), shown(b'a'));
    }
    assert_row_blank(&writer, LAST - 1);
}

#[test]
fn one_byte_past_a_full_row_scrolls_once() {
    let mut writer = Writer::new();
    for _ in 0..BUFFER_WIDTH {
        writer.write_byte(b'a');
    }
    writer.write_byte(b'b');
    assert_eq!(writer.column(), 1);
    for col in 0..BUFFER_WIDTH {
        assert_eq!(writer.cell(LAST - 1, col), shown(b'a'));
    }
    assert_eq!(writer.cell(LAST, 0), shown(b'b'));
    for col in 1..BUFFER_WIDTH {
        assert_eq!(writer.cell(LAST, col), shown(b' '));
    }
    assert_row_blank(&writer, LAST - 2);
}

#[test]
fn backspace_erases_the_cell_before_the_cursor() {
    let mut writer = Writer::new();
    writer.write_str("abc");
    writer.write_byte(8);
    assert_eq!(writer.column(), 2);
    assert_eq!(row_text(&writer, LAST), "ab");
    assert_eq!(writer.cell(LAST, 2), shown(b' '));
}

#[test]
fn backspaces_down_to_the_first_column_leave_the_row_blank() {
    let mut writer = Writer::new();
    writer.write_str("abc");
    writer.write_str("\u{8}\u{8}\u{8}");
    assert_eq!(writer.column(), 0);
    assert_row_blank(&writer, LAST);
}

#[test]
fn backspace_at_the_first_column_brings_the_row_above_back() {
    let mut writer = Writer::new();
    writer.write_str("first\nsecond\n");
    assert_eq!(writer.column(), 0);
    assert_eq!(row_text(&writer, LAST - 2), "first");
    assert_eq!(row_text(&writer, LAST - 1), "second");
    writer.backspace();
    assert_eq!(row_text(&writer, LAST), "second");
    assert_eq!(row_text(&writer, LAST - 1), "first");
    assert_eq!(writer.column(), 6);
}

#[test]
fn backspace_onto_a_blank_row_leaves_the_cursor_at_the_first_column() {
    let mut writer = Writer::new();
    writer.write_str("gone");
    let before = writer.column();
    assert_eq!(before, 4);
    writer.write_byte(b'\n');
    writer.write_byte(b'\n');
    writer.write_byte(8);
    assert_eq!(writer.column(), 0);
    assert_row_blank(&writer, LAST);
    assert_eq!(row_text(&writer, LAST - 1), "gone");
}

#[test]
fn backspace_lands_behind_a_space_inside_the_text() {
    let mut writer = Writer::new();
    writer.write_str("a b  \n");
    writer.write_byte(8);
    assert_eq!(writer.column(), 3);
    assert_eq!(row_text(&writer, LAST), "a b");
}

#[test]
fn backspace_at_the_first_column_drops_the_last_row_and_keeps_the_top_row() {
    let mut writer = Writer::new();
    for line in 0..BUFFER_HEIGHT {
        writer.write_byte(b'A' + line as u8);
        if line + 1 < BUFFER_HEIGHT {
            writer.write_byte(b'\n');
        }
    }
    assert_eq!(row_text(&writer, 0), "A");
    assert_eq!(row_text(&writer, LAST), "Y");
    writer.write_byte(8);
    assert_eq!(writer.column(), 0);
    writer.write_byte(8);
    assert_eq!(row_text(&writer, 0), "A");
    assert_eq!(row_text(&writer, 1), "A");
    assert_eq!(row_text(&writer, 2), "B");
    assert_eq!(row_text(&writer, LAST), "X");
    assert_eq!(writer.column(), 1);
}

#[test]
fn newline_puts_the_cursor_at_the_first_column() {
    for written in [0usize, 1, 40, 79, 80] {
        let mut writer = Writer::new();
        for _ in 0..written {
            writer.write_byte(b'x');
        }
        assert_eq!(writer.column(), written);
        writer.write_byte(b'\n');
        assert_eq!(writer.column(), 0);
        assert_row_blank(&writer, LAST);
        assert_eq!(row_text(&writer, LAST - 1), "x".repeat(written));
    }
}

#[test]
fn new_line_moves_every_row_up() {
    let mut writer = Writer::new();
    writer.write_str("one\ntwo");
    writer.new_line();
    assert_eq!(row_text(&writer, LAST - 2), "one");
    assert_eq!(row_text(&writer, LAST - 1), "two");
    assert_row_blank(&writer, LAST);
    assert_eq!(writer.column(), 0);
}

#[test]
fn the_oldest_line_leaves_once_the_grid_is_full() {
    let mut writer = Writer::new();
    for line in 0..BUFFER_HEIGHT + 1 {
        writer.write_byte(b'A' + line as u8);
        writer.write_byte(b'\n');
    }
    assert_eq!(row_text(&writer, 0), "C");
    assert_eq!(row_text(&writer, LAST - 1), "Z");
    assert_row_blank(&writer, LAST);
}

#[test]
fn other_bytes_are_shown_as_the_replacement_glyph() {
    assert_eq!(REPLACEMENT_GLYPH, 0xfe);
    for byte in [0u8, 1, 7, 9, 0x0b, 0x0d, 0x1f, 0x7f, 0x80, 0xc3, 0xfe, 0xff] {
        let mut writer = Writer::new();
        writer.write_byte(byte);
        assert_eq!(writer.cell(LAST, 0), shown(0xfe), "byte {byte}");
        assert_eq!(writer.column(), 1);
    }
}

#[test]
fn a_character_outside_ascii_gives_one_glyph_for_each_of_its_bytes() {
    let mut writer = Writer::new();
    writer.write_str("h\u{e9}!\t");
    assert_eq!(writer.column(), 5);
    assert_eq!(writer.cell(LAST, 0), shown(b'h'));
    assert_eq!(writer.cell(LAST, 1), shown(0xfe));
    assert_eq!(writer.cell(LAST, 2), shown(0xfe));
    assert_eq!(writer.cell(LAST, 3), shown(b'!'));
    assert_eq!(writer.cell(LAST, 4), shown(0xfe));
}

#[test]
fn put_shows_a_byte_without_looking_at_it() {
    let mut writer = Writer::new();
    writer.put(0x01);
    writer.put(b'\n');
    assert_eq!(writer.cell(LAST, 0), shown(0x01));
    assert_eq!(writer.cell(LAST, 1), shown(b'\n'));
    assert_eq!(writer.column(), 2);
}

#[test]
fn write_str_is_write_byte_for_each_byte() {
    let text = "line one\nline two\u{8}\u{8}\u{7f}x";
    let mut whole = Writer::new();
    whole.write_str(text);
    let mut single = Writer::new();
    for byte in text.bytes() {
        single.write_byte(byte);
    }
    assert_eq!(whole.column(), single.column());
    for row in 0..BUFFER_HEIGHT {
        for col in 0..BUFFER_WIDTH {
            assert_eq!(whole.cell(row, col), single.cell(row, col));
        }
    }
    assert_eq!(row_text(&whole, LAST), "line t\u{fe}x");
    assert_eq!(row_text(&whole, LAST - 1), "line one");
}

#[test]
fn an_empty_string_changes_nothing() {
    let mut writer = Writer::new();
    writer.write_str("ab");
    writer.write_str("");
    assert_eq!(writer.column(), 2);
    assert_eq!(row_text(&writer, LAST), "ab");
}

#[test]
fn as_many_backspaces_as_bytes_leave_a_blank_row() {
    for written in [1usize, 2, 17, 79, 80] {
        let mut writer = Writer::new();
        writer.write_str("above\n");
        for i in 0..written {
            writer.write_byte(b'!' + (i % 90) as u8);
        }
        assert_eq!(writer.column(), written);
        for _ in 0..written {
            writer.write_byte(8);
        }
        assert_eq!(writer.column(), 0);
        assert_row_blank(&writer, LAST);
        assert_eq!(row_text(&writer, LAST - 1), "above");
    }
}

#[test]
fn no_run_of_bytes_leaves_a_cell_that_the_display_cannot_show() {
    let mut writer = Writer::new();
    let mut byte: u8 = 0;
    for step in 0..20_000u32 {
        byte = byte.wrapping_mul(73).wrapping_add(41).wrapping_add((step % 7) as u8);
        writer.write_byte(byte);
        assert!(writer.column() <= BUFFER_WIDTH);
    }
    for row in 0..BUFFER_HEIGHT {
        for col in 0..BUFFER_WIDTH {
            let cell = writer.cell(row, col);
            assert_eq!(cell.colour_code, RED_ON_BLACK);
            assert!(
                (0x20..=0x7e).contains(&cell.ascii_character) || cell.ascii_character == 0xfe,
                "row {row}, column {col}: {}",
                cell.ascii_character
            );
        }
    }
}
