use blog_os::vga_buffer::{
    Buffer, Color, ColorCode, ScreenChar, Writer, _print, BUFFER_CELLS, BUFFER_HEIGHT,
    BUFFER_WIDTH,
};

fn white_on_black() -> ColorCode {
    ColorCode::new(Color::White, Color::Black)
}

fn blank_writer() -> Writer {
    let color = white_on_black();
    Writer::new(color, Buffer::filled(ScreenChar { character: b' ', color_code: color }))
}

fn row_text(w: &Writer, row: usize) -> Vec<u8> {
    (0..BUFFER_WIDTH).map(|col| w.char_at(row, col).character).collect()
}

fn screen(w: &Writer) -> Vec<ScreenChar> {
    let mut cells = Vec::new();
    for row in 0..BUFFER_HEIGHT {
        for col in 0..BUFFER_WIDTH {
            cells.push(w.char_at(row, col));
        }
    }
    cells
}

#[test]
fn color_code_packs_background_high_and_foreground_low() {
    assert_eq!(white_on_black().0, 0x0f);
    assert_eq!(ColorCode::new(Color::Yellow, Color::Blue).0, 0x1e);
    assert_eq!(ColorCode::new(Color::Black, Color::White).0, 0xf0);
    assert_eq!(ColorCode::new(Color::LightGary, Color::DarkGray).0, 0x87);
}

#[test]
fn color_indices_follow_the_palette() {
    assert_eq!(Color::Black.index(), 0);
    assert_eq!(Color::Cyan.index(), 3);
    assert_eq!(Color::Pink.index(), 13);
    assert_eq!(Color::White.index(), 15);
}

#[test]
fn filled_buffer_has_every_cell() {
    let fill = ScreenChar { character: b'#', color_code: ColorCode(0x42) };
    let b = Buffer::filled(fill);
    assert_eq!(b.chars.len(), BUFFER_CELLS);
    assert!(b.chars.iter().all(|c| *c == fill));
}

#[test]
fn write_byte_stores_under_cursor_and_advances() {
    let mut w = blank_writer();
    w.write_byte(b'A');
    assert_eq!(w.char_at(0, 0), ScreenChar { character: b'A', color_code: white_on_black() });
    assert_eq!(w.column_position(), 1);
    assert_eq!(w.row_position(), 0);
}

#[test]
fn line_feed_moves_to_next_row() {
    let mut w = blank_writer();
    w.write_string("ab\ncd");
    assert_eq!(&row_text(&w, 0)[..3], b"ab ");
    assert_eq!(&row_text(&w, 1)[..3], b"cd ");
    assert_eq!((w.row_position(), w.column_position()), (1, 2));
}

#[test]
fn unprintable_bytes_show_as_block() {
    let mut w = blank_writer();
    w.write_string("a\u{1}\u{e9}\t~");
    // 'é' is two UTF-8 bytes, each shown as 0xfe; the tab is not printable either.
    assert_eq!(&row_text(&w, 0)[..6], &[b'a', 0xfe, 0xfe, 0xfe, 0xfe, b'~']);
    assert_eq!(w.column_position(), 6);
}

#[test]
fn full_row_wraps_before_the_next_byte() {
    let mut w = blank_writer();
    let line = "x".repeat(BUFFER_WIDTH);
    w.write_string(&line);
    assert_eq!(w.column_position(), BUFFER_WIDTH);
    assert_eq!(w.row_position(), 0);
    w.write_byte(b'y');
    assert_eq!(w.char_at(1, 0).character, b'y');
    assert_eq!((w.row_position(), w.column_position()), (1, 1));
}

#[test]
fn last_row_scrolls_the_screen_up() {
    let mut w = blank_writer();
    for i in 0..BUFFER_HEIGHT {
        w.write_string(&format!("line {}\n", i));
    }
    // 25 line feeds from the top row: the first line has scrolled off.
    assert_eq!(w.row_position(), BUFFER_HEIGHT - 1);
    assert_eq!(w.column_position(), 0);
    assert_eq!(&row_text(&w, 0)[..6], b"line 1");
    assert_eq!(&row_text(&w, BUFFER_HEIGHT - 2)[..7], b"line 24");
    assert!(row_text(&w, BUFFER_HEIGHT - 1).iter().all(|b| *b == b' '));
}

#[test]
fn new_line_on_last_row_blanks_it_in_writer_colour() {
    let color = ColorCode::new(Color::Green, Color::Red);
    let fill = ScreenChar { character: b'q', color_code: ColorCode(0x07) };
    let mut w = Writer::new(color, Buffer::filled(fill));
    for _ in 0..BUFFER_HEIGHT - 1 {
        w.new_line();
    }
    assert_eq!(w.row_position(), BUFFER_HEIGHT - 1);
    w.new_line();
    assert_eq!(w.row_position(), BUFFER_HEIGHT - 1);
    for col in 0..BUFFER_WIDTH {
        assert_eq!(w.char_at(BUFFER_HEIGHT - 1, col), ScreenChar { character: b' ', color_code: color });
        assert_eq!(w.char_at(0, col), fill);
    }
}

#[test]
fn writing_in_pieces_equals_writing_at_once() {
    let text = "Hello, kernel!\nThe quick brown fox \u{1f600} jumps.\n".repeat(20);
    let mut whole = blank_writer();
    whole.write_string(&text);
    let mut pieces = blank_writer();
    let (a, b) = text.split_at(333);
    pieces.write_string(a);
    pieces.write_string(b);
    assert_eq!(screen(&whole), screen(&pieces));
    assert_eq!(whole.row_position(), pieces.row_position());
    assert_eq!(whole.column_position(), pieces.column_position());
}

#[test]
fn screen_stays_displayable_in_writer_colour() {
    let mut w = blank_writer();
    let bytes: Vec<u8> = (0..=255u8).cycle().take(5000).collect();
    w.write_bytes(&bytes);
    assert!(screen(&w).iter().all(|c| ((0x20..=0x7e).contains(&c.character)
        || c.character == 0xfe)
        && c.color_code == white_on_black()));
    assert!(w.row_position() < BUFFER_HEIGHT && w.column_position() <= BUFFER_WIDTH);
}

#[test]
fn bytes_that_fit_in_the_row_land_in_order() {
    let mut w = blank_writer();
    w.write_string("ab\n  ");
    w.write_string("Rust");
    assert_eq!(&row_text(&w, 1)[..7], b"  Rust ");
    assert_eq!(w.column_position(), 6);
    assert_eq!(&row_text(&w, 0)[..3], b"ab ");
}

#[test]
fn print_writes_formatted_text() {
    let mut a = blank_writer();
    let mut b = blank_writer();
    _print(&mut a, &format!("{} + {} = {}\n", 1, 2, 3));
    b.write_string("1 + 2 = 3\n");
    assert_eq!(screen(&a), screen(&b));
    assert_eq!(&row_text(&a, 0)[..9], b"1 + 2 = 3");
}

#[test]
fn backspace_erases_the_cell_before_the_cursor() {
    let mut w = blank_writer();
    w.write_string("xyz");
    w.backspace();
    assert_eq!(w.column_position(), 2);
    assert_eq!(&row_text(&w, 0)[..4], b"xy  ");
    assert_eq!(w.char_at(0, 2), ScreenChar { character: b' ', color_code: white_on_black() });
}

#[test]
fn backspace_at_row_start_changes_nothing() {
    let mut w = blank_writer();
    w.write_string("ab\n");
    let before = screen(&w);
    w.backspace();
    assert_eq!(screen(&w), before);
    assert_eq!((w.row_position(), w.column_position()), (1, 0));
}

#[test]
fn backspace_after_a_write_restores_the_cursor() {
    let mut w = blank_writer();
    w.write_string("ab");
    let before = screen(&w);
    w.write_byte(b'c');
    w.backspace();
    assert_eq!(screen(&w), before);
    assert_eq!(w.column_position(), 2);
}
