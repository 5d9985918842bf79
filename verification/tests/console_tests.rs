use rust_kernel::vga::Terminal;
use rust_kernel::vga::VgaColor;
use rust_kernel::log::log;

#[test]
fn colors_and_entries_pack_as_the_hardware_reads_them() {
    assert_eq!(Terminal::make_color(VgaColor::LightGrey, VgaColor::Black), 0x07);
    assert_eq!(Terminal::make_color(VgaColor::Black, VgaColor::Red), 0x40);
    assert_eq!(Terminal::make_color(VgaColor::White, VgaColor::Blue), 0x1F);
    assert_eq!(Terminal::make_entry(b'A', 0x07), 0x0741);
    assert_eq!(Terminal::make_entry(b' ', 0x40), 0x4020);
}

#[test]
fn initialize_blanks_the_screen_in_light_grey_on_black() {
    let mut term = Terminal::new();
    term.initialize();
    assert_eq!(term.row, 0);
    assert_eq!(term.column, 0);
    assert_eq!(term.color, 0x07);
    assert_eq!(term.buffer.len(), 80 * 25);
    assert!(term.buffer.iter().all(|&cell| cell == Terminal::make_entry(b' ', 0x07)));
    assert_eq!(term.get_vga_width(), 80);
    assert_eq!(term.get_vga_height(), 25);
}

#[test]
fn putchar_advances_the_cursor_and_wraps_at_the_right_edge() {
    let mut term = Terminal::new();
    term.initialize();
    term.putchar(b'h');
    term.putchar(b'i');
    assert_eq!(term.buffer[0], Terminal::make_entry(b'h', 0x07));
    assert_eq!(term.buffer[1], Terminal::make_entry(b'i', 0x07));
    assert_eq!((term.row, term.column), (0, 2));
    term.putchar(b'\n');
    assert_eq!((term.row, term.column), (1, 0));
    for _ in 0..80 {
        term.putchar(b'x');
    }
    assert_eq!((term.row, term.column), (2, 0));
    assert_eq!(term.buffer[1 * 80 + 79], Terminal::make_entry(b'x', 0x07));
}

#[test]
fn the_last_line_scrolls_the_screen() {
    let mut term = Terminal::new();
    term.initialize();
    term.writestring(b"top");
    term.set_cursor(24, 0);
    term.writestring(b"bottom");
    term.putchar(b'\n');
    // the top line is gone, the bottom line moved up one row
    assert_eq!((term.row, term.column), (24, 0));
    assert_eq!(term.buffer[0], Terminal::make_entry(b' ', 0x07));
    assert_eq!(term.buffer[23 * 80], Terminal::make_entry(b'b', 0x07));
    assert_eq!(term.buffer[24 * 80], Terminal::make_entry(b' ', 0x07));
}

#[test]
fn put_at_and_set_cursor_hit_exact_cells() {
    let mut term = Terminal::new();
    term.initialize();
    term.put_at(b'Z', 0x1F, 79, 24);
    assert_eq!(term.buffer[24 * 80 + 79], Terminal::make_entry(b'Z', 0x1F));
    assert_eq!((term.row, term.column), (0, 0));
    term.set_cursor(10, 40);
    assert_eq!((term.row, term.column), (10, 40));
}

#[test]
fn set_color_changes_subsequent_writes_only() {
    let mut term = Terminal::new();
    term.initialize();
    term.putchar(b'a');
    term.set_full_color(VgaColor::Black, VgaColor::Red);
    assert_eq!(term.color, 0x40);
    term.putchar(b'b');
    assert_eq!(term.buffer[0], Terminal::make_entry(b'a', 0x07));
    assert_eq!(term.buffer[1], Terminal::make_entry(b'b', 0x40));
    term.set_color(0x07);
    assert_eq!(term.color, 0x07);
}

#[test]
fn clear_blanks_in_the_current_color_and_homes_the_cursor() {
    let mut term = Terminal::new();
    term.initialize();
    term.writestring(b"dirt");
    term.set_full_color(VgaColor::Black, VgaColor::Red);
    term.clear();
    assert_eq!((term.row, term.column), (0, 0));
    assert!(term.buffer.iter().all(|&cell| cell == Terminal::make_entry(b' ', 0x40)));
}

#[test]
fn log_writes_prefix_then_message_then_breaks_the_line() {
    let mut term = Terminal::new();
    term.initialize();
    log(&mut term, b"[BOOT] ", b"ok");
    assert_eq!(term.buffer[0], Terminal::make_entry(b'[', 0x07));
    assert_eq!(term.buffer[7], Terminal::make_entry(b'o', 0x07));
    assert_eq!(term.buffer[8], Terminal::make_entry(b'k', 0x07));
    assert_eq!((term.row, term.column), (1, 0));
}

#[test]
fn write_line_is_a_write_plus_a_line_break() {
    let mut term = Terminal::new();
    term.initialize();
    term.write_line(b"ab");
    assert_eq!(term.buffer[0], Terminal::make_entry(b'a', 0x07));
    assert_eq!(term.buffer[1], Terminal::make_entry(b'b', 0x07));
    assert_eq!((term.row, term.column), (1, 0));
}

#[test]
fn the_panic_screen_is_red_with_banner_message_and_location() {
    let mut term = Terminal::new();
    term.initialize();
    term.writestring(b"running");
    rust_kernel::kernel::panic_banner(&mut term, b"oops", b"main.rs:7");
    assert_eq!(term.color, 0x40);
    // the old content is gone; the report starts with the sad face
    assert_eq!(term.buffer[0], Terminal::make_entry(b':', 0x40));
    assert_eq!(term.buffer[1], Terminal::make_entry(b'(', 0x40));
    assert_eq!(term.buffer[80], Terminal::make_entry(b'=', 0x40));
    assert_eq!(term.buffer[2 * 80], Terminal::make_entry(b'o', 0x40));
    let location = b"Location: main.rs:7";
    for (i, &c) in location.iter().enumerate() {
        assert_eq!(term.buffer[3 * 80 + i], Terminal::make_entry(c, 0x40));
    }
    for i in 0..34 {
        assert_eq!(term.buffer[4 * 80 + i], Terminal::make_entry(b'=', 0x40));
    }
    assert_eq!((term.row, term.column), (5, 0));
}

#[test]
fn the_cursor_is_programmed_through_the_crtc_registers() {
    let mut term = Terminal::new();
    term.initialize();
    term.set_cursor(2, 5);
    // position 2*80+5 = 165 = 0x00A5
    assert_eq!(
        term.cursor_writes(),
        vec![(0x3D4, 0x0F), (0x3D5, 0xA5), (0x3D4, 0x0E), (0x3D5, 0x00)]
    );
}
