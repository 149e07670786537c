use vga_text::console::{
    init_early, print_debug, putchar, set_max_level, PrintError, VgaTextMode, VGA_BUFFER_HEIGHT,
    VGA_BUFFER_WIDTH,
};
use vga_text::interp::VgaTextState;

fn bound_console() -> VgaTextMode {
    let mut vga = VgaTextMode::new();
    init_early(&mut vga);
    vga
}

fn glyph(vga: &VgaTextMode, row: usize, col: usize) -> (u8, u8) {
    let c = vga.cell(row, col);
    (c.0, c.1.value())
}

fn all_cells(vga: &VgaTextMode) -> Vec<(u8, u8)> {
    let mut v = Vec::new();
    for r in 0..VGA_BUFFER_HEIGHT {
        for c in 0..VGA_BUFFER_WIDTH {
            v.push(glyph(vga, r, c));
        }
    }
    v
}

fn feed(vga: &mut VgaTextMode, bytes: &[u8]) {
    for &b in bytes {
        putchar(vga, b);
    }
}

#[test]
fn new_console_is_unbound_until_init() {
    let mut vga = VgaTextMode::new();
    assert!(!vga.bound());
    assert_eq!(vga.max_level(), 3);
    init_early(&mut vga);
    assert!(vga.bound());
    assert_eq!(glyph(&vga, 0, 0), (b' ', 0x0f));
    assert_eq!(glyph(&vga, 24, 79), (b' ', 0x0f));
    assert_eq!((vga.cursor_x(), vga.cursor_y()), (0, 0));
}

#[test]
fn bright_green_sequence_sets_color() {
    let mut vga = bound_console();
    feed(&mut vga, &[0x1b, b'[', b'9', b'2', b'm']);
    assert_eq!(vga.color().value(), 0x0a);
    assert_eq!(all_cells(&vga), all_cells(&bound_console()));
    feed(&mut vga, b"ok");
    assert_eq!(vga.state(), VgaTextState::PutChar);
    assert_eq!(glyph(&vga, 0, 0), (b'o', 0x0a));
    assert_eq!(glyph(&vga, 0, 1), (b'k', 0x0a));
}

#[test]
fn codes_outside_the_table_fall_back_to_default() {
    let mut vga = bound_console();
    feed(&mut vga, &[0x1b, b'[', b'9', b'2', b'm']);
    feed(&mut vga, &[0x1b, b'[', b'9', b'8', b'm']);
    assert_eq!(vga.color().value(), 0x0f);
    feed(&mut vga, &[0x1b, b'[', b'9', b'7', b'm']);
    assert_eq!(vga.color().value(), 0x0f);
    feed(&mut vga, &[0x1b, b'[', b'3', b'1', b'm']);
    assert_eq!(vga.color().value(), 0x04);
    feed(&mut vga, &[0x1b, b'[', b'2', b'9', b'm']);
    assert_eq!(vga.color().value(), 0x0f);
    feed(&mut vga, &[0x1b, b'[', b'3', b'3', b'm']);
    assert_eq!(vga.color().value(), 0x06);
    feed(&mut vga, b"\x1b[300m");
    assert_eq!(vga.color().value(), 0x0f);
    feed(&mut vga, b"\x1b[94m\x1b[m");
    assert_eq!(vga.color().value(), 0x0f);
}

#[test]
fn chained_sequences() {
    let mut vga = bound_console();
    feed(&mut vga, b"\x1b[31m\x1b[94mZ");
    assert_eq!(glyph(&vga, 0, 0), (b'Z', 0x09));
    assert_eq!(vga.cursor_x(), 1);
}

#[test]
fn malformed_sequence_prints_only_the_aborting_byte() {
    let mut vga = bound_console();
    let before = all_cells(&vga);
    for &b in &[0x1b, b'[', b'1', b'2'] {
        putchar(&mut vga, b);
        assert_eq!(all_cells(&vga), before);
        assert_eq!((vga.cursor_x(), vga.cursor_y()), (0, 0));
    }
    putchar(&mut vga, b'x');
    assert_eq!(vga.state(), VgaTextState::PutChar);
    assert_eq!(glyph(&vga, 0, 0), (b'x', 0x0f));
    assert_eq!(vga.cursor_x(), 1);
    assert_eq!(vga.color().value(), 0x0f);
}

#[test]
fn escape_without_bracket_prints_next_byte() {
    let mut vga = bound_console();
    feed(&mut vga, &[0x1b, b'q']);
    assert_eq!(glyph(&vga, 0, 0), (b'q', 0x0f));
    assert_eq!(vga.cursor_x(), 1);
}

#[test]
fn full_row_moves_to_next_line() {
    let mut vga = bound_console();
    let row: Vec<u8> = (0..VGA_BUFFER_WIDTH).map(|i| b'a' + (i % 26) as u8).collect();
    feed(&mut vga, &row);
    assert_eq!((vga.cursor_x(), vga.cursor_y()), (0, 1));
    for (i, &b) in row.iter().enumerate() {
        assert_eq!(glyph(&vga, 0, i), (b, 0x0f));
    }
    assert_eq!(glyph(&vga, 1, 0), (b' ', 0x0f));
}

#[test]
fn carriage_return_and_line_feed() {
    let mut vga = bound_console();
    feed(&mut vga, b"abc\rX");
    assert_eq!(glyph(&vga, 0, 0), (b'X', 0x0f));
    assert_eq!((vga.cursor_x(), vga.cursor_y()), (1, 0));
    feed(&mut vga, b"\nY");
    assert_eq!(glyph(&vga, 1, 0), (b'Y', 0x0f));
    assert_eq!((vga.cursor_x(), vga.cursor_y()), (1, 1));
}

#[test]
fn backspace_erases_left_cell() {
    let mut vga = bound_console();
    feed(&mut vga, b"\x1b[91mab");
    putchar(&mut vga, 0x08);
    assert_eq!(vga.cursor_x(), 1);
    assert_eq!(glyph(&vga, 0, 1), (b' ', 0x0c));
    assert_eq!(glyph(&vga, 0, 0), (b'a', 0x0c));
}

#[test]
fn backspace_at_column_zero_does_nothing() {
    let mut vga = bound_console();
    let before = all_cells(&vga);
    putchar(&mut vga, 0x08);
    assert_eq!((vga.cursor_x(), vga.cursor_y()), (0, 0));
    assert_eq!(all_cells(&vga), before);
}

#[test]
fn line_feed_on_bottom_row_scrolls_one_row() {
    let mut vga = bound_console();
    for r in 0..VGA_BUFFER_HEIGHT {
        putchar(&mut vga, b'A' + r as u8);
        if r + 1 < VGA_BUFFER_HEIGHT {
            putchar(&mut vga, b'\n');
        }
    }
    assert_eq!(vga.cursor_y(), VGA_BUFFER_HEIGHT - 1);
    let before = all_cells(&vga);
    putchar(&mut vga, b'\n');
    assert_eq!((vga.cursor_x(), vga.cursor_y()), (0, VGA_BUFFER_HEIGHT - 1));
    for r in 0..VGA_BUFFER_HEIGHT - 1 {
        for c in 0..VGA_BUFFER_WIDTH {
            assert_eq!(glyph(&vga, r, c), before[(r + 1) * VGA_BUFFER_WIDTH + c]);
        }
    }
    assert_eq!(glyph(&vga, 0, 0), (b'B', 0x0f));
    // the vacated bottom row keeps its old content
    assert_eq!(glyph(&vga, VGA_BUFFER_HEIGHT - 1, 0), (b'Y', 0x0f));
}

#[test]
fn wrap_at_bottom_right_scrolls() {
    let mut vga = bound_console();
    for _ in 0..VGA_BUFFER_HEIGHT - 1 {
        putchar(&mut vga, b'\n');
    }
    let row: Vec<u8> = vec![b'z'; VGA_BUFFER_WIDTH];
    feed(&mut vga, &row);
    assert_eq!((vga.cursor_x(), vga.cursor_y()), (0, VGA_BUFFER_HEIGHT - 1));
    assert_eq!(glyph(&vga, VGA_BUFFER_HEIGHT - 2, 0), (b'z', 0x0f));
}

#[test]
fn scroll_up_moves_rows_by_n() {
    let mut vga = bound_console();
    for r in 0..VGA_BUFFER_HEIGHT - 1 {
        putchar(&mut vga, b'a' + (r % 26) as u8);
        putchar(&mut vga, b'\n');
    }
    let before = all_cells(&vga);
    let y = vga.cursor_y();
    vga.scroll_up(3);
    assert_eq!(vga.cursor_y(), y - 3);
    for r in 0..VGA_BUFFER_HEIGHT - 3 {
        for c in 0..VGA_BUFFER_WIDTH {
            assert_eq!(glyph(&vga, r, c), before[(r + 3) * VGA_BUFFER_WIDTH + c]);
        }
    }
    assert_eq!(glyph(&vga, 0, 0), (b'd', 0x0f));
    vga.scroll_up(VGA_BUFFER_HEIGHT + 1);
    assert_eq!(vga.cursor_y(), y - 3);
}

#[test]
fn filtered_level_leaves_grid_alone() {
    let mut vga = bound_console();
    set_max_level(&mut vga, 1);
    let before = all_cells(&vga);
    assert_eq!(print_debug(&mut vga, 2, b"hello"), Err(PrintError::Filtered));
    assert_eq!(all_cells(&vga), before);
    assert_eq!((vga.cursor_x(), vga.cursor_y()), (0, 0));
}

#[test]
fn info_level_prints_tag_then_text() {
    let mut vga = bound_console();
    set_max_level(&mut vga, 1);
    assert_eq!(print_debug(&mut vga, 1, b"hello"), Ok(()));
    let text = b"[INFO]  hello";
    for (i, &b) in text.iter().enumerate() {
        let attr = if i < 8 { 0x0a } else { 0x0f };
        assert_eq!(glyph(&vga, 0, i), (b, attr));
    }
    assert_eq!(vga.cursor_x(), text.len());
    assert_eq!(vga.color().value(), 0x0f);
}

#[test]
fn dev_and_debug_tags() {
    let mut vga = bound_console();
    assert_eq!(print_debug(&mut vga, 2, b"x\n"), Ok(()));
    assert_eq!(print_debug(&mut vga, 3, b"y"), Ok(()));
    for (i, &b) in b"[DEV]   x".iter().enumerate() {
        assert_eq!(glyph(&vga, 0, i).0, b);
    }
    assert_eq!(glyph(&vga, 0, 0).1, 0x09);
    for (i, &b) in b"[DEBUG] y".iter().enumerate() {
        assert_eq!(glyph(&vga, 1, i).0, b);
    }
    assert_eq!(glyph(&vga, 1, 0).1, 0x0e);
}

#[test]
fn level_zero_is_filtered() {
    let mut vga = bound_console();
    assert_eq!(print_debug(&mut vga, 0, b"x"), Err(PrintError::Filtered));
    assert_eq!(print_debug(&mut vga, 4, b"x"), Err(PrintError::Filtered));
    set_max_level(&mut vga, 0);
    assert_eq!(print_debug(&mut vga, 1, b"x"), Err(PrintError::Filtered));
    assert_eq!(glyph(&vga, 0, 0), (b' ', 0x0f));
}

#[test]
fn long_digit_runs_fall_back_to_default() {
    let mut vga = bound_console();
    feed(&mut vga, b"\x1b[31m");
    assert_eq!(vga.color().value(), 0x04);
    feed(&mut vga, b"\x1b[99999m");
    assert_eq!(vga.color().value(), 0x0f);
    feed(&mut vga, b"\x1b[0092m");
    assert_eq!(vga.color().value(), 0x0a);
}

#[test]
fn bracket_then_letter_aborts() {
    let mut vga = bound_console();
    feed(&mut vga, b"\x1b[xy");
    assert_eq!(glyph(&vga, 0, 0), (b'x', 0x0f));
    assert_eq!(glyph(&vga, 0, 1), (b'y', 0x0f));
    assert_eq!(vga.cursor_x(), 2);
}
