use aisos_hw::logger::{_print, init, level_prefix, log, LogLevel, VgaWriter, BLANK_CELL, VGA_CELLS, VGA_WIDTH};

fn text_of_row(w: &VgaWriter, row: usize) -> String {
    w.buffer[row * VGA_WIDTH..(row + 1) * VGA_WIDTH]
        .iter()
        .map(|c| (c & 0xFF) as u8 as char)
        .collect::<String>()
}

#[test]
fn new_screen_is_blank() {
    let w = VgaWriter::new();
    assert_eq!(w.buffer.len(), VGA_CELLS);
    assert!(w.buffer.iter().all(|&c| c == BLANK_CELL));
    assert_eq!((w.row, w.column), (0, 0));
}

#[test]
fn characters_fill_cells_with_color() {
    let mut w = VgaWriter::new();
    w.write_char('A', 0x1F);
    assert_eq!(w.buffer[0], 0x1F41);
    assert_eq!(w.column, 1);
}

#[test]
fn full_row_wraps() {
    let mut w = VgaWriter::new();
    for _ in 0..VGA_WIDTH {
        w.write_char('x', 0x07);
    }
    assert_eq!((w.row, w.column), (0, 80));
    w.write_char('y', 0x07);
    assert_eq!((w.row, w.column), (1, 1));
    assert_eq!(w.buffer[VGA_WIDTH], 0x0779);
}

#[test]
fn last_line_scrolls() {
    let mut w = VgaWriter::new();
    w.write_str("first\n");
    for _ in 0..24 {
        w.write_str("\n");
    }
    assert_eq!(w.row, 24);
    assert!(w.buffer[..VGA_WIDTH].iter().all(|&c| c == BLANK_CELL));
    assert!(w.buffer[24 * VGA_WIDTH..].iter().all(|&c| c == BLANK_CELL));
}

#[test]
fn scroll_moves_rows_up() {
    let mut w = VgaWriter::new();
    w.write_str("top\nsecond");
    w.scroll();
    assert!(text_of_row(&w, 0).starts_with("second"));
    assert_eq!(w.row, 24);
}

#[test]
fn log_line_has_level_tag() {
    let mut w = VgaWriter::new();
    log(&mut w, "disk ok", LogLevel::Warning);
    assert!(text_of_row(&w, 0).starts_with("[WARN] disk ok\0"));
    assert_eq!((w.row, w.column), (1, 0));
    _print(&mut w, "x", LogLevel::Error);
    assert!(text_of_row(&w, 1).starts_with("[ERROR] x\0"));
}

#[test]
fn level_prefixes() {
    assert_eq!(level_prefix(LogLevel::Info), "[INFO] ");
    assert_eq!(level_prefix(LogLevel::Warning), "[WARN] ");
    assert_eq!(level_prefix(LogLevel::Error), "[ERROR] ");
}

#[test]
fn init_announces_the_console() {
    let mut w = VgaWriter::new();
    init(&mut w);
    assert!(text_of_row(&w, 0).starts_with("[INFO] Logger initialized (serial @ 0x3F8, VGA @ 0xb8000)"));
}

#[test]
fn non_ascii_characters_take_one_cell_each() {
    let mut w = VgaWriter::new();
    w.write_str("\u{e9}");
    assert_eq!((w.row, w.column), (0, 1));
    assert_eq!(w.buffer[0], 0x07E9);
    assert_eq!(w.buffer[1], BLANK_CELL);
    let mut w = VgaWriter::new();
    w.write_str("\u{41f}\u{440}\u{438}\u{432}\u{435}\u{442}");
    assert_eq!((w.row, w.column), (0, 6));
    assert_eq!(w.buffer[0], 0x07 << 8 | 0x041F);
    assert_eq!(w.buffer[6], BLANK_CELL);
}
