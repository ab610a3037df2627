use x86_tables::log::LogLevel;
use x86_tables::vga::{Color, VGABuf, VGAColor};

fn screen() -> VGABuf {
    VGABuf::new(80, 40, 0, 0, VGAColor::new(Color::White, Color::Black))
}

#[test]
fn color_pairs_pack_background_high() {
    assert_eq!(VGAColor::new(Color::White, Color::Black).0, 0x0F);
    assert_eq!(VGAColor::new(Color::Yellow, Color::Black).0, 0x0E);
    assert_eq!(VGAColor::new(Color::Black, Color::Black).0, 0x00);
    assert_eq!(VGAColor::new(Color::White, Color::Red).0, 0x4F);
}

#[test]
fn log_levels_map_to_their_colors() {
    assert_eq!(LogLevel::Debug.get_level(), VGAColor::new(Color::Yellow, Color::Black));
    assert_eq!(LogLevel::Info.get_level(), VGAColor::new(Color::LightGray, Color::Black));
    assert_eq!(LogLevel::Error.get_level(), VGAColor::new(Color::LightRed, Color::Black));
    assert_eq!(LogLevel::Panic.get_level(), VGAColor::new(Color::White, Color::Red));
}

#[test]
fn new_screen_is_blank_in_the_given_color() {
    let s = screen();
    assert_eq!(s.cells.len(), 80 * 40);
    for cell in &s.cells {
        assert_eq!(cell.ascii_char, b' ');
        assert_eq!(cell.color.0, 0x0F);
    }
    assert_eq!((s.x, s.y), (0, 0));
}

#[test]
fn write_places_bytes_and_advances_cursor() {
    let mut s = screen();
    s.write("ok");
    assert_eq!(s.cells[0].ascii_char, b'o');
    assert_eq!(s.cells[1].ascii_char, b'k');
    assert_eq!((s.x, s.y), (2, 0));
}

#[test]
fn newline_moves_to_next_row_start() {
    let mut s = screen();
    s.write("a\nb");
    assert_eq!(s.cells[0].ascii_char, b'a');
    // The newline byte itself lands in the first cell of the next row, and
    // the byte after it in the second.
    assert_eq!(s.cells[80].ascii_char, b'\n');
    assert_eq!(s.cells[81].ascii_char, b'b');
    assert_eq!((s.x, s.y), (2, 1));
}

#[test]
fn tab_advances_four_rows() {
    let mut s = screen();
    s.write("\tx");
    assert_eq!(s.cells[4 * 80].ascii_char, b'\t');
    assert_eq!(s.cells[4 * 80 + 1].ascii_char, b'x');
    assert_eq!((s.x, s.y), (2, 4));
}

#[test]
fn column_wraps_by_clamping_not_scrolling() {
    let mut s = screen();
    for _ in 0..80 {
        s.write("x");
    }
    assert_eq!((s.x, s.y), (80, 0));
    // The 81st byte clamps the column back to the row start.
    s.write("y");
    assert_eq!(s.cells[0].ascii_char, b'y');
    assert_eq!((s.x, s.y), (1, 0));
}

#[test]
fn row_wraps_by_clamping_not_scrolling() {
    let mut s = VGABuf::new(4, 2, 0, 0, VGAColor::new(Color::White, Color::Black));
    s.write("\n\n");
    // Two newlines from the top row pass the bottom and clamp back to row zero.
    assert_eq!((s.x, s.y), (1, 0));
}

#[test]
fn set_color_changes_later_writes_only() {
    let mut s = screen();
    s.write("a");
    s.set_color(VGAColor::new(Color::LightRed, Color::Black));
    s.write("b");
    assert_eq!(s.cells[0].color.0, 0x0F);
    assert_eq!(s.cells[1].color.0, 0x0C);
}

#[test]
fn clear_scr_blanks_every_cell_and_resets_cursor() {
    let mut s = screen();
    s.write("hello\nworld");
    s.clear_scr();
    assert_eq!((s.x, s.y), (0, 0));
    assert_eq!(s.color.0, 0x00);
    for cell in &s.cells {
        assert_eq!(cell.ascii_char, b' ');
        assert_eq!(cell.color.0, 0x00);
    }
}

#[test]
fn smallest_screen_accepts_writes() {
    let mut s = VGABuf::new(1, 1, 0, 0, VGAColor::new(Color::White, Color::Black));
    s.write("ab");
    assert_eq!(s.cells[0].ascii_char, b'b');
}
