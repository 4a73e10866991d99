use cairnos::vga::{Color, Console, FrameBuffer};

fn cell(byte: u8, color: u8) -> u16 {
    byte as u16 | (color as u16) << 8
}

fn color_byte(fg: Color, bg: Color) -> u8 {
    fg.value() | bg.value() << 4
}

fn console_4x3() -> Console {
    // 4 visible columns, 3 rows, rows 5 cells apart
    Console::new(FrameBuffer::new(4, 3, 5, 0xB8000), Color::LightGrey, Color::Black)
}

#[test]
fn color_codes_follow_the_palette() {
    assert_eq!(Color::Black.value(), 0);
    assert_eq!(Color::Blue.value(), 1);
    assert_eq!(Color::LightGrey.value(), 7);
    assert_eq!(Color::White.value(), 15);
    assert_eq!(color_byte(Color::White, Color::Blue), 0x1F);
}

#[test]
fn new_console_is_blank_at_the_top_left() {
    let c = console_4x3();
    assert_eq!(c.x, 0);
    assert_eq!(c.y, 0);
    assert_eq!(c.cells.len(), 15);
    assert!(c.cells.iter().all(|&v| v == 0));
    assert_eq!(c.buffer, FrameBuffer::new(4, 3, 5, 0xB8000));
}

#[test]
fn write_byte_places_the_character_and_advances() {
    let mut c = console_4x3();
    let color = color_byte(Color::LightGrey, Color::Black);
    c.write_byte(b'A');
    assert_eq!(c.cells[0], cell(b'A', color));
    assert_eq!((c.x, c.y), (1, 0));
    c.write_byte(b'B');
    assert_eq!(c.cells[1], cell(b'B', color));
    assert_eq!((c.x, c.y), (2, 0));
}

#[test]
fn newline_moves_to_the_next_row_without_writing() {
    let mut c = console_4x3();
    c.write_byte(b'A');
    c.write_byte(b'\n');
    assert_eq!((c.x, c.y), (0, 1));
    c.write_byte(b'B');
    // rows are pitch (5) cells apart
    assert_eq!(c.cells[5], cell(b'B', color_byte(Color::LightGrey, Color::Black)));
}

#[test]
fn line_wraps_at_the_visible_width() {
    let mut c = console_4x3();
    for b in [b'a', b'b', b'c', b'd'] {
        c.write_byte(b);
    }
    // the cursor rests one past the last column until the next write
    assert_eq!((c.x, c.y), (4, 0));
    c.write_byte(b'e');
    assert_eq!((c.x, c.y), (1, 1));
    assert_eq!(c.cells[5], cell(b'e', color_byte(Color::LightGrey, Color::Black)));
}

#[test]
fn bottom_of_screen_wraps_to_the_top_without_scrolling() {
    let mut c = console_4x3();
    c.write_byte(b'A');
    for _ in 0..3 {
        c.write_byte(b'\n');
    }
    // three line breaks from row 0 wrap past the last of 3 rows back to 0
    assert_eq!((c.x, c.y), (0, 0));
    let color = color_byte(Color::LightGrey, Color::Black);
    c.write_byte(b'Z');
    // the old content was overwritten, not scrolled
    assert_eq!(c.cells[0], cell(b'Z', color));
}

#[test]
fn set_color_changes_later_writes_only() {
    let mut c = console_4x3();
    c.write_byte(b'A');
    c.set_color(Color::White, Color::Blue);
    c.write_byte(b'B');
    assert_eq!(c.cells[0], cell(b'A', color_byte(Color::LightGrey, Color::Black)));
    assert_eq!(c.cells[1], cell(b'B', color_byte(Color::White, Color::Blue)));
}

#[test]
fn write_at_touches_one_raw_cell() {
    let mut c = console_4x3();
    c.write_at(7, b'X', 0x1F);
    for i in 0..15 {
        if i == 7 {
            assert_eq!(c.cells[i], cell(b'X', 0x1F));
        } else {
            assert_eq!(c.cells[i], 0);
        }
    }
}

#[test]
fn clear_blanks_the_visible_region_only() {
    let mut c = console_4x3();
    c.write_at(2, b'X', 0x1F);
    c.write_at(4, b'Y', 0x1F);  // beyond the visible width of row 0
    c.clear(Color::Blue);
    let blank = cell(b' ', color_byte(Color::Blue, Color::Blue));
    for y in 0..3 {
        for x in 0..4 {
            assert_eq!(c.cells[y * 5 + x], blank);
        }
        // the cell between visible width and pitch was not cleared
        assert_eq!(c.cells[y * 5 + 4], if y == 0 { cell(b'Y', 0x1F) } else { 0 });
    }
    // clear keeps the cursor and the current color
    assert_eq!((c.x, c.y), (0, 0));
    c.write_byte(b'A');
    assert_eq!(c.cells[0], cell(b'A', color_byte(Color::LightGrey, Color::Black)));
}

#[test]
fn wallpaper_paints_cell_colors_from_the_image() {
    let mut c = console_4x3();
    let img: Vec<u8> = (0..12).collect();
    c.wallpaper(&img);
    for y in 0..3 {
        for x in 0..4 {
            assert_eq!(c.cells[y * 5 + x], cell(b' ', (y * 4 + x) as u8));
        }
        assert_eq!(c.cells[y * 5 + 4], 0);
    }
}

#[test]
fn wallpaper_ignores_an_image_smaller_than_the_screen() {
    let mut c = console_4x3();
    c.write_byte(b'A');
    let img = [7u8; 11];
    c.wallpaper(&img);
    assert_eq!(c.cells[0], cell(b'A', color_byte(Color::LightGrey, Color::Black)));
    for i in 1..15 {
        assert_eq!(c.cells[i], 0);
    }
}
