use vga_buffer::{sanitize, Color, ColorCode, ScreenChar, Writer, BUFFER_HEIGHT, BUFFER_WIDTH};

const PALETTE: [Color; 16] = [
    Color::Black,
    Color::Blue,
    Color::Green,
    Color::Cyan,
    Color::Red,
    Color::Magenta,
    Color::Brown,
    Color::LightGray,
    Color::DarkGray,
    Color::LightBlue,
    Color::LightGreen,
    Color::LightCyan,
    Color::LightRed,
    Color::Pink,
    Color::Yellow,
    Color::White,
];

fn last_row(w: &Writer) -> Vec<u8> {
    (0..BUFFER_WIDTH).map(|c| w.cell(BUFFER_HEIGHT - 1, c).ascii_character).collect()
}

fn row_text(w: &Writer, row: usize) -> Vec<u8> {
    (0..BUFFER_WIDTH).map(|c| w.cell(row, c).ascii_character).collect()
}

#[test]
fn palette_identities_are_positional() {
    for (i, c) in PALETTE.iter().enumerate() {
        assert_eq!(c.id() as usize, i);
        assert_eq!(Color::from_id(i as u8), *c);
    }
}

#[test]
fn color_code_packs_background_high() {
    assert_eq!(ColorCode::new(Color::LightRed, Color::DarkGray).0, 140);
    assert_eq!(ColorCode::new(Color::Yellow, Color::Black).0, 0x0e);
    assert_eq!(ColorCode::new(Color::Black, Color::White).0, 0xf0);
    assert_eq!(ColorCode::new(Color::Blue, Color::Green).0, 0x21);
}

#[test]
fn color_code_decodes_every_pair() {
    for fg in PALETTE.iter() {
        for bg in PALETTE.iter() {
            let code = ColorCode::new(*fg, *bg);
            assert_eq!(code.0 & 0x0f, fg.id());
            assert_eq!(code.0 >> 4, bg.id());
            assert_eq!(code.foreground(), *fg);
            assert_eq!(code.background(), *bg);
        }
    }
}

#[test]
fn sanitize_keeps_code_page_bytes() {
    for b in 0x20u8..=0x7e {
        assert_eq!(sanitize(b), b);
    }
    assert_eq!(sanitize(b'\n'), b'\n');
}

#[test]
fn sanitize_replaces_other_bytes() {
    for b in 0u8..=255 {
        if !((0x20..=0x7e).contains(&b) || b == b'\n') {
            assert_eq!(sanitize(b), 0xfe);
        }
    }
    assert_eq!(sanitize(0x00), 0xfe);
    assert_eq!(sanitize(0x1f), 0xfe);
    assert_eq!(sanitize(0x7f), 0xfe);
    assert_eq!(sanitize(0xff), 0xfe);
}

#[test]
fn new_writer_is_blank() {
    let w = Writer::new(Color::Yellow, Color::Black);
    assert_eq!(w.column(), 0);
    assert_eq!(w.color_code(), ColorCode(0x0e));
    for r in 0..BUFFER_HEIGHT {
        for c in 0..BUFFER_WIDTH {
            assert_eq!(w.cell(r, c), ScreenChar { ascii_character: b' ', color_code: ColorCode(0x0e) });
        }
    }
}

#[test]
fn short_string_fills_bottom_row_prefix() {
    let mut w = Writer::new(Color::White, Color::Blue);
    w.write_string("abc");
    assert_eq!(w.column(), 3);
    let code = ColorCode::new(Color::White, Color::Blue);
    assert_eq!(w.cell(BUFFER_HEIGHT - 1, 0), ScreenChar { ascii_character: b'a', color_code: code });
    assert_eq!(w.cell(BUFFER_HEIGHT - 1, 1), ScreenChar { ascii_character: b'b', color_code: code });
    assert_eq!(w.cell(BUFFER_HEIGHT - 1, 2), ScreenChar { ascii_character: b'c', color_code: code });
    for c in 3..BUFFER_WIDTH {
        assert_eq!(w.cell(BUFFER_HEIGHT - 1, c), ScreenChar { ascii_character: b' ', color_code: code });
    }
}

#[test]
fn empty_string_changes_nothing() {
    let mut w = Writer::new(Color::White, Color::Blue);
    w.write_string("");
    assert_eq!(w.column(), 0);
    assert_eq!(last_row(&w), vec![b' '; BUFFER_WIDTH]);
}

#[test]
fn full_row_leaves_column_at_width() {
    let mut w = Writer::new(Color::Yellow, Color::Black);
    let text: String = (0..BUFFER_WIDTH).map(|i| (b'a' + (i % 26) as u8) as char).collect();
    w.write_string(&text);
    assert_eq!(w.column(), BUFFER_WIDTH);
    assert_eq!(last_row(&w), text.as_bytes().to_vec());
    assert_eq!(row_text(&w, BUFFER_HEIGHT - 2), vec![b' '; BUFFER_WIDTH]);
}

#[test]
fn overflow_scrolls_up_one_row() {
    let mut w = Writer::new(Color::Yellow, Color::Black);
    let text: String = (0..BUFFER_WIDTH).map(|i| (b'a' + (i % 26) as u8) as char).collect();
    w.write_string(&text);
    w.write_byte(b'Z');
    assert_eq!(w.column(), 1);
    assert_eq!(row_text(&w, BUFFER_HEIGHT - 2), text.as_bytes().to_vec());
    let mut expected = vec![b' '; BUFFER_WIDTH];
    expected[0] = b'Z';
    assert_eq!(last_row(&w), expected);
    assert_eq!(row_text(&w, BUFFER_HEIGHT - 3), vec![b' '; BUFFER_WIDTH]);
}

#[test]
fn top_row_is_discarded_on_scroll() {
    let mut w = Writer::new(Color::Yellow, Color::Black);
    w.write_string("first");
    for _ in 0..BUFFER_HEIGHT - 1 {
        w.write_byte(b'\n');
    }
    assert_eq!(&row_text(&w, 0)[..5], b"first");
    w.write_byte(b'\n');
    for r in 0..BUFFER_HEIGHT {
        assert_eq!(row_text(&w, r), vec![b' '; BUFFER_WIDTH]);
    }
}

#[test]
fn line_feed_moves_text_up() {
    let mut w = Writer::new(Color::Green, Color::Black);
    w.write_string("ab\ncd");
    assert_eq!(w.column(), 2);
    assert_eq!(&row_text(&w, BUFFER_HEIGHT - 2)[..3], b"ab ");
    assert_eq!(&last_row(&w)[..3], b"cd ");
}

#[test]
fn pieces_form_contiguous_text() {
    let mut w = Writer::new(Color::Yellow, Color::Black);
    w.write_byte(b'H');
    w.write_string("ello ");
    w.write_string("World!");
    let code = ColorCode::new(Color::Yellow, Color::Black);
    let expected = b"Hello World!";
    for (i, b) in expected.iter().enumerate() {
        assert_eq!(w.cell(BUFFER_HEIGHT - 1, i), ScreenChar { ascii_character: *b, color_code: code });
    }
    assert_eq!(w.column(), expected.len());
}

#[test]
fn multibyte_character_gives_one_fallback_per_byte() {
    let mut w = Writer::new(Color::Yellow, Color::Black);
    w.write_string("W\u{f6}rld!");
    assert_eq!(w.column(), 7);
    assert_eq!(&last_row(&w)[..8], &[b'W', 0xfe, 0xfe, b'r', b'l', b'd', b'!', b' ']);
}

#[test]
fn three_and_four_byte_characters() {
    let mut w = Writer::new(Color::Yellow, Color::Black);
    w.write_string("\u{20ac}\u{1f600}");
    assert_eq!(w.column(), 7);
    assert_eq!(&last_row(&w)[..7], &[0xfe; 7]);
}

#[test]
fn write_byte_stores_raw_bytes() {
    let mut w = Writer::new(Color::Yellow, Color::Black);
    w.write_byte(0x01);
    w.write_byte(0xfe);
    assert_eq!(&last_row(&w)[..2], &[0x01, 0xfe]);
    assert_eq!(w.column(), 2);
}
