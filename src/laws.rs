use vstd::prelude::*;
use vstd::utf8::{encode_scalar, encode_utf8};

use crate::writer::{
    glyph_cell, blank_cell, last_row_start, sanitized, sanitized_bytes,
    ConsoleState, BUFFER_CELLS, BUFFER_HEIGHT, BUFFER_WIDTH, FALLBACK_GLYPH, LINE_FEED,
};

verus! {

/// Sanitizing keeps the length and works byte by byte; every byte at or
/// above 0x80 becomes the fallback glyph.
pub proof fn lemma_one_fallback_per_byte(bs: Seq<u8>)
    ensures
        sanitized_bytes(bs).len() == bs.len(),
        forall|i: int| 0 <= i < bs.len() ==> #[trigger] sanitized_bytes(bs)[i] == sanitized(bs[i]),
        forall|i: int|
            0 <= i < bs.len() && bs[i] >= 0x80 ==> #[trigger] sanitized_bytes(bs)[i]
                == FALLBACK_GLYPH,
{
}

/// A character outside ASCII takes two to four bytes in its encoding, and
/// each of them becomes one fallback glyph.
pub proof fn lemma_non_ascii_char(c: char)
    requires
        c as u32 >= 0x80,
    ensures
        2 <= encode_utf8(seq![c]).len() <= 4,
        sanitized_bytes(encode_utf8(seq![c])) == Seq::new(
            encode_utf8(seq![c]).len(),
            |i: int| FALLBACK_GLYPH,
        ),
{
    let v = c as u32;
    let bs = encode_utf8(seq![c]);
    assert(seq![c].drop_first() =~= Seq::<char>::empty());
    assert(encode_utf8(Seq::<char>::empty()) =~= Seq::<u8>::empty());
    assert(bs == encode_scalar(v) + encode_utf8(seq![c].drop_first()));
    assert(bs =~= encode_scalar(v));
    assert(forall|x: u32| 0x80u8 <= #[trigger] (0xC0u8 | ((x >> 6u32) & 0x1Fu32) as u8)) by (bit_vector);
    assert(forall|x: u32| 0x80u8 <= #[trigger] (0xE0u8 | ((x >> 12u32) & 0x0Fu32) as u8)) by (bit_vector);
    assert(forall|x: u32| 0x80u8 <= #[trigger] (0xF0u8 | ((x >> 18u32) & 0x7u32) as u8)) by (bit_vector);
    assert(forall|x: u32| 0x80u8 <= #[trigger] (0x80u8 | (x & 0x3Fu32) as u8)) by (bit_vector);
    assert(forall|x: u32| 0x80u8 <= #[trigger] (0x80u8 | ((x >> 6u32) & 0x3Fu32) as u8)) by (bit_vector);
    assert(forall|x: u32| 0x80u8 <= #[trigger] (0x80u8 | ((x >> 12u32) & 0x3Fu32) as u8)) by (bit_vector);
    lemma_one_fallback_per_byte(bs);
    assert(sanitized_bytes(bs) =~= Seq::new(bs.len(), |i: int| FALLBACK_GLYPH));
}

/// Bytes written within the room left on the bottom row, none of them a
/// line feed, land one per cell from the column on, in the active
/// attribute; every other cell is left as it was, and the column moves on by
/// their number.
pub proof fn lemma_write_within_row(s: ConsoleState, bs: Seq<u8>)
    requires
        s.wf(),
        s.column + bs.len() <= BUFFER_WIDTH,
        forall|i: int| 0 <= i < bs.len() ==> bs[i] != LINE_FEED,
    ensures
        s.bytes_written(bs).wf(),
        s.bytes_written(bs).column == s.column + bs.len(),
        s.bytes_written(bs).color_code == s.color_code,
        forall|k: int|
            0 <= k < BUFFER_CELLS ==> #[trigger] s.bytes_written(bs).cells[k] == if last_row_start()
                + s.column <= k < last_row_start() + s.column + bs.len() {
                glyph_cell(bs[k - last_row_start() - s.column], s.color_code)
            } else {
                s.cells[k]
            },
    decreases bs.len(),
{
    if bs.len() > 0 {
        let p = bs.drop_last();
        lemma_write_within_row(s, p);
    }
}

/// A text shorter than the grid's width, with no line feed, written from
/// column 0: the column ends at the text's length, the bottom row holds the
/// sanitized bytes from column 0 in the active attribute, and all other cells
/// are unchanged.
pub proof fn lemma_short_text(s: ConsoleState, text: Seq<u8>)
    requires
        s.wf(),
        s.column == 0,
        text.len() < BUFFER_WIDTH,
        forall|i: int| 0 <= i < text.len() ==> text[i] != LINE_FEED,
    ensures
        s.text_written(text).wf(),
        sanitized_bytes(text).len() == text.len(),
        s.text_written(text).column == sanitized_bytes(text).len(),
        s.text_written(text).color_code == s.color_code,
        forall|col: int|
            0 <= col < text.len() ==> #[trigger] s.text_written(text).cell(BUFFER_HEIGHT - 1, col)
                == glyph_cell(sanitized(text[col]), s.color_code),
        forall|col: int|
            text.len() <= col < BUFFER_WIDTH ==> #[trigger] s.text_written(text).cell(
                BUFFER_HEIGHT - 1,
                col,
            ) == s.cell(BUFFER_HEIGHT - 1, col),
        forall|row: int, col: int|
            0 <= row < BUFFER_HEIGHT - 1 && 0 <= col < BUFFER_WIDTH ==> #[trigger] s.text_written(
                text,
            ).cell(row, col) == s.cell(row, col),
{
    let bs = sanitized_bytes(text);
    assert forall|i: int| 0 <= i < bs.len() implies bs[i] != LINE_FEED by {
        assert(bs[i] == sanitized(text[i]));
    }
    lemma_write_within_row(s, bs);
}

/// Exactly a row's width of printable bytes written from column 0 fill the
/// bottom row and leave the column at the width: the wrap waits for the next
/// byte. The rows above are unchanged.
pub proof fn lemma_full_row(s: ConsoleState, text: Seq<u8>)
    requires
        s.wf(),
        s.column == 0,
        text.len() == BUFFER_WIDTH,
        forall|i: int| 0 <= i < text.len() ==> 0x20 <= #[trigger] text[i] <= 0x7e,
    ensures
        s.text_written(text).wf(),
        s.text_written(text).column == BUFFER_WIDTH,
        forall|col: int|
            0 <= col < BUFFER_WIDTH ==> #[trigger] s.text_written(text).cell(BUFFER_HEIGHT - 1, col)
                == glyph_cell(text[col], s.color_code),
        forall|row: int, col: int|
            0 <= row < BUFFER_HEIGHT - 1 && 0 <= col < BUFFER_WIDTH ==> #[trigger] s.text_written(
                text,
            ).cell(row, col) == s.cell(row, col),
{
    let bs = sanitized_bytes(text);
    assert forall|i: int| 0 <= i < bs.len() implies bs[i] != LINE_FEED && bs[i] == text[i] by {
        assert(bs[i] == sanitized(text[i]));
    }
    lemma_write_within_row(s, bs);
}

/// Once the bottom row is full, one more byte other than a line feed
/// scrolls: the top row is discarded, every other row moves up by one, and
/// the new bottom row holds only that byte at column 0, blanks elsewhere.
pub proof fn lemma_scroll_on_overflow(s: ConsoleState, b: u8)
    requires
        s.wf(),
        s.column == BUFFER_WIDTH,
        b != LINE_FEED,
    ensures
        s.byte_written(b).wf(),
        s.byte_written(b).column == 1,
        s.byte_written(b).color_code == s.color_code,
        forall|row: int, col: int|
            0 <= row < BUFFER_HEIGHT - 1 && 0 <= col < BUFFER_WIDTH ==> #[trigger] s.byte_written(
                b,
            ).cell(row, col) == s.cell(row + 1, col),
        s.byte_written(b).cell(BUFFER_HEIGHT - 1, 0) == glyph_cell(b, s.color_code),
        forall|col: int|
            0 < col < BUFFER_WIDTH ==> #[trigger] s.byte_written(b).cell(BUFFER_HEIGHT - 1, col)
                == blank_cell(s.color_code),
{
}

/// Writing bytes in two pieces ends in the state that writing them at once
/// does.
pub proof fn lemma_bytes_written_concat(s: ConsoleState, a: Seq<u8>, b: Seq<u8>)
    ensures
        s.bytes_written(a + b) == s.bytes_written(a).bytes_written(b),
    decreases b.len(),
{
    if b.len() == 0 {
        assert(a + b =~= a);
    } else {
        assert((a + b).drop_last() =~= a + b.drop_last());
        lemma_bytes_written_concat(s, a, b.drop_last());
    }
}

/// Writing a text in two pieces ends in the state that writing the joined
/// text does.
pub proof fn lemma_text_written_concat(s: ConsoleState, a: Seq<u8>, b: Seq<u8>)
    ensures
        s.text_written(a + b) == s.text_written(a).text_written(b),
{
    assert(sanitized_bytes(a + b) =~= sanitized_bytes(a) + sanitized_bytes(b));
    lemma_bytes_written_concat(s, sanitized_bytes(a), sanitized_bytes(b));
}

} // verus!
