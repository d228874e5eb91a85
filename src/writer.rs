use vstd::prelude::*;
use vstd::string::StringSliceAdditionalSpecFns;

use crate::color::{Color, ColorCode};

verus! {

/// Number of rows in the grid.
pub const BUFFER_HEIGHT: usize = 25;

/// Number of columns in the grid.
pub const BUFFER_WIDTH: usize = 80;

/// Number of cells in the grid, row-major.
pub const BUFFER_CELLS: usize = BUFFER_HEIGHT * BUFFER_WIDTH;

/// The line-feed code.
pub const LINE_FEED: u8 = 0x0a;

/// The glyph written in place of a byte outside the code page.
pub const FALLBACK_GLYPH: u8 = 0xfe;

/// The character code of a blank cell.
pub const BLANK: u8 = 0x20;

/// One grid position: a single-byte character code and its attribute.
#[derive(Debug, Clone, Copy, PartialEq, Eq, Structural)]
pub struct ScreenChar {
    pub ascii_character: u8,
    pub color_code: ColorCode,
}

/// The abstract state of a writer: its column, its active attribute and the
/// grid's cells in row-major order.
pub struct ConsoleState {
    pub column: nat,
    pub color_code: ColorCode,
    pub cells: Seq<ScreenChar>,
}

/// The flat index of the cell at `row`, `col`.
pub open spec fn cell_index(row: int, col: int) -> int {
    row * BUFFER_WIDTH + col
}

/// The first cell of the bottom row.
pub open spec fn last_row_start() -> int {
    cell_index(BUFFER_HEIGHT - 1, 0)
}

/// A blank cell in the given attribute.
pub open spec fn blank_cell(color_code: ColorCode) -> ScreenChar {
    ScreenChar { ascii_character: BLANK, color_code }
}

/// A cell holding `b` in the given attribute.
pub open spec fn glyph_cell(b: u8, color_code: ColorCode) -> ScreenChar {
    ScreenChar { ascii_character: b, color_code }
}

/// Whether a byte belongs to the code page: printable ASCII or a line feed.
pub open spec fn in_code_page(b: u8) -> bool {
    (0x20 <= b && b <= 0x7e) || b == LINE_FEED
}

/// A byte as it is handed to the grid: itself where the code page has it,
/// the fallback glyph otherwise.
pub open spec fn sanitized(b: u8) -> u8 {
    if in_code_page(b) {
        b
    } else {
        FALLBACK_GLYPH
    }
}

/// Every byte of a sequence sanitized, one for one.
pub open spec fn sanitized_bytes(bs: Seq<u8>) -> Seq<u8> {
    bs.map_values(|b: u8| sanitized(b))
}

impl ConsoleState {
    /// Column in range and the grid of the fixed size.
    pub open spec fn wf(self) -> bool {
        &&& self.column <= BUFFER_WIDTH
        &&& self.cells.len() == BUFFER_CELLS
    }

    pub open spec fn cell(self, row: int, col: int) -> ScreenChar {
        self.cells[cell_index(row, col)]
    }

    /// Line advance: every row moves up by one, the top row is discarded,
    /// the bottom row is cleared to blanks, and the column goes back to 0.
    pub open spec fn line_advanced(self) -> ConsoleState {
        ConsoleState {
            column: 0,
            color_code: self.color_code,
            cells: Seq::new(
                BUFFER_CELLS as nat,
                |k: int|
                    if k < last_row_start() {
                        self.cells[k + BUFFER_WIDTH]
                    } else {
                        blank_cell(self.color_code)
                    },
            ),
        }
    }

    /// The state after one byte: a line feed advances the line; any other
    /// byte first wraps when the row is full, then lands at the column on the
    /// bottom row, and the column moves on by one.
    pub open spec fn byte_written(self, b: u8) -> ConsoleState {
        if b == LINE_FEED {
            self.line_advanced()
        } else {
            let t = if self.column >= BUFFER_WIDTH {
                self.line_advanced()
            } else {
                self
            };
            ConsoleState {
                column: t.column + 1,
                color_code: t.color_code,
                cells: t.cells.update(last_row_start() + t.column, glyph_cell(b, t.color_code)),
            }
        }
    }

    /// The state after a sequence of bytes, written in order.
    pub open spec fn bytes_written(self, bs: Seq<u8>) -> ConsoleState
        decreases bs.len(),
    {
        if bs.len() == 0 {
            self
        } else {
            self.bytes_written(bs.drop_last()).byte_written(bs.last())
        }
    }

    /// The state after a text: its bytes sanitized, then written in order.
    pub open spec fn text_written(self, bs: Seq<u8>) -> ConsoleState {
        self.bytes_written(sanitized_bytes(bs))
    }
}

/// Maps a byte to the code page: printable ASCII (0x20 through 0x7E) and the
/// line feed pass through, every other byte becomes the fallback glyph 0xFE.
pub fn sanitize(byte: u8) -> (r: u8)
    ensures
        r == sanitized(byte),
        in_code_page(byte) ==> r == byte,
        !in_code_page(byte) ==> r == FALLBACK_GLYPH,
{
    match byte {
        0x20..=0x7e | LINE_FEED => byte,
        _ => FALLBACK_GLYPH,
    }
}

/// The console writer: the cursor column, the active attribute and the grid.
pub struct Writer {
    column_position: usize,
    color_code: ColorCode,
    cells: Vec<ScreenChar>,
}

impl View for Writer {
    type V = ConsoleState;

    closed spec fn view(&self) -> ConsoleState {
        ConsoleState {
            column: self.column_position as nat,
            color_code: self.color_code,
            cells: self.cells@,
        }
    }
}

impl Writer {
    /// The column stays within the row and the grid keeps its size.
    #[verifier::type_invariant]
    spec fn inv(self) -> bool {
        self@.wf()
    }

    /// A writer at column 0 over a grid of blank cells in the given colors.
    pub fn new(foreground: Color, background: Color) -> (r: Writer)
        ensures
            r@.wf(),
            r@.column == 0,
            r@.color_code == ColorCode::new_spec(foreground, background),
            forall|k: int| 0 <= k < BUFFER_CELLS ==> #[trigger] r@.cells[k] == blank_cell(r@.color_code),
    {
        let color_code = ColorCode::new(foreground, background);
        let blank = ScreenChar { ascii_character: BLANK, color_code };
        let mut cells: Vec<ScreenChar> = Vec::new();
        while cells.len() < BUFFER_CELLS
            invariant
                cells.len() <= BUFFER_CELLS,
                forall|k: int| 0 <= k < cells.len() ==> #[trigger] cells@[k] == blank,
            decreases BUFFER_CELLS - cells.len(),
        {
            cells.push(blank);
        }
        Writer { column_position: 0, color_code, cells }
    }

    /// The current column; `BUFFER_WIDTH` means the bottom row is full and
    /// the next printable byte wraps first.
    pub fn column(&self) -> (r: usize)
        ensures
            r == self@.column,
            r <= BUFFER_WIDTH,
    {
        proof {
            use_type_invariant(self);
        }
        self.column_position
    }

    /// The active attribute.
    pub fn color_code(&self) -> (r: ColorCode)
        ensures
            r == self@.color_code,
    {
        self.color_code
    }

    /// The cell at `row`, `col`.
    pub fn cell(&self, row: usize, col: usize) -> (r: ScreenChar)
        requires
            row < BUFFER_HEIGHT,
            col < BUFFER_WIDTH,
        ensures
            self@.wf(),
            r == self@.cell(row as int, col as int),
    {
        proof {
            use_type_invariant(self);
        }
        self.cells[row * BUFFER_WIDTH + col]
    }

    /// Writes one byte: a line feed advances the line; any other byte is
    /// stored at the column on the bottom row, after a wrap when the row is
    /// full.
    pub fn write_byte(&mut self, byte: u8)
        ensures
            old(self)@.wf(),
            final(self)@.wf(),
            final(self)@ == old(self)@.byte_written(byte),
        no_unwind
    {
        proof {
            use_type_invariant(&*self);
        }
        if byte == LINE_FEED {
            self.new_line();
        } else {
            if self.column_position >= BUFFER_WIDTH {
                self.new_line();
            }
            let row = BUFFER_HEIGHT - 1;
            let col = self.column_position;
            let color_code = self.color_code;
            self.cells[row * BUFFER_WIDTH + col] = ScreenChar { ascii_character: byte, color_code };
            self.column_position = self.column_position + 1;
        }
    }

    /// Scrolls the grid up by one row, clears the bottom row and returns the
    /// column to 0.
    fn new_line(&mut self)
        requires
            old(self)@.wf(),
        ensures
            final(self)@.wf(),
            final(self)@ == old(self)@.line_advanced(),
        no_unwind
    {
        let ghost before = self.cells@;
        let shifted: usize = (BUFFER_HEIGHT - 1) * BUFFER_WIDTH;
        let mut k: usize = 0;
        while k < shifted
            invariant
                shifted == last_row_start(),
                k <= shifted,
                self.cells@.len() == BUFFER_CELLS,
                before.len() == BUFFER_CELLS,
                before == old(self)@.cells,
                self.color_code == old(self).color_code,
                self.column_position <= BUFFER_WIDTH,
                forall|i: int| 0 <= i < k ==> #[trigger] self.cells@[i] == before[i + BUFFER_WIDTH],
                forall|i: int| k <= i < BUFFER_CELLS ==> #[trigger] self.cells@[i] == before[i],
            decreases shifted - k,
        {
            let c = self.cells[k + BUFFER_WIDTH];
            self.cells[k] = c;
            k = k + 1;
        }
        let blank = ScreenChar { ascii_character: BLANK, color_code: self.color_code };
        while k < BUFFER_CELLS
            invariant
                shifted == last_row_start(),
                shifted <= k <= BUFFER_CELLS,
                self.cells@.len() == BUFFER_CELLS,
                before.len() == BUFFER_CELLS,
                before == old(self)@.cells,
                self.color_code == old(self).color_code,
                self.column_position <= BUFFER_WIDTH,
                blank == blank_cell(self.color_code),
                forall|i: int| 0 <= i < shifted ==> #[trigger] self.cells@[i] == before[i + BUFFER_WIDTH],
                forall|i: int| shifted <= i < k ==> #[trigger] self.cells@[i] == blank,
            decreases BUFFER_CELLS - k,
        {
            self.cells[k] = blank;
            k = k + 1;
        }
        self.column_position = 0;
        assert(self@.cells =~= old(self)@.line_advanced().cells);
    }

    /// Writes a text: each of its bytes is sanitized to the code page and
    /// written, one cell per byte.
    pub fn write_string(&mut self, s: &str)
        ensures
            old(self)@.wf(),
            final(self)@.wf(),
            final(self)@ == old(self)@.text_written(s.spec_bytes()),
    {
        proof {
            use_type_invariant(&*self);
        }
        let bytes = s.as_bytes();
        let mut i: usize = 0;
        while i < bytes.len()
            invariant
                bytes@ == s.spec_bytes(),
                i <= bytes@.len(),
                self@.wf(),
                self@ == old(self)@.bytes_written(sanitized_bytes(bytes@.take(i as int))),
            decreases bytes@.len() - i,
        {
            let b = sanitize(bytes[i]);
            self.write_byte(b);
            proof {
                let next = sanitized_bytes(bytes@.take(i + 1));
                assert(next.drop_last() =~= sanitized_bytes(bytes@.take(i as int)));
            }
            i = i + 1;
        }
        assert(bytes@.take(i as int) =~= bytes@);
    }
}

} // verus!
