//! The mathematical model of the console: what the grid holds and where the
//! cursor stands, and how one byte of text changes both.

use vstd::prelude::*;
use crate::print_util::{ColorCode, ScreenChar};

verus! {

/// Number of rows of the display surface.
pub const BUFFER_HEIGHT: usize = 25;

/// Number of columns of the display surface.
pub const BUFFER_WIDTH: usize = 80;

/// The byte that ends a line instead of being drawn.
pub const NEWLINE: u8 = 0x0a;

/// The glyph drawn in place of a byte that has no printable form.
pub const PLACEHOLDER: u8 = 0xfe;

/// Whether `byte` is printable ASCII, and so drawn as itself.
pub open spec fn is_printable(byte: u8) -> bool {
    0x20 <= byte <= 0x7e
}

/// The glyph that stands for a byte of text on the screen.
pub open spec fn glyph(byte: u8) -> u8 {
    if is_printable(byte) {
        byte
    } else {
        PLACEHOLDER
    }
}

/// The cell that a console with the attribute `color_code` draws for `byte`.
pub open spec fn drawn_cell(byte: u8, color_code: ColorCode) -> ScreenChar {
    ScreenChar { ascii_char: glyph(byte), color_code }
}

/// The byte that stands for `byte` on its way to the screen: the newline
/// signal stays, every other byte becomes its glyph.
pub open spec fn rendered(byte: u8) -> u8 {
    if byte == NEWLINE {
        NEWLINE
    } else {
        glyph(byte)
    }
}

/// The grid after a scroll: every row but the last holds what the row below
/// it held, and the last row keeps its content.
pub open spec fn shifted_up(cells: Seq<Seq<ScreenChar>>) -> Seq<Seq<ScreenChar>> {
    Seq::new(
        cells.len(),
        |r: int|
            if r + 1 < cells.len() {
                cells[r + 1]
            } else {
                cells[r]
            },
    )
}

/// The grid with the cell at (`row`, `col`) replaced by `cell`, and every
/// other cell as it was.
pub open spec fn with_cell(
    cells: Seq<Seq<ScreenChar>>,
    row: int,
    col: int,
    cell: ScreenChar,
) -> Seq<Seq<ScreenChar>> {
    cells.update(row, cells[row].update(col, cell))
}

/// A row of the grid with the glyphs of `bytes` drawn from column `at` on,
/// in the attribute `color_code`; the cells before and after keep their
/// content.
pub open spec fn drawn_row(
    row: Seq<ScreenChar>,
    at: int,
    bytes: Seq<u8>,
    color_code: ColorCode,
) -> Seq<ScreenChar> {
    Seq::new(
        row.len(),
        |c: int|
            if at <= c < at + bytes.len() {
                drawn_cell(bytes[c - at], color_code)
            } else {
                row[c]
            },
    )
}

/// Whether no byte of `bytes` is the newline signal.
pub open spec fn no_newline(bytes: Seq<u8>) -> bool {
    forall|i: int| 0 <= i < bytes.len() ==> bytes[i] != NEWLINE
}

/// Whether `cell` is somewhere on the grid.
pub open spec fn holds_cell(cells: Seq<Seq<ScreenChar>>, cell: ScreenChar) -> bool {
    exists|r: int, c: int| 0 <= r < cells.len() && 0 <= c < cells[r].len() && cells[r][c] == cell
}

/// Whether `cell` is one that a console with the attribute `color_code`
/// draws: a printable character or the placeholder, in that attribute.
pub open spec fn is_drawn_cell(cell: ScreenChar, color_code: ColorCode) -> bool {
    cell.color_code == color_code && (is_printable(cell.ascii_char) || cell.ascii_char
        == PLACEHOLDER)
}

/// Whether every cell of the grid `after` is either somewhere on the grid
/// `before` or one that a console with the attribute `color_code` draws.
pub open spec fn only_old_or_drawn(
    before: Seq<Seq<ScreenChar>>,
    after: Seq<Seq<ScreenChar>>,
    color_code: ColorCode,
) -> bool {
    forall|r: int, c: int|
        0 <= r < BUFFER_HEIGHT && 0 <= c < BUFFER_WIDTH ==> holds_cell(
            before,
            #[trigger] after[r][c],
        ) || is_drawn_cell(after[r][c], color_code)
}

/// Whether every line is free of newlines and no longer than a row.
pub open spec fn lines_fit(lines: Seq<Seq<u8>>) -> bool {
    forall|i: int|
        0 <= i < lines.len() ==> no_newline(#[trigger] lines[i]) && lines[i].len() <= BUFFER_WIDTH
}

/// The state of a console: cursor, active attribute and the content of the
/// whole grid, row by row.
pub struct Screen {
    pub column: nat,
    pub row: nat,
    pub color_code: ColorCode,
    pub cells: Seq<Seq<ScreenChar>>,
}

impl Screen {
    /// The grid has its fixed size and the cursor is on it, or one step past
    /// the right edge or the bottom row, where a wrap or a scroll is pending.
    pub open spec fn wf(self) -> bool {
        &&& self.column <= BUFFER_WIDTH
        &&& self.row <= BUFFER_HEIGHT
        &&& self.cells.len() == BUFFER_HEIGHT
        &&& forall|r: int|
            0 <= r < BUFFER_HEIGHT ==> (#[trigger] self.cells[r]).len() == BUFFER_WIDTH
    }

    /// The cell at (`row`, `col`).
    pub open spec fn cell(self, row: int, col: int) -> ScreenChar {
        self.cells[row][col]
    }

    /// Ends the current line: the cursor goes to column 0 of the next row.
    /// Below the last row there is only the pending position, where it stays.
    pub open spec fn new_line(self) -> Screen {
        Screen {
            column: 0,
            row: if self.row < BUFFER_HEIGHT {
                self.row + 1
            } else {
                BUFFER_HEIGHT as nat
            },
            ..self
        }
    }

    /// The state in which the next cell is placed: a cursor past the right
    /// edge has wrapped, and a cursor past the last row has scrolled the grid
    /// and stands on the last row.
    pub open spec fn settled(self) -> Screen {
        let wrapped = if self.column >= BUFFER_WIDTH {
            self.new_line()
        } else {
            self
        };
        if wrapped.row >= BUFFER_HEIGHT {
            Screen {
                row: (BUFFER_HEIGHT - 1) as nat,
                cells: shifted_up(wrapped.cells),
                ..wrapped
            }
        } else {
            wrapped
        }
    }

    /// Draws `cell` at the settled cursor and moves the cursor one column
    /// on.
    pub open spec fn place(self, cell: ScreenChar) -> Screen {
        let at = self.settled();
        Screen {
            column: at.column + 1,
            cells: with_cell(at.cells, at.row as int, at.column as int, cell),
            ..at
        }
    }

    /// The glyphs of `bytes` drawn on the cursor's row from the cursor on,
    /// and the cursor behind the last of them.
    pub open spec fn with_text(self, bytes: Seq<u8>) -> Screen {
        Screen {
            column: self.column + bytes.len(),
            cells: self.cells.update(
                self.row as int,
                drawn_row(self.cells[self.row as int], self.column as int, bytes, self.color_code),
            ),
            ..self
        }
    }

    /// One byte of text: the newline signal ends the line, any other byte is
    /// drawn as its glyph in the active attribute.
    pub open spec fn write_byte(self, byte: u8) -> Screen {
        if byte == NEWLINE {
            self.new_line()
        } else {
            self.place(drawn_cell(byte, self.color_code))
        }
    }

    /// A sequence of bytes, written one after the other from the left.
    pub open spec fn write_bytes(self, bytes: Seq<u8>) -> Screen
        decreases bytes.len(),
    {
        if bytes.len() == 0 {
            self
        } else {
            self.write_bytes(bytes.drop_last()).write_byte(bytes.last())
        }
    }

    /// A sequence of bytes followed by a line end.
    pub open spec fn print_line(self, bytes: Seq<u8>) -> Screen {
        self.write_bytes(bytes).new_line()
    }

    /// A sequence of lines, each printed as a line of its own, in order.
    pub open spec fn print_lines(self, lines: Seq<Seq<u8>>) -> Screen
        decreases lines.len(),
    {
        if lines.len() == 0 {
            self
        } else {
            self.print_lines(lines.drop_last()).print_line(lines.last())
        }
    }
}

} // verus!
