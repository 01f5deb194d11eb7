//! The console driver: colours, the volatile character grid and the writer
//! that owns the cursor.

use vstd::prelude::*;
use vstd::string::StringSliceAdditionalSpecFns;
use core::ops::DerefMut;
use spin::{Mutex, MutexGuard};
use volatile::Volatile;
use crate::screen::{
    shifted_up, with_cell, Screen, BUFFER_HEIGHT, BUFFER_WIDTH, NEWLINE, PLACEHOLDER,
};

verus! {

/// The sixteen colours of the text-mode palette, in palette order.
#[derive(Debug, Clone, Copy, PartialEq, Eq, Structural)]
pub enum Color {
    Black,
    Blue,
    Green,
    Cyan,
    Red,
    Magenta,
    Brown,
    LightGray,
    DarkGray,
    LightBlue,
    LightGreen,
    LightCyan,
    LightRed,
    Pink,
    Yellow,
    White,
}

impl Color {
    /// The palette index of the colour, 0 to 15.
    pub open spec fn index(self) -> u8 {
        match self {
            Color::Black => 0,
            Color::Blue => 1,
            Color::Green => 2,
            Color::Cyan => 3,
            Color::Red => 4,
            Color::Magenta => 5,
            Color::Brown => 6,
            Color::LightGray => 7,
            Color::DarkGray => 8,
            Color::LightBlue => 9,
            Color::LightGreen => 10,
            Color::LightCyan => 11,
            Color::LightRed => 12,
            Color::Pink => 13,
            Color::Yellow => 14,
            Color::White => 15,
        }
    }

    /// The palette index as a byte.
    pub fn code(self) -> (code: u8)
        ensures
            code == self.index(),
            code < 16,
    {
        match self {
            Color::Black => 0,
            Color::Blue => 1,
            Color::Green => 2,
            Color::Cyan => 3,
            Color::Red => 4,
            Color::Magenta => 5,
            Color::Brown => 6,
            Color::LightGray => 7,
            Color::DarkGray => 8,
            Color::LightBlue => 9,
            Color::LightGreen => 10,
            Color::LightCyan => 11,
            Color::LightRed => 12,
            Color::Pink => 13,
            Color::Yellow => 14,
            Color::White => 15,
        }
    }
}

/// A packed colour attribute: foreground in the low nibble, background in
/// the high nibble.
#[derive(Debug, Clone, Copy, PartialEq, Eq, Structural)]
pub struct ColorCode(pub u8);

/// One displayable unit: a character byte and the attribute it is drawn with.
#[derive(Debug, Clone, Copy, PartialEq, Eq, Structural)]
pub struct ScreenChar {
    pub ascii_char: u8,
    pub color_code: ColorCode,
}

impl ColorCode {
    /// The attribute byte of a colour pair.
    pub open spec fn pack(foreground: Color, background: Color) -> u8 {
        (background.index() * 16 + foreground.index()) as u8
    }

    /// Packs a foreground and a background colour into one attribute byte:
    /// the foreground in the low nibble, the background in the high nibble.
    pub fn new(foreground: Color, background: Color) -> (code: ColorCode)
        ensures
            code.0 == Self::pack(foreground, background),
            code.0 & 0x0f == foreground.index(),
            code.0 >> 4 == background.index(),
    {
        let fg: u8 = foreground.code();
        let bg: u8 = background.code();
        assert((bg << 4 | fg) == bg * 16 + fg && (bg << 4 | fg) & 0x0f == fg && (bg << 4 | fg) >> 4
            == bg) by (bit_vector)
            requires
                fg < 16,
                bg < 16,
        ;
        ColorCode(bg << 4 | fg)
    }
}

impl ScreenChar {
    /// The cell that a pair of bytes in the grid's memory stands for: the
    /// character byte first, then the attribute byte.
    pub open spec fn from_bytes(pair: Seq<u8>) -> ScreenChar {
        ScreenChar { ascii_char: pair[0], color_code: ColorCode(pair[1]) }
    }
}

/// `volatile::Volatile`, a value that is only ever loaded and stored whole,
/// by accesses that are never elided or reordered. The verifier sees nothing
/// inside it.
#[verifier::external_type_specification]
#[verifier::external_body]
#[verifier::reject_recursive_types(T)]
pub struct ExVolatile<T: Copy>(Volatile<T>);

/// The value that a slot of the grid holds: its character byte, then its
/// attribute byte.
pub uninterp spec fn slot_bytes(slot: Volatile<[u8; 2]>) -> Seq<u8>;

/// `Volatile::read`: one volatile load of the slot, which gives a copy of
/// the two bytes that the slot holds. This is taken on trust; it is true of
/// memory that changes only when this program stores to it.
#[verifier::external_body]
fn volatile_read(slot: &Volatile<[u8; 2]>) -> (pair: [u8; 2])
    ensures
        pair@ == slot_bytes(*slot),
{
    slot.read()
}

/// `Volatile::write`: one volatile store to the slot, after which the slot
/// holds the two bytes given. It never panics. This is taken on trust.
#[verifier::external_body]
fn volatile_write(slot: &mut Volatile<[u8; 2]>, pair: [u8; 2])
    ensures
        slot_bytes(*final(slot)) == pair@,
    no_unwind
{
    slot.write(pair)
}

/// The display surface: `BUFFER_HEIGHT` rows of `BUFFER_WIDTH` slots, each
/// two bytes wide and reached only by volatile loads and stores.
pub struct Buffer {
    pub chars: [[Volatile<[u8; 2]>; BUFFER_WIDTH]; BUFFER_HEIGHT],
}

impl View for Buffer {
    type V = Seq<Seq<ScreenChar>>;

    open spec fn view(&self) -> Seq<Seq<ScreenChar>> {
        Seq::new(
            BUFFER_HEIGHT as nat,
            |r: int|
                Seq::new(
                    BUFFER_WIDTH as nat,
                    |c: int| ScreenChar::from_bytes(slot_bytes(self.chars[r][c])),
                ),
        )
    }
}

impl Buffer {
    /// Reads the cell at (`row`, `col`) with one volatile load.
    pub fn read(&self, row: usize, col: usize) -> (cell: ScreenChar)
        requires
            row < BUFFER_HEIGHT,
            col < BUFFER_WIDTH,
        ensures
            cell == self@[row as int][col as int],
    {
        let pair = volatile_read(&self.chars[row][col]);
        ScreenChar { ascii_char: pair[0], color_code: ColorCode(pair[1]) }
    }

    /// Writes `cell` at (`row`, `col`) with one volatile store. No other
    /// cell changes.
    pub fn write(&mut self, row: usize, col: usize, cell: ScreenChar)
        requires
            row < BUFFER_HEIGHT,
            col < BUFFER_WIDTH,
        ensures
            final(self)@ == with_cell(old(self)@, row as int, col as int, cell),
        no_unwind
    {
        volatile_write(&mut self.chars[row][col], [cell.ascii_char, cell.color_code.0]);
        assert(self@ =~~= with_cell(old(self)@, row as int, col as int, cell));
    }
}

/// The console: the cursor, the one active attribute, and the grid that it
/// draws on.
pub struct ScreenWriter {
    column_position: usize,
    row_position: usize,
    color_code: ColorCode,
    buffer: &'static mut Buffer,
}

impl View for ScreenWriter {
    type V = Screen;

    closed spec fn view(&self) -> Screen {
        Screen {
            column: self.column_position as nat,
            row: self.row_position as nat,
            color_code: self.color_code,
            cells: self.buffer@,
        }
    }
}

impl ScreenWriter {
    /// The cursor is on the grid, or one step past its right edge or below
    /// its last row.
    #[verifier::type_invariant]
    spec fn cursor_in_range(&self) -> bool {
        self.column_position <= BUFFER_WIDTH && self.row_position <= BUFFER_HEIGHT
    }

    /// A console that draws on `buffer` with the attribute `color_code`,
    /// its cursor in the top left corner. The grid keeps what it held.
    pub fn new(color_code: ColorCode, buffer: &'static mut Buffer) -> (writer: ScreenWriter)
        ensures
            writer@ == (Screen { column: 0, row: 0, color_code, cells: old(buffer)@ }),
            writer@.wf(),
    {
        ScreenWriter { column_position: 0, row_position: 0, color_code, buffer }
    }

    /// The column of the cursor.
    pub fn column_position(&self) -> (column: usize)
        ensures
            column == self@.column,
            self@.wf(),
    {
        proof {
            use_type_invariant(self);
        }
        self.column_position
    }

    /// The row of the cursor.
    pub fn row_position(&self) -> (row: usize)
        ensures
            row == self@.row,
            self@.wf(),
    {
        proof {
            use_type_invariant(self);
        }
        self.row_position
    }

    /// The attribute that the console draws with.
    pub fn color_code(&self) -> (code: ColorCode)
        ensures
            code == self@.color_code,
    {
        self.color_code
    }

    /// Reads back the cell at (`row`, `col`) of the grid.
    pub fn read_cell(&self, row: usize, col: usize) -> (cell: ScreenChar)
        requires
            row < BUFFER_HEIGHT,
            col < BUFFER_WIDTH,
        ensures
            cell == self@.cell(row as int, col as int),
    {
        self.buffer.read(row, col)
    }

    fn new_line(&mut self)
        ensures
            final(self)@ == old(self)@.new_line(),
    {
        proof {
            use_type_invariant(&*self);
        }
        self.column_position = 0;
        if self.row_position < BUFFER_HEIGHT {
            self.row_position += 1;
        }
    }

    fn shift_lines_up(&mut self)
        ensures
            final(self)@ == (Screen { cells: shifted_up(old(self)@.cells), ..old(self)@ }),
    {
        let ghost before = self@;
        proof {
            use_type_invariant(&*self);
        }
        for col in 0..BUFFER_WIDTH
            invariant
                before.wf(),
                self@ == (Screen { cells: self@.cells, ..before }),
                forall|r: int, c: int|
                    0 <= r < BUFFER_HEIGHT && 0 <= c < BUFFER_WIDTH ==> #[trigger] self@.cells[r][c]
                        == (if c < col {
                        shifted_up(before.cells)[r][c]
                    } else {
                        before.cells[r][c]
                    }),
        {
            for row in 1..BUFFER_HEIGHT
                invariant
                    col < BUFFER_WIDTH,
                    before.wf(),
                    self@ == (Screen { cells: self@.cells, ..before }),
                    forall|r: int, c: int|
                        0 <= r < BUFFER_HEIGHT && 0 <= c < BUFFER_WIDTH
                            ==> #[trigger] self@.cells[r][c] == (if c < col || (c == col && r + 1
                            < row) {
                            shifted_up(before.cells)[r][c]
                        } else {
                            before.cells[r][c]
                        }),
            {
                let below = self.buffer.read(row, col);
                self.buffer.write(row - 1, col, below);
            }
        }
        assert(self@.cells =~~= shifted_up(before.cells));
    }

    /// Writes one byte of text at the cursor. The newline signal ends the
    /// line. Any other byte is drawn as its glyph, printable ASCII as itself
    /// and everything else as the placeholder, after a pending wrap or scroll
    /// has been carried out, and the cursor moves one column on.
    pub fn write_byte(&mut self, byte: u8)
        ensures
            final(self)@ == old(self)@.write_byte(byte),
            final(self)@.wf(),
    {
        if byte == NEWLINE {
            self.new_line();
        } else {
            if self.column_position >= BUFFER_WIDTH {
                self.new_line();
            }
            if self.row_position >= BUFFER_HEIGHT {
                self.shift_lines_up();
                self.row_position = BUFFER_HEIGHT - 1;
            }
            let ascii_char: u8 = if 0x20 <= byte && byte <= 0x7e {
                byte
            } else {
                PLACEHOLDER
            };
            let row: usize = self.row_position;
            let col: usize = self.column_position;
            let color_code = self.color_code;
            self.buffer.write(row, col, ScreenChar { ascii_char, color_code });
            self.column_position += 1;
        }
        proof {
            use_type_invariant(&*self);
        }
    }

    /// Writes the bytes of `s` in order, each as `write_byte` does. Text of
    /// any length is accepted: it wraps and scrolls as often as it needs.
    pub fn print_string(&mut self, s: &str)
        ensures
            final(self)@ == old(self)@.write_bytes(s.spec_bytes()),
            final(self)@.wf(),
    {
        let ghost before = self@;
        let bytes = s.as_bytes();
        let mut i: usize = 0;
        while i < bytes.len()
            invariant
                i <= bytes.len(),
                bytes@ == s.spec_bytes(),
                self@ == before.write_bytes(bytes@.take(i as int)),
            decreases bytes.len() - i,
        {
            self.write_byte(bytes[i]);
            assert(bytes@.take(i + 1).drop_last() == bytes@.take(i as int));
            i += 1;
        }
        assert(bytes@.take(i as int) == bytes@);
        proof {
            use_type_invariant(&*self);
        }
    }

    /// Writes the bytes of `s` and then ends the line, so that what is
    /// written next starts on a row of its own.
    pub fn print_line(&mut self, s: &str)
        ensures
            final(self)@ == old(self)@.print_line(s.spec_bytes()),
            final(self)@.wf(),
    {
        self.print_string(s);
        self.new_line();
        proof {
            use_type_invariant(&*self);
        }
    }
}

/// `core::fmt::Error`, the error of formatted output. The console never
/// makes one.
#[verifier::external_type_specification]
#[verifier::external_body]
pub struct ExFmtError(core::fmt::Error);

impl core::fmt::Write for ScreenWriter {
    /// Formatted output goes to the console as `print_string` writes it,
    /// and never fails.
    fn write_str(&mut self, s: &str) -> (done: core::fmt::Result)
        ensures
            done is Ok,
            final(self)@ == old(self)@.write_bytes(s.spec_bytes()),
            final(self)@.wf(),
    {
        self.print_string(s);
        Ok(())
    }
}

/// `spin::Mutex`, a lock that is taken by spinning. The verifier sees
/// nothing of what it protects.
#[verifier::external_type_specification]
#[verifier::external_body]
#[verifier::reject_recursive_types(T)]
pub struct ExMutex<T: ?Sized>(Mutex<T>);

/// `spin::MutexGuard`, the proof that the lock is held; dropping it gives
/// the lock up.
#[verifier::external_type_specification]
#[verifier::external_body]
#[verifier::reject_recursive_types(T)]
pub struct ExMutexGuard<'a, T: ?Sized + 'a>(MutexGuard<'a, T>);

/// `Mutex::lock`: spins until the lock is free, takes it and hands out the
/// guard. It returns only once no one else holds the lock. Nothing is
/// claimed of the console behind the lock: earlier holders may have written
/// to it.
#[verifier::external_body]
fn lock_console<'a>(console: &'a Mutex<ScreenWriter>) -> MutexGuard<'a, ScreenWriter> {
    console.lock()
}

/// `DerefMut::deref_mut` of the guard: exclusive access to the console that
/// the lock protects, for as long as the guard is borrowed. Nothing is
/// claimed of the state that the console is in.
#[verifier::external_body]
fn locked_console<'a, 'b>(guard: &'b mut MutexGuard<'a, ScreenWriter>) -> &'b mut ScreenWriter {
    guard.deref_mut()
}

/// Prints `string` as a line of its own on the shared console. The lock is
/// held from the first byte to the line end, so the text of two callers is
/// never interleaved; what the console shows afterwards is what
/// `ScreenWriter::print_line` makes of the state that the lock handed out.
pub fn kprintln(console: &Mutex<ScreenWriter>, string: &str) {
    let mut guard = lock_console(console);
    let writer = locked_console(&mut guard);
    writer.print_line(string);
}

} // verus!
