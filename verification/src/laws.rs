//! What holds of every console, proved from the model.

use vstd::prelude::*;
use crate::print_util::{ColorCode, ScreenChar};
use crate::screen::{
    drawn_cell, drawn_row, holds_cell, is_drawn_cell, is_printable, lines_fit, no_newline,
    only_old_or_drawn, rendered, with_cell, Screen, BUFFER_HEIGHT, BUFFER_WIDTH, NEWLINE,
    PLACEHOLDER,
};

verus! {

/// A pending wrap or scroll, once carried out, leaves the cursor on the grid.
proof fn settled_is_on_grid(s: Screen)
    requires
        s.wf(),
    ensures
        s.settled().wf(),
        s.settled().column < BUFFER_WIDTH,
        s.settled().row < BUFFER_HEIGHT,
        s.settled().color_code == s.color_code,
        s.column < BUFFER_WIDTH && s.row < BUFFER_HEIGHT ==> s.settled() == s,
{
}

/// Writing two texts one after the other is writing their concatenation.
pub proof fn write_bytes_concat(s: Screen, first: Seq<u8>, second: Seq<u8>)
    ensures
        s.write_bytes(first + second) == s.write_bytes(first).write_bytes(second),
    decreases second.len(),
{
    if second.len() > 0 {
        write_bytes_concat(s, first, second.drop_last());
        assert((first + second).drop_last() =~= first + second.drop_last());
    }
}

/// Text without a newline that fits between the settled cursor and the right
/// edge is drawn on one row.
proof fn text_on_settled_row(s: Screen, bytes: Seq<u8>)
    requires
        s.wf(),
        no_newline(bytes),
        bytes.len() >= 1,
        s.settled().column + bytes.len() <= BUFFER_WIDTH,
    ensures
        s.write_bytes(bytes) == s.settled().with_text(bytes),
    decreases bytes.len(),
{
    let at = s.settled();
    settled_is_on_grid(s);
    let init = bytes.drop_last();
    if init.len() == 0 {
        assert(s.write_bytes(init) == s);
    } else {
        text_on_settled_row(s, init);
    }
    assert(s.write_bytes(bytes).cells =~~= at.with_text(bytes).cells);
}

/// Writing keeps the console well-formed and never changes its attribute.
pub proof fn write_bytes_keeps_wf_and_attribute(s: Screen, bytes: Seq<u8>)
    requires
        s.wf(),
    ensures
        s.write_bytes(bytes).wf(),
        s.write_bytes(bytes).color_code == s.color_code,
    decreases bytes.len(),
{
    if bytes.len() > 0 {
        write_bytes_keeps_wf_and_attribute(s, bytes.drop_last());
    }
}

/// Text without a newline, written where it fits between the cursor and the
/// right edge, lands on the row the cursor started on: byte `i` is drawn as
/// its glyph `i` columns right of where the cursor stood, a printable byte as
/// itself; nothing else on the grid changes, and the cursor ends behind the
/// last glyph on the same row.
pub proof fn text_that_fits_stays_on_its_row(s: Screen, bytes: Seq<u8>)
    requires
        s.wf(),
        no_newline(bytes),
        s.column + bytes.len() <= BUFFER_WIDTH,
        bytes.len() > 0 ==> s.row < BUFFER_HEIGHT,
    ensures
        bytes.len() > 0 ==> s.write_bytes(bytes) == s.with_text(bytes),
        s.write_bytes(bytes).row == s.row,
        s.write_bytes(bytes).column == s.column + bytes.len(),
        forall|i: int|
            0 <= i < bytes.len() ==> #[trigger] s.write_bytes(bytes).cell(
                s.row as int,
                s.column + i,
            ) == drawn_cell(bytes[i], s.color_code),
        forall|i: int|
            0 <= i < bytes.len() && is_printable(bytes[i]) ==> (#[trigger] s.write_bytes(
                bytes,
            ).cell(s.row as int, s.column + i)).ascii_char == bytes[i],
        forall|r: int, c: int|
            0 <= r < BUFFER_HEIGHT && 0 <= c < BUFFER_WIDTH && !(r == s.row && s.column <= c
                < s.column + bytes.len()) ==> #[trigger] s.write_bytes(bytes).cell(r, c)
                == s.cell(r, c),
{
    if bytes.len() > 0 {
        settled_is_on_grid(s);
        text_on_settled_row(s, bytes);
    }
}

/// Text of exactly one row's width, without a newline, written from a cursor
/// that is not in column 0, wraps exactly once: the bytes that fit fill the
/// starting row up to the right edge, the first byte that does not fit is
/// drawn in column 0 of the next row, and the cursor ends on that row in the
/// column it started in. From column 1 it is the last byte that wraps, and
/// the cursor ends in column 1.
pub proof fn full_width_text_wraps_once(s: Screen, bytes: Seq<u8>)
    requires
        s.wf(),
        no_newline(bytes),
        bytes.len() == BUFFER_WIDTH,
        1 <= s.column,
        s.row + 1 < BUFFER_HEIGHT,
    ensures
        s.write_bytes(bytes.take(BUFFER_WIDTH - s.column)).row == s.row,
        s.write_bytes(bytes.take(BUFFER_WIDTH - s.column)).column == BUFFER_WIDTH,
        s.write_bytes(bytes.take(BUFFER_WIDTH - s.column + 1)).row == s.row + 1,
        s.write_bytes(bytes.take(BUFFER_WIDTH - s.column + 1)).column == 1,
        s.write_bytes(bytes).row == s.row + 1,
        s.write_bytes(bytes).column == s.column,
        forall|i: int|
            0 <= i < BUFFER_WIDTH - s.column ==> #[trigger] s.write_bytes(bytes).cell(
                s.row as int,
                s.column + i,
            ) == drawn_cell(bytes[i], s.color_code),
        forall|i: int|
            BUFFER_WIDTH - s.column <= i < BUFFER_WIDTH ==> #[trigger] s.write_bytes(bytes).cell(
                (s.row + 1) as int,
                i - (BUFFER_WIDTH - s.column),
            ) == drawn_cell(bytes[i], s.color_code),
        forall|r: int, c: int|
            0 <= r < BUFFER_HEIGHT && 0 <= c < BUFFER_WIDTH && !(r == s.row && s.column <= c)
                && !(r == s.row + 1 && c < s.column) ==> #[trigger] s.write_bytes(bytes).cell(r, c)
                == s.cell(r, c),
{
    let fit = BUFFER_WIDTH - s.column;
    let head = bytes.take(fit);
    let tail = bytes.skip(fit);
    assert(bytes =~= head + tail);
    write_bytes_concat(s, head, tail);
    text_that_fits_stays_on_its_row(s, head);
    write_bytes_keeps_wf_and_attribute(s, head);
    let mid = s.write_bytes(head);
    assert(mid.cells =~~= s.with_text(head).cells) by {
        if fit == 0 {
            assert(s.cells[s.row as int] =~= drawn_row(
                s.cells[s.row as int],
                s.column as int,
                head,
                s.color_code,
            ));
        }
    }
    settled_is_on_grid(mid);
    text_on_settled_row(mid, tail);
    // the first byte that does not fit, taken alone
    assert(bytes.take(fit + 1) =~= head + tail.take(1));
    write_bytes_concat(s, head, tail.take(1));
    text_on_settled_row(mid, tail.take(1));
}

/// Text of any length without a newline keeps wrapping and scrolling: after
/// `n >= 1` bytes from column `c` the cursor stands behind the last glyph, in
/// column `(c + n - 1) % BUFFER_WIDTH + 1`, and `(c + n - 1) / BUFFER_WIDTH`
/// rows further down, or on the last row if the grid has fewer rows left.
pub proof fn cursor_after_text(s: Screen, bytes: Seq<u8>)
    requires
        s.wf(),
        no_newline(bytes),
        bytes.len() >= 1,
    ensures
        s.write_bytes(bytes).column == (s.column + bytes.len() - 1) % (BUFFER_WIDTH as int) + 1,
        s.write_bytes(bytes).row == if s.row + (s.column + bytes.len() - 1) / (BUFFER_WIDTH as int)
            < BUFFER_HEIGHT {
            s.row + (s.column + bytes.len() - 1) / (BUFFER_WIDTH as int)
        } else {
            BUFFER_HEIGHT - 1
        },
    decreases bytes.len(),
{
    assert(bytes.last() != NEWLINE);
    if bytes.len() > 1 {
        cursor_after_text(s, bytes.drop_last());
        // the last byte wraps exactly when the one before it reached the edge
        let reach = s.column + bytes.len() - 1;
        assert(reach % 80 == 0 <==> (reach - 1) % 80 == 79);
        assert(reach / 80 == (reach - 1) / 80 + if reach % 80 == 0 { 1int } else { 0int });
    }
}

/// A line printed from column 0 of a row of the grid is drawn on that row,
/// and the cursor goes to column 0 of the row below.
pub proof fn line_fills_its_row(s: Screen, line: Seq<u8>)
    requires
        s.wf(),
        s.column == 0,
        s.row < BUFFER_HEIGHT,
        no_newline(line),
        line.len() <= BUFFER_WIDTH,
    ensures
        s.print_line(line) == (Screen {
            column: 0,
            row: s.row + 1,
            cells: s.cells.update(
                s.row as int,
                drawn_row(s.cells[s.row as int], 0, line, s.color_code),
            ),
            ..s
        }),
{
    let row = s.cells[s.row as int];
    if line.len() == 0 {
        assert(row =~= drawn_row(row, 0, line, s.color_code));
        assert(s.cells =~= s.cells.update(s.row as int, row));
    } else {
        text_that_fits_stays_on_its_row(s, line);
    }
}

/// A line of at least one byte, printed when the grid is full and the
/// cursor waits below the last row, scrolls the grid once: the top row is
/// gone, every other row has moved up by one, and the line is drawn over the
/// last row, which otherwise keeps what it held.
pub proof fn line_on_full_grid_scrolls(s: Screen, line: Seq<u8>)
    requires
        s.wf(),
        s.column == 0,
        s.row == BUFFER_HEIGHT,
        no_newline(line),
        1 <= line.len() <= BUFFER_WIDTH,
    ensures
        s.print_line(line).column == 0,
        s.print_line(line).row == BUFFER_HEIGHT,
        s.print_line(line).color_code == s.color_code,
        s.print_line(line).wf(),
        forall|r: int|
            0 <= r < BUFFER_HEIGHT - 1 ==> #[trigger] s.print_line(line).cells[r]
                == s.cells[r + 1],
        s.print_line(line).cells[BUFFER_HEIGHT - 1] == drawn_row(
            s.cells[BUFFER_HEIGHT - 1],
            0,
            line,
            s.color_code,
        ),
{
    settled_is_on_grid(s);
    text_on_settled_row(s, line);
    write_bytes_keeps_wf_and_attribute(s, line);
}

/// Lines that fit still fit when the last of them is left out.
proof fn lines_fit_without_last(lines: Seq<Seq<u8>>)
    requires
        lines_fit(lines),
        lines.len() > 0,
    ensures
        lines_fit(lines.drop_last()),
{
    let init = lines.drop_last();
    assert forall|i: int| 0 <= i < init.len() implies no_newline(#[trigger] init[i])
        && init[i].len() <= BUFFER_WIDTH by {
        assert(init[i] == lines[i]);
    }
}

/// Lines printed from the top left corner, no more of them than the grid
/// has rows, fill the rows from the top, one line each; the rows below keep
/// what they held, and the cursor waits in column 0 below the last line.
pub proof fn lines_fill_rows_from_top(s: Screen, lines: Seq<Seq<u8>>)
    requires
        s.wf(),
        s.column == 0,
        s.row == 0,
        lines.len() <= BUFFER_HEIGHT,
        lines_fit(lines),
    ensures
        s.print_lines(lines).wf(),
        s.print_lines(lines).column == 0,
        s.print_lines(lines).row == lines.len(),
        s.print_lines(lines).color_code == s.color_code,
        forall|r: int|
            0 <= r < lines.len() ==> #[trigger] s.print_lines(lines).cells[r] == drawn_row(
                s.cells[r],
                0,
                lines[r],
                s.color_code,
            ),
        forall|r: int|
            lines.len() <= r < BUFFER_HEIGHT ==> #[trigger] s.print_lines(lines).cells[r]
                == s.cells[r],
    decreases lines.len(),
{
    if lines.len() > 0 {
        let init = lines.drop_last();
        lines_fit_without_last(lines);
        lines_fill_rows_from_top(s, init);
        line_fills_its_row(s.print_lines(init), lines.last());
    }
}

/// One line more than the grid has rows, printed from the top left corner,
/// scrolls the grid exactly once: the grid then holds the last
/// `BUFFER_HEIGHT` lines, one to a row and in order, and neither the first
/// line nor what the top row held before is anywhere on it. The last row
/// shows the last line drawn over the line before it.
pub proof fn one_line_too_many_evicts_the_first(s: Screen, lines: Seq<Seq<u8>>)
    requires
        s.wf(),
        s.column == 0,
        s.row == 0,
        lines.len() == BUFFER_HEIGHT + 1,
        lines_fit(lines),
        lines.last().len() >= 1,
    ensures
        s.print_lines(lines).column == 0,
        s.print_lines(lines).row == BUFFER_HEIGHT,
        forall|r: int|
            0 <= r < BUFFER_HEIGHT - 1 ==> #[trigger] s.print_lines(lines).cells[r] == drawn_row(
                s.cells[r + 1],
                0,
                lines[r + 1],
                s.color_code,
            ),
        s.print_lines(lines).cells[BUFFER_HEIGHT - 1] == drawn_row(
            drawn_row(s.cells[BUFFER_HEIGHT - 1], 0, lines[BUFFER_HEIGHT - 1], s.color_code),
            0,
            lines[BUFFER_HEIGHT as int],
            s.color_code,
        ),
{
    let init = lines.drop_last();
    lines_fit_without_last(lines);
    lines_fill_rows_from_top(s, init);
    line_on_full_grid_scrolls(s.print_lines(init), lines.last());
    assert forall|r: int| 0 <= r < BUFFER_HEIGHT - 1 implies #[trigger] s.print_lines(
        lines,
    ).cells[r] == drawn_row(s.cells[r + 1], 0, lines[r + 1], s.color_code) by {
        assert(init[r + 1] == lines[r + 1]);
    }
}

/// The first of one line more than the grid has rows leaves no trace: two
/// such sequences of lines that differ in their first line only end in the
/// same state.
pub proof fn evicted_line_leaves_no_trace(s: Screen, lines: Seq<Seq<u8>>, other: Seq<u8>)
    requires
        s.wf(),
        s.column == 0,
        s.row == 0,
        lines.len() == BUFFER_HEIGHT + 1,
        lines_fit(lines),
        lines.last().len() >= 1,
        no_newline(other),
        other.len() <= BUFFER_WIDTH,
    ensures
        s.print_lines(lines.update(0, other)) == s.print_lines(lines),
{
    let changed = lines.update(0, other);
    assert forall|i: int| 0 <= i < changed.len() implies no_newline(#[trigger] changed[i])
        && changed[i].len() <= BUFFER_WIDTH by {
        assert(i != 0 ==> changed[i] == lines[i]);
    }
    one_line_too_many_evicts_the_first(s, lines);
    one_line_too_many_evicts_the_first(s, changed);
    print_lines_keeps_wf_and_attribute(s, lines);
    print_lines_keeps_wf_and_attribute(s, changed);
    assert(s.print_lines(changed).cells =~= s.print_lines(lines).cells);
}

/// Printing lines keeps the console well-formed and never changes its
/// attribute.
pub proof fn print_lines_keeps_wf_and_attribute(s: Screen, lines: Seq<Seq<u8>>)
    requires
        s.wf(),
    ensures
        s.print_lines(lines).wf(),
        s.print_lines(lines).color_code == s.color_code,
    decreases lines.len(),
{
    if lines.len() > 0 {
        print_lines_keeps_wf_and_attribute(s, lines.drop_last());
        write_bytes_keeps_wf_and_attribute(s.print_lines(lines.drop_last()), lines.last());
    }
}

/// A cell that was written reads back as the value written, whatever the
/// slot held before; every other cell reads back as before; and of two
/// writes to one slot only the second shows.
pub proof fn written_cell_reads_back(
    cells: Seq<Seq<ScreenChar>>,
    row: int,
    col: int,
    first: ScreenChar,
    second: ScreenChar,
)
    requires
        0 <= row < cells.len(),
        0 <= col < cells[row].len(),
    ensures
        with_cell(cells, row, col, first)[row][col] == first,
        forall|r: int, c: int|
            0 <= r < cells.len() && 0 <= c < cells[r].len() && !(r == row && c == col)
                ==> #[trigger] with_cell(cells, row, col, first)[r][c] == cells[r][c],
        with_cell(with_cell(cells, row, col, first), row, col, second) == with_cell(
            cells,
            row,
            col,
            second,
        ),
{
    assert(with_cell(with_cell(cells, row, col, first), row, col, second) =~~= with_cell(
        cells,
        row,
        col,
        second,
    ));
}

/// A byte that is neither printable nor the newline signal is drawn as the
/// placeholder glyph, in the very cell in which a printable byte written in
/// its place would stand, and moves the cursor as that byte would: the two
/// states differ in that one character and in nothing else.
pub proof fn unprintable_byte_draws_placeholder(s: Screen, byte: u8, printable: u8)
    requires
        s.wf(),
        byte != NEWLINE,
        !is_printable(byte),
        is_printable(printable),
    ensures
        s.write_byte(byte).cell(s.settled().row as int, s.settled().column as int)
            == (ScreenChar { ascii_char: PLACEHOLDER, color_code: s.color_code }),
        s.write_byte(printable).cell(s.settled().row as int, s.settled().column as int)
            == (ScreenChar { ascii_char: printable, color_code: s.color_code }),
        s.write_byte(byte) == (Screen {
            cells: with_cell(
                s.write_byte(printable).cells,
                s.settled().row as int,
                s.settled().column as int,
                ScreenChar { ascii_char: PLACEHOLDER, color_code: s.color_code },
            ),
            ..s.write_byte(printable)
        }),
{
    settled_is_on_grid(s);
    let at = s.settled();
    let drawn = ScreenChar { ascii_char: PLACEHOLDER, color_code: s.color_code };
    assert(s.write_byte(byte).cells =~~= with_cell(
        s.write_byte(printable).cells,
        at.row as int,
        at.column as int,
        drawn,
    ));
}

/// Any text shows as the text of its glyphs would: replacing each byte that
/// has no printable form by the placeholder before writing changes nothing.
pub proof fn text_shows_as_its_glyphs(s: Screen, bytes: Seq<u8>)
    ensures
        s.write_bytes(bytes) == s.write_bytes(bytes.map_values(|b: u8| rendered(b))),
    decreases bytes.len(),
{
    let shown = bytes.map_values(|b: u8| rendered(b));
    if bytes.len() > 0 {
        text_shows_as_its_glyphs(s, bytes.drop_last());
        assert(shown.drop_last() =~= bytes.drop_last().map_values(|b: u8| rendered(b)));
    }
}

/// One byte of text leaves on the grid only cells that were on it before,
/// where they were or one row up, and cells that pair a glyph with the
/// console's own attribute.
proof fn byte_leaves_old_or_drawn_cells(s: Screen, byte: u8)
    requires
        s.wf(),
    ensures
        only_old_or_drawn(s.cells, s.write_byte(byte).cells, s.color_code),
{
    settled_is_on_grid(s);
    let at = s.settled();
    let t = s.write_byte(byte);
    assert forall|r: int, c: int|
        0 <= r < BUFFER_HEIGHT && 0 <= c < BUFFER_WIDTH implies holds_cell(
        s.cells,
        #[trigger] t.cells[r][c],
    ) || is_drawn_cell(t.cells[r][c], s.color_code) by {
        // the cell was drawn just now, or it stood here or one row below
        let below = if r + 1 < BUFFER_HEIGHT {
            r + 1
        } else {
            r
        };
        assert(t.cells[r][c] == s.cells[r][c] || t.cells[r][c] == s.cells[below][c] || (byte
            != NEWLINE && r == at.row && c == at.column));
    }
}

/// What is old or drawn on a grid of cells that were old or drawn is old or
/// drawn.
proof fn old_or_drawn_twice(
    first: Seq<Seq<ScreenChar>>,
    second: Seq<Seq<ScreenChar>>,
    third: Seq<Seq<ScreenChar>>,
    color_code: ColorCode,
)
    requires
        second.len() == BUFFER_HEIGHT,
        forall|r: int| 0 <= r < BUFFER_HEIGHT ==> (#[trigger] second[r]).len() == BUFFER_WIDTH,
        only_old_or_drawn(first, second, color_code),
        only_old_or_drawn(second, third, color_code),
    ensures
        only_old_or_drawn(first, third, color_code),
{
    assert forall|r: int, c: int|
        0 <= r < BUFFER_HEIGHT && 0 <= c < BUFFER_WIDTH implies holds_cell(
        first,
        #[trigger] third[r][c],
    ) || is_drawn_cell(third[r][c], color_code) by {
        let cell = third[r][c];
        if holds_cell(second, cell) {
            let (r0, c0) = choose|r0: int, c0: int|
                0 <= r0 < second.len() && 0 <= c0 < second[r0].len() && second[r0][c0] == cell;
            assert(holds_cell(first, second[r0][c0]) || is_drawn_cell(second[r0][c0], color_code));
        }
    }
}

/// A grid holds every one of its own cells.
proof fn grid_is_old(s: Screen)
    requires
        s.wf(),
    ensures
        only_old_or_drawn(s.cells, s.cells, s.color_code),
{
    assert forall|r: int, c: int|
        0 <= r < BUFFER_HEIGHT && 0 <= c < BUFFER_WIDTH implies holds_cell(
        s.cells,
        #[trigger] s.cells[r][c],
    ) by {
        // the cell's own place is where the grid holds it
        assert(s.cells[r][c] == s.cells[r][c]);
    }
}

/// Whatever text is written, every cell of the grid afterwards is either a
/// cell that the grid held before, perhaps moved up by scrolling, or a cell
/// that pairs a glyph with the console's own attribute: no write mixes a
/// character with another attribute.
pub proof fn written_cells_pair_glyph_with_own_attribute(s: Screen, bytes: Seq<u8>)
    requires
        s.wf(),
    ensures
        only_old_or_drawn(s.cells, s.write_bytes(bytes).cells, s.color_code),
    decreases bytes.len(),
{
    if bytes.len() == 0 {
        grid_is_old(s);
    } else {
        let mid = s.write_bytes(bytes.drop_last());
        written_cells_pair_glyph_with_own_attribute(s, bytes.drop_last());
        write_bytes_keeps_wf_and_attribute(s, bytes.drop_last());
        byte_leaves_old_or_drawn_cells(mid, bytes.last());
        old_or_drawn_twice(s.cells, mid.cells, s.write_bytes(bytes).cells, s.color_code);
    }
}

/// The same holds of whole lines, however many are printed and in whatever
/// order their callers came to hold the console.
pub proof fn printed_cells_pair_glyph_with_own_attribute(s: Screen, lines: Seq<Seq<u8>>)
    requires
        s.wf(),
    ensures
        only_old_or_drawn(s.cells, s.print_lines(lines).cells, s.color_code),
    decreases lines.len(),
{
    if lines.len() == 0 {
        grid_is_old(s);
    } else {
        let mid = s.print_lines(lines.drop_last());
        printed_cells_pair_glyph_with_own_attribute(s, lines.drop_last());
        print_lines_keeps_wf_and_attribute(s, lines.drop_last());
        written_cells_pair_glyph_with_own_attribute(mid, lines.last());
        old_or_drawn_twice(s.cells, mid.cells, s.print_lines(lines).cells, s.color_code);
    }
}

} // verus!
