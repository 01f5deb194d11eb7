use ferr_os::print_util::{kprintln, Buffer, Color, ColorCode, ScreenChar, ScreenWriter};
use ferr_os::screen::{BUFFER_HEIGHT, BUFFER_WIDTH};
use spin::Mutex;
use volatile::Volatile;

fn dotted_grid() -> &'static mut Buffer {
    Box::leak(Box::new(Buffer {
        chars: core::array::from_fn(|_| core::array::from_fn(|_| Volatile::new([b'.', 0]))),
    }))
}

fn console() -> ScreenWriter {
    ScreenWriter::new(ColorCode::new(Color::Blue, Color::Black), dotted_grid())
}

fn text_of_row(writer: &ScreenWriter, row: usize) -> String {
    (0..BUFFER_WIDTH).map(|col| writer.read_cell(row, col).ascii_char as char).collect()
}

fn dotted(text: &str) -> String {
    format!("{:.<width$}", text, width = BUFFER_WIDTH)
}

fn numbered(i: usize) -> String {
    format!("line {:02}", i)
}

#[test]
fn as_many_lines_as_rows_fill_the_grid_without_scrolling() {
    let mut writer = console();
    for i in 0..BUFFER_HEIGHT {
        writer.print_line(&numbered(i));
    }
    assert_eq!(writer.row_position(), BUFFER_HEIGHT);
    assert_eq!(writer.column_position(), 0);
    for row in 0..BUFFER_HEIGHT {
        assert_eq!(text_of_row(&writer, row), dotted(&numbered(row)));
    }
}

#[test]
fn one_line_more_than_rows_evicts_the_first_line() {
    let mut writer = console();
    for i in 0..BUFFER_HEIGHT + 1 {
        writer.print_line(&numbered(i));
    }
    assert_eq!(writer.row_position(), BUFFER_HEIGHT);
    assert_eq!(writer.column_position(), 0);
    for row in 0..BUFFER_HEIGHT {
        assert_eq!(text_of_row(&writer, row), dotted(&numbered(row + 1)));
        assert_ne!(text_of_row(&writer, row), dotted(&numbered(0)));
    }
}

#[test]
fn line_on_a_full_grid_is_drawn_over_the_stale_last_row() {
    let mut writer = console();
    for i in 0..BUFFER_HEIGHT {
        writer.print_line(&numbered(i));
    }
    writer.print_line("X");
    for row in 0..BUFFER_HEIGHT - 1 {
        assert_eq!(text_of_row(&writer, row), dotted(&numbered(row + 1)));
    }
    assert_eq!(text_of_row(&writer, BUFFER_HEIGHT - 1), dotted("Xine 24"));
    assert_eq!(
        writer.read_cell(BUFFER_HEIGHT - 1, 0),
        ScreenChar { ascii_char: b'X', color_code: ColorCode(1) }
    );
    assert_eq!(writer.row_position(), BUFFER_HEIGHT);
    assert_eq!(writer.column_position(), 0);
}

#[test]
fn scroll_waits_for_the_next_drawn_byte() {
    let mut writer = console();
    for i in 0..BUFFER_HEIGHT {
        writer.print_line(&numbered(i));
    }
    assert_eq!(text_of_row(&writer, 0), dotted("line 00"));
    writer.print_string("");
    assert_eq!(text_of_row(&writer, 0), dotted("line 00"));
    writer.write_byte(b'a');
    assert_eq!(text_of_row(&writer, 0), dotted("line 01"));
    assert_eq!(writer.row_position(), BUFFER_HEIGHT - 1);
    assert_eq!(writer.column_position(), 1);
}

#[test]
fn empty_last_line_does_not_scroll() {
    let mut writer = console();
    for i in 0..BUFFER_HEIGHT {
        writer.print_line(&numbered(i));
    }
    writer.print_line("");
    assert_eq!(writer.row_position(), BUFFER_HEIGHT);
    assert_eq!(writer.column_position(), 0);
    for row in 0..BUFFER_HEIGHT {
        assert_eq!(text_of_row(&writer, row), dotted(&numbered(row)));
    }
}

#[test]
fn newlines_below_the_last_row_scroll_only_once() {
    let mut writer = console();
    writer.print_line("top");
    writer.print_line("second");
    for _ in 0..40 {
        writer.write_byte(b'\n');
    }
    assert_eq!(writer.row_position(), BUFFER_HEIGHT);
    assert_eq!(writer.column_position(), 0);
    assert_eq!(text_of_row(&writer, 0), dotted("top"));
    writer.write_byte(b'Z');
    assert_eq!(writer.row_position(), BUFFER_HEIGHT - 1);
    assert_eq!(writer.column_position(), 1);
    assert_eq!(text_of_row(&writer, 0), dotted("second"));
    assert_eq!(text_of_row(&writer, 1), dotted(""));
    assert_eq!(text_of_row(&writer, BUFFER_HEIGHT - 1), dotted("Z"));
}

#[test]
fn wrap_on_the_last_row_scrolls() {
    let mut writer = console();
    for i in 0..BUFFER_HEIGHT - 1 {
        writer.print_line(&numbered(i));
    }
    let wide = "w".repeat(BUFFER_WIDTH);
    writer.print_string(&wide);
    assert_eq!(writer.row_position(), BUFFER_HEIGHT - 1);
    assert_eq!(writer.column_position(), BUFFER_WIDTH);
    assert_eq!(text_of_row(&writer, 0), dotted("line 00"));
    writer.write_byte(b'+');
    assert_eq!(writer.row_position(), BUFFER_HEIGHT - 1);
    assert_eq!(writer.column_position(), 1);
    assert_eq!(text_of_row(&writer, 0), dotted("line 01"));
    assert_eq!(text_of_row(&writer, BUFFER_HEIGHT - 2), wide);
    assert_eq!(text_of_row(&writer, BUFFER_HEIGHT - 1), format!("+{}", "w".repeat(79)));
}

#[test]
fn very_long_text_keeps_wrapping_and_scrolling() {
    let mut writer = console();
    let text: String = (0..5000).map(|i| (b'a' + (i % 26) as u8) as char).collect();
    writer.print_string(&text);
    // 5000 bytes are 62 full rows and 40 bytes more: the last 25 rows show.
    assert_eq!(writer.row_position(), BUFFER_HEIGHT - 1);
    assert_eq!(writer.column_position(), 40);
    for row in 0..BUFFER_HEIGHT - 1 {
        let start = (38 + row) * BUFFER_WIDTH;
        assert_eq!(text_of_row(&writer, row), &text[start..start + BUFFER_WIDTH]);
    }
    let stale = &text[61 * BUFFER_WIDTH + 40..62 * BUFFER_WIDTH];
    assert_eq!(
        text_of_row(&writer, BUFFER_HEIGHT - 1),
        format!("{}{}", &text[62 * BUFFER_WIDTH..], stale)
    );
}

#[test]
fn kprintln_prints_each_text_on_a_row_of_its_own() {
    let shared = Mutex::new(console());
    kprintln(&shared, "first");
    kprintln(&shared, "second");
    kprintln(&shared, "");
    kprintln(&shared, "fourth");
    let writer = shared.lock();
    assert_eq!(text_of_row(&writer, 0), dotted("first"));
    assert_eq!(text_of_row(&writer, 1), dotted("second"));
    assert_eq!(text_of_row(&writer, 2), dotted(""));
    assert_eq!(text_of_row(&writer, 3), dotted("fourth"));
    assert_eq!(writer.row_position(), 4);
    assert_eq!(writer.column_position(), 0);
}

#[test]
fn kprintln_releases_the_lock_when_it_returns() {
    let shared = Mutex::new(console());
    kprintln(&shared, "held only for the call");
    assert!(shared.try_lock().is_some());
    kprintln(&shared, "and again");
    let writer = shared.try_lock().expect("the lock is free");
    assert_eq!(writer.row_position(), 2);
}

#[test]
fn kprintln_scrolls_the_shared_console() {
    let shared = Mutex::new(console());
    for i in 0..BUFFER_HEIGHT + 1 {
        kprintln(&shared, &numbered(i));
    }
    let writer = shared.lock();
    for row in 0..BUFFER_HEIGHT {
        assert_eq!(text_of_row(&writer, row), dotted(&numbered(row + 1)));
    }
}

#[test]
fn kprintln_on_a_full_grid_discards_the_top_row() {
    let shared = Mutex::new(console());
    for i in 0..BUFFER_HEIGHT {
        kprintln(&shared, &"#".repeat(i + 1));
    }
    kprintln(&shared, "X");
    let writer = shared.lock();
    for row in 0..BUFFER_HEIGHT - 1 {
        assert_eq!(text_of_row(&writer, row), dotted(&"#".repeat(row + 2)));
    }
    assert_eq!(
        text_of_row(&writer, BUFFER_HEIGHT - 1),
        dotted(&format!("X{}", "#".repeat(BUFFER_HEIGHT - 1)))
    );
}
