use ferr_os::print_util::{Buffer, Color, ColorCode, ScreenChar};
use ferr_os::screen::{BUFFER_HEIGHT, BUFFER_WIDTH};
use volatile::Volatile;

fn zeroed_buffer() -> Buffer {
    Buffer { chars: core::array::from_fn(|_| core::array::from_fn(|_| Volatile::new([0, 0]))) }
}

const PALETTE: [Color; 16] = [
    Color::Black,
    Color::Blue,
    Color::Green,
    Color::Cyan,
    Color::Red,
    Color::Magenta,
    Color::Brown,
    Color::LightGray,
    Color::DarkGray,
    Color::LightBlue,
    Color::LightGreen,
    Color::LightCyan,
    Color::LightRed,
    Color::Pink,
    Color::Yellow,
    Color::White,
];

#[test]
fn colors_are_numbered_in_palette_order() {
    for (i, color) in PALETTE.iter().enumerate() {
        assert_eq!(color.code() as usize, i);
    }
}

#[test]
fn color_code_packs_foreground_low_and_background_high() {
    assert_eq!(ColorCode::new(Color::Blue, Color::Black), ColorCode(0x01));
    assert_eq!(ColorCode::new(Color::Black, Color::Blue), ColorCode(0x10));
    assert_eq!(ColorCode::new(Color::White, Color::Red), ColorCode(0x4f));
    assert_eq!(ColorCode::new(Color::Black, Color::Black), ColorCode(0x00));
    assert_eq!(ColorCode::new(Color::White, Color::White), ColorCode(0xff));
    assert_eq!(ColorCode::new(Color::Yellow, Color::LightGray), ColorCode(0x7e));
}

#[test]
fn color_code_of_every_pair_is_sixteen_times_background_plus_foreground() {
    for (b, background) in PALETTE.iter().enumerate() {
        for (f, foreground) in PALETTE.iter().enumerate() {
            let code = ColorCode::new(*foreground, *background);
            assert_eq!(code.0 as usize, 16 * b + f);
            assert_eq!((code.0 & 0x0f) as usize, f);
            assert_eq!((code.0 >> 4) as usize, b);
        }
    }
}

#[test]
fn written_cell_reads_back_as_written() {
    let mut buffer = zeroed_buffer();
    let cell = ScreenChar { ascii_char: b'Q', color_code: ColorCode(0x2a) };
    buffer.write(7, 13, cell);
    assert_eq!(buffer.read(7, 13), cell);
    assert_eq!(buffer.chars[7][13].read(), [b'Q', 0x2a]);
}

#[test]
fn second_write_to_a_slot_replaces_the_first() {
    let mut buffer = zeroed_buffer();
    let first = ScreenChar { ascii_char: b'1', color_code: ColorCode(0x0f) };
    let second = ScreenChar { ascii_char: b'2', color_code: ColorCode(0xf0) };
    buffer.write(0, 0, first);
    buffer.write(0, 0, second);
    assert_eq!(buffer.read(0, 0), second);
    buffer.write(0, 0, first);
    assert_eq!(buffer.read(0, 0), first);
}

#[test]
fn write_leaves_every_other_cell_alone() {
    let mut buffer = zeroed_buffer();
    let cell = ScreenChar { ascii_char: b'#', color_code: ColorCode(0x07) };
    buffer.write(BUFFER_HEIGHT - 1, BUFFER_WIDTH - 1, cell);
    buffer.write(12, 40, cell);
    for row in 0..BUFFER_HEIGHT {
        for col in 0..BUFFER_WIDTH {
            let expected = if (row, col) == (BUFFER_HEIGHT - 1, BUFFER_WIDTH - 1)
                || (row, col) == (12, 40)
            {
                cell
            } else {
                ScreenChar { ascii_char: 0, color_code: ColorCode(0) }
            };
            assert_eq!(buffer.read(row, col), expected);
        }
    }
}

#[test]
fn cell_is_the_character_byte_then_the_attribute_byte() {
    let mut buffer = zeroed_buffer();
    buffer.chars[3][4].write([b'k', 0x1e]);
    assert_eq!(buffer.read(3, 4), ScreenChar { ascii_char: b'k', color_code: ColorCode(0x1e) });
    assert_eq!(core::mem::size_of::<Buffer>(), 2 * BUFFER_WIDTH * BUFFER_HEIGHT);
}
