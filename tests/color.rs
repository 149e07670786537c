use vga_text::color::{ConsoleColor, VgaTextColor, VgaTextColorCode};

const ALL: [ConsoleColor; 16] = [
    ConsoleColor::Black,
    ConsoleColor::Red,
    ConsoleColor::Green,
    ConsoleColor::Yellow,
    ConsoleColor::Blue,
    ConsoleColor::Magenta,
    ConsoleColor::Cyan,
    ConsoleColor::White,
    ConsoleColor::BrightBlack,
    ConsoleColor::BrightRed,
    ConsoleColor::BrightGreen,
    ConsoleColor::BrightYellow,
    ConsoleColor::BrightBlue,
    ConsoleColor::BrightMagenta,
    ConsoleColor::BrightCyan,
    ConsoleColor::BrightWhite,
];

#[test]
fn pack_on_black_is_stable() {
    let expected: [u8; 16] = [0, 4, 2, 6, 1, 5, 3, 7, 7, 12, 10, 14, 9, 13, 11, 15];
    for (i, c) in ALL.iter().enumerate() {
        let a = VgaTextColorCode::new(VgaTextColor::from_console_color(*c), VgaTextColor::Black);
        let b = VgaTextColorCode::new(VgaTextColor::from_console_color(*c), VgaTextColor::Black);
        assert_eq!(a, b);
        assert_eq!(a.value(), expected[i]);
    }
}

#[test]
fn yellow_is_shown_brown() {
    assert_eq!(VgaTextColor::from_console_color(ConsoleColor::Yellow), VgaTextColor::Brown);
    assert_eq!(VgaTextColor::Brown.index(), 6);
}

#[test]
fn pack_puts_background_in_high_nibble() {
    let c = VgaTextColorCode::new(VgaTextColor::White, VgaTextColor::Blue);
    assert_eq!(c.value(), 0x1f);
    let d = VgaTextColorCode::new(VgaTextColor::Black, VgaTextColor::White);
    assert_eq!(d.value(), 0xf0);
}

#[test]
fn ansi_codes_round_trip() {
    for c in ALL.iter() {
        assert_eq!(ConsoleColor::from_ansi(c.ansi()), Some(*c));
    }
    assert_eq!(ConsoleColor::from_ansi(92), Some(ConsoleColor::BrightGreen));
    assert_eq!(ConsoleColor::from_ansi(30), Some(ConsoleColor::Black));
    assert_eq!(ConsoleColor::from_ansi(97), Some(ConsoleColor::BrightWhite));
}

#[test]
fn codes_outside_the_table_select_nothing() {
    for v in [0u8, 29, 38, 39, 89, 98, 255] {
        assert_eq!(ConsoleColor::from_ansi(v), None);
    }
}
