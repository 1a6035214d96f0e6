use memscan::dump::{
    ascii_column_text, classify, delivered, failure_line, hex_cell_text, hex_column_text, is_all_zero, render,
    ByteClass, DumpConfig, Outcome, ReadWindow, WINDOW,
};
use memscan::hex::{address_field, hex_digit};
use memscan::style::{paint, style_for, Style};

const ZERO_LINE: &str = "00001000 | 00 00 00 00 00 00 00 00 00 00 00 00 00 00 00 00 ";

fn window(address: usize, bytes: [u8; 16]) -> ReadWindow {
    ReadWindow { address, bytes, outcome: Outcome::Success }
}

fn sample() -> [u8; 16] {
    [0x00, 0x41, 0x00, 0xFF, 0, 0, 0, 0, 0, 0, 0, 0, 0, 0, 0, 0]
}

#[test]
fn window_is_sixteen_bytes() {
    assert_eq!(WINDOW, 16);
}

#[test]
fn hex_digits_are_lowercase() {
    let digits: Vec<char> = (0u8..16).map(hex_digit).collect();
    let text: String = digits.into_iter().collect();
    assert_eq!(text, "0123456789abcdef");
}

#[test]
fn every_byte_renders_as_two_lowercase_digits() {
    for b in 0u8..=255 {
        assert_eq!(hex_cell_text(b), format!("{:02x} ", b));
    }
}

#[test]
fn address_is_padded_to_eight_digits() {
    assert_eq!(address_field(0), "00000000");
    assert_eq!(address_field(0x1000), "00001000");
    assert_eq!(address_field(0xdeadbeef), "deadbeef");
    assert_eq!(address_field(0x0fffffff), "0fffffff");
}

#[test]
fn address_longer_than_eight_digits() {
    assert_eq!(address_field(0x55d0c1b3a000), "55d0c1b3a000");
    assert_eq!(address_field(0x100000000), "100000000");
    assert_eq!(address_field(usize::MAX), format!("{:08x}", usize::MAX));
}

#[test]
fn styles_divide_the_byte_values() {
    assert_eq!(style_for(0x00), Style::Neutral);
    assert_eq!(style_for(0x01), Style::Strong);
    assert_eq!(style_for(0x41), Style::Strong);
    assert_eq!(style_for(0x7f), Style::Strong);
    assert_eq!(style_for(0x80), Style::Secondary);
    assert_eq!(style_for(0xff), Style::Secondary);
    for b in 0u8..=255 {
        let expected = if b == 0 {
            Style::Neutral
        } else if b < 0x80 {
            Style::Strong
        } else {
            Style::Secondary
        };
        assert_eq!(style_for(b), expected);
    }
}

#[test]
fn classes_of_bytes() {
    assert_eq!(classify(0x00), ByteClass::Zero);
    assert_eq!(classify(0x01), ByteClass::Other);
    assert_eq!(classify(0x1f), ByteClass::Other);
    assert_eq!(classify(0x20), ByteClass::PrintableAscii);
    assert_eq!(classify(0x7e), ByteClass::PrintableAscii);
    assert_eq!(classify(0x7f), ByteClass::Other);
    assert_eq!(classify(0xff), ByteClass::Other);
}

#[test]
fn neutral_text_is_never_coloured() {
    colored::control::set_override(true);
    assert_eq!(paint("00 ", Style::Neutral), "00 ");
}

#[test]
fn strong_text_is_black_on_green() {
    colored::control::set_override(true);
    assert_eq!(paint("41 ", Style::Strong), "\x1b[42;30m41 \x1b[0m");
}

#[test]
fn secondary_text_is_yellow() {
    colored::control::set_override(true);
    assert_eq!(paint("ff ", Style::Secondary), "\x1b[33mff \x1b[0m");
}

#[test]
fn hex_column_with_colour() {
    colored::control::set_override(true);
    assert_eq!(
        hex_column_text(&[0x00, 0x41, 0xff]),
        "00 \x1b[42;30m41 \x1b[0m\x1b[33mff \x1b[0m"
    );
    assert_eq!(hex_column_text(&[]), "");
}

#[test]
fn ascii_column_skips_zero_bytes() {
    assert_eq!(ascii_column_text(&sample()), "A.");
}

#[test]
fn ascii_column_has_one_character_per_nonzero_byte() {
    let bytes = [0x00, 0x20, 0x7e, 0x7f, 0x1f, 0x00, 0x80, b'z', 0x00];
    let column = ascii_column_text(&bytes);
    assert_eq!(column, " ~...z");
    assert_eq!(column.chars().count(), bytes.iter().filter(|b| **b != 0).count());
    assert_eq!(ascii_column_text(&[0, 0, 0]), "");
    assert_eq!(ascii_column_text(&[]), "");
}

#[test]
fn all_zero_test() {
    assert!(is_all_zero(&[0; 16]));
    assert!(is_all_zero(&[]));
    assert!(!is_all_zero(&sample()));
    assert!(!is_all_zero(&[0, 0, 0, 0, 0, 0, 0, 0, 0, 0, 0, 0, 0, 0, 0, 1]));
}

#[test]
fn window_with_ascii_column() {
    colored::control::set_override(true);
    let config = DumpConfig { show_ascii: true, hide_zero_lines: false };
    let line = render(&window(0x1000, sample()), &config);
    let expected = format!(
        "00001000 | 00 \x1b[42;30m41 \x1b[0m00 \x1b[33mff \x1b[0m{} | A.",
        "00 ".repeat(12)
    );
    assert_eq!(line, Some(expected));
}

#[test]
fn window_without_ascii_column() {
    colored::control::set_override(true);
    let config = DumpConfig { show_ascii: false, hide_zero_lines: true };
    let line = render(&window(0x1000, sample()), &config);
    let expected = format!(
        "00001000 | 00 \x1b[42;30m41 \x1b[0m00 \x1b[33mff \x1b[0m{}",
        "00 ".repeat(12)
    );
    assert_eq!(line, Some(expected));
}

#[test]
fn zero_window_is_shown_when_not_hidden() {
    let config = DumpConfig { show_ascii: false, hide_zero_lines: false };
    assert_eq!(render(&window(0x1000, [0; 16]), &config), Some(ZERO_LINE.to_string()));
}

#[test]
fn zero_window_with_empty_ascii_column() {
    let config = DumpConfig { show_ascii: true, hide_zero_lines: false };
    assert_eq!(render(&window(0x1000, [0; 16]), &config), Some(format!("{} | ", ZERO_LINE)));
}

#[test]
fn zero_window_is_hidden_on_request() {
    let config = DumpConfig { show_ascii: false, hide_zero_lines: true };
    assert_eq!(render(&window(0x1000, [0; 16]), &config), None);
    let with_ascii = DumpConfig { show_ascii: true, hide_zero_lines: true };
    assert_eq!(render(&window(0x1000, [0; 16]), &with_ascii), None);
}

#[test]
fn nonzero_window_is_never_hidden() {
    colored::control::set_override(true);
    let config = DumpConfig { show_ascii: false, hide_zero_lines: true };
    let mut bytes = [0u8; 16];
    bytes[15] = 1;
    assert!(render(&window(0x2000, bytes), &config).is_some());
}

#[test]
fn failed_window_gives_the_failure_line() {
    let failed = ReadWindow { address: 0x1000, bytes: [0; 16], outcome: Outcome::Failure };
    let hidden = DumpConfig { show_ascii: true, hide_zero_lines: true };
    assert_eq!(render(&failed, &hidden), Some("ERROR: Could not read data".to_string()));
    let shown = DumpConfig { show_ascii: false, hide_zero_lines: false };
    assert_eq!(render(&failed, &shown), Some("ERROR: Could not read data".to_string()));
    assert_eq!(failure_line(), "ERROR: Could not read data");
}

#[test]
fn only_a_whole_window_is_delivered() {
    assert!(delivered(16));
    assert!(!delivered(-1));
    assert!(!delivered(0));
    assert!(!delivered(8));
    assert!(!delivered(15));
    assert!(!delivered(17));
    assert!(!delivered(isize::MAX));
    assert!(!delivered(isize::MIN));
}
