use quartz_proxy::arguments::unquote;
use quartz_proxy::arguments::Arguments;
use quartz_proxy::console::trim;
use quartz_proxy::message::Color;
use quartz_proxy::message::Message;
use quartz_proxy::number::decimal_text;
use quartz_proxy::number::digits_text;
use quartz_proxy::number::padded_hex_text;
use quartz_proxy::number::parse_number;
use quartz_proxy::number::NumberError;
use quartz_proxy::order::text_precedes;
use quartz_proxy::text::find_char;
use quartz_proxy::text::join_text;
use quartz_proxy::text::same_text;
use quartz_proxy::text::slice_text;
use quartz_proxy::text::split_text;
use quartz_proxy::text::starts_with;
use quartz_proxy::text::to_chars;
use quartz_proxy::text::to_lowercase;
use quartz_proxy::util::debug_buffer;

const TEXTS: [&str; 14] = [
    "",
    " ",
    "a",
    "A",
    "abc",
    "abd",
    "ab",
    "Hello, World",
    "\u{c4}rger",
    "\u{10000}",
    "\u{ffff}",
    " x ",
    "\t\u{2003}x\u{3000}\n",
    "\u{200b}x\u{180e}",
];

#[test]
fn characters_and_slices() {
    let chars = to_chars("h\u{e9}llo");
    assert_eq!(chars, vec!['h', '\u{e9}', 'l', 'l', 'o']);
    assert_eq!(slice_text(&chars, 1, 4), "\u{e9}ll");
    assert_eq!(slice_text(&chars, 2, 2), "");
    assert_eq!(find_char(&chars, 0, 'l'), 2);
    assert_eq!(find_char(&chars, 3, 'l'), 3);
    assert_eq!(find_char(&chars, 0, 'z'), 5);
}

#[test]
fn texts_compare_like_std() {
    for left in TEXTS {
        for right in TEXTS {
            assert_eq!(same_text(left, right), left == right);
            assert_eq!(starts_with(left, right), left.starts_with(right));
            assert_eq!(text_precedes(left, right), left < right);
        }
    }
}

#[test]
fn lowercase_is_ascii_only() {
    for text in TEXTS {
        assert_eq!(to_lowercase(text), text.to_ascii_lowercase());
    }
    assert_eq!(to_lowercase("KeepAlive"), "keepalive");
    assert_eq!(to_lowercase("\u{c4}Z[@`"), "\u{c4}z[@`");
}

#[test]
fn trimming_is_that_of_std() {
    for text in TEXTS {
        assert_eq!(trim(text), text.trim());
    }
    for code in 0..0x3100u32 {
        if let Some(ch) = char::from_u32(code) {
            let text = format!("{}x{}", ch, ch);
            assert_eq!(trim(&text), text.trim());
        }
    }
}

#[test]
fn splitting_and_joining() {
    for text in ["", " ", "a", "a b", " a  b ", "a,b c"] {
        let parts = split_text(text, ' ');
        let expected: Vec<String> = text.split(' ').map(|part| part.to_owned()).collect();
        assert_eq!(parts, expected);
        assert_eq!(join_text(&parts, " "), text);
    }
    let parts = vec!["a".to_owned(), "b".to_owned(), "c".to_owned()];
    assert_eq!(join_text(&parts, ", "), "a, b, c");
    assert_eq!(join_text(&Vec::new(), ", "), "");
}

#[test]
fn numbers_are_written_like_std_writes_them() {
    for value in [0u64, 1, 9, 10, 15, 16, 255, 256, 65535, 1 << 40, u64::MAX] {
        assert_eq!(digits_text(value, 10), value.to_string());
        assert_eq!(digits_text(value, 16), format!("{:X}", value));
        assert_eq!(digits_text(value, 2), format!("{:b}", value));
        assert_eq!(padded_hex_text(value), format!("{:02X}", value));
    }
    for value in [0i64, 1, -1, 901, -2147483648, i64::MAX, i64::MIN] {
        assert_eq!(decimal_text(value), value.to_string());
    }
}

#[test]
fn numbers_are_read_like_std_reads_them() {
    let texts = [
        "", "+", "-", "0", "00", "7", "+7", "++7", "-7", "2A", "2a", "FF", "ff", "100", "1FF", "FFG",
        "G", " 1", "1 ", "0x1", "+FF", "FFFFFFFF", "100000000", "FFFFFFFFF", "\u{ff11}", "1_0", "GFFF",
        "FFFFG", "00000000000000000001",
    ];
    for text in texts {
        match (parse_number(text, 16, 255), u8::from_str_radix(text, 16)) {
            (Ok(value), Ok(expected)) => assert_eq!(value, expected as u64),
            (Err(error), Err(expected)) => assert_eq!(error.text(), expected.to_string()),
            (ours, theirs) => panic!("{:?} and {:?} for {:?}", ours, theirs, text),
        }
        match (parse_number(text, 16, u32::MAX as u64), u32::from_str_radix(text, 16)) {
            (Ok(value), Ok(expected)) => assert_eq!(value, expected as u64),
            (Err(error), Err(expected)) => assert_eq!(error.text(), expected.to_string()),
            (ours, theirs) => panic!("{:?} and {:?} for {:?}", ours, theirs, text),
        }
    }
}

#[test]
fn each_number_error() {
    assert_eq!(parse_number("", 16, 255), Err(NumberError::Empty));
    assert_eq!(parse_number("0g", 16, 255), Err(NumberError::InvalidDigit));
    assert_eq!(parse_number("100", 16, 255), Err(NumberError::TooLarge));
    assert_eq!(parse_number("18446744073709551615", 10, u64::MAX), Ok(u64::MAX));
    assert_eq!(
        parse_number("18446744073709551616", 10, u64::MAX),
        Err(NumberError::TooLarge)
    );
    assert_eq!(parse_number("8", 8, 255), Err(NumberError::InvalidDigit));
}

#[test]
fn numbers_read_back() {
    for value in [0u64, 1, 15, 16, 255, 4096] {
        assert_eq!(parse_number(&padded_hex_text(value), 16, 4096), Ok(value));
        assert_eq!(parse_number(&digits_text(value, 10), 10, 4096), Ok(value));
    }
}

#[test]
fn short_buffers_are_shown_whole() {
    assert_eq!(debug_buffer(&[], 10), "[]");
    assert_eq!(debug_buffer(&[0x05], 10), "[05]");
    let bytes: Vec<u8> = (0..64).collect();
    assert_eq!(debug_buffer(&bytes, 64), format!("{:02X?}", bytes));
    assert_eq!(debug_buffer(&bytes, usize::MAX), format!("{:02X?}", bytes));
}

#[test]
fn long_buffers_are_cut() {
    let bytes: Vec<u8> = (0..11).collect();
    assert_eq!(debug_buffer(&bytes, 10), "[00, 01, 02 ... 08, 09, 0A]");
    let bytes: Vec<u8> = (0..=255).collect();
    assert_eq!(debug_buffer(&bytes, 12), "[00, 01, 02, 03 ... FC, FD, FE, FF]");
    assert_eq!(debug_buffer(&bytes, 0), "[ ... ]");
    assert_eq!(debug_buffer(&bytes, 3), "[00 ... FF]");
}

#[test]
fn arguments_are_taken_one_by_one() {
    let mut arguments = Arguments::new("  filter allow \"Keep Alive\"  x");
    assert_eq!(arguments.next(), Some("filter".to_owned()));
    assert_eq!(arguments.next(), Some("allow".to_owned()));
    assert_eq!(arguments.next(), Some("\"Keep Alive\"".to_owned()));
    assert_eq!(arguments.next(), Some("x".to_owned()));
    assert_eq!(arguments.next(), None);
    assert_eq!(arguments.next(), None);
}

#[test]
fn quotes_and_backslashes_in_arguments() {
    let mut arguments = Arguments::new("'a \" b' c\\' d\\\"e f");
    assert_eq!(arguments.next(), Some("'a \" b'".to_owned()));
    assert_eq!(arguments.next(), Some("c\\'".to_owned()));
    assert_eq!(arguments.next(), Some("d\\\"e".to_owned()));
    assert_eq!(arguments.next(), Some("f".to_owned()));
    assert_eq!(arguments.next(), None);
    let mut open = Arguments::new("\"never closed");
    assert_eq!(open.next(), Some("\"never closed".to_owned()));
    assert_eq!(open.next(), None);
}

#[test]
fn spaces_at_the_end_are_an_empty_argument() {
    let mut arguments = Arguments::new("filter ");
    assert_eq!(arguments.next(), Some("filter".to_owned()));
    assert_eq!(arguments.next(), Some("".to_owned()));
    assert_eq!(arguments.next(), None);
    let mut none = Arguments::new("   ");
    assert_eq!(none.next(), None);
}

#[test]
fn the_rest_of_a_line_is_taken_from_the_last_argument_on() {
    let mut arguments = Arguments::new("varint 85  07 00 ");
    arguments.next();
    arguments.next();
    assert_eq!(arguments.gobble_remaining(), "85  07 00 ");
    assert_eq!(arguments.next(), None);
}

#[test]
fn quotes_around_an_argument_are_removed() {
    assert_eq!(unquote("\"Keep Alive\""), "Keep Alive");
    assert_eq!(unquote("'x'"), "x");
    assert_eq!(unquote("''"), "");
    assert_eq!(unquote("\""), "\"");
    assert_eq!(unquote("\"x'"), "\"x'");
    assert_eq!(unquote("plain"), "plain");
}

#[test]
fn messages_keep_their_colours() {
    let message = Message::empty()
        .add_text(Color::Gold, "a")
        .add_text(Color::White, "b");
    assert_eq!(message.spans.len(), 2);
    assert_eq!(message.spans[0].color, Color::Gold);
    assert_eq!(message.spans[0].text, "a");
    assert_eq!(message.spans[1].color, Color::White);
    assert_eq!(message.spans[1].text, "b");
}
