use bf_interpreter::interpreter::text::{first_byte, printable_char};

#[test]
fn bytes_below_128_are_characters() {
    assert_eq!(printable_char(0x03), Some('\u{3}'));
    assert_eq!(printable_char(b'A'), Some('A'));
    assert_eq!(printable_char(0), Some('\0'));
    assert_eq!(printable_char(0x7f), Some('\u{7f}'));
}

#[test]
fn bytes_from_128_on_are_no_characters() {
    assert_eq!(printable_char(0x80), None);
    assert_eq!(printable_char(0xC3), None);
    assert_eq!(printable_char(0xFF), None);
}

#[test]
fn printable_bytes_are_those_that_are_utf8_alone() {
    for byte in 0..=255u8 {
        let alone = String::from_utf8(vec![byte]).ok();
        assert_eq!(printable_char(byte).map(|c| c.to_string()), alone);
    }
}

#[test]
fn first_byte_of_a_line() {
    assert_eq!(first_byte("A\n"), Some(65));
    assert_eq!(first_byte("hello"), Some(104));
    assert_eq!(first_byte("\n"), Some(10));
    assert_eq!(first_byte("\u{7f}"), Some(127));
    assert_eq!(first_byte("1\u{e9}"), Some(49));
}

#[test]
fn first_byte_of_an_empty_line_is_none() {
    assert_eq!(first_byte(""), None);
}

#[test]
fn first_byte_of_a_wider_character_is_none() {
    assert_eq!(first_byte("\u{80}"), None);
    assert_eq!(first_byte("\u{e9}t\u{e9}\n"), None);
    assert_eq!(first_byte("\u{20ac}"), None);
    assert_eq!(first_byte("\u{1f600}x"), None);
}

#[test]
fn first_byte_is_the_character_that_is_one_byte_long() {
    for character in ['\0', ' ', '~', '\u{7f}', '\u{80}', '\u{ff}', '\u{7ff}', '\u{ffff}', '\u{10ffff}'] {
        let line = format!("{character}rest\n");
        let mut encoded = [0u8; 4];
        let bytes = character.encode_utf8(&mut encoded).as_bytes();
        let expected = if bytes.len() == 1 { Some(bytes[0]) } else { None };
        assert_eq!(first_byte(&line), expected);
    }
}
