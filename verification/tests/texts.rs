//! Text and number helpers, held against the standard library.

use tuxedo_control::number::{
    decimal, decimal_count, parse_hex, parse_i32, push_dec, push_hex, push_hex_byte, push_right3,
};
use tuxedo_control::text::{
    ascii_lower, chars_of, rest_of, same, split_words, text_of, trim, white,
};

const LINES: [&str; 12] = [
    "",
    " ",
    "STATUS",
    "STATUS\n",
    "  STATUS  ",
    "ACTIVATE Max Energy Save\n",
    "ACTIVATE\tOffice  \r\n",
    " ACTIVATE Office",
    "a\u{a0}b\u{2003}c\u{3000}",
    "\u{200b}x\u{feff} y",
    "FANMANUAL   50   60",
    "DELPROFILE Größe 1",
];

const NUMBERS: [i32; 14] = [
    0,
    1,
    -1,
    7,
    9,
    10,
    15,
    16,
    99,
    100,
    255,
    -255,
    i32::MAX,
    i32::MIN,
];

#[test]
fn whitespace_is_that_of_unicode() {
    for u in 0..=0x10ffffu32 {
        if let Some(c) = char::from_u32(u) {
            assert_eq!(white(c), c.is_whitespace(), "U+{u:04X}");
        }
    }
}

#[test]
fn trimming_and_splitting() {
    for s in LINES {
        assert_eq!(trim(s), s.trim(), "{s:?}");
        let words: Vec<&str> = s.split_whitespace().collect();
        assert_eq!(split_words(s), words, "{s:?}");
        let rest = s
            .split_once(char::is_whitespace)
            .map(|(_, r)| r.trim())
            .unwrap_or("");
        assert_eq!(rest_of(s), rest, "{s:?}");
    }
}

#[test]
fn characters_and_back() {
    for s in LINES {
        let v = chars_of(s);
        assert_eq!(v, s.chars().collect::<Vec<char>>());
        assert_eq!(text_of(&v, 0, v.len()), s);
    }
    let v = chars_of("fan ±5%");
    assert_eq!(text_of(&v, 4, 6), "±5");
    assert_eq!(text_of(&v, 3, 3), "");
}

#[test]
fn lower_case_is_ascii_only() {
    assert_eq!(ascii_lower("Power_SAVE"), "power_save");
    assert_eq!(ascii_lower("ÄZ[@`{"), "Äz[@`{");
}

#[test]
fn equal_texts() {
    assert!(same("Quiet", "Quiet"));
    assert!(!same("Quiet", "quiet"));
    assert!(!same("Quiet", "Quiet "));
    assert!(same("", ""));
}

#[test]
fn numbers_as_text() {
    for v in NUMBERS {
        assert_eq!(decimal(v), format!("{v}"));
        let mut s = "x".to_string();
        push_dec(&mut s, v);
        assert_eq!(s, format!("x{v}"));
        let mut s = "x".to_string();
        push_right3(&mut s, v);
        assert_eq!(s, format!("x{v:>3}"));
        let mut s = "x".to_string();
        push_hex(&mut s, v);
        assert_eq!(s, format!("x{v:#x}"));
        let mut s = "x".to_string();
        push_hex_byte(&mut s, v);
        assert_eq!(s, format!("x{v:#04x}"));
    }
    assert_eq!(decimal_count(0), "0");
    assert_eq!(decimal_count(usize::MAX), format!("{}", usize::MAX));
}

#[test]
fn text_as_numbers() {
    let texts = [
        "", "+", "-", "0", "-0", "+7", "007", "12a", " 1", "1 ", "2147483647", "2147483648",
        "-2147483648", "-2147483649", "99999999999999999999", "٣", "+-1", "0x10", "ff", "FF",
        "-ff", "7fffffff", "80000000", "-80000000", "g", "_1",
    ];
    for s in texts {
        assert_eq!(parse_i32(s), s.parse::<i32>().ok(), "{s:?}");
        assert_eq!(parse_hex(s), i32::from_str_radix(s, 16).ok(), "{s:?}");
    }
}

#[test]
fn written_numbers_are_read_back() {
    for v in NUMBERS {
        assert_eq!(parse_i32(&decimal(v)), Some(v));
    }
}
