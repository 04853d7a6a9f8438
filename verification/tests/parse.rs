use guessing_game::error::GameError;
use guessing_game::parse::{
    chars_of, is_blank, parse_digits, parse_guess, parse_unsigned, trim_bounds,
};

#[test]
fn plain_numbers_are_read() {
    assert_eq!(parse_unsigned("0"), Some(0));
    assert_eq!(parse_unsigned("7"), Some(7));
    assert_eq!(parse_unsigned("42"), Some(42));
    assert_eq!(parse_unsigned("100"), Some(100));
    assert_eq!(parse_unsigned("1234567890"), Some(1234567890));
}

#[test]
fn surrounding_white_space_is_ignored() {
    assert_eq!(parse_unsigned("42\n"), Some(42));
    assert_eq!(parse_unsigned("42\r\n"), Some(42));
    assert_eq!(parse_unsigned("  42  "), Some(42));
    assert_eq!(parse_unsigned("\t42\u{0B}\u{0C}"), Some(42));
    assert_eq!(parse_unsigned("\u{3000}5\u{2003}"), Some(5));
    assert_eq!(parse_unsigned("\u{85}\u{A0}\u{1680}9\u{2028}\u{2029}\u{202F}\u{205F}"), Some(9));
}

#[test]
fn white_space_inside_is_not_ignored() {
    assert_eq!(parse_unsigned("4 2"), None);
    assert_eq!(parse_unsigned("+ 2"), None);
    assert_eq!(parse_unsigned("1\t2"), None);
}

#[test]
fn a_plus_sign_may_lead() {
    assert_eq!(parse_unsigned("+7"), Some(7));
    assert_eq!(parse_unsigned(" +007 "), Some(7));
    assert_eq!(parse_unsigned("+"), None);
    assert_eq!(parse_unsigned("++7"), None);
    assert_eq!(parse_unsigned("7+"), None);
    assert_eq!(parse_unsigned("-7"), None);
    assert_eq!(parse_unsigned("-0"), None);
}

#[test]
fn leading_zeros_count_for_nothing() {
    assert_eq!(parse_unsigned("007"), Some(7));
    assert_eq!(parse_unsigned("0000000000000000000000000000042"), Some(42));
    assert_eq!(parse_unsigned("00000000004294967295"), Some(u32::MAX));
}

#[test]
fn numbers_beyond_u32_are_rejected() {
    assert_eq!(parse_unsigned("4294967295"), Some(4294967295));
    assert_eq!(parse_unsigned("4294967296"), None);
    assert_eq!(parse_unsigned("4294967300"), None);
    assert_eq!(parse_unsigned("42949672950"), None);
    assert_eq!(parse_unsigned("99999999999999999999999999999999999999"), None);
    assert_eq!(parse_unsigned("18446744073709551616"), None);
}

#[test]
fn text_that_is_no_number_is_rejected() {
    assert_eq!(parse_unsigned(""), None);
    assert_eq!(parse_unsigned("   "), None);
    assert_eq!(parse_unsigned("\n"), None);
    assert_eq!(parse_unsigned("abc"), None);
    assert_eq!(parse_unsigned("12a"), None);
    assert_eq!(parse_unsigned("a12"), None);
    assert_eq!(parse_unsigned("1.5"), None);
    assert_eq!(parse_unsigned("1_000"), None);
    assert_eq!(parse_unsigned("0x10"), None);
    assert_eq!(parse_unsigned("１２"), None);
    assert_eq!(parse_unsigned("٣"), None);
    assert_eq!(parse_unsigned("5\u{200B}"), None);
    assert_eq!(parse_unsigned("/"), None);
    assert_eq!(parse_unsigned(":"), None);
}

#[test]
fn parse_guess_reports_a_parse_error() {
    assert_eq!(parse_guess(" 64\n"), Ok(64));
    assert_eq!(parse_guess("sixty-four"), Err(GameError::Parse));
    assert_eq!(parse_guess(""), Err(GameError::Parse));
    assert_eq!(parse_guess("4294967296"), Err(GameError::Parse));
}

#[test]
fn parsing_agrees_with_the_standard_library() {
    let pieces = [
        "", " ", "\n", "\t", "+", "-", "0", "1", "9", "00", "42", "a", "z", "/", ":", "\u{A0}",
        "\u{3000}", "\u{200B}", "é", "4294967295", "4294967296", "429496729", "٣", "１",
    ];
    for a in pieces {
        for b in pieces {
            for c in pieces {
                let text = format!("{}{}{}", a, b, c);
                assert_eq!(parse_unsigned(&text), text.trim().parse::<u32>().ok(), "{:?}", text);
            }
        }
    }
}

#[test]
fn every_u32_near_the_edges_round_trips() {
    for n in (0u32..2000).chain(u32::MAX - 2000..=u32::MAX) {
        assert_eq!(parse_unsigned(&n.to_string()), Some(n));
        assert_eq!(parse_unsigned(&format!("  +{}\r\n", n)), Some(n));
    }
    for n in (u32::MAX as u64 + 1)..(u32::MAX as u64 + 2000) {
        assert_eq!(parse_unsigned(&n.to_string()), None);
    }
}

#[test]
fn white_space_is_what_the_standard_library_calls_so() {
    for code in 0u32..=0x10FFFF {
        if let Some(c) = char::from_u32(code) {
            assert_eq!(is_blank(c), c.is_whitespace(), "U+{:04X}", code);
        }
    }
}

#[test]
fn chars_of_lists_the_characters() {
    assert_eq!(chars_of(""), Vec::<char>::new());
    assert_eq!(chars_of("a1 é\n"), vec!['a', '1', ' ', 'é', '\n']);
    assert_eq!(chars_of("１２"), vec!['１', '２']);
}

#[test]
fn trim_bounds_frame_the_text() {
    assert_eq!(trim_bounds(&chars_of("  ab c \n")), (2, 6));
    assert_eq!(trim_bounds(&chars_of("abc")), (0, 3));
    assert_eq!(trim_bounds(&chars_of("")), (0, 0));
    assert_eq!(trim_bounds(&chars_of("   ")), (3, 3));
    assert_eq!(trim_bounds(&chars_of(" x")), (1, 2));
    assert_eq!(trim_bounds(&chars_of("x ")), (0, 1));
}

#[test]
fn trim_bounds_agree_with_the_standard_library() {
    for text in ["", " ", "a", " a", "a ", " a b ", "\u{3000}x\u{2003}", "\r\n", "\u{200B} "] {
        let chars = chars_of(text);
        let (start, end) = trim_bounds(&chars);
        let kept: String = chars[start..end].iter().collect();
        assert_eq!(kept, text.trim());
    }
}

#[test]
fn parse_digits_reads_a_run_of_digits() {
    let chars = chars_of("ab123cd");
    assert_eq!(parse_digits(&chars, 2, 5), Some(123));
    assert_eq!(parse_digits(&chars, 2, 3), Some(1));
    assert_eq!(parse_digits(&chars, 2, 2), None);
    assert_eq!(parse_digits(&chars, 1, 5), None);
    assert_eq!(parse_digits(&chars, 2, 6), None);
    assert_eq!(parse_digits(&chars, 0, 7), None);
    let big = chars_of("4294967296");
    assert_eq!(parse_digits(&big, 0, 10), None);
    assert_eq!(parse_digits(&big, 0, 9), Some(429496729));
    assert_eq!(parse_digits(&big, 1, 10), Some(294967296));
}
